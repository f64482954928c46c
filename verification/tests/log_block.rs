use twitchbrite::widgets::log_block::{Log, LogEvent, LogHistory, LogItem, LogVariant, Margin, Tone};
use twitchbrite::widgets::Rect;

fn item(message: &str, variant: LogVariant, id: &str) -> LogItem {
    LogItem::with_id(message, variant, id.to_string())
}

fn messages(history: &LogHistory) -> Vec<String> {
    (0..history.len()).map(|i| history.get(i).message().clone()).collect()
}

fn variants(history: &LogHistory) -> Vec<LogVariant> {
    (0..history.len()).map(|i| history.get(i).variant()).collect()
}

#[test]
fn new_item_has_six_alphanumeric_id() {
    let (made, id) = LogItem::new("hello", LogVariant::Info);
    assert_eq!(id.chars().count(), 6);
    assert!(id.chars().all(|c| c.is_ascii_alphanumeric()));
    assert_eq!(made.id(), &id);
    assert_eq!(made.message(), "hello");
    assert_eq!(made.variant(), LogVariant::Info);
}

#[test]
fn constructors_set_their_variant() {
    assert_eq!(LogItem::info("m").0.variant(), LogVariant::Info);
    assert_eq!(LogItem::error("m").0.variant(), LogVariant::Error);
    assert_eq!(LogItem::task_waiting("m").0.variant(), LogVariant::TaskWaiting);
    assert_eq!(LogItem::task_failed("m").0.variant(), LogVariant::TaskFailed);
    assert_eq!(LogItem::task_complete("m").0.variant(), LogVariant::TaskComplete);
}

#[test]
fn set_variant_on_item_keeps_message_and_id() {
    let mut it = item("work", LogVariant::TaskWaiting, "abc123");
    it.set_variant(LogVariant::TaskComplete);
    assert_eq!(it.variant(), LogVariant::TaskComplete);
    assert_eq!(it.message(), "work");
    assert_eq!(it.id(), "abc123");
}

#[test]
fn push_puts_newest_in_front() {
    let mut history = LogHistory::new();
    history.push(item("A", LogVariant::Info, "a"));
    history.push(item("B", LogVariant::Info, "b"));
    assert_eq!(messages(&history), vec!["B".to_string(), "A".to_string()]);
}

#[test]
fn pop_removes_the_oldest() {
    let mut history = LogHistory::new();
    history.push(item("A", LogVariant::Info, "a"));
    history.push(item("B", LogVariant::Info, "b"));
    history.push(item("C", LogVariant::Info, "c"));
    history.pop();
    assert_eq!(messages(&history), vec!["C".to_string(), "B".to_string()]);
}

#[test]
fn pop_on_empty_history_is_a_no_op() {
    let mut history = LogHistory::new();
    history.pop();
    assert_eq!(history.len(), 0);
}

#[test]
fn set_variant_affects_only_matching_id() {
    let mut history = LogHistory::new();
    history.push(item("A", LogVariant::TaskWaiting, "a"));
    history.push(item("B", LogVariant::TaskWaiting, "b"));
    history.set_variant(&"b".to_string(), LogVariant::TaskComplete);
    assert_eq!(messages(&history), vec!["B".to_string(), "A".to_string()]);
    assert_eq!(variants(&history), vec![LogVariant::TaskComplete, LogVariant::TaskWaiting]);
}

#[test]
fn set_variant_updates_every_item_of_the_id() {
    let mut history = LogHistory::new();
    history.push(item("A", LogVariant::TaskWaiting, "same"));
    history.push(item("B", LogVariant::Info, "other"));
    history.push(item("C", LogVariant::TaskWaiting, "same"));
    history.set_variant(&"same".to_string(), LogVariant::TaskFailed);
    assert_eq!(
        variants(&history),
        vec![LogVariant::TaskFailed, LogVariant::Info, LogVariant::TaskFailed]
    );
}

#[test]
fn set_variant_of_absent_id_changes_nothing() {
    let mut history = LogHistory::new();
    history.push(item("A", LogVariant::TaskWaiting, "a"));
    history.set_variant(&"zzz".to_string(), LogVariant::TaskFailed);
    assert_eq!(variants(&history), vec![LogVariant::TaskWaiting]);
    assert_eq!(history.len(), 1);
}

#[test]
fn apply_all_applies_in_order() {
    let mut history = LogHistory::new();
    let events = vec![
        LogEvent::PushItem(item("A", LogVariant::TaskWaiting, "a")),
        LogEvent::PushItem(item("B", LogVariant::Info, "b")),
        LogEvent::SetVariant("a".to_string(), LogVariant::TaskComplete),
        LogEvent::PushItem(item("C", LogVariant::Info, "c")),
        LogEvent::PopItem,
    ];
    history.apply_all(&events);
    assert_eq!(messages(&history), vec!["C".to_string(), "B".to_string()]);
}

#[test]
fn drain_on_empty_channel_leaves_history_unchanged() {
    let mut log = Log::default();
    let tx = log.sender();
    tx.send(LogEvent::PushItem(item("A", LogVariant::Info, "a"))).unwrap();
    log.update();
    let before = messages(log.history());
    let before_variants = variants(log.history());
    log.update();
    assert_eq!(messages(log.history()), before);
    assert_eq!(variants(log.history()), before_variants);
    assert_eq!(log.history().len(), 1);
}

#[test]
fn drain_applies_pushes_in_arrival_order() {
    let mut log = Log::default();
    let tx = log.sender();
    tx.send(LogEvent::PushItem(item("A", LogVariant::TaskWaiting, "a"))).unwrap();
    tx.send(LogEvent::PushItem(item("B", LogVariant::TaskWaiting, "b"))).unwrap();
    log.update();
    assert_eq!(messages(log.history()), vec!["B".to_string(), "A".to_string()]);
    tx.send(LogEvent::SetVariant("b".to_string(), LogVariant::TaskComplete)).unwrap();
    log.update();
    assert_eq!(
        variants(log.history()),
        vec![LogVariant::TaskComplete, LogVariant::TaskWaiting]
    );
}

#[test]
fn update_counts_ticks() {
    let mut log = Log::default();
    assert_eq!(log.history().ticks(), 0);
    log.update();
    log.update();
    log.update();
    assert_eq!(log.history().ticks(), 3);
}

#[test]
fn senders_from_several_producers_reach_one_log() {
    let mut log = Log::default();
    let tx1 = log.sender();
    let tx2 = log.sender();
    tx2.send(LogEvent::PushItem(item("from second", LogVariant::Info, "t"))).unwrap();
    tx1.send(LogEvent::PushItem(item("from first", LogVariant::Info, "h"))).unwrap();
    drop(tx2);
    log.update();
    assert_eq!(messages(log.history()), vec!["from first".to_string(), "from second".to_string()]);
}

#[test]
fn default_log_has_no_title_and_default_margin() {
    let log = Log::default();
    assert_eq!(log.title(), "");
    assert_eq!(log.margin(), Margin { top: 1, bottom: 1, left: 2, right: 2 });
    assert_eq!(log.history().len(), 0);
}

#[test]
fn new_log_keeps_title_and_margin() {
    let margin = Margin { top: 3, bottom: 4, left: 5, right: 6 };
    let mut log = Log::new("title".to_string(), margin);
    assert_eq!(log.title(), "title");
    assert_eq!(log.margin(), margin);
    log.set_title("other".to_string());
    log.set_margin(Margin { top: 0, bottom: 0, left: 0, right: 0 });
    assert_eq!(log.title(), "other");
    assert_eq!(log.margin(), Margin { top: 0, bottom: 0, left: 0, right: 0 });
}

#[test]
fn calculate_inner_subtracts_margin() {
    let log = Log::default();
    let inner = log.calculate_inner(Rect { x: 10, y: 5, width: 72, height: 20 });
    assert_eq!(inner, Rect { x: 12, y: 6, width: 68, height: 18 });
}

#[test]
fn waiting_icon_cycles_every_eight_ticks() {
    let v = LogVariant::TaskWaiting;
    assert_eq!(v.icon(0), "[|]");
    assert_eq!(v.icon(7), "[|]");
    assert_eq!(v.icon(8), "[/]");
    assert_eq!(v.icon(16), "[—]");
    assert_eq!(v.icon(24), "[\\]");
    assert_eq!(v.icon(31), "[\\]");
    assert_eq!(v.icon(32), "[|]");
}

#[test]
fn fixed_icons_and_tones() {
    assert_eq!(LogVariant::Info.icon(5), "[i]");
    assert_eq!(LogVariant::Error.icon(5), "[!]");
    assert_eq!(LogVariant::TaskFailed.icon(5), "[×]");
    assert_eq!(LogVariant::TaskComplete.icon(5), "[=]");
    assert_eq!(LogVariant::Info.icon_tone(), Tone::Plain);
    assert_eq!(LogVariant::Error.icon_tone(), Tone::Red);
    assert_eq!(LogVariant::TaskWaiting.icon_tone(), Tone::Yellow);
    assert_eq!(LogVariant::TaskFailed.icon_tone(), Tone::Red);
    assert_eq!(LogVariant::TaskComplete.icon_tone(), Tone::Green);
    assert_eq!(LogVariant::Error.text_tone(), Tone::Red);
    assert_eq!(LogVariant::Info.text_tone(), Tone::Plain);
}

#[test]
fn lines_follow_history_order() {
    let mut history = LogHistory::new();
    history.push(item("first", LogVariant::TaskComplete, "a"));
    history.push(item("second", LogVariant::Error, "b"));
    let lines = history.lines();
    assert_eq!(lines.len(), 2);
    assert_eq!(lines[0].icon, "[!]");
    assert_eq!(lines[0].text, " second");
    assert_eq!(lines[0].text_tone, Tone::Red);
    assert_eq!(lines[1].icon, "[=]");
    assert_eq!(lines[1].text, " first");
    assert_eq!(lines[1].icon_tone, Tone::Green);
}

#[test]
fn send_events_delivers_in_order_and_counts() {
    let mut log = Log::default();
    let tx = log.sender();
    let events = vec![
        LogEvent::PushItem(item("A", LogVariant::TaskWaiting, "a")),
        LogEvent::SetVariant("a".to_string(), LogVariant::TaskFailed),
        LogEvent::PushItem(item("B", LogVariant::Info, "b")),
    ];
    let (sent, undelivered) = twitchbrite::widgets::log_block::send_events(&tx, events);
    assert_eq!(sent, 3);
    assert!(undelivered.is_none());
    log.update();
    assert_eq!(messages(log.history()), vec!["B".to_string(), "A".to_string()]);
    assert_eq!(variants(log.history()), vec![LogVariant::Info, LogVariant::TaskFailed]);
}

#[test]
fn send_events_stops_when_the_log_is_gone() {
    let (tx, rx) = crossbeam_channel::unbounded::<LogEvent>();
    drop(rx);
    let events = vec![
        LogEvent::SetVariant("first".to_string(), LogVariant::TaskFailed),
        LogEvent::PopItem,
    ];
    let (sent, undelivered) = twitchbrite::widgets::log_block::send_events(&tx, events);
    assert_eq!(sent, 0);
    assert!(matches!(
        undelivered,
        Some(LogEvent::SetVariant(ref id, LogVariant::TaskFailed)) if id == "first"
    ));
}

#[test]
fn send_events_of_nothing_sends_nothing() {
    let (tx, rx) = crossbeam_channel::unbounded::<LogEvent>();
    drop(rx);
    let (sent, undelivered) = twitchbrite::widgets::log_block::send_events(&tx, Vec::new());
    assert_eq!(sent, 0);
    assert!(undelivered.is_none());
}

#[test]
fn sender_is_an_end_of_the_logs_own_channel() {
    let mut log = Log::default();
    let tx = log.sender();
    assert!(tx.same_channel(&log.sender()));
    log.update();
    log.set_title("later".to_string());
    assert!(tx.same_channel(&log.sender()));
    assert!(!tx.same_channel(&Log::default().sender()));
}

#[test]
fn cloned_event_equals_the_event() {
    let event = LogEvent::PushItem(item("A", LogVariant::Error, "a"));
    match event.clone() {
        LogEvent::PushItem(copy) => {
            assert_eq!(copy.message(), "A");
            assert_eq!(copy.variant(), LogVariant::Error);
            assert_eq!(copy.id(), "a");
        }
        _ => panic!("not a push"),
    }
}

#[test]
fn widget_is_a_copy_that_later_events_do_not_reach() {
    let mut log = Log::new("t".to_string(), Margin { top: 1, bottom: 2, left: 3, right: 4 });
    let tx = log.sender();
    tx.send(LogEvent::PushItem(item("A", LogVariant::TaskWaiting, "a"))).unwrap();
    log.update();
    let widget = log.widget();
    tx.send(LogEvent::SetVariant("a".to_string(), LogVariant::TaskFailed)).unwrap();
    tx.send(LogEvent::PushItem(item("B", LogVariant::Info, "b"))).unwrap();
    log.update();
    assert_eq!(widget.title, "t");
    assert_eq!(widget.margin, Margin { top: 1, bottom: 2, left: 3, right: 4 });
    assert_eq!(messages(&widget.history), vec!["A".to_string()]);
    assert_eq!(variants(&widget.history), vec![LogVariant::TaskWaiting]);
    assert_eq!(widget.history.ticks(), 1);
    assert_eq!(log.history().len(), 2);
    assert_eq!(
        widget.calculate_inner(Rect { x: 0, y: 0, width: 10, height: 10 }),
        Rect { x: 3, y: 1, width: 3, height: 7 }
    );
}

#[test]
fn margin_fits_only_where_nothing_overflows() {
    let margin = Margin { top: 1, bottom: 1, left: 2, right: 2 };
    assert!(margin.fits(Rect { x: 0, y: 0, width: 4, height: 2 }));
    assert!(!margin.fits(Rect { x: 0, y: 0, width: 3, height: 2 }));
    assert!(!margin.fits(Rect { x: 0, y: 0, width: 4, height: 1 }));
    assert!(!margin.fits(Rect { x: u16::MAX, y: 0, width: 10, height: 10 }));
    assert!(!margin.fits(Rect { x: 0, y: u16::MAX, width: 10, height: 10 }));
    assert!(margin.fits(Rect { x: u16::MAX - 2, y: u16::MAX - 1, width: 10, height: 10 }));
    let log = Log::default();
    assert!(log.fits(Rect { x: 0, y: 0, width: 4, height: 2 }));
    assert!(!log.fits(Rect { x: 0, y: 0, width: 3, height: 2 }));
    let wide = Margin { top: 0, bottom: 0, left: u16::MAX, right: u16::MAX };
    assert!(!wide.fits(Rect { x: 0, y: 0, width: u16::MAX, height: 0 }));
}
