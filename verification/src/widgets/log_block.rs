//! The event log: an ordered list of status items, newest first, fed through a
//! channel by background tasks and applied by the thread that draws it.

use crossbeam_channel::{Receiver, Sender};
use std::collections::VecDeque;
use vstd::prelude::*;
use vstd::string::StringExecFns;

use crate::channel::{another_sender, open_channel, send, try_receive, waiting};
use crate::random::{is_token, random_token};
use crate::widgets::Rect;

verus! {

/// Length of the token that names a log item.
pub const ID_LEN: usize = 6;

/// How a log line is classified.
#[derive(Debug, Copy, Clone, PartialEq, Eq, Structural)]
pub enum LogVariant {
    Info,
    Error,
    TaskWaiting,
    TaskFailed,
    TaskComplete,
}

/// One line of the log. Its `id` is a short token by which later events find
/// it again; two items may share one.
#[derive(Debug)]
pub struct LogItem {
    pub message: String,
    pub variant: LogVariant,
    id: String,
}

/// A log item as plain values.
pub struct LogItemView {
    pub message: Seq<char>,
    pub variant: LogVariant,
    pub id: Seq<char>,
}

impl View for LogItem {
    type V = LogItemView;

    closed spec fn view(&self) -> LogItemView {
        LogItemView { message: self.message@, variant: self.variant, id: self.id@ }
    }
}

impl Clone for LogItem {
    fn clone(&self) -> (copy: Self)
        ensures
            copy@ == self@,
    {
        LogItem { message: self.message.clone(), variant: self.variant, id: self.id.clone() }
    }
}

impl LogItem {
    /// A new item under a freshly drawn id, which is returned beside it.
    pub fn new(message: &str, variant: LogVariant) -> (made: (Self, String))
        ensures
            made.0@.message == message@,
            made.0@.variant == variant,
            made.0@.id == made.1@,
            is_token(made.1@, ID_LEN as nat),
    {
        let id = random_token(ID_LEN);
        let item = Self::with_id(message, variant, id.clone());
        (item, id)
    }

    /// A new item under the id given.
    pub fn with_id(message: &str, variant: LogVariant, id: String) -> (item: Self)
        ensures
            item@ == (LogItemView { message: message@, variant, id: id@ }),
    {
        LogItem { message: message.to_owned(), variant, id }
    }

    pub fn set_variant(&mut self, variant: LogVariant)
        ensures
            final(self)@ == (LogItemView { variant, ..old(self)@ }),
    {
        self.variant = variant;
    }

    /// The token that names this item.
    pub fn id(&self) -> (id: &String)
        ensures
            id@ == self@.id,
    {
        &self.id
    }

    pub fn message(&self) -> (message: &String)
        ensures
            message@ == self@.message,
    {
        &self.message
    }

    pub fn variant(&self) -> (variant: LogVariant)
        ensures
            variant == self@.variant,
    {
        self.variant
    }

    pub fn info(message: &str) -> (made: (Self, String))
        ensures
            made.0@ == (LogItemView { message: message@, variant: LogVariant::Info, id: made.1@ }),
            is_token(made.1@, ID_LEN as nat),
    {
        Self::new(message, LogVariant::Info)
    }

    pub fn error(message: &str) -> (made: (Self, String))
        ensures
            made.0@ == (LogItemView { message: message@, variant: LogVariant::Error, id: made.1@ }),
            is_token(made.1@, ID_LEN as nat),
    {
        Self::new(message, LogVariant::Error)
    }

    pub fn task_waiting(message: &str) -> (made: (Self, String))
        ensures
            made.0@ == (LogItemView {
                message: message@,
                variant: LogVariant::TaskWaiting,
                id: made.1@,
            }),
            is_token(made.1@, ID_LEN as nat),
    {
        Self::new(message, LogVariant::TaskWaiting)
    }

    pub fn task_failed(message: &str) -> (made: (Self, String))
        ensures
            made.0@ == (LogItemView {
                message: message@,
                variant: LogVariant::TaskFailed,
                id: made.1@,
            }),
            is_token(made.1@, ID_LEN as nat),
    {
        Self::new(message, LogVariant::TaskFailed)
    }

    pub fn task_complete(message: &str) -> (made: (Self, String))
        ensures
            made.0@ == (LogItemView {
                message: message@,
                variant: LogVariant::TaskComplete,
                id: made.1@,
            }),
            is_token(made.1@, ID_LEN as nat),
    {
        Self::new(message, LogVariant::TaskComplete)
    }
}

/// What a producer asks of the log.
#[derive(Debug)]
pub enum LogEvent {
    /// Put a new item in front of all others.
    PushItem(LogItem),
    /// Drop the oldest item.
    PopItem,
    /// Give every item of this id the variant.
    SetVariant(String, LogVariant),
}

/// A log event as plain values.
pub enum LogEventView {
    PushItem(LogItemView),
    PopItem,
    SetVariant(Seq<char>, LogVariant),
}

impl View for LogEvent {
    type V = LogEventView;

    open spec fn view(&self) -> LogEventView {
        match self {
            LogEvent::PushItem(item) => LogEventView::PushItem(item@),
            LogEvent::PopItem => LogEventView::PopItem,
            LogEvent::SetVariant(id, variant) => LogEventView::SetVariant(id@, *variant),
        }
    }
}

impl Clone for LogEvent {
    fn clone(&self) -> (copy: Self)
        ensures
            copy@ == self@,
    {
        match self {
            LogEvent::PushItem(item) => LogEvent::PushItem(item.clone()),
            LogEvent::PopItem => LogEvent::PopItem,
            LogEvent::SetVariant(id, variant) => LogEvent::SetVariant(id.clone(), *variant),
        }
    }
}

/// The views of a list of events, in order.
pub open spec fn event_views(events: Seq<LogEvent>) -> Seq<LogEventView> {
    Seq::new(events.len(), |i: int| events[i]@)
}

/// The history with `item` in front: the front is the most recent.
pub open spec fn pushed(items: Seq<LogItemView>, item: LogItemView) -> Seq<LogItemView> {
    seq![item] + items
}

/// The history without its oldest item, which is the last; an empty history
/// stays empty.
pub open spec fn popped(items: Seq<LogItemView>) -> Seq<LogItemView> {
    if items.len() > 0 {
        items.drop_last()
    } else {
        items
    }
}

/// One item after `SetVariant(id, variant)`: changed if and only if it
/// carries that id.
pub open spec fn retagged_item(item: LogItemView, id: Seq<char>, variant: LogVariant)
    -> LogItemView {
    if item.id == id {
        LogItemView { variant, ..item }
    } else {
        item
    }
}

/// The history after `SetVariant(id, variant)`: every item of that id has the
/// variant, every other item is as it was, and the order is kept.
pub open spec fn retagged(items: Seq<LogItemView>, id: Seq<char>, variant: LogVariant) -> Seq<
    LogItemView,
> {
    Seq::new(items.len(), |i: int| retagged_item(items[i], id, variant))
}

/// The history after one event.
pub open spec fn applied(items: Seq<LogItemView>, event: LogEventView) -> Seq<LogItemView> {
    match event {
        LogEventView::PushItem(item) => pushed(items, item),
        LogEventView::PopItem => popped(items),
        LogEventView::SetVariant(id, variant) => retagged(items, id, variant),
    }
}

/// The history after a list of events, applied first to last.
pub open spec fn applied_all(items: Seq<LogItemView>, events: Seq<LogEventView>) -> Seq<
    LogItemView,
>
    decreases events.len(),
{
    if events.len() == 0 {
        items
    } else {
        applied(applied_all(items, events.drop_last()), events.last())
    }
}

/// The items of the log, newest first, and the count of ticks that paces its
/// animation.
#[derive(Debug)]
pub struct LogHistory {
    content: VecDeque<LogItem>,
    ticks: u64,
}

impl View for LogHistory {
    type V = Seq<LogItemView>;

    closed spec fn view(&self) -> Seq<LogItemView> {
        Seq::new(self.content@.len(), |i: int| self.content@[i]@)
    }
}

impl Clone for LogHistory {
    fn clone(&self) -> (copy: Self)
        ensures
            copy@ == self@,
            copy.ticks_view() == self.ticks_view(),
    {
        let n = self.content.len();
        let mut content: VecDeque<LogItem> = VecDeque::new();
        let mut i: usize = 0;
        while i < n
            invariant
                i <= n,
                n == self.content@.len(),
                content@.len() == i,
                forall|k: int| 0 <= k < i ==> (#[trigger] content@[k])@ == self.content@[k]@,
            decreases n - i,
        {
            content.push_back(self.content[i].clone());
            i += 1;
        }
        let copy = LogHistory { content, ticks: self.ticks };
        assert(copy@ =~= self@);
        copy
    }
}

impl LogHistory {
    /// The number of ticks counted so far.
    pub closed spec fn ticks_view(&self) -> nat {
        self.ticks as nat
    }

    /// An empty history at tick zero.
    pub fn new() -> (history: Self)
        ensures
            history@ == Seq::<LogItemView>::empty(),
            history.ticks_view() == 0,
    {
        LogHistory { content: VecDeque::new(), ticks: 0 }
    }

    pub fn len(&self) -> (n: usize)
        ensures
            n == self@.len(),
    {
        self.content.len()
    }

    /// The item at `index`, counted from the newest.
    pub fn get(&self, index: usize) -> (item: &LogItem)
        requires
            index < self@.len(),
        ensures
            item@ == self@[index as int],
    {
        &self.content[index]
    }

    pub fn ticks(&self) -> (ticks: u64)
        ensures
            ticks == self.ticks_view(),
    {
        self.ticks
    }

    /// Counts one tick. The items stay as they are.
    pub fn tick(&mut self)
        requires
            old(self).ticks_view() < u64::MAX,
        ensures
            final(self).ticks_view() == old(self).ticks_view() + 1,
            final(self)@ == old(self)@,
    {
        self.ticks = self.ticks + 1;
    }

    /// Puts `item` in front of all others.
    pub fn push(&mut self, item: LogItem)
        ensures
            final(self)@ == pushed(old(self)@, item@),
            final(self).ticks_view() == old(self).ticks_view(),
    {
        self.content.push_front(item);
        assert(self@ =~= pushed(old(self)@, item@));
    }

    /// Drops the oldest item, if there is one.
    pub fn pop(&mut self)
        ensures
            final(self)@ == popped(old(self)@),
            final(self).ticks_view() == old(self).ticks_view(),
    {
        let _ = self.content.pop_back();
        assert(self@ =~= popped(old(self)@));
    }

    /// Gives every item of this id the variant; no item of that id, no change.
    pub fn set_variant(&mut self, id: &String, variant: LogVariant)
        ensures
            final(self)@ == retagged(old(self)@, id@, variant),
            final(self).ticks_view() == old(self).ticks_view(),
    {
        let n = self.content.len();
        let mut i: usize = 0;
        while i < n
            invariant
                i <= n,
                n == old(self).content@.len(),
                self.content@.len() == n,
                self.ticks == old(self).ticks,
                forall|k: int|
                    0 <= k < i ==> (#[trigger] self.content@[k])@ == retagged_item(
                        old(self).content@[k]@,
                        id@,
                        variant,
                    ),
                forall|k: int| i <= k < n ==> #[trigger] self.content@[k] == old(self).content@[k],
            decreases n - i,
        {
            let ghost before = self.content@;
            if self.content[i].id == *id {
                let taken = self.content.remove(i);
                match taken {
                    Some(mut item) => {
                        item.set_variant(variant);
                        self.content.insert(i, item);
                        assert(self.content@ =~= before.update(i as int, item));
                    },
                    None => {},
                }
            }
            i += 1;
        }
        assert(self@ =~= retagged(old(self)@, id@, variant));
    }

    /// Applies one event.
    pub fn apply(&mut self, event: LogEvent)
        ensures
            final(self)@ == applied(old(self)@, event@),
            final(self).ticks_view() == old(self).ticks_view(),
    {
        match event {
            LogEvent::PushItem(item) => self.push(item),
            LogEvent::PopItem => self.pop(),
            LogEvent::SetVariant(id, variant) => self.set_variant(&id, variant),
        }
    }

    /// Applies the events in the order given.
    pub fn apply_all(&mut self, events: &Vec<LogEvent>)
        ensures
            final(self)@ == applied_all(old(self)@, event_views(events@)),
            final(self).ticks_view() == old(self).ticks_view(),
    {
        let n = events.len();
        let mut i: usize = 0;
        while i < n
            invariant
                i <= n,
                n == events@.len(),
                self@ == applied_all(old(self)@, event_views(events@).take(i as int)),
                self.ticks == old(self).ticks,
            decreases n - i,
        {
            proof {
                let upto = event_views(events@).take(i as int + 1);
                assert(upto.drop_last() =~= event_views(events@).take(i as int));
                assert(upto.last() == events@[i as int]@);
            }
            self.apply(events[i].clone());
            i += 1;
        }
        assert(event_views(events@).take(n as int) =~= event_views(events@));
    }
}

/// The colour in which a part of a log line is drawn.
#[derive(Debug, Copy, Clone, PartialEq, Eq, Structural)]
pub enum Tone {
    Plain,
    Yellow,
    Green,
    Red,
}

/// One line of the log as it is to be drawn: a bold icon, then the text.
#[derive(Debug)]
pub struct LogLine {
    pub icon: String,
    pub icon_tone: Tone,
    pub text: String,
    pub text_tone: Tone,
}

/// A line to be drawn as plain values.
pub struct LogLineView {
    pub icon: Seq<char>,
    pub icon_tone: Tone,
    pub text: Seq<char>,
    pub text_tone: Tone,
}

impl View for LogLine {
    type V = LogLineView;

    open spec fn view(&self) -> LogLineView {
        LogLineView {
            icon: self.icon@,
            icon_tone: self.icon_tone,
            text: self.text@,
            text_tone: self.text_tone,
        }
    }
}

/// Which of the four frames of the waiting icon is shown at a tick: each frame
/// stays for eight ticks, and after thirty-two the cycle starts again.
pub open spec fn animation_frame(ticks: nat) -> nat {
    (ticks % 32) / 8
}

/// The icon of a variant at a tick. Only the waiting icon moves.
pub open spec fn icon_of(variant: LogVariant, ticks: nat) -> Seq<char> {
    match variant {
        LogVariant::Info => "[i]"@,
        LogVariant::Error => "[!]"@,
        LogVariant::TaskWaiting => if animation_frame(ticks) == 0 {
            "[|]"@
        } else if animation_frame(ticks) == 1 {
            "[/]"@
        } else if animation_frame(ticks) == 2 {
            "[—]"@
        } else {
            "[\\]"@
        },
        LogVariant::TaskFailed => "[×]"@,
        LogVariant::TaskComplete => "[=]"@,
    }
}

/// The colour of a variant's icon.
pub open spec fn icon_tone_of(variant: LogVariant) -> Tone {
    match variant {
        LogVariant::Info => Tone::Plain,
        LogVariant::Error => Tone::Red,
        LogVariant::TaskWaiting => Tone::Yellow,
        LogVariant::TaskFailed => Tone::Red,
        LogVariant::TaskComplete => Tone::Green,
    }
}

/// The colour of a variant's text: red for an error, plain otherwise.
pub open spec fn text_tone_of(variant: LogVariant) -> Tone {
    match variant {
        LogVariant::Error => Tone::Red,
        _ => Tone::Plain,
    }
}

/// The line drawn for an item at a tick: its icon, then a blank and the
/// message.
pub open spec fn line_of(item: LogItemView, ticks: nat) -> LogLineView {
    LogLineView {
        icon: icon_of(item.variant, ticks),
        icon_tone: icon_tone_of(item.variant),
        text: " "@ + item.message,
        text_tone: text_tone_of(item.variant),
    }
}

impl LogVariant {
    /// The icon of the variant at a tick.
    pub fn icon(self, ticks: u64) -> (icon: &'static str)
        ensures
            icon@ == icon_of(self, ticks as nat),
    {
        match self {
            LogVariant::Info => "[i]",
            LogVariant::Error => "[!]",
            LogVariant::TaskWaiting => {
                let frame = (ticks % 32) / 8;
                if frame == 0 {
                    "[|]"
                } else if frame == 1 {
                    "[/]"
                } else if frame == 2 {
                    "[—]"
                } else {
                    "[\\]"
                }
            },
            LogVariant::TaskFailed => "[×]",
            LogVariant::TaskComplete => "[=]",
        }
    }

    /// The colour of the variant's icon.
    pub fn icon_tone(self) -> (tone: Tone)
        ensures
            tone == icon_tone_of(self),
    {
        match self {
            LogVariant::Info => Tone::Plain,
            LogVariant::Error => Tone::Red,
            LogVariant::TaskWaiting => Tone::Yellow,
            LogVariant::TaskFailed => Tone::Red,
            LogVariant::TaskComplete => Tone::Green,
        }
    }

    /// The colour of the variant's text.
    pub fn text_tone(self) -> (tone: Tone)
        ensures
            tone == text_tone_of(self),
    {
        match self {
            LogVariant::Error => Tone::Red,
            _ => Tone::Plain,
        }
    }
}

impl LogItem {
    /// The line drawn for this item at a tick.
    pub fn line(&self, ticks: u64) -> (line: LogLine)
        ensures
            line@ == line_of(self@, ticks as nat),
    {
        let mut text = " ".to_owned();
        text.append(self.message.as_str());
        LogLine {
            icon: self.variant.icon(ticks).to_owned(),
            icon_tone: self.variant.icon_tone(),
            text,
            text_tone: self.variant.text_tone(),
        }
    }
}

impl LogHistory {
    /// The lines to draw, newest first, at the history's count of ticks.
    pub fn lines(&self) -> (lines: Vec<LogLine>)
        ensures
            lines@.len() == self@.len(),
            forall|i: int|
                0 <= i < lines@.len() ==> (#[trigger] lines@[i])@ == line_of(
                    self@[i],
                    self.ticks_view(),
                ),
    {
        let n = self.content.len();
        let mut lines: Vec<LogLine> = Vec::new();
        let mut i: usize = 0;
        while i < n
            invariant
                i <= n,
                n == self.content@.len(),
                lines@.len() == i,
                forall|k: int|
                    0 <= k < i ==> (#[trigger] lines@[k])@ == line_of(
                        self@[k],
                        self.ticks_view(),
                    ),
            decreases n - i,
        {
            lines.push(self.content[i].line(self.ticks));
            i += 1;
        }
        lines
    }
}

/// Cells left free between the frame of the log and its lines.
#[derive(Debug, Copy, Clone, PartialEq, Eq, Structural)]
pub struct Margin {
    pub top: u16,
    pub bottom: u16,
    pub left: u16,
    pub right: u16,
}

impl Margin {
    /// Whether the margin fits into `area` and the inner corner stays on the
    /// grid.
    pub fn fits(&self, area: Rect) -> (fits: bool)
        ensures
            fits == margin_fits(area, *self),
    {
        area.x <= u16::MAX - self.left && area.y <= u16::MAX - self.top && self.left
            <= area.width && self.right <= area.width - self.left && self.top <= area.height
            && self.bottom <= area.height - self.top
    }

    /// What is left of `area` inside the margin.
    pub fn inner(&self, area: Rect) -> (inner: Rect)
        requires
            margin_fits(area, *self),
        ensures
            inner == inner_area(area, *self),
    {
        Rect {
            x: area.x + self.left,
            y: area.y + self.top,
            width: area.width - (self.left + self.right),
            height: area.height - (self.top + self.bottom),
        }
    }
}

/// The margin of a log made by `Log::default`.
pub open spec fn default_margin() -> Margin {
    Margin { top: 1, bottom: 1, left: 2, right: 2 }
}

/// What is left of `area` inside `margin`.
pub open spec fn inner_area(area: Rect, margin: Margin) -> Rect {
    Rect {
        x: (area.x + margin.left) as u16,
        y: (area.y + margin.top) as u16,
        width: (area.width - (margin.left + margin.right)) as u16,
        height: (area.height - (margin.top + margin.bottom)) as u16,
    }
}

/// Whether `margin` fits into `area` and the inner corner stays on the grid.
pub open spec fn margin_fits(area: Rect, margin: Margin) -> bool {
    &&& area.x + margin.left <= u16::MAX
    &&& area.y + margin.top <= u16::MAX
    &&& margin.left + margin.right <= area.width
    &&& margin.top + margin.bottom <= area.height
}

/// A log as it stood when it was asked for, to be drawn.
#[derive(Debug)]
pub struct LogWidget {
    pub title: String,
    pub margin: Margin,
    pub history: LogHistory,
}

impl LogWidget {
    /// The part of `area` that the lines of the log may use.
    pub fn calculate_inner(&self, area: Rect) -> (inner: Rect)
        requires
            margin_fits(area, self.margin),
        ensures
            inner == inner_area(area, self.margin),
    {
        self.margin.inner(area)
    }
}

/// The log with its channel: producers hold clones of the sending end, the
/// owner applies what has arrived once per tick.
pub struct Log {
    title: String,
    margin: Margin,
    history: LogHistory,
    rx: Receiver<LogEvent>,
    tx: Sender<LogEvent>,
}

impl Log {
    pub closed spec fn title_view(&self) -> Seq<char> {
        self.title@
    }

    pub closed spec fn margin_view(&self) -> Margin {
        self.margin
    }

    /// The items of the log, newest first.
    pub closed spec fn items(&self) -> Seq<LogItemView> {
        self.history@
    }

    /// The number of ticks counted so far.
    pub closed spec fn ticks_view(&self) -> nat {
        self.history.ticks_view()
    }

    /// An untitled, empty log with the default margin, on a channel of its own.
    pub fn default() -> (log: Self)
        ensures
            log.title_view() == Seq::<char>::empty(),
            log.margin_view() == default_margin(),
            log.items() == Seq::<LogItemView>::empty(),
            log.ticks_view() == 0,
    {
        Self::new(String::new(), Margin { top: 1, bottom: 1, left: 2, right: 2 })
    }

    /// An empty log with this title and margin, on a channel of its own.
    pub fn new(title: String, margin: Margin) -> (log: Self)
        ensures
            log.title_view() == title@,
            log.margin_view() == margin,
            log.items() == Seq::<LogItemView>::empty(),
            log.ticks_view() == 0,
    {
        let (tx, rx) = open_channel();
        Log { title, margin, history: LogHistory::new(), rx, tx }
    }

    /// The sending end of the log's channel.
    pub closed spec fn sender_view(&self) -> Sender<LogEvent> {
        self.tx
    }

    /// Another sending end of the log's channel, for a producer to keep.
    pub fn sender(&self) -> (tx: Sender<LogEvent>)
        ensures
            tx == self.sender_view(),
    {
        another_sender(&self.tx)
    }

    /// One tick of the log: counts the tick, then applies, oldest first, the
    /// events that were waiting in the channel when the tick began. It never
    /// waits for a producer. Which events those are is the producers' doing:
    /// whatever they are, the items are the old ones with those events applied.
    pub fn update(&mut self)
        requires
            old(self).ticks_view() < u64::MAX,
        ensures
            final(self).ticks_view() == old(self).ticks_view() + 1,
            exists|events: Seq<LogEventView>| #[trigger]
                applied_all(old(self).items(), events) == final(self).items(),
            final(self).title_view() == old(self).title_view(),
            final(self).margin_view() == old(self).margin_view(),
            final(self).sender_view() == old(self).sender_view(),
    {
        self.history.tick();
        let pending = waiting(&self.rx);
        let ghost mut seen: Seq<LogEventView> = Seq::empty();
        let mut taken: usize = 0;
        while taken < pending
            invariant
                taken <= pending,
                self.history@ == applied_all(old(self).history@, seen),
                self.history.ticks_view() == old(self).history.ticks_view() + 1,
                self.title == old(self).title,
                self.margin == old(self).margin,
                self.tx == old(self).tx,
            decreases pending - taken,
        {
            match try_receive(&self.rx) {
                Some(event) => {
                    proof {
                        let next = seen.push(event@);
                        assert(next.drop_last() =~= seen);
                        seen = next;
                    }
                    self.history.apply(event);
                },
                None => {
                    break ;
                },
            }
            taken += 1;
        }
        assert(applied_all(old(self).items(), seen) == self.items());
    }

    pub fn set_title(&mut self, title: String)
        ensures
            final(self).title_view() == title@,
            final(self).margin_view() == old(self).margin_view(),
            final(self).items() == old(self).items(),
            final(self).ticks_view() == old(self).ticks_view(),
            final(self).sender_view() == old(self).sender_view(),
    {
        self.title = title;
    }

    pub fn set_margin(&mut self, margin: Margin)
        ensures
            final(self).margin_view() == margin,
            final(self).title_view() == old(self).title_view(),
            final(self).items() == old(self).items(),
            final(self).ticks_view() == old(self).ticks_view(),
            final(self).sender_view() == old(self).sender_view(),
    {
        self.margin = margin;
    }

    pub fn title(&self) -> (title: &String)
        ensures
            title@ == self.title_view(),
    {
        &self.title
    }

    pub fn margin(&self) -> (margin: Margin)
        ensures
            margin == self.margin_view(),
    {
        self.margin
    }

    pub fn history(&self) -> (history: &LogHistory)
        ensures
            history@ == self.items(),
            history.ticks_view() == self.ticks_view(),
    {
        &self.history
    }

    /// The log as it is now, for drawing: a copy that later events do not
    /// reach.
    pub fn widget(&self) -> (widget: LogWidget)
        ensures
            widget.title@ == self.title_view(),
            widget.margin == self.margin_view(),
            widget.history@ == self.items(),
            widget.history.ticks_view() == self.ticks_view(),
    {
        LogWidget {
            title: self.title.clone(),
            margin: self.margin,
            history: self.history.clone(),
        }
    }

    /// The part of `area` that the lines of the log may use.
    pub fn calculate_inner(&self, area: Rect) -> (inner: Rect)
        requires
            margin_fits(area, self.margin_view()),
        ensures
            inner == inner_area(area, self.margin_view()),
    {
        self.margin.inner(area)
    }

    /// Whether the margin of the log fits into `area`.
    pub fn fits(&self, area: Rect) -> (fits: bool)
        ensures
            fits == margin_fits(area, self.margin_view()),
    {
        self.margin.fits(area)
    }
}

/// Sends the events to a log, in order, and stops at the first that does not
/// get through, which means that the log is gone. It says how many were sent
/// and hands back the one that was not: where it hands none back, all of them
/// were sent.
pub fn send_events(tx: &Sender<LogEvent>, events: Vec<LogEvent>) -> (out: (
    usize,
    Option<LogEvent>,
))
    ensures
        match out.1 {
            Some(event) => out.0 < events@.len() && event@ == events@[out.0 as int]@,
            None => out.0 == events@.len(),
        },
{
    let n = events.len();
    let mut sent: usize = 0;
    while sent < n
        invariant
            sent <= n,
            n == events@.len(),
        decreases n - sent,
    {
        match send(tx, events[sent].clone()) {
            None => {},
            Some(event) => {
                return (sent, Some(event));
            },
        }
        sent += 1;
    }
    (sent, None)
}

/// With no event to apply the history is what it was.
pub proof fn lemma_apply_nothing(items: Seq<LogItemView>)
    ensures
        applied_all(items, Seq::<LogEventView>::empty()) == items,
{
}

/// Applying a list of events and then one more is applying the longer list.
pub proof fn lemma_apply_one_more(
    items: Seq<LogItemView>,
    events: Seq<LogEventView>,
    event: LogEventView,
)
    ensures
        applied_all(items, events.push(event)) == applied(applied_all(items, events), event),
{
    assert(events.push(event).drop_last() =~= events);
}

/// Applying two lists of events one after the other is applying them joined.
pub proof fn lemma_apply_joined(
    items: Seq<LogItemView>,
    first: Seq<LogEventView>,
    second: Seq<LogEventView>,
)
    ensures
        applied_all(items, first + second) == applied_all(applied_all(items, first), second),
    decreases second.len(),
{
    if second.len() == 0 {
        assert(first + second =~= first);
    } else {
        lemma_apply_joined(items, first, second.drop_last());
        assert((first + second).drop_last() =~= first + second.drop_last());
        assert((first + second).last() == second.last());
    }
}

/// Pushing `a` and then `b` leaves `b` in front of `a`, in front of what was
/// there before.
pub proof fn lemma_push_order(items: Seq<LogItemView>, a: LogItemView, b: LogItemView)
    ensures
        applied_all(items, seq![LogEventView::PushItem(a), LogEventView::PushItem(b)]) == seq![
            b,
            a,
        ] + items,
{
    let none = Seq::<LogEventView>::empty();
    let first = none.push(LogEventView::PushItem(a));
    lemma_apply_one_more(items, none, LogEventView::PushItem(a));
    lemma_apply_one_more(items, first, LogEventView::PushItem(b));
    assert(first.push(LogEventView::PushItem(b)) =~= seq![
        LogEventView::PushItem(a),
        LogEventView::PushItem(b),
    ]);
    assert(pushed(pushed(items, a), b) =~= seq![b, a] + items);
}

/// `SetVariant` keeps the length and the order, leaves every item of another
/// id as it was, and changes nothing but the variant of the items it finds.
pub proof fn lemma_set_variant_touches_only_its_id(
    items: Seq<LogItemView>,
    id: Seq<char>,
    variant: LogVariant,
)
    ensures
        retagged(items, id, variant).len() == items.len(),
        forall|i: int|
            0 <= i < items.len() && items[i].id != id ==> #[trigger] retagged(
                items,
                id,
                variant,
            )[i] == items[i],
        forall|i: int|
            0 <= i < items.len() && items[i].id == id ==> #[trigger] retagged(
                items,
                id,
                variant,
            )[i] == (LogItemView { variant, ..items[i] }),
{
}

/// Where no item carries the id, `SetVariant` changes nothing.
pub proof fn lemma_set_variant_of_absent_id(
    items: Seq<LogItemView>,
    id: Seq<char>,
    variant: LogVariant,
)
    requires
        forall|i: int| 0 <= i < items.len() ==> (#[trigger] items[i]).id != id,
    ensures
        retagged(items, id, variant) == items,
{
    assert(retagged(items, id, variant) =~= items);
}

} // verus!
