use twitchbrite::widgets::smart_text::{
    place_lines, split_span_at, split_span_every, Line, SmartTextComponent, Span, WrappingText,
};
use twitchbrite::widgets::Rect;

fn span(content: &str, style: u8) -> Span<u8> {
    Span { content: content.to_string(), style }
}

fn texts(line: &Line<u8>) -> Vec<(String, u8)> {
    line.0.iter().map(|s| (s.content.clone(), s.style)).collect()
}

fn shape(text: &WrappingText<u8>) -> Vec<Vec<(String, u8)>> {
    text.lines.iter().map(texts).collect()
}

fn one(content: &str, style: u8) -> Vec<(String, u8)> {
    vec![(content.to_string(), style)]
}

#[test]
fn split_at_cuts_between_clusters() {
    let (a, b) = split_span_at(span("hello", 3), 2);
    assert_eq!((a.content.as_str(), a.style), ("he", 3));
    assert_eq!((b.content.as_str(), b.style), ("llo", 3));
    let (a, b) = split_span_at(span("e\u{301}a", 1), 1);
    assert_eq!(a.content, "e\u{301}");
    assert_eq!(b.content, "a");
}

#[test]
fn split_at_beyond_the_end_takes_everything() {
    let (a, b) = split_span_at(span("abc", 0), 10);
    assert_eq!(a.content, "abc");
    assert_eq!(b.content, "");
    let (a, b) = split_span_at(span("abc", 0), 0);
    assert_eq!(a.content, "");
    assert_eq!(b.content, "abc");
}

#[test]
fn split_every_makes_runs_of_n() {
    let pieces = split_span_every(span("abcdefg", 9), 3);
    let got: Vec<(String, u8)> = pieces.into_iter().map(|s| (s.content, s.style)).collect();
    assert_eq!(
        got,
        vec![("abc".to_string(), 9), ("def".to_string(), 9), ("g".to_string(), 9)]
    );
    assert_eq!(split_span_every(span("abcdef", 9), 3).len(), 2);
    assert_eq!(split_span_every(span("", 9), 3).len(), 0);
    assert_eq!(split_span_every(span("ab", 9), 5).len(), 1);
}

#[test]
fn spans_that_fit_stay_on_one_line() {
    let text = WrappingText::from_spans(vec![span("ab", 1), span("cd", 2)], 10).unwrap();
    assert_eq!(shape(&text), vec![vec![("ab".to_string(), 1), ("cd".to_string(), 2)]]);
}

#[test]
fn no_spans_give_one_empty_line() {
    let text = WrappingText::from_spans(Vec::<Span<u8>>::new(), 10).unwrap();
    assert_eq!(shape(&text), vec![Vec::<(String, u8)>::new()]);
}

#[test]
fn long_span_is_cut_into_lines() {
    let text = WrappingText::from_spans(vec![span("hello world", 4)], 5).unwrap();
    assert_eq!(shape(&text), vec![one("hello", 4), one(" worl", 4), one("d", 4)]);
}

#[test]
fn span_is_cut_where_the_line_ends() {
    let text = WrappingText::from_spans(vec![span("abc", 1), span("def", 2)], 5).unwrap();
    assert_eq!(
        shape(&text),
        vec![vec![("abc".to_string(), 1), ("de".to_string(), 2)], one("f", 2)]
    );
}

#[test]
fn wide_clusters_may_leave_nothing_for_the_next_line() {
    let text = WrappingText::from_spans(vec![span("日本", 1)], 3).unwrap();
    assert_eq!(shape(&text), vec![one("日本", 1), Vec::<(String, u8)>::new()]);
}

#[test]
fn span_after_an_overfull_count_has_no_result() {
    assert!(WrappingText::from_spans(vec![span("hello world", 4), span("a", 4)], 5).is_none());
}

#[test]
fn zero_width_has_no_result_for_visible_text() {
    assert!(WrappingText::from_spans(vec![span("a", 0)], 0).is_none());
    assert!(WrappingText::from_spans(vec![span("", 0)], 0).is_some());
}

#[test]
fn component_wraps_each_line_of_input() {
    let mut component: SmartTextComponent<u8> = SmartTextComponent::new();
    component.append_span(span("lost", 0));
    component.append_line(vec![span("abcdef", 1)]);
    component.append_line(vec![span("xy", 2)]);
    component.append_span(span("z", 3));
    let area = Rect { x: 2, y: 3, width: 4, height: 10 };
    let out = component.output_text(area).unwrap();
    assert_eq!(out.len(), 2);
    assert_eq!(shape(&out[0]), vec![one("abcd", 1), one("ef", 1)]);
    assert_eq!(shape(&out[1]), vec![vec![("xy".to_string(), 2), ("z".to_string(), 3)]]);
    let placed = place_lines(&out, area);
    assert_eq!(placed.len(), 3);
    assert_eq!(placed[0].area, Rect { x: 2, y: 3, width: 4, height: 1 });
    assert_eq!(placed[1].area, Rect { x: 2, y: 4, width: 4, height: 1 });
    assert_eq!(placed[2].area, Rect { x: 2, y: 5, width: 4, height: 1 });
    assert_eq!(texts(&placed[1].line), one("ef", 1));
    assert_eq!(texts(&placed[2].line), vec![("xy".to_string(), 2), ("z".to_string(), 3)]);
}

#[test]
fn component_has_no_output_where_a_line_does_not_wrap() {
    let mut component: SmartTextComponent<u8> = SmartTextComponent::new();
    component.append_line(vec![span("fine", 1)]);
    component.append_line(vec![span("hello world", 1), span("!", 1)]);
    assert!(component.output_text(Rect { x: 0, y: 0, width: 5, height: 3 }).is_none());
    assert!(component.output_text(Rect { x: 0, y: 0, width: 40, height: 3 }).is_some());
}

#[test]
fn placement_stops_one_past_the_height() {
    let mut component: SmartTextComponent<u8> = SmartTextComponent::new();
    component.append_line(vec![span("abcdefghij", 1)]);
    let area = Rect { x: 0, y: 7, width: 2, height: 2 };
    let out = component.output_text(area).unwrap();
    assert_eq!(out[0].lines.len(), 5);
    let placed = place_lines(&out, area);
    assert_eq!(placed.len(), 3);
    assert_eq!(placed[2].area, Rect { x: 0, y: 9, width: 2, height: 1 });
    assert_eq!(texts(&placed[2].line), one("ef", 1));
}
