//! Text that wraps: styled spans cut into lines of a given width.
//!
//! A span is cut between grapheme clusters, never inside one. How much room a
//! span takes is its display width, which counts columns, while the place of a
//! cut counts clusters.

use tuirealm::tui::text::Span as OutsideSpan;
use unicode_segmentation::UnicodeSegmentation;
use vstd::prelude::*;
use vstd::string::StringExecFns;

use crate::widgets::{new_rect, Rect};

verus! {

/// The extended grapheme clusters of a text, in order, as
/// `UnicodeSegmentation::graphemes` cuts them.
pub uninterp spec fn grapheme_clusters(text: Seq<char>) -> Seq<Seq<char>>;

/// The number of terminal columns that a text takes, as the `width` of a
/// `tui` span counts them.
pub uninterp spec fn display_width(text: Seq<char>) -> usize;

/// `UnicodeSegmentation::graphemes`, with `true` for extended clusters, hands
/// out the clusters of the text from first to last; each is copied into a
/// string of its own.
#[verifier::external_body]
fn graphemes(text: &str) -> (clusters: Vec<String>)
    ensures
        clusters@.len() == grapheme_clusters(text@).len(),
        forall|i: int|
            0 <= i < clusters@.len() ==> (#[trigger] clusters@[i])@ == grapheme_clusters(text@)[i],
{
    text.graphemes(true).map(String::from).collect()
}

/// `Span::raw` makes an unstyled span of the text, and `Span::width` is the
/// unicode width of a span's content.
#[verifier::external_body]
fn width_of(text: &str) -> (width: usize)
    ensures
        width == display_width(text@),
{
    OutsideSpan::raw(text).width()
}

/// A piece of text in one style.
#[derive(Debug)]
pub struct Span<S> {
    pub content: String,
    pub style: S,
}

/// A span as plain values.
pub struct SpanView<S> {
    pub content: Seq<char>,
    pub style: S,
}

impl<S> View for Span<S> {
    type V = SpanView<S>;

    open spec fn view(&self) -> SpanView<S> {
        SpanView { content: self.content@, style: self.style }
    }
}

impl<S: Copy> Clone for Span<S> {
    fn clone(&self) -> (copy: Self)
        ensures
            copy@ == self@,
    {
        Span { content: self.content.clone(), style: self.style }
    }
}

/// The spans of a list as plain values.
pub open spec fn span_views<S>(spans: Seq<Span<S>>) -> Seq<SpanView<S>> {
    Seq::new(spans.len(), |i: int| spans[i]@)
}

/// A single line of text.
#[derive(Debug)]
pub struct Line<S>(pub Vec<Span<S>>);

impl<S> View for Line<S> {
    type V = Seq<SpanView<S>>;

    open spec fn view(&self) -> Seq<SpanView<S>> {
        span_views(self.0@)
    }
}

/// The lines of a list as plain values.
pub open spec fn line_views<S>(lines: Seq<Line<S>>) -> Seq<Seq<SpanView<S>>> {
    Seq::new(lines.len(), |i: int| lines[i]@)
}

/// One line of input cut into the lines that fit.
#[derive(Debug)]
pub struct WrappingText<S> {
    pub lines: Vec<Line<S>>,
}

impl<S> View for WrappingText<S> {
    type V = Seq<Seq<SpanView<S>>>;

    open spec fn view(&self) -> Seq<Seq<SpanView<S>>> {
        line_views(self.lines@)
    }
}

/// The texts of a list written one after the other.
pub open spec fn joined(parts: Seq<Seq<char>>) -> Seq<char>
    decreases parts.len(),
{
    if parts.len() == 0 {
        Seq::empty()
    } else {
        joined(parts.drop_last()) + parts.last()
    }
}

/// The clusters cut into runs of `size`, the last run shorter where they do
/// not divide evenly; no clusters, no run.
pub open spec fn chunked(clusters: Seq<Seq<char>>, size: usize) -> Seq<Seq<Seq<char>>>
    recommends
        size > 0,
    decreases clusters.len(),
{
    if clusters.len() == 0 {
        Seq::empty()
    } else if clusters.len() <= size || size == 0 {
        seq![clusters]
    } else {
        seq![clusters.take(size as int)] + chunked(clusters.skip(size as int), size)
    }
}

/// The span of the first `idx` clusters of `span`, or of all if there are
/// fewer.
pub open spec fn head_of<S>(span: SpanView<S>, idx: usize) -> SpanView<S> {
    let clusters = grapheme_clusters(span.content);
    let cut = if idx <= clusters.len() {
        idx as int
    } else {
        clusters.len() as int
    };
    SpanView { content: joined(clusters.take(cut)), style: span.style }
}

/// The clusters of `span` after the first `idx`.
pub open spec fn tail_clusters<S>(span: SpanView<S>, idx: usize) -> Seq<Seq<char>> {
    let clusters = grapheme_clusters(span.content);
    let cut = if idx <= clusters.len() {
        idx as int
    } else {
        clusters.len() as int
    };
    clusters.skip(cut)
}

/// The span of what follows the first `idx` clusters of `span`.
pub open spec fn tail_of<S>(span: SpanView<S>, idx: usize) -> SpanView<S> {
    SpanView { content: joined(tail_clusters(span, idx)), style: span.style }
}

/// The runs of clusters as spans of one style.
pub open spec fn spans_of_runs<S>(runs: Seq<Seq<Seq<char>>>, style: S) -> Seq<SpanView<S>> {
    Seq::new(runs.len(), |i: int| SpanView { content: joined(runs[i]), style })
}

/// Each span as a line by itself.
pub open spec fn lines_of_spans<S>(spans: Seq<SpanView<S>>) -> Seq<Seq<SpanView<S>>> {
    Seq::new(spans.len(), |i: int| seq![spans[i]])
}

fn text_of(clusters: &Vec<String>, from: usize, to: usize) -> (text: String)
    requires
        from <= to <= clusters@.len(),
    ensures
        text@ == joined(Seq::new((to - from) as nat, |i: int| clusters@[from + i]@)),
{
    let ghost parts = Seq::new((to - from) as nat, |i: int| clusters@[from + i]@);
    let mut text = String::new();
    let mut at = from;
    while at < to
        invariant
            from <= at <= to <= clusters@.len(),
            parts == Seq::new((to - from) as nat, |i: int| clusters@[from + i]@),
            text@ == joined(parts.take(at - from)),
        decreases to - at,
    {
        proof {
            let upto = parts.take(at - from + 1);
            assert(upto.drop_last() =~= parts.take(at - from));
            assert(upto.last() == clusters@[at as int]@);
        }
        text.append(clusters[at].as_str());
        at += 1;
    }
    assert(parts.take(to - from) =~= parts);
    text
}

/// The views of the clusters that `graphemes` returned for a text.
proof fn lemma_clusters_are_the_named(clusters: Seq<String>, text: Seq<char>)
    requires
        clusters.len() == grapheme_clusters(text).len(),
        forall|i: int| 0 <= i < clusters.len() ==> (#[trigger] clusters[i])@ == grapheme_clusters(
            text,
        )[i],
    ensures
        Seq::new(clusters.len(), |i: int| clusters[i]@) == grapheme_clusters(text),
{
    assert(Seq::new(clusters.len(), |i: int| clusters[i]@) =~= grapheme_clusters(text));
}

/// Cuts `span` after its first `idx` clusters: the head, and the rest.
pub fn split_span_at<S: Copy>(span: Span<S>, idx: usize) -> (halves: (Span<S>, Span<S>))
    ensures
        halves.0@ == head_of(span@, idx),
        halves.1@ == tail_of(span@, idx),
{
    let clusters = graphemes(span.content.as_str());
    let n = clusters.len();
    let cut = if idx <= n {
        idx
    } else {
        n
    };
    let a = text_of(&clusters, 0, cut);
    let b = text_of(&clusters, cut, n);
    proof {
        lemma_clusters_are_the_named(clusters@, span.content@);
        let named = grapheme_clusters(span.content@);
        assert(Seq::new(cut as nat, |i: int| clusters@[0 + i]@) =~= named.take(cut as int));
        assert(Seq::new((n - cut) as nat, |i: int| clusters@[cut + i]@) =~= named.skip(cut as int));
    }
    (Span { content: a, style: span.style }, Span { content: b, style: span.style })
}

/// Cuts `span` into spans of `n` clusters each, the last one shorter where
/// they do not divide evenly. An empty span gives no span.
pub fn split_span_every<S: Copy>(span: Span<S>, n: usize) -> (pieces: Vec<Span<S>>)
    requires
        n > 0,
    ensures
        span_views(pieces@) == spans_of_runs(
            chunked(grapheme_clusters(span.content@), n),
            span.style,
        ),
{
    let clusters = graphemes(span.content.as_str());
    proof {
        lemma_clusters_are_the_named(clusters@, span.content@);
    }
    let ghost named = grapheme_clusters(span.content@);
    let len = clusters.len();
    let mut pieces: Vec<Span<S>> = Vec::new();
    let mut start: usize = 0;
    proof {
        assert(named.skip(0) =~= named);
        assert(span_views(pieces@) + spans_of_runs(chunked(named, n), span.style) =~= spans_of_runs(
            chunked(named, n),
            span.style,
        ));
    }
    while start < len
        invariant
            n > 0,
            start <= len,
            len == clusters@.len(),
            named == Seq::new(clusters@.len(), |i: int| clusters@[i]@),
            spans_of_runs(chunked(named, n), span.style) == span_views(pieces@) + spans_of_runs(
                chunked(named.skip(start as int), n),
                span.style,
            ),
        decreases len - start,
    {
        let end = if len - start <= n {
            len
        } else {
            start + n
        };
        let text = text_of(&clusters, start, end);
        let ghost rest = named.skip(start as int);
        let ghost before = span_views(pieces@);
        pieces.push(Span { content: text, style: span.style });
        proof {
            let run = Seq::new((end - start) as nat, |i: int| clusters@[start + i]@);
            if len - start <= n {
                assert(run =~= rest);
                assert(chunked(rest, n) =~= seq![rest]);
                assert(named.skip(end as int) =~= Seq::<Seq<char>>::empty());
                assert(chunked(named.skip(end as int), n) =~= Seq::<Seq<Seq<char>>>::empty());
                assert(spans_of_runs(chunked(rest, n), span.style) =~= seq![
                    SpanView { content: joined(rest), style: span.style },
                ]);
                assert(span_views(pieces@) =~= before + seq![
                    SpanView { content: joined(rest), style: span.style },
                ]);
                assert(spans_of_runs(chunked(named.skip(end as int), n), span.style) =~= Seq::<
                    SpanView<S>,
                >::empty());
            } else {
                assert(run =~= rest.take(n as int));
                assert(rest.skip(n as int) =~= named.skip(end as int));
                assert(chunked(rest, n) == seq![rest.take(n as int)] + chunked(
                    rest.skip(n as int),
                    n,
                ));
                assert(spans_of_runs(chunked(rest, n), span.style) =~= seq![
                    SpanView { content: joined(run), style: span.style },
                ] + spans_of_runs(chunked(named.skip(end as int), n), span.style));
                assert(span_views(pieces@) =~= before + seq![
                    SpanView { content: joined(run), style: span.style },
                ]);
            }
        }
        start = end;
    }
    proof {
        assert(named.skip(len as int) =~= Seq::<Seq<char>>::empty());
        assert(spans_of_runs(chunked(named.skip(len as int), n), span.style) =~= Seq::<
            SpanView<S>,
        >::empty());
    }
    pieces
}

/// Where the wrapping of a list of spans stands: the lines that are full, the
/// line being filled, and the columns counted as taken on it.
pub struct WrapView<S> {
    pub lines: Seq<Seq<SpanView<S>>>,
    pub line: Seq<SpanView<S>>,
    pub x: nat,
}

/// The wrapping before any span.
pub open spec fn wrap_start<S>() -> WrapView<S> {
    WrapView { lines: Seq::empty(), line: Seq::empty(), x: 0 }
}

/// The wrapping after one more span.
///
/// A span that fits on the line joins it whole, and its width is counted. One
/// that does not fit is cut: as many clusters as columns were left end the
/// line, and the rest, taken as a text of its own, is cut into runs of `width`
/// clusters, each a line by itself but for the last, which begins the next
/// line; for that line the width of the whole span is counted as taken.
///
/// There is no result where the count of columns has left what a `usize`
/// holds, where more columns are counted as taken than the width has, or where
/// a span has to be cut to a width of zero.
pub open spec fn wrap_step<S>(state: WrapView<S>, span: SpanView<S>, width: usize) -> Option<
    WrapView<S>,
> {
    let w = display_width(span.content);
    if state.x + w > usize::MAX {
        None
    } else if state.x + w <= width {
        Some(
            WrapView { lines: state.lines, line: state.line.push(span), x: (state.x + w) as nat },
        )
    } else if state.x > width || width == 0 {
        None
    } else {
        let room = (width - state.x) as usize;
        let full = state.lines.push(state.line.push(head_of(span, room)));
        let rest = spans_of_runs(
            chunked(grapheme_clusters(tail_of(span, room).content), width),
            span.style,
        );
        if rest.len() == 0 {
            Some(WrapView { lines: full, line: Seq::empty(), x: 0 })
        } else {
            Some(
                WrapView {
                    lines: full + lines_of_spans(rest.drop_last()),
                    line: seq![rest.last()],
                    x: w as nat,
                },
            )
        }
    }
}

/// The wrapping after all the spans, first to last.
pub open spec fn wrap_run<S>(spans: Seq<SpanView<S>>, width: usize) -> Option<WrapView<S>>
    decreases spans.len(),
{
    if spans.len() == 0 {
        Some(wrap_start())
    } else {
        match wrap_run(spans.drop_last(), width) {
            Some(state) => wrap_step(state, spans.last(), width),
            None => None,
        }
    }
}

/// The lines that the spans wrap into: the full ones, then the one that was
/// being filled at the end, which may be empty.
pub open spec fn wrapped<S>(spans: Seq<SpanView<S>>, width: usize) -> Option<
    Seq<Seq<SpanView<S>>>,
> {
    match wrap_run(spans, width) {
        Some(state) => Some(state.lines.push(state.line)),
        None => None,
    }
}

impl<S: Copy> WrappingText<S> {
    /// Wraps the spans of one line of input to `width`. There is no result on
    /// the inputs for which `wrapped` has none.
    pub fn from_spans(spans: Vec<Span<S>>, width: usize) -> (text: Option<Self>)
        ensures
            match text {
                Some(text) => wrapped(span_views(spans@), width) == Some(text@),
                None => wrapped(span_views(spans@), width) is None,
            },
    {
        let ghost all = span_views(spans@);
        let mut lines: Vec<Line<S>> = Vec::new();
        let mut line: Vec<Span<S>> = Vec::new();
        let mut x: usize = 0;
        let n = spans.len();
        let mut i: usize = 0;
        proof {
            assert(line_views(lines@) =~= Seq::<Seq<SpanView<S>>>::empty());
            assert(span_views(line@) =~= Seq::<SpanView<S>>::empty());
            assert(all.take(0).len() == 0);
        }
        while i < n
            invariant
                i <= n,
                n == spans@.len(),
                all == span_views(spans@),
                wrap_run(all.take(i as int), width) == Some(
                    WrapView { lines: line_views(lines@), line: span_views(line@), x: x as nat },
                ),
            decreases n - i,
        {
            let ghost state = WrapView {
                lines: line_views(lines@),
                line: span_views(line@),
                x: x as nat,
            };
            let ghost upto = all.take(i as int + 1);
            proof {
                assert(upto.drop_last() =~= all.take(i as int));
                assert(upto.last() == spans@[i as int]@);
                assert(wrap_run(upto, width) == wrap_step(state, spans@[i as int]@, width));
            }
            let span = spans[i].clone();
            let w = width_of(span.content.as_str());
            let fits = match x.checked_add(w) {
                Some(sum) => sum <= width,
                None => {
                    proof {
                        lemma_no_result_is_kept(all, i as int + 1, width);
                        assert(all.take(n as int) =~= all);
                    }
                    return None;
                },
            };
            if fits {
                x = x + w;
                let ghost before = span_views(line@);
                line.push(span);
                assert(span_views(line@) =~= before.push(spans@[i as int]@));
            } else {
                if x > width || width == 0 {
                    proof {
                        lemma_no_result_is_kept(all, i as int + 1, width);
                        assert(all.take(n as int) =~= all);
                    }
                    return None;
                }
                let room = width - x;
                let (head, tail) = split_span_at(span.clone(), room);
                let ghost line_before = span_views(line@);
                let ghost lines_before = line_views(lines@);
                line.push(head);
                assert(span_views(line@) =~= line_before.push(head_of(spans@[i as int]@, room)));
                lines.push(Line(line));
                assert(line_views(lines@) =~= lines_before.push(
                    line_before.push(head_of(spans@[i as int]@, room)),
                ));
                let ghost full = line_views(lines@);
                line = Vec::new();
                x = 0;
                let pieces = split_span_every(tail, width);
                let ghost rest = span_views(pieces@);
                assert(rest == spans_of_runs(
                    chunked(grapheme_clusters(tail_of(spans@[i as int]@, room).content), width),
                    span.style,
                ));
                let count = pieces.len();
                let mut k: usize = 0;
                while k < count
                    invariant
                        k <= count,
                        count == pieces@.len(),
                        rest == span_views(pieces@),
                        k < count ==> (line@.len() == 0 && x == 0),
                        k < count ==> line_views(lines@) == full + lines_of_spans(
                            rest.take(k as int),
                        ),
                        k == count && count > 0 ==> (line_views(lines@) == full + lines_of_spans(
                            rest.drop_last(),
                        ) && span_views(line@) == seq![rest.last()] && x == w),
                        count == 0 ==> (line_views(lines@) == full && line@.len() == 0 && x == 0),
                    decreases count - k,
                {
                    let piece = pieces[k].clone();
                    if k < count - 1 {
                        let ghost before = line_views(lines@);
                        let mut alone: Vec<Span<S>> = Vec::new();
                        alone.push(piece);
                        assert(span_views(alone@) =~= seq![rest[k as int]]);
                        lines.push(Line(alone));
                        assert(line_views(lines@) =~= before.push(seq![rest[k as int]]));
                        assert(lines_of_spans(rest.take(k as int + 1)) =~= lines_of_spans(
                            rest.take(k as int),
                        ).push(seq![rest[k as int]]));
                        assert(line_views(lines@) =~= full + lines_of_spans(
                            rest.take(k as int + 1),
                        ));
                    } else {
                        x = w;
                        line.push(piece);
                        assert(span_views(line@) =~= seq![rest.last()]);
                        assert(rest.take(k as int) =~= rest.drop_last());
                    }
                    k += 1;
                }
                proof {
                    if count == 0 {
                        assert(span_views(line@) =~= Seq::<SpanView<S>>::empty());
                    }
                }
            }
            i += 1;
        }
        proof {
            assert(all.take(n as int) =~= all);
        }
        let ghost lines_before = line_views(lines@);
        let ghost last = span_views(line@);
        lines.push(Line(line));
        assert(line_views(lines@) =~= lines_before.push(last));
        Some(WrappingText { lines })
    }
}

/// Once the wrapping has no result it has none for any longer list of spans.
proof fn lemma_no_result_is_kept<S>(spans: Seq<SpanView<S>>, upto: int, width: usize)
    requires
        0 <= upto <= spans.len(),
        wrap_run(spans.take(upto), width) is None,
    ensures
        wrap_run(spans, width) is None,
        wrapped(spans, width) is None,
    decreases spans.len() - upto,
{
    if upto < spans.len() {
        assert(spans.take(upto + 1).drop_last() =~= spans.take(upto));
        lemma_no_result_is_kept(spans, upto + 1, width);
    } else {
        assert(spans.take(upto) =~= spans);
    }
}

/// Lines of styled text, kept as they were given and wrapped when shown.
#[derive(Debug)]
pub struct SmartTextComponent<S> {
    input_text: Vec<Vec<Span<S>>>,
}

/// The lines of a list of span lists as plain values.
pub open spec fn text_views<S>(lines: Seq<Vec<Span<S>>>) -> Seq<Seq<SpanView<S>>> {
    Seq::new(lines.len(), |i: int| span_views(lines[i]@))
}

/// The wrapped texts as plain values.
pub open spec fn wrapping_views<S>(texts: Seq<WrappingText<S>>) -> Seq<Seq<Seq<SpanView<S>>>> {
    Seq::new(texts.len(), |i: int| texts[i]@)
}

/// Whether every line of input wraps to `width`.
pub open spec fn all_wrap<S>(input: Seq<Seq<SpanView<S>>>, width: usize) -> bool {
    forall|i: int| 0 <= i < input.len() ==> (#[trigger] wrapped(input[i], width)) is Some
}

/// Each line of input wrapped to `width`, in order.
pub open spec fn all_wrapped<S>(input: Seq<Seq<SpanView<S>>>, width: usize) -> Seq<
    Seq<Seq<SpanView<S>>>,
> {
    Seq::new(input.len(), |i: int| wrapped(input[i], width)->Some_0)
}

/// The lines of all the texts, one text after the other.
pub open spec fn flattened<S>(texts: Seq<Seq<Seq<SpanView<S>>>>) -> Seq<Seq<SpanView<S>>>
    decreases texts.len(),
{
    if texts.len() == 0 {
        Seq::empty()
    } else {
        flattened(texts.drop_last()) + texts.last()
    }
}

/// The row of cells for the line that is `k` rows below the top of `area`.
pub open spec fn row_of(area: Rect, k: int) -> Rect {
    Rect { x: area.x, y: (area.y + k) as u16, width: area.width, height: 1 }
}

/// A line with the row of cells it is drawn in.
#[derive(Debug)]
pub struct PlacedLine<S> {
    pub area: Rect,
    pub line: Line<S>,
}

impl<S: Copy> SmartTextComponent<S> {
    /// The lines of input, as given.
    pub closed spec fn input(&self) -> Seq<Seq<SpanView<S>>> {
        text_views(self.input_text@)
    }

    /// A component without text.
    pub fn new() -> (component: Self)
        ensures
            component.input() == Seq::<Seq<SpanView<S>>>::empty(),
    {
        let component = SmartTextComponent { input_text: Vec::new() };
        assert(component.input() =~= Seq::<Seq<SpanView<S>>>::empty());
        component
    }

    /// Adds a line of input after the others.
    pub fn append_line(&mut self, content: Vec<Span<S>>)
        ensures
            final(self).input() == old(self).input().push(span_views(content@)),
    {
        self.input_text.push(content);
        assert(self.input() =~= old(self).input().push(span_views(content@)));
    }

    /// Adds a span at the end of the last line of input. Without a line there
    /// is nowhere to add it, and nothing changes.
    pub fn append_span(&mut self, content: Span<S>)
        ensures
            old(self).input().len() == 0 ==> final(self).input() == old(self).input(),
            old(self).input().len() > 0 ==> final(self).input() == old(self).input().update(
                old(self).input().len() - 1,
                old(self).input().last().push(content@),
            ),
    {
        match self.input_text.pop() {
            Some(mut last) => {
                let ghost before = span_views(last@);
                last.push(content);
                assert(span_views(last@) =~= before.push(content@));
                self.input_text.push(last);
                assert(self.input() =~= old(self).input().update(
                    old(self).input().len() - 1,
                    old(self).input().last().push(content@),
                ));
            },
            None => {
                assert(self.input() =~= old(self).input());
            },
        }
    }

    /// Each line of input wrapped to the width of `area`; no result if one of
    /// them does not wrap.
    pub fn output_text(&self, area: Rect) -> (texts: Option<Vec<WrappingText<S>>>)
        ensures
            match texts {
                Some(texts) => all_wrap(self.input(), area.width as usize) && wrapping_views(
                    texts@,
                ) == all_wrapped(self.input(), area.width as usize),
                None => !all_wrap(self.input(), area.width as usize),
            },
    {
        let width = area.width as usize;
        let n = self.input_text.len();
        let mut texts: Vec<WrappingText<S>> = Vec::new();
        let mut i: usize = 0;
        while i < n
            invariant
                i <= n,
                n == self.input_text@.len(),
                width == area.width as usize,
                texts@.len() == i,
                forall|k: int|
                    0 <= k < i ==> wrapped(#[trigger] self.input()[k], width) == Some(texts@[k]@),
            decreases n - i,
        {
            let mut line: Vec<Span<S>> = Vec::new();
            let source = &self.input_text[i];
            let m = source.len();
            let mut j: usize = 0;
            while j < m
                invariant
                    j <= m,
                    m == source@.len(),
                    span_views(line@) == span_views(source@).take(j as int),
                decreases m - j,
            {
                let ghost before = span_views(line@);
                line.push(source[j].clone());
                assert(span_views(line@) =~= before.push(source@[j as int]@));
                assert(span_views(source@).take(j as int + 1) =~= before.push(source@[j as int]@));
                j += 1;
            }
            assert(span_views(source@).take(m as int) =~= span_views(source@));
            assert(self.input()[i as int] == span_views(source@));
            match WrappingText::from_spans(line, width) {
                Some(text) => {
                    texts.push(text);
                },
                None => {
                    assert(wrapped(self.input()[i as int], width) is None);
                    return None;
                },
            }
            i += 1;
        }
        assert(wrapping_views(texts@) =~= all_wrapped(self.input(), width));
        Some(texts)
    }
}

/// The row of each line to draw in `area`: the lines of the texts from the top
/// down, one row each, up to one more than the height of `area`.
pub fn place_lines<S: Copy>(texts: &Vec<WrappingText<S>>, area: Rect) -> (placed: Vec<
    PlacedLine<S>,
>)
    requires
        area.y + area.height <= u16::MAX,
    ensures
        placed@.len() == if flattened(wrapping_views(texts@)).len() <= area.height {
            flattened(wrapping_views(texts@)).len()
        } else {
            (area.height + 1) as nat
        },
        forall|k: int|
            0 <= k < placed@.len() ==> (#[trigger] placed@[k]).area == row_of(area, k)
                && placed@[k].line@ == flattened(wrapping_views(texts@))[k],
{
    let ghost all = wrapping_views(texts@);
    let mut placed: Vec<PlacedLine<S>> = Vec::new();
    let mut lines_used: usize = 0;
    let n = texts.len();
    let mut i: usize = 0;
    while i < n
        invariant
            i <= n,
            n == texts@.len(),
            all == wrapping_views(texts@),
            area.y + area.height <= u16::MAX,
            lines_used <= area.height,
            placed@.len() == lines_used,
            lines_used == flattened(all.take(i as int)).len(),
            forall|k: int|
                0 <= k < placed@.len() ==> (#[trigger] placed@[k]).area == row_of(area, k)
                    && placed@[k].line@ == flattened(all.take(i as int))[k],
            forall|k: int|
                0 <= k < flattened(all.take(i as int)).len() ==> flattened(all.take(i as int))[k]
                    == flattened(all)[k],
            flattened(all.take(i as int)).len() <= flattened(all).len(),
        decreases n - i,
    {
        let text = &texts[i];
        let ghost done = flattened(all.take(i as int));
        let ghost these = all[i as int];
        proof {
            assert(all.take(i as int + 1).drop_last() =~= all.take(i as int));
            assert(all.take(i as int + 1).last() == these);
            assert(flattened(all.take(i as int + 1)) == done + these);
            lemma_flattened_prefix(all, i as int + 1);
        }
        let m = text.lines.len();
        let mut j: usize = 0;
        while j < m
            invariant
                j <= m,
                m == text.lines@.len(),
                these == line_views(text.lines@),
                all == wrapping_views(texts@),
                area.y + area.height <= u16::MAX,
                lines_used <= area.height,
                placed@.len() == lines_used,
                lines_used == done.len() + j,
                (done + these).len() <= flattened(all).len(),
                forall|k: int|
                    0 <= k < (done + these).len() ==> (done + these)[k] == flattened(all)[k],
                forall|k: int|
                    0 <= k < placed@.len() ==> (#[trigger] placed@[k]).area == row_of(area, k)
                        && placed@[k].line@ == (done + these)[k],
            decreases m - j,
        {
            let source = &text.lines[j].0;
            let mut line: Vec<Span<S>> = Vec::new();
            let c = source.len();
            let mut q: usize = 0;
            while q < c
                invariant
                    q <= c,
                    c == source@.len(),
                    span_views(line@) == span_views(source@).take(q as int),
                decreases c - q,
            {
                let ghost before = span_views(line@);
                line.push(source[q].clone());
                assert(span_views(line@) =~= before.push(source@[q as int]@));
                assert(span_views(source@).take(q as int + 1) =~= before.push(source@[q as int]@));
                q += 1;
            }
            assert(span_views(source@).take(c as int) =~= span_views(source@));
            let row = new_rect(area.x, area.y + lines_used as u16, area.width, 1);
            assert(area.width * 1 <= u16::MAX);
            let ghost before = placed@;
            placed.push(PlacedLine { area: row, line: Line(line) });
            proof {
                assert(these[j as int] == span_views(source@));
                assert((done + these)[done.len() + j] == these[j as int]);
                assert forall|k: int| 0 <= k < placed@.len() implies (#[trigger] placed@[k]).area
                    == row_of(area, k) && placed@[k].line@ == (done + these)[k] by {
                    if k < before.len() {
                        assert(placed@[k] == before[k]);
                    }
                }
            }
            lines_used += 1;
            j += 1;
            if lines_used > area.height as usize {
                return placed;
            }
        }
        i += 1;
    }
    proof {
        assert(all.take(n as int) =~= all);
    }
    placed
}

/// The lines of the first texts are the first lines of all the texts.
proof fn lemma_flattened_prefix<S>(texts: Seq<Seq<Seq<SpanView<S>>>>, upto: int)
    requires
        0 <= upto <= texts.len(),
    ensures
        flattened(texts.take(upto)).len() <= flattened(texts).len(),
        forall|k: int|
            0 <= k < flattened(texts.take(upto)).len() ==> flattened(texts.take(upto))[k]
                == flattened(texts)[k],
    decreases texts.len() - upto,
{
    if upto < texts.len() {
        lemma_flattened_prefix(texts, upto + 1);
        assert(texts.take(upto + 1).drop_last() =~= texts.take(upto));
    } else {
        assert(texts.take(upto) =~= texts);
    }
}

} // verus!
