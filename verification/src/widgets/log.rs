//! The scrolling text panel and the corpus it scrolls through.

use crate::layout::Region;
use crate::widgets::{subsec_millis, subsec_millis_of};
use ratatui::style::Style;
use vstd::prelude::*;

verus! {

/// Time of one scroll period, in milliseconds.
pub const SPEED_MS: u128 = 1000;

/// Where the first line of `text` ends: the position of its first line feed,
/// or the length of `text` if it holds none.
pub open spec fn line_end(text: Seq<char>) -> int
    decreases text.len(),
{
    if text.len() == 0 || text[0] == '\n' {
        0
    } else {
        1 + line_end(text.drop_first())
    }
}

/// `line` without the carriage return at its end, if it has one.
pub open spec fn without_return(line: Seq<char>) -> Seq<char> {
    if line.len() > 0 && line.last() == '\r' {
        line.drop_last()
    } else {
        line
    }
}

/// The lines of `text`. A line ends at a line feed; the line feed, and a
/// carriage return directly before it, belong to no line. What follows the
/// last line feed is a line of its own unless it is empty.
pub open spec fn lines_of(text: Seq<char>) -> Seq<Seq<char>>
    decreases text.len(),
{
    let end = line_end(text);
    if text.len() == 0 {
        Seq::empty()
    } else if 0 <= end < text.len() {
        seq![without_return(text.subrange(0, end))] + lines_of(
            text.subrange(end + 1, text.len() as int),
        )
    } else {
        seq![text]
    }
}

/// A stretch without a line feed that ends at one, or at the end of the
/// text, is the first line.
proof fn lemma_line_end(text: Seq<char>, end: int)
    requires
        0 <= end <= text.len(),
        forall|j: int| 0 <= j < end ==> text[j] != '\n',
        end == text.len() || text[end] == '\n',
    ensures
        line_end(text) == end,
    decreases end,
{
    if end > 0 {
        lemma_line_end(text.drop_first(), end - 1);
    }
}

/// `String::push`: the string afterwards is the string before with `c` at
/// its end.
#[verifier::external_body]
fn push_char(line: &mut String, c: char)
    ensures
        final(line)@ == old(line)@.push(c),
{
    line.push(c);
}

/// Splits `text` into its lines.
pub fn split_lines(text: &str) -> (lines: Vec<String>)
    ensures
        lines.deep_view() == lines_of(text@),
{
    let mut lines: Vec<String> = Vec::new();
    let mut current: String = String::new();
    let mut pending: bool = false;
    let mut open: bool = false;
    let ghost mut start: int = 0;
    let ghost len: int = text@.len() as int;
    proof {
        assert(text@.subrange(0, len) == text@);
        assert(lines.deep_view() == Seq::<Seq<char>>::empty());
    }
    for c in it: text.chars()
        invariant
            it.seq() == text@,
            len == text@.len(),
            0 <= start <= it.index() <= len,
            forall|j: int| start <= j < it.index() ==> text@[j] != '\n',
            lines.deep_view() + lines_of(text@.subrange(start, len)) == lines_of(text@),
            current@ + (if pending { seq!['\r'] } else { Seq::<char>::empty() })
                == text@.subrange(start, it.index()),
            !pending ==> current@.len() == 0 || current@.last() != '\r',
            open == (start < it.index()),
    {
        let ghost i = it.index();
        let ghost rest = text@.subrange(start, len);
        if c == '\n' {
            proof {
                assert(rest.len() > 0);
                assert forall|j: int| 0 <= j < i - start implies rest[j] != '\n' by {
                    assert(rest[j] == text@[start + j]);
                }
                lemma_line_end(rest, i - start);
                assert(rest.subrange(0, i - start) == text@.subrange(start, i));
                assert(rest.subrange(i - start + 1, rest.len() as int) == text@.subrange(
                    i + 1,
                    len,
                ));
                if pending {
                    assert(text@.subrange(start, i).last() == '\r');
                    assert(text@.subrange(start, i).drop_last() == current@);
                } else {
                    assert(text@.subrange(start, i) == current@);
                }
                assert(without_return(text@.subrange(start, i)) == current@);
                assert(lines.deep_view().push(current@) + lines_of(text@.subrange(i + 1, len))
                    == lines.deep_view() + lines_of(rest));
            }
            let ghost before = lines.deep_view();
            lines.push(current);
            proof {
                assert(lines.deep_view() == before.push(current@));
                start = i + 1;
            }
            current = String::new();
            pending = false;
            open = false;
            proof {
                assert(text@.subrange(start, i + 1) == Seq::<char>::empty());
            }
        } else {
            if pending {
                push_char(&mut current, '\r');
            }
            if c == '\r' {
                pending = true;
            } else {
                push_char(&mut current, c);
                pending = false;
            }
            open = true;
            proof {
                assert(text@.subrange(start, i + 1) == text@.subrange(start, i).push(c));
            }
        }
    }
    if pending {
        push_char(&mut current, '\r');
    }
    proof {
        assert(current@ == text@.subrange(start, len));
    }
    if open {
        proof {
            let rest = text@.subrange(start, len);
            lemma_line_end(rest, rest.len() as int);
            assert(lines_of(rest) == seq![rest]);
            assert(lines.deep_view().push(current@) == lines.deep_view() + lines_of(rest));
        }
        let ghost before = lines.deep_view();
        lines.push(current);
        proof {
            assert(lines.deep_view() == before.push(current@));
        }
    } else {
        proof {
            assert(lines_of(text@.subrange(start, len)) == Seq::<Seq<char>>::empty());
            assert(lines.deep_view() + Seq::<Seq<char>>::empty() == lines.deep_view());
        }
    }
    lines
}

/// What a walk of the source tree reports of one entry, as far as the
/// choice of sources goes.
#[derive(Debug)]
pub struct Entry {
    /// The entry is a regular file.
    pub is_file: bool,
    /// The extension of its file name, if it has one.
    pub extension: Option<String>,
}

/// Whether an extension is the one that marks a source file.
pub open spec fn is_source_extension(extension: Seq<char>) -> bool {
    extension == "rs"@
}

impl Entry {
    /// Whether the entry is one of the files the corpus is read from: a
    /// regular file with the source extension.
    pub open spec fn is_source(self) -> bool {
        self.is_file && (self.extension matches Some(extension) && is_source_extension(
            extension@,
        ))
    }
}

/// The positions of the source files among `entries`, in the order of the
/// walk.
pub fn select_sources(entries: &Vec<Entry>) -> (chosen: Vec<usize>)
    ensures
        forall|k: int|
            0 <= k < chosen.len() ==> (#[trigger] chosen[k]) < entries.len()
                && entries[chosen[k] as int].is_source(),
        forall|j: int, k: int|
            0 <= j < k < chosen.len() ==> (#[trigger] chosen[j]) < (#[trigger] chosen[k]),
        forall|i: int|
            0 <= i < entries.len() && (#[trigger] entries[i]).is_source() ==> chosen@.contains(
                i as usize,
            ),
{
    let wanted: String = String::from_str("rs");
    let mut chosen: Vec<usize> = Vec::new();
    let mut i: usize = 0;
    while i < entries.len()
        invariant
            i <= entries.len(),
            wanted@ == "rs"@,
            forall|k: int|
                0 <= k < chosen.len() ==> (#[trigger] chosen[k]) < i
                    && entries[chosen[k] as int].is_source(),
            forall|j: int, k: int|
                0 <= j < k < chosen.len() ==> (#[trigger] chosen[j]) < (#[trigger] chosen[k]),
            forall|n: int|
                0 <= n < i && (#[trigger] entries[n]).is_source() ==> chosen@.contains(n as usize),
        decreases entries.len() - i,
    {
        let entry: &Entry = &entries[i];
        let matches: bool = match &entry.extension {
            Some(extension) => entry.is_file && *extension == wanted,
            None => false,
        };
        if matches {
            let ghost before = chosen@;
            chosen.push(i);
            proof {
                assert(chosen@[before.len() as int] == i);
                assert forall|n: int| 0 <= n < i + 1 && (#[trigger] entries[n]).is_source()
                    implies chosen@.contains(n as usize) by {
                    if n < i {
                        let k = choose|k: int| 0 <= k < before.len() && before[k] == n as usize;
                        assert(chosen@[k] == n as usize);
                    }
                }
            }
        }
        i += 1;
    }
    chosen
}

/// The lines of all of `files`, file after file.
pub open spec fn corpus_of(files: Seq<Seq<char>>) -> Seq<Seq<char>>
    decreases files.len(),
{
    if files.len() == 0 {
        Seq::empty()
    } else {
        corpus_of(files.drop_last()) + lines_of(files.last())
    }
}

/// How many scroll periods have passed, counted modulo the `count` lines
/// of the corpus.
pub open spec fn period_index(elapsed_ms: nat, count: nat) -> nat
    recommends
        count > 0,
{
    (elapsed_ms / (SPEED_MS as nat)) % count
}

/// The first line of the scroll window. It moves on by the height of the
/// viewport with every period and wraps at the end of the corpus. An empty
/// corpus has its window at 0.
pub open spec fn offset_at(elapsed_ms: nat, count: nat, height: nat) -> nat {
    if count == 0 {
        0
    } else {
        (period_index(elapsed_ms, count) * height) % count
    }
}

/// How many lines have arrived in the current period: the share of the
/// viewport's height that matches the share of the period that has passed,
/// rounded down.
pub open spec fn line_count_at(elapsed_ms: nat, height: nat) -> nat {
    ((elapsed_ms % (SPEED_MS as nat)) * height) / (SPEED_MS as nat)
}

/// The line just past the scroll window: it ends where the lines that have
/// arrived end, or with the corpus.
pub open spec fn window_end_at(elapsed_ms: nat, count: nat, height: nat) -> nat {
    let end = offset_at(elapsed_ms, count, height) + line_count_at(elapsed_ms, height);
    if end < count {
        end
    } else {
        count
    }
}

/// The scroll window `[offset, end)` into the corpus, with the number of
/// lines that have arrived in the current period.
#[derive(Clone, Copy, Debug, PartialEq, Eq, Structural)]
pub struct Window {
    pub offset: usize,
    pub line_count: usize,
    pub end: usize,
}

impl Window {
    /// The window after `elapsed_ms` into a corpus of `count` lines, seen
    /// through a viewport `height` rows high.
    pub open spec fn at(elapsed_ms: u128, count: usize, height: u16) -> Window {
        Window {
            offset: offset_at(elapsed_ms as nat, count as nat, height as nat) as usize,
            line_count: line_count_at(elapsed_ms as nat, height as nat) as usize,
            end: window_end_at(elapsed_ms as nat, count as nat, height as nat) as usize,
        }
    }

    /// Computes the scroll window. It never reaches past the corpus, and
    /// over an empty corpus it is empty.
    pub fn new(elapsed_ms: u128, count: usize, height: u16) -> (window: Window)
        ensures
            window.offset == offset_at(elapsed_ms as nat, count as nat, height as nat),
            window.line_count == line_count_at(elapsed_ms as nat, height as nat),
            window.end == window_end_at(elapsed_ms as nat, count as nat, height as nat),
            window == Window::at(elapsed_ms, count, height),
            window.offset <= window.end <= count,
            count > 0 ==> window.offset < count,
            window.line_count <= height,
    {
        let within: u128 = elapsed_ms % SPEED_MS;
        let high: u128 = height as u128;
        proof {
            lemma_line_count_bounds(elapsed_ms as nat, height as nat);
            assert(within * high <= 999 * 65535) by (nonlinear_arith)
                requires
                    0 <= within <= 999,
                    0 <= high <= 65535,
            ;
        }
        let line_count: usize = (within * high / SPEED_MS) as usize;
        if count == 0 {
            return Window { offset: 0, line_count, end: 0 };
        }
        let total: u128 = count as u128;
        let index: u128 = (elapsed_ms / SPEED_MS) % total;
        proof {
            lemma_window_within_corpus(elapsed_ms as nat, count as nat, height as nat);
            assert(index * high <= 0xffff_ffff_ffff_ffff * 65535) by (nonlinear_arith)
                requires
                    0 <= index <= 0xffff_ffff_ffff_ffff,
                    0 <= high <= 65535,
            ;
        }
        let offset: usize = ((index * high) % total) as usize;
        let end: usize = if line_count >= count - offset {
            count
        } else {
            offset + line_count
        };
        Window { offset, line_count, end }
    }
}

/// The lines that have arrived never outnumber the rows of the viewport,
/// and do not fill it before the period is over.
pub proof fn lemma_line_count_bounds(elapsed_ms: nat, height: nat)
    ensures
        line_count_at(elapsed_ms, height) <= height,
        height > 0 ==> line_count_at(elapsed_ms, height) < height,
{
    let within = elapsed_ms % (SPEED_MS as nat);
    assert(within * height / 1000 <= height && (height > 0 ==> within * height / 1000 < height))
        by (nonlinear_arith)
        requires
            0 <= within < 1000,
            0 <= height,
    ;
}

/// Over a corpus that is not empty the window starts inside it and ends
/// inside it or at its end.
pub proof fn lemma_window_within_corpus(elapsed_ms: nat, count: nat, height: nat)
    requires
        count > 0,
    ensures
        0 <= offset_at(elapsed_ms, count, height) < count,
        offset_at(elapsed_ms, count, height) <= window_end_at(elapsed_ms, count, height) <= count,
{
}

/// Within one period the number of lines that have arrived never falls.
pub proof fn lemma_line_count_monotone(earlier_ms: nat, later_ms: nat, height: nat)
    requires
        earlier_ms <= later_ms,
        earlier_ms / (SPEED_MS as nat) == later_ms / (SPEED_MS as nat),
    ensures
        line_count_at(earlier_ms, height) <= line_count_at(later_ms, height),
{
    let a = earlier_ms % (SPEED_MS as nat);
    let b = later_ms % (SPEED_MS as nat);
    assert(a <= b);
    assert(a * height / 1000 <= b * height / 1000) by (nonlinear_arith)
        requires
            0 <= a <= b,
            0 <= height,
    ;
}

/// At every period boundary the count of arrived lines is back at 0.
pub proof fn lemma_line_count_resets(periods: nat, height: nat)
    ensures
        line_count_at(periods * (SPEED_MS as nat), height) == 0,
{
    assert((periods * 1000) % 1000 == 0) by (nonlinear_arith);
    assert(0 * height == 0);
}

/// What the log widget draws into a region.
#[derive(Debug)]
pub struct LogView {
    /// The scroll window; its offset and line count go into the title.
    pub window: Window,
    /// The lines inside the window, in order.
    pub lines: Vec<String>,
    /// Milliseconds past the last whole second, for the title.
    pub subsec_millis: u32,
}

/// The log widget: a corpus of lines fixed at construction, and the elapsed
/// time that places the scroll window.
pub struct Log {
    style: Style,
    lines: Vec<String>,
    elapsed_ms: u128,
}

impl Log {
    /// The style given at construction.
    pub closed spec fn spec_style(&self) -> Style {
        self.style
    }

    /// The corpus, line by line.
    pub closed spec fn spec_lines(&self) -> Seq<Seq<char>> {
        self.lines.deep_view()
    }

    /// The elapsed time of the last update.
    pub closed spec fn spec_elapsed_ms(&self) -> u128 {
        self.elapsed_ms
    }

    /// A log over the lines of `files`, taken file after file in the order
    /// given, with no time elapsed.
    pub fn new(style: Style, files: &Vec<String>) -> (log: Log)
        ensures
            log.spec_style() == style,
            log.spec_lines() == corpus_of(files.deep_view()),
            log.spec_elapsed_ms() == 0,
    {
        let mut lines: Vec<String> = Vec::new();
        let mut i: usize = 0;
        proof {
            assert(files.deep_view().subrange(0, 0) == Seq::<Seq<char>>::empty());
            assert(lines.deep_view() == Seq::<Seq<char>>::empty());
        }
        while i < files.len()
            invariant
                i <= files.len(),
                lines.deep_view() == corpus_of(files.deep_view().subrange(0, i as int)),
            decreases files.len() - i,
        {
            let mut more: Vec<String> = split_lines(files[i].as_str());
            let ghost before = lines.deep_view();
            let ghost added = more.deep_view();
            let ghost old_lines = lines@;
            let ghost old_more = more@;
            lines.append(&mut more);
            proof {
                assert(lines@ == old_lines + old_more);
                assert(lines.deep_view() == before + added);
                let upto = files.deep_view().subrange(0, i + 1);
                assert(upto.drop_last() == files.deep_view().subrange(0, i as int));
                assert(upto.last() == files[i as int]@);
            }
            i += 1;
        }
        proof {
            assert(files.deep_view().subrange(0, i as int) == files.deep_view());
        }
        Log { style, lines, elapsed_ms: 0 }
    }

    /// Stores the elapsed time. The corpus stays as it is.
    pub fn update(&mut self, elapsed_ms: u128)
        ensures
            final(self).spec_style() == old(self).spec_style(),
            final(self).spec_lines() == old(self).spec_lines(),
            final(self).spec_elapsed_ms() == elapsed_ms,
    {
        self.elapsed_ms = elapsed_ms;
    }

    /// The style given at construction.
    #[verifier::when_used_as_spec(spec_style)]
    pub fn style(&self) -> (style: Style)
        ensures
            style == self.spec_style(),
    {
        self.style
    }

    /// The corpus, line by line.
    pub fn lines(&self) -> (lines: &Vec<String>)
        ensures
            lines.deep_view() == self.spec_lines(),
    {
        &self.lines
    }

    /// The elapsed time of the last update, in milliseconds.
    #[verifier::when_used_as_spec(spec_elapsed_ms)]
    pub fn elapsed_ms(&self) -> (elapsed: u128)
        ensures
            elapsed == self.spec_elapsed_ms(),
    {
        self.elapsed_ms
    }

    /// Whether `view` is what the log shows in `area`: the scroll window for
    /// the stored elapsed time and the height of `area`, and the lines of
    /// the corpus inside it.
    pub open spec fn shows(&self, area: Region, view: LogView) -> bool {
        &&& view.window == Window::at(
            self.spec_elapsed_ms(),
            self.spec_lines().len() as usize,
            area.height,
        )
        &&& view.lines.deep_view() == self.spec_lines().subrange(
            view.window.offset as int,
            view.window.end as int,
        )
        &&& view.subsec_millis == subsec_millis_of(self.spec_elapsed_ms())
    }

    /// Describes what to draw into `area`. The window never reaches past
    /// the corpus; over an empty corpus it is empty and no line is read.
    pub fn render(&self, area: Region) -> (view: LogView)
        ensures
            self.shows(area, view),
            view.window.offset <= view.window.end <= self.spec_lines().len(),
            self.spec_lines().len() == 0 ==> view.lines.len() == 0,
    {
        let window: Window = Window::new(self.elapsed_ms, self.lines.len(), area.height);
        let mut lines: Vec<String> = Vec::new();
        let mut i: usize = window.offset;
        while i < window.end
            invariant
                window.offset <= i <= window.end <= self.lines.len(),
                lines.len() == i - window.offset,
                forall|k: int| 0 <= k < lines.len() ==> lines[k]@ == self.lines[window.offset + k]@,
            decreases window.end - i,
        {
            lines.push(self.lines[i].clone());
            i += 1;
        }
        proof {
            assert(lines.deep_view() =~= self.lines.deep_view().subrange(
                window.offset as int,
                window.end as int,
            ));
        }
        LogView { window, lines, subsec_millis: subsec_millis(self.elapsed_ms) }
    }
}

} // verus!
