//! The orchestrator: the four widgets and the render loop, as a machine
//! that is told what happened and answers what to do next.

use crate::layout::{Partition, Region};
use crate::widgets::globe::{phase_of, Globe, GlobeView};
use crate::widgets::log::{corpus_of, Log, LogView};
use crate::widgets::stats::{reading_of, recorded, Sample, Stats, StatsView};
use ratatui::style::Style;
use vstd::prelude::*;

verus! {

/// How long one wait for input may last, in milliseconds.
pub const POLL_TIMEOUT_MS: u64 = 80;

/// How far the lower log runs ahead of the upper one, in milliseconds.
pub const LOWER_LOG_LEAD_MS: u128 = 1273;

/// The modifier set of a key event in which the control key alone is held.
pub const CONTROL: u8 = 0b0000_0010;

/// The key of a key event, as far as the loop tells keys apart.
#[derive(Clone, Copy, Debug, PartialEq, Eq, Structural)]
pub enum KeyCode {
    Char(char),
    Other,
}

/// Whether a key went down, is held, or came up.
#[derive(Clone, Copy, Debug, PartialEq, Eq, Structural)]
pub enum KeyKind {
    Press,
    Repeat,
    Release,
}

/// A key event: the key, the modifiers held with it as a set of bits, and
/// its kind.
#[derive(Clone, Copy, Debug, PartialEq, Eq, Structural)]
pub struct Key {
    pub code: KeyCode,
    pub modifiers: u8,
    pub kind: KeyKind,
}

/// Something the terminal reported while the loop waited for input.
#[derive(Clone, Copy, Debug, PartialEq, Eq, Structural)]
pub enum Input {
    Key(Key),
    Other,
}

impl Input {
    /// Whether the input asks the loop to end: `q` pressed, with any
    /// modifiers, or `c` pressed with the control key and no other.
    pub open spec fn is_quit(self) -> bool {
        match self {
            Input::Key(key) => key.kind == KeyKind::Press && (key.code == KeyCode::Char('q') || (
            key.code == KeyCode::Char('c') && key.modifiers == CONTROL)),
            Input::Other => false,
        }
    }
}

/// What happened outside since the last action was handed out.
#[derive(Clone, Copy, Debug, PartialEq, Eq, Structural)]
pub enum Event {
    /// The loop is about to begin.
    Started,
    /// The wait for input is over: an input arrived, or the time ran out.
    Polled(Option<Input>),
    /// The clock was read, and free memory queried; a failed query is
    /// `None`.
    Sampled { elapsed_ms: u128, free_memory: Option<u64> },
    /// The frame was drawn.
    Drawn,
    /// The action could not be carried out: the wait for input, the reading
    /// of the clock or the drawing failed.
    Failed,
}

/// What the loop does next.
#[derive(Clone, Copy, Debug, PartialEq, Eq, Structural)]
pub enum Action {
    /// Wait for input, no longer than the timeout.
    Poll { timeout_ms: u64 },
    /// Read the clock and query free memory.
    Sample,
    /// Draw one frame.
    Draw,
    /// Leave the loop: in good order, or with the failure that was met.
    Stop { failed: bool },
}

/// One frame: the cells of the screen and what each widget draws into its
/// cell.
#[derive(Debug)]
pub struct Frame {
    pub cells: Partition,
    /// The globe, in the top cell of the left column.
    pub globe: GlobeView,
    /// The statistics, in the bottom cell of the left column.
    pub stats: StatsView,
    /// The upper log, in the top cell of the right column.
    pub upper_log: LogView,
    /// The lower log, in the bottom cell of the right column.
    pub lower_log: LogView,
}

/// The dashboard: a globe, the statistics and two logs.
pub struct App {
    globe: Globe,
    stats: Stats,
    upper_log: Log,
    lower_log: Log,
}

impl App {
    /// The globe widget.
    pub closed spec fn spec_globe(&self) -> Globe {
        self.globe
    }

    /// The statistics widget.
    pub closed spec fn spec_stats(&self) -> Stats {
        self.stats
    }

    /// The upper log widget.
    pub closed spec fn spec_upper_log(&self) -> Log {
        self.upper_log
    }

    /// The lower log widget.
    pub closed spec fn spec_lower_log(&self) -> Log {
        self.lower_log
    }

    /// Whether the widgets of `self` are those of `other` after an update
    /// with `elapsed_ms` and a reading of `free_memory`: each holds the
    /// elapsed time, the lower log `LOWER_LOG_LEAD_MS` more, and the history
    /// has recorded the reading.
    pub open spec fn updated_from(
        &self,
        other: &App,
        elapsed_ms: u128,
        free_memory: Option<u64>,
    ) -> bool {
        &&& self.spec_globe().spec_style() == other.spec_globe().spec_style()
        &&& self.spec_globe().spec_elapsed_ms() == elapsed_ms
        &&& self.spec_globe().spec_phase_ms() == phase_of(elapsed_ms as int)
        &&& self.spec_stats().spec_style() == other.spec_stats().spec_style()
        &&& self.spec_stats().spec_elapsed_ms() == elapsed_ms
        &&& self.spec_stats().spec_history() == recorded(
            other.spec_stats().spec_history(),
            reading_of(free_memory),
        )
        &&& self.spec_upper_log().spec_style() == other.spec_upper_log().spec_style()
        &&& self.spec_upper_log().spec_lines() == other.spec_upper_log().spec_lines()
        &&& self.spec_upper_log().spec_elapsed_ms() == elapsed_ms
        &&& self.spec_lower_log().spec_style() == other.spec_lower_log().spec_style()
        &&& self.spec_lower_log().spec_lines() == other.spec_lower_log().spec_lines()
        &&& self.spec_lower_log().spec_elapsed_ms() == elapsed_ms + LOWER_LOG_LEAD_MS
    }

    /// A dashboard with no time elapsed. Both logs are drawn with `style`,
    /// as are the globe and the statistics; the upper log scrolls through
    /// the lines of `upper`, the lower one through those of `lower`.
    pub fn new(style: Style, upper: &Vec<String>, lower: &Vec<String>) -> (app: App)
        ensures
            app.spec_globe().spec_style() == style,
            app.spec_globe().spec_elapsed_ms() == 0,
            app.spec_globe().spec_phase_ms() == 0,
            app.spec_stats().spec_style() == style,
            app.spec_stats().spec_elapsed_ms() == 0,
            app.spec_stats().spec_history() == Seq::<u64>::empty(),
            app.spec_upper_log().spec_style() == style,
            app.spec_upper_log().spec_lines() == corpus_of(upper.deep_view()),
            app.spec_upper_log().spec_elapsed_ms() == 0,
            app.spec_lower_log().spec_style() == style,
            app.spec_lower_log().spec_lines() == corpus_of(lower.deep_view()),
            app.spec_lower_log().spec_elapsed_ms() == 0,
    {
        App {
            globe: Globe::new(style),
            stats: Stats::new(style),
            upper_log: Log::new(style, upper),
            lower_log: Log::new(style, lower),
        }
    }

    /// Whether the loop goes on after a wait for input that ended with
    /// `polled`: it does unless an input arrived that asks it to end.
    pub fn handle_events(polled: Option<Input>) -> (proceed: bool)
        ensures
            proceed == !(polled matches Some(input) && input.is_quit()),
    {
        match polled {
            Some(Input::Key(key)) => {
                let pressed: bool = match key.kind {
                    KeyKind::Press => true,
                    _ => false,
                };
                let quits: bool = match key.code {
                    KeyCode::Char(c) => c == 'q' || (c == 'c' && key.modifiers == CONTROL),
                    KeyCode::Other => false,
                };
                !(pressed && quits)
            },
            _ => true,
        }
    }

    /// One step of the render loop: takes what happened and says what to do
    /// next.
    ///
    /// The loop begins with a wait for input. An input that asks it to end
    /// stops it in good order; after any other, or none, the clock is read.
    /// The reading updates every widget and is followed by one frame, and
    /// the frame by the next wait. A failure stops the loop at once. Only
    /// a reading of the clock changes the widgets.
    pub fn run(&mut self, event: Event) -> (action: Action)
        requires
            event matches Event::Sampled { elapsed_ms, .. } ==> elapsed_ms + LOWER_LOG_LEAD_MS
                <= u128::MAX,
        ensures
            action == match event {
                Event::Started => (Action::Poll { timeout_ms: POLL_TIMEOUT_MS }),
                Event::Polled(polled) => if polled matches Some(input) && input.is_quit() {
                    Action::Stop { failed: false }
                } else {
                    Action::Sample
                },
                Event::Sampled { .. } => Action::Draw,
                Event::Drawn => (Action::Poll { timeout_ms: POLL_TIMEOUT_MS }),
                Event::Failed => (Action::Stop { failed: true }),
            },
            match event {
                Event::Sampled { elapsed_ms, free_memory } => final(self).updated_from(
                    old(self),
                    elapsed_ms,
                    free_memory,
                ),
                _ => *final(self) == *old(self),
            },
    {
        match event {
            Event::Started => Action::Poll { timeout_ms: POLL_TIMEOUT_MS },
            Event::Polled(polled) => {
                if App::handle_events(polled) {
                    Action::Sample
                } else {
                    Action::Stop { failed: false }
                }
            },
            Event::Sampled { elapsed_ms, free_memory } => {
                self.globe.update(elapsed_ms);
                self.stats.update(elapsed_ms, free_memory);
                self.upper_log.update(elapsed_ms);
                self.lower_log.update(elapsed_ms + LOWER_LOG_LEAD_MS);
                Action::Draw
            },
            Event::Drawn => Action::Poll { timeout_ms: POLL_TIMEOUT_MS },
            Event::Failed => Action::Stop { failed: true },
        }
    }

    /// One frame for a terminal of the size of `area`: the partition of
    /// `area`, and what each widget draws into its cell. The statistics are
    /// drawn from `sample`, which is to be taken anew for every frame.
    pub fn draw(&self, area: Region, sample: &Sample) -> (frame: Frame)
        requires
            area.wf(),
        ensures
            frame.cells == Partition::of(area),
            frame.cells.tiles(area),
            frame.globe == self.spec_globe().view_in(frame.cells.left_top),
            frame.globe.square.inside(frame.cells.left_top),
            self.spec_stats().shows(frame.cells.left_bottom, *sample, frame.stats),
            self.spec_upper_log().shows(frame.cells.right_top, frame.upper_log),
            self.spec_lower_log().shows(frame.cells.right_bottom, frame.lower_log),
    {
        let cells: Partition = Partition::new(area);
        Frame {
            cells,
            globe: self.globe.render(cells.left_top),
            stats: self.stats.render(cells.left_bottom, sample),
            upper_log: self.upper_log.render(cells.right_top),
            lower_log: self.lower_log.render(cells.right_bottom),
        }
    }

    /// The globe widget.
    pub fn globe(&self) -> (globe: &Globe)
        ensures
            *globe == self.spec_globe(),
    {
        &self.globe
    }

    /// The statistics widget.
    pub fn stats(&self) -> (stats: &Stats)
        ensures
            *stats == self.spec_stats(),
    {
        &self.stats
    }

    /// The upper log widget.
    pub fn upper_log(&self) -> (log: &Log)
        ensures
            *log == self.spec_upper_log(),
    {
        &self.upper_log
    }

    /// The lower log widget.
    pub fn lower_log(&self) -> (log: &Log)
        ensures
            *log == self.spec_lower_log(),
    {
        &self.lower_log
    }
}

} // verus!
