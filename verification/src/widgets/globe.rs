//! The rotating globe.

use crate::layout::Region;
use crate::widgets::{subsec_millis, subsec_millis_of};
use ratatui::style::Style;
use vstd::prelude::*;

verus! {

/// Time the globe takes for one full turn, in milliseconds.
pub const PERIOD_MS: u128 = 10000;

/// How far into its turn the globe is after `elapsed_ms`, in milliseconds.
/// The rotation angle is this share of `PERIOD_MS`, taken of a full turn.
pub open spec fn phase_of(elapsed_ms: int) -> int {
    elapsed_ms % (PERIOD_MS as int)
}

/// The side of the largest square that fits a `width` by `height` region.
pub open spec fn side_of(width: u16, height: u16) -> u16 {
    if width < height {
        width
    } else {
        height
    }
}

/// The size of the character canvas asked of the projector.
#[derive(Clone, Copy, Debug, PartialEq, Eq, Structural)]
pub struct CanvasSize {
    pub columns: u16,
    pub rows: u16,
}

/// What the globe widget draws into a region.
#[derive(Clone, Copy, Debug, PartialEq, Eq, Structural)]
pub struct GlobeView {
    /// The square at the region's origin that the canvas rows are copied to.
    pub square: Region,
    /// The canvas to ask for, of the size of the square; `None` when the
    /// square holds no cell.
    pub canvas: Option<CanvasSize>,
    /// Milliseconds past the last whole second, for the title.
    pub subsec_millis: u32,
    /// The rotation, as milliseconds into the current turn.
    pub phase_ms: u32,
}

/// The globe widget: the elapsed time and the rotation derived from it.
pub struct Globe {
    style: Style,
    elapsed_ms: u128,
    phase_ms: u32,
}

impl Globe {
    #[verifier::type_invariant]
    spec fn inv(self) -> bool {
        self.phase_ms == phase_of(self.elapsed_ms as int)
    }

    /// The style given at construction.
    pub closed spec fn spec_style(&self) -> Style {
        self.style
    }

    /// The elapsed time of the last update.
    pub closed spec fn spec_elapsed_ms(&self) -> u128 {
        self.elapsed_ms
    }

    /// The rotation of the last update, as milliseconds into the turn.
    pub closed spec fn spec_phase_ms(&self) -> u32 {
        self.phase_ms
    }

    /// A globe at rest: no time elapsed, no rotation.
    pub fn new(style: Style) -> (globe: Globe)
        ensures
            globe.spec_style() == style,
            globe.spec_elapsed_ms() == 0,
            globe.spec_phase_ms() == 0,
    {
        Globe { style, elapsed_ms: 0, phase_ms: 0 }
    }

    /// Stores the elapsed time and turns the globe to where it stands then.
    pub fn update(&mut self, elapsed_ms: u128)
        ensures
            final(self).spec_style() == old(self).spec_style(),
            final(self).spec_elapsed_ms() == elapsed_ms,
            final(self).spec_phase_ms() == phase_of(elapsed_ms as int),
    {
        let phase: u32 = (elapsed_ms % PERIOD_MS) as u32;
        *self = Globe { style: self.style, elapsed_ms, phase_ms: phase };
    }

    /// The style given at construction.
    #[verifier::when_used_as_spec(spec_style)]
    pub fn style(&self) -> (style: Style)
        ensures
            style == self.spec_style(),
    {
        self.style
    }

    /// The elapsed time of the last update, in milliseconds.
    #[verifier::when_used_as_spec(spec_elapsed_ms)]
    pub fn elapsed_ms(&self) -> (elapsed: u128)
        ensures
            elapsed == self.spec_elapsed_ms(),
    {
        self.elapsed_ms
    }

    /// The rotation as milliseconds into the current turn: always the
    /// elapsed time modulo the period.
    #[verifier::when_used_as_spec(spec_phase_ms)]
    pub fn phase_ms(&self) -> (phase: u32)
        ensures
            phase == self.spec_phase_ms(),
            phase == phase_of(self.spec_elapsed_ms() as int),
            phase < PERIOD_MS,
    {
        proof {
            use_type_invariant(self);
        }
        self.phase_ms
    }

    /// What the globe shows in `area`: the largest square that fits at its
    /// origin, a canvas of the size of that square, and the numbers for the
    /// title. A region without a cell gets no canvas.
    pub open spec fn view_in(&self, area: Region) -> GlobeView {
        let side = side_of(area.width, area.height);
        GlobeView {
            square: Region { x: area.x, y: area.y, width: side, height: side },
            canvas: if side == 0 {
                None
            } else {
                Some(CanvasSize { columns: side, rows: side })
            },
            subsec_millis: subsec_millis_of(self.spec_elapsed_ms()),
            phase_ms: phase_of(self.spec_elapsed_ms() as int) as u32,
        }
    }

    /// Describes what to draw into `area`. The square lies inside `area`,
    /// and the canvas, where there is one, is as wide and as high as the
    /// square, so that its rows fill the square and nothing else.
    pub fn render(&self, area: Region) -> (view: GlobeView)
        ensures
            view == self.view_in(area),
            view.square.inside(area),
            view.canvas matches Some(size) ==> size.columns == view.square.width && size.rows
                == view.square.height,
            area.wf() ==> view.square.wf(),
    {
        proof {
            use_type_invariant(self);
        }
        let side: u16 = if area.width < area.height { area.width } else { area.height };
        let canvas: Option<CanvasSize> = if side == 0 {
            None
        } else {
            Some(CanvasSize { columns: side, rows: side })
        };
        GlobeView {
            square: Region { x: area.x, y: area.y, width: side, height: side },
            canvas,
            subsec_millis: subsec_millis(self.elapsed_ms),
            phase_ms: self.phase_ms,
        }
    }
}

/// The square that the globe is drawn into never leaves its region, and a
/// canvas of its size never leaves the square: whatever the region, no cell
/// outside it is written.
pub proof fn lemma_globe_stays_inside(globe: Globe, area: Region)
    ensures
        globe.view_in(area).square.inside(area),
        globe.view_in(area).canvas matches Some(size) ==> size.columns <= area.width && size.rows
            <= area.height,
        globe.view_in(area).canvas is None <==> area.width == 0 || area.height == 0,
{
}

/// The rotation never reaches a full turn: the phase lies in
/// `[0, PERIOD_MS)`, and so the angle, the same share of a full turn, lies
/// between zero and a full turn.
pub proof fn lemma_phase_within_turn(elapsed_ms: nat)
    ensures
        0 <= phase_of(elapsed_ms as int) < PERIOD_MS,
{
}

/// The rotation repeats with the period: any number of whole periods later
/// the globe stands where it stood.
pub proof fn lemma_phase_periodic(elapsed_ms: nat, periods: nat)
    ensures
        phase_of(elapsed_ms + periods * PERIOD_MS) == phase_of(elapsed_ms as int),
{
    vstd::arithmetic::div_mod::lemma_mod_multiples_vanish(
        periods as int,
        elapsed_ms as int,
        PERIOD_MS as int,
    );
}

} // verus!
