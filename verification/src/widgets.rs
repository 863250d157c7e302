//! The animated widgets. Each keeps the elapsed time it was last updated
//! with and describes, for a region of the screen, what is to be drawn there.

use vstd::prelude::*;

pub mod globe;
pub mod log;
pub mod stats;

pub use globe::Globe;
pub use log::Log;
pub use stats::Stats;

verus! {

/// `ratatui::style::Style`, the colours and modifiers a widget is drawn with.
/// The widgets carry it from their constructor to whoever draws them and
/// never look inside.
#[verifier::external_type_specification]
#[verifier::external_body]
pub struct ExStyle(ratatui::style::Style);

/// Milliseconds in a second.
pub const SECOND_MS: u128 = 1000;

/// The milliseconds of `elapsed_ms` past the last whole second.
pub open spec fn subsec_millis_of(elapsed_ms: u128) -> u32 {
    (elapsed_ms % SECOND_MS) as u32
}

/// The milliseconds of `elapsed_ms` past the last whole second.
pub fn subsec_millis(elapsed_ms: u128) -> (millis: u32)
    ensures
        millis == subsec_millis_of(elapsed_ms),
        millis < 1000,
{
    (elapsed_ms % SECOND_MS) as u32
}

} // verus!
