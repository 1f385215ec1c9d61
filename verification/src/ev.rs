//! Domain events: the discrete user intents the input translator produces
//! and the frame driver dispatches, one handler mutation each.

use vstd::prelude::*;
use crate::geometry::Position;

verus! {

/// A translated user intent, distinct from raw input.
#[derive(Clone, Copy, Debug, PartialEq, Eq, Structural)]
pub enum Event {
    CamUp,
    CamDown,
    CamLeft,
    CamRight,
    CamReset,
    NextLight,
    PrevLight,
    NextBackground,
    PrevBackground,
    Reload,
    AppQuit,
    MoveLight(Position),
    NewMinion(Position),
    NewResource(Position),
}

} // verus!
