use vstd::prelude::*;

verus! {

/// The phase the game is in. The runtime's scheduler drives the systems of
/// this crate only during `Gameplay`, runs the spawn placement during
/// `MapLoad`, and switches back to `MapLoad` whenever a door requests a
/// level transition.
#[derive(Clone, Copy, PartialEq, Eq, Structural, Hash, Debug)]
pub enum GameState {
    AssetLoading,
    Setup,
    MapLoad,
    Gameplay,
    Pause,
    Menu,
}

/// Animation state of a character's legs.
#[derive(Clone, Copy, PartialEq, Eq, Structural, Hash, Debug)]
pub enum LegState {
    Idle,
    Running,
    Airborne,
}

/// Animation state of a character's upper body.
#[derive(Clone, Copy, PartialEq, Eq, Structural, Hash, Debug)]
pub enum BodyState {
    Idle,
    Running,
    Airborne,
    Shooting,
}

} // verus!
