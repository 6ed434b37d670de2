//! Closed vocabularies describing track elements and simulation operating
//! modes.  These are inert data definitions with no behavior of their own.

use vstd::prelude::*;

verus! {

/// Top-level operating mode of the simulation.
#[derive(Debug, PartialEq, Eq, Hash)]
pub enum Level1Mode {
    BaseMode,
    TrackMode,
    PrefDirMode,
    OperMode,
    RestartSessionOperMode,
    TimetableMode,
}

/// Sub-mode while the simulation is operating.
#[derive(Debug, PartialEq, Eq, Hash)]
pub enum Level2OperMode {
    NoOperMode,
    Operating,
    PreStart,
    Paused,
}

/// Kind of a track piece.
#[derive(Debug, PartialEq, Eq, Hash)]
pub enum TrackType {
    Simple,
    Crossover,
    Points,
    Buffers,
    Bridge,
    SignalPost,
    Continuation,
    Platform,
    GapJump,
    FootCrossing,
    Unused,
    Concourse,
    Parapet,
    NamedNonStationLocation,
    Erase,
    LevelCrossing,
}

/// Geometric orientation of a track element on the layout grid.
#[derive(Debug, PartialEq, Eq, Hash)]
pub enum Elements {
    Horizontal,
    Vertical,
    UpRight,
    UpLeft,
    DownRight,
    DownLeft,
    JunctionRightUpRightAngle,
    JunctionLeftUpRightAngle,
    JunctionRightDownRightAngle,
    JunctionLeftDownRightAngle,
    JunctionUpLeftRightAngle,
    JunctionUpRightRightAngle,
    JunctionDownLeftRightAngle,
    JunctionDownRightRightAngle,
    CrossingHorizontalVertical,
    CrossingDiagonalUpDiagonalDown,
    DiagonalUp,
    DiagonalDown,
    DiagonalUpRight,
    RightDiagonalDown,
    DiagonalDownRight,
    RightDiagonalUp,
    UpDiagonalUp,
    UpDiagonalRight,
    DownDiagonalRight,
    DownDiagonalLeft,
}

} // verus!
