//! The animation state machine for one in-flight quarter turn. Angles are
//! kept in hundredths of a degree and frame times in whole milliseconds, so
//! the whole machine is exact integer arithmetic: a turn begins at 0, grows
//! by a fixed rate per elapsed millisecond, is clamped at 90 degrees, and the
//! moment it reaches 90 degrees the machine reports completion and returns to
//! idle.

use vstd::prelude::*;

use crate::{Axis, CubeError, Spin};

verus! {

/// A full quarter turn, in hundredths of a degree.
pub const FULL_TURN_CENTIDEGREES: u32 = 9000;

/// Angular speed of the animation, in hundredths of a degree per millisecond:
/// a quarter turn completes in half a second.
pub const CENTIDEGREES_PER_MS: u32 = 18;

/// The frame time at or beyond which a single tick completes a whole quarter
/// turn on its own, in milliseconds.
pub const FULL_TURN_MS: i64 = 500;

/// The animation state: either no turn is in flight, or exactly one is, with
/// the parameters it was begun with and the angle it has swept so far.
#[derive(Clone, Copy, PartialEq, Eq, Structural, Debug)]
pub enum RotationState {
    Idle,
    InProgress { axis: Axis, slice: usize, spin: Spin, elapsed_centidegrees: u32 },
}

/// Well-formedness of a stored animation state: an in-flight turn names a
/// real slice and has swept strictly less than a full quarter turn (a turn
/// that reaches the full angle is committed and cleared within the same
/// tick, so it is never left stored).
pub open spec fn state_wf(st: RotationState) -> bool {
    st matches RotationState::InProgress { slice, elapsed_centidegrees, .. } ==> slice < 3
        && elapsed_centidegrees < FULL_TURN_CENTIDEGREES
}

/// The angle a single frame of `dt` milliseconds contributes, in hundredths
/// of a degree, capped at a full quarter turn.
pub open spec fn angle_gain(dt: int) -> int {
    if dt >= FULL_TURN_MS as int {
        FULL_TURN_CENTIDEGREES as int
    } else {
        CENTIDEGREES_PER_MS as int * dt
    }
}

/// The swept angle after a frame of `dt` milliseconds starting from `e`
/// hundredths of a degree, clamped at a full quarter turn.
pub open spec fn next_angle(e: int, dt: int) -> int {
    if e + angle_gain(dt) >= FULL_TURN_CENTIDEGREES as int {
        FULL_TURN_CENTIDEGREES as int
    } else {
        e + angle_gain(dt)
    }
}

/// The animation state after a tick of `dt` milliseconds: idle stays idle; an
/// in-flight turn sweeps forward, and the machine returns to idle exactly
/// when the swept angle reaches the full quarter turn.
pub open spec fn engine_step(st: RotationState, dt: int) -> RotationState {
    match st {
        RotationState::Idle => RotationState::Idle,
        RotationState::InProgress { axis, slice, spin, elapsed_centidegrees } => {
            if next_angle(elapsed_centidegrees as int, dt) == FULL_TURN_CENTIDEGREES as int {
                RotationState::Idle
            } else {
                RotationState::InProgress {
                    axis,
                    slice,
                    spin,
                    elapsed_centidegrees: next_angle(elapsed_centidegrees as int, dt) as u32,
                }
            }
        },
    }
}

/// Whether a tick of `dt` milliseconds completes the in-flight turn of `st`.
pub open spec fn step_completes(st: RotationState, dt: int) -> bool {
    st matches RotationState::InProgress { elapsed_centidegrees, .. } && next_angle(
        elapsed_centidegrees as int,
        dt,
    ) == FULL_TURN_CENTIDEGREES as int
}

/// Drives one in-flight quarter-turn animation and gates new requests while
/// one is running.
pub struct RotationEngine {
    pub state: RotationState,
}

impl RotationEngine {
    /// Well-formedness: the stored state is well-formed.
    pub open spec fn wf(self) -> bool {
        state_wf(self.state)
    }

    /// A fresh engine with no turn in flight.
    pub fn new() -> (e: RotationEngine)
        ensures
            e.wf(),
            e.state == RotationState::Idle,
    {
        RotationEngine { state: RotationState::Idle }
    }

    /// Request a new turn. Rejected with `RotationBusy` while a turn is in
    /// flight and with `InvalidLayer` for a slice outside 0..3; in both cases
    /// the state is unchanged. Otherwise the turn starts at angle zero with
    /// the given parameters. Nothing here mutates the grid: the turn's
    /// permutation is committed only when the animation completes.
    pub fn begin(&mut self, axis: Axis, slice: usize, spin: Spin) -> (r: Result<(), CubeError>)
        requires
            old(self).wf(),
        ensures
            final(self).wf(),
            !(old(self).state is Idle) ==> r == Err::<(), CubeError>(CubeError::RotationBusy)
                && final(self).state == old(self).state,
            old(self).state is Idle && slice >= 3 ==> r == Err::<(), CubeError>(
                CubeError::InvalidLayer,
            ) && final(self).state == old(self).state,
            old(self).state is Idle && slice < 3 ==> r == Ok::<(), CubeError>(())
                && final(self).state == (RotationState::InProgress {
                axis,
                slice,
                spin,
                elapsed_centidegrees: 0,
            }),
    {
        match self.state {
            RotationState::InProgress { .. } => Err(CubeError::RotationBusy),
            RotationState::Idle => {
                if slice >= 3 {
                    Err(CubeError::InvalidLayer)
                } else {
                    self.state = RotationState::InProgress {
                        axis,
                        slice,
                        spin,
                        elapsed_centidegrees: 0,
                    };
                    Ok(())
                }
            },
        }
    }

    /// Advance the animation by a frame of `dt_ms` milliseconds. A negative
    /// frame time is rejected with `InvalidTimeDelta` and corrupts nothing.
    /// Otherwise the state becomes `engine_step` of the old state, and the
    /// call reports `Some` of the recorded turn parameters exactly when this
    /// frame completed the turn, so the caller can commit the permutation.
    pub fn advance(&mut self, dt_ms: i64) -> (r: Result<Option<(Axis, usize, Spin)>, CubeError>)
        requires
            old(self).wf(),
        ensures
            final(self).wf(),
            dt_ms < 0 ==> r == Err::<Option<(Axis, usize, Spin)>, CubeError>(
                CubeError::InvalidTimeDelta,
            ) && final(self).state == old(self).state,
            dt_ms >= 0 ==> final(self).state == engine_step(old(self).state, dt_ms as int),
            dt_ms >= 0 ==> match old(self).state {
                RotationState::Idle => r == Ok::<Option<(Axis, usize, Spin)>, CubeError>(None),
                RotationState::InProgress { axis, slice, spin, elapsed_centidegrees } => {
                    if next_angle(elapsed_centidegrees as int, dt_ms as int)
                        == FULL_TURN_CENTIDEGREES as int {
                        r == Ok::<Option<(Axis, usize, Spin)>, CubeError>(Some((axis, slice, spin)))
                    } else {
                        r == Ok::<Option<(Axis, usize, Spin)>, CubeError>(None)
                    }
                },
            },
    {
        if dt_ms < 0 {
            return Err(CubeError::InvalidTimeDelta);
        }
        match self.state {
            RotationState::Idle => Ok(None),
            RotationState::InProgress { axis, slice, spin, elapsed_centidegrees } => {
                let gain: u32 = if dt_ms >= FULL_TURN_MS {
                    FULL_TURN_CENTIDEGREES
                } else {
                    CENTIDEGREES_PER_MS * (dt_ms as u32)
                };
                let mut swept: u32 = elapsed_centidegrees + gain;
                if swept >= FULL_TURN_CENTIDEGREES {
                    swept = FULL_TURN_CENTIDEGREES;
                }
                if swept == FULL_TURN_CENTIDEGREES {
                    self.state = RotationState::Idle;
                    Ok(Some((axis, slice, spin)))
                } else {
                    self.state = RotationState::InProgress {
                        axis,
                        slice,
                        spin,
                        elapsed_centidegrees: swept,
                    };
                    Ok(None)
                }
            },
        }
    }
}

} // verus!
