//! The facade over grid and engine: a cube that accepts turn requests, is
//! ticked once per frame, commits an in-flight turn's permutation the moment
//! its animation completes, and hands the host everything it needs to draw:
//! coordinates, per-direction colors, and the transient angle of the turning
//! layer.

use vstd::prelude::*;

use crate::cubie::Cubie;
use crate::engine::{engine_step, next_angle, RotationEngine, RotationState, FULL_TURN_CENTIDEGREES};
use crate::grid::{axis_comp, axis_component, cubie_at, grid_rotated, idx_of, valid_coord, CubeGrid};
use crate::{Axis, CubeError, Spin};

verus! {

/// The cube: persistent grid state plus the animation state machine. Only a
/// completed turn mutates the grid; everything else reads it.
pub struct RubiksCube {
    pub grid: CubeGrid,
    pub engine: RotationEngine,
}

impl RubiksCube {
    /// Well-formedness of the whole cube.
    pub open spec fn wf(self) -> bool {
        self.grid.wf() && self.engine.wf()
    }

    /// A solved cube with no turn in flight.
    pub fn new() -> (c: RubiksCube)
        ensures
            c.wf(),
            c.grid.is_solved(),
            c.engine.state == RotationState::Idle,
    {
        RubiksCube { grid: CubeGrid::solved(), engine: RotationEngine::new() }
    }

    /// Request a quarter turn of the `(axis, slice)` layer with sense `spin`.
    /// While a turn is in flight the request is rejected with `RotationBusy`
    /// and nothing changes; a slice outside 0..3 is rejected with
    /// `InvalidLayer`. An accepted request only starts the animation: the
    /// grid is not touched until the turn completes.
    pub fn begin_rotate(&mut self, axis: Axis, slice: usize, spin: Spin) -> (r: Result<(), CubeError>)
        requires
            old(self).wf(),
        ensures
            final(self).wf(),
            final(self).grid == old(self).grid,
            !(old(self).engine.state is Idle) ==> r == Err::<(), CubeError>(CubeError::RotationBusy)
                && final(self).engine.state == old(self).engine.state,
            old(self).engine.state is Idle && slice >= 3 ==> r == Err::<(), CubeError>(
                CubeError::InvalidLayer,
            ) && final(self).engine.state == old(self).engine.state,
            old(self).engine.state is Idle && slice < 3 ==> r == Ok::<(), CubeError>(())
                && final(self).engine.state == (RotationState::InProgress {
                axis,
                slice,
                spin,
                elapsed_centidegrees: 0,
            }),
    {
        self.engine.begin(axis, slice, spin)
    }

    /// Advance the animation by a frame of `dt_ms` milliseconds. A negative
    /// frame time is rejected with `InvalidTimeDelta` and changes nothing. A
    /// non-negative one always succeeds: the engine steps forward, and if
    /// this frame completed the in-flight turn, its permutation is committed
    /// to the grid and the engine returns to idle. A tick of zero
    /// milliseconds changes nothing.
    pub fn tick(&mut self, dt_ms: i64) -> (r: Result<(), CubeError>)
        requires
            old(self).wf(),
        ensures
            final(self).wf(),
            dt_ms < 0 ==> r == Err::<(), CubeError>(CubeError::InvalidTimeDelta)
                && final(self).grid@ == old(self).grid@ && final(self).engine.state == old(
                self,
            ).engine.state,
            dt_ms >= 0 ==> r == Ok::<(), CubeError>(()) && final(self).engine.state == engine_step(
                old(self).engine.state,
                dt_ms as int,
            ),
            dt_ms >= 0 ==> match old(self).engine.state {
                RotationState::Idle => final(self).grid@ == old(self).grid@,
                RotationState::InProgress { axis, slice, spin, elapsed_centidegrees } => {
                    if next_angle(elapsed_centidegrees as int, dt_ms as int)
                        == FULL_TURN_CENTIDEGREES as int {
                        grid_rotated(old(self).grid@, final(self).grid@, axis, slice as int, spin)
                    } else {
                        final(self).grid@ == old(self).grid@
                    }
                },
            },
    {
        match self.engine.advance(dt_ms) {
            Err(e) => Err(e),
            Ok(None) => Ok(()),
            Ok(Some((axis, slice, spin))) => {
                match self.grid.commit_rotation(axis, slice, spin) {
                    Ok(()) => Ok(()),
                    Err(e) => Err(e),
                }
            },
        }
    }

    /// The cubie at coordinate `(x, y, z)`.
    pub fn cubie(&self, x: usize, y: usize, z: usize) -> (c: Cubie)
        requires
            self.wf(),
            x < 3,
            y < 3,
            z < 3,
        ensures
            c == cubie_at(self.grid@, x as int, y as int, z as int),
    {
        self.grid.cubie(x, y, z)
    }

    /// One frame's view of all 27 cubies, in slot order of the grid: the
    /// finite sequence a renderer walks once per frame. It never mutates the
    /// cube, so every call restarts it.
    pub fn cubies(&self) -> (v: Vec<Cubie>)
        requires
            self.wf(),
        ensures
            v@.len() == 27,
            forall|x: int, y: int, z: int|
                valid_coord(x, y, z) ==> v@[idx_of(x, y, z)] == #[trigger] cubie_at(
                    self.grid@,
                    x,
                    y,
                    z,
                ),
    {
        let mut v: Vec<Cubie> = Vec::new();
        let mut i: usize = 0;
        while i < 27
            invariant
                i <= 27,
                self.wf(),
                v@.len() == i as int,
                forall|j: int| 0 <= j < i ==> v@[j] == self.grid@[j],
            decreases 27 - i,
        {
            v.push(self.grid.cubies[i]);
            i = i + 1;
        }
        assert forall|x: int, y: int, z: int| valid_coord(x, y, z) implies v@[idx_of(x, y, z)]
            == #[trigger] cubie_at(self.grid@, x, y, z) by {
            assert(0 <= idx_of(x, y, z) < 27);
        }
        v
    }

    /// The current animation state, for rendering the transient transform of
    /// the turning layer.
    pub fn rotation_state(&self) -> (st: RotationState)
        ensures
            st == self.engine.state,
    {
        self.engine.state
    }

    /// Whether the cubie at `(x, y, z)` belongs to the layer of the in-flight
    /// turn, and so renders with the transient rotation added to its resting
    /// transform. With no turn in flight, no cubie does.
    pub fn in_turning_layer(&self, x: usize, y: usize, z: usize) -> (b: bool)
        ensures
            b == (self.engine.state matches RotationState::InProgress { axis, slice, .. }
                && axis_comp(axis, x as int, y as int, z as int) == slice as int),
    {
        match self.engine.state {
            RotationState::Idle => false,
            RotationState::InProgress { axis, slice, .. } => {
                axis_component(axis, x, y, z) == slice
            },
        }
    }
}

} // verus!
