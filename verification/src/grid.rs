//! The 3x3x3 arrangement of cubies: layer selection and the quarter-turn
//! permutation that moves every cubie of a layer to its rotated slot while
//! relabeling its facelet colors with the same rotation parameter.

use vstd::prelude::*;

use crate::color::{Color, Direction};
use crate::cubie::{relabel, relabel_spec, rotated_dir_spec, Cubie};
use crate::{Axis, CubeError, Spin};

verus! {

/// Whether `(x, y, z)` is a grid coordinate: every component lies in 0..3.
pub open spec fn valid_coord(x: int, y: int, z: int) -> bool {
    0 <= x < 3 && 0 <= y < 3 && 0 <= z < 3
}

/// The slot of coordinate `(x, y, z)` in the flat cubie array.
pub open spec fn idx_of(x: int, y: int, z: int) -> int {
    x + 3 * y + 9 * z
}

/// The cubie a flat array `g` holds at coordinate `(x, y, z)`.
pub open spec fn cubie_at(g: Seq<Cubie>, x: int, y: int, z: int) -> Cubie {
    g[idx_of(x, y, z)]
}

/// The component of `(x, y, z)` along `axis`.
pub open spec fn axis_comp(axis: Axis, x: int, y: int, z: int) -> int {
    match axis {
        Axis::X => x,
        Axis::Y => y,
        Axis::Z => z,
    }
}

/// Whether coordinate `(x, y, z)` belongs to the layer selected by
/// `(axis, slice)`: its component along `axis` equals `slice`.
pub open spec fn in_layer(axis: Axis, slice: int, x: int, y: int, z: int) -> bool {
    axis_comp(axis, x, y, z) == slice
}

/// The coordinate that `(x, y, z)` moves to under a 90-degree rotation of
/// sense `spin` about `axis`: the two components orthogonal to the axis are
/// recentered about the cube's middle, rotated by `(u, v) -> (v, -u)` for the
/// positive sense (the inverse map for the negative sense), and recentered
/// back, which turns `(u, v)` into `(v, 2 - u)`.
pub open spec fn rotated_coord(axis: Axis, spin: Spin, x: int, y: int, z: int) -> (int, int, int) {
    match axis {
        Axis::X => match spin {
            Spin::Pos => (x, z, 2 - y),
            Spin::Neg => (x, 2 - z, y),
        },
        Axis::Y => match spin {
            Spin::Pos => (2 - z, y, x),
            Spin::Neg => (z, y, 2 - x),
        },
        Axis::Z => match spin {
            Spin::Pos => (y, 2 - x, z),
            Spin::Neg => (2 - y, x, z),
        },
    }
}

/// The coordinate that `(x, y, z)` moves to under a 90-degree rotation of
/// sense `spin` about `axis`.
pub fn rotate_coord(axis: Axis, spin: Spin, x: usize, y: usize, z: usize) -> (r: (usize, usize, usize))
    requires
        x < 3,
        y < 3,
        z < 3,
    ensures
        (r.0 as int, r.1 as int, r.2 as int) == rotated_coord(axis, spin, x as int, y as int, z as int),
        r.0 < 3,
        r.1 < 3,
        r.2 < 3,
{
    match (axis, spin) {
        (Axis::X, Spin::Pos) => (x, z, 2 - y),
        (Axis::X, Spin::Neg) => (x, 2 - z, y),
        (Axis::Y, Spin::Pos) => (2 - z, y, x),
        (Axis::Y, Spin::Neg) => (z, y, 2 - x),
        (Axis::Z, Spin::Pos) => (y, 2 - x, z),
        (Axis::Z, Spin::Neg) => (2 - y, x, z),
    }
}

/// The component of `(x, y, z)` along `axis`.
pub fn axis_component(axis: Axis, x: usize, y: usize, z: usize) -> (r: usize)
    ensures
        r as int == axis_comp(axis, x as int, y as int, z as int),
{
    match axis {
        Axis::X => x,
        Axis::Y => y,
        Axis::Z => z,
    }
}

/// The `i`-th coordinate, for `i` in 0..9, of the layer selected by
/// `(axis, slice)`: the component along the axis is pinned to `slice` and the
/// two orthogonal components sweep 0..3 in row-major order.
pub open spec fn layer_coord(axis: Axis, slice: int, i: int) -> (int, int, int) {
    match axis {
        Axis::X => (slice, i / 3, i % 3),
        Axis::Y => (i / 3, slice, i % 3),
        Axis::Z => (i / 3, i % 3, slice),
    }
}

/// The nine coordinates of the layer selected by `(axis, slice)`: exactly
/// those whose component along `axis` equals `slice`, in row-major order of
/// the two orthogonal components. A slice outside 0..3 selects no layer and
/// is rejected.
pub fn select_layer(axis: Axis, slice: usize) -> (r: Result<Vec<(usize, usize, usize)>, CubeError>)
    ensures
        slice < 3 ==> (r matches Ok(v) && v@.len() == 9 && forall|i: int|
            0 <= i < 9 ==> ((#[trigger] v@[i]).0 as int, v@[i].1 as int, v@[i].2 as int)
                == layer_coord(axis, slice as int, i)),
        slice >= 3 ==> r == Err::<Vec<(usize, usize, usize)>, CubeError>(CubeError::InvalidLayer),
{
    if slice >= 3 {
        return Err(CubeError::InvalidLayer);
    }
    let mut v: Vec<(usize, usize, usize)> = Vec::new();
    let mut u: usize = 0;
    while u < 3
        invariant
            u <= 3,
            slice < 3,
            v@.len() == 3 * u as int,
            forall|i: int|
                0 <= i < v@.len() ==> ((#[trigger] v@[i]).0 as int, v@[i].1 as int, v@[i].2 as int)
                    == layer_coord(axis, slice as int, i),
        decreases 3 - u,
    {
        let mut w: usize = 0;
        while w < 3
            invariant
                w <= 3,
                u < 3,
                slice < 3,
                v@.len() == 3 * u as int + w as int,
                forall|i: int|
                    0 <= i < v@.len() ==> ((#[trigger] v@[i]).0 as int, v@[i].1 as int, v@[i].2
                        as int) == layer_coord(axis, slice as int, i),
            decreases 3 - w,
        {
            let c: (usize, usize, usize) = match axis {
                Axis::X => (slice, u, w),
                Axis::Y => (u, slice, w),
                Axis::Z => (u, w, slice),
            };
            v.push(c);
            proof {
                vstd::arithmetic::div_mod::lemma_fundamental_div_mod_converse(
                    3 * u as int + w as int,
                    3,
                    u as int,
                    w as int,
                );
            }
            w = w + 1;
        }
        u = u + 1;
    }
    Ok(v)
}

/// The color shown at slot `(x, y, z, d)`: the facelet of the cubie at
/// coordinate `(x, y, z)` pointing in direction `d`.
pub open spec fn slot_color(g: Seq<Cubie>, x: int, y: int, z: int, d: Direction) -> Color {
    cubie_at(g, x, y, z).color_spec(d)
}

/// Whether the facelet at slot `(x, y, z, d)` lies on the cube's shell: the
/// coordinate's component along `d` sits at the outer extreme, so the facelet
/// is visible from outside.
pub open spec fn exposed(x: int, y: int, z: int, d: Direction) -> bool {
    match d {
        Direction::PosX => x == 2,
        Direction::NegX => x == 0,
        Direction::PosY => y == 2,
        Direction::NegY => y == 0,
        Direction::PosZ => z == 2,
        Direction::NegZ => z == 0,
    }
}

/// The direction of shell face `f`, for `f` in 0..6.
pub open spec fn face_dir(f: int) -> Direction {
    if f == 0 {
        Direction::PosX
    } else if f == 1 {
        Direction::NegX
    } else if f == 2 {
        Direction::PosY
    } else if f == 3 {
        Direction::NegY
    } else if f == 4 {
        Direction::PosZ
    } else {
        Direction::NegZ
    }
}

/// The `i`-th slot of the cube's shell, for `i` in 0..54: nine slots per
/// face, the two sweeping components in row-major order.
pub open spec fn shell_slot(i: int) -> (int, int, int, Direction) {
    let u = (i % 9) / 3;
    let w = (i % 9) % 3;
    match face_dir(i / 9) {
        Direction::PosX => (2, u, w, Direction::PosX),
        Direction::NegX => (0, u, w, Direction::NegX),
        Direction::PosY => (u, 2, w, Direction::PosY),
        Direction::NegY => (u, 0, w, Direction::NegY),
        Direction::PosZ => (u, w, 2, Direction::PosZ),
        Direction::NegZ => (u, w, 0, Direction::NegZ),
    }
}

/// The shell index of an exposed slot: the inverse of `shell_slot`.
pub open spec fn shell_index(x: int, y: int, z: int, d: Direction) -> int {
    match d {
        Direction::PosX => y * 3 + z,
        Direction::NegX => 9 + y * 3 + z,
        Direction::PosY => 18 + x * 3 + z,
        Direction::NegY => 27 + x * 3 + z,
        Direction::PosZ => 36 + x * 3 + y,
        Direction::NegZ => 45 + x * 3 + y,
    }
}

/// The colors shown on the cube's shell, one entry per shell slot.
pub open spec fn shell_colors(g: Seq<Cubie>) -> Seq<Color> {
    Seq::new(
        54,
        |i: int|
            slot_color(g, shell_slot(i).0, shell_slot(i).1, shell_slot(i).2, shell_slot(i).3),
    )
}

/// Where the facelet at slot `(x, y, z, d)` sits after a quarter turn of the
/// `(axis, slice)` layer with sense `spin`: slots of the turned layer rotate
/// with it, all other slots stay put.
pub open spec fn slot_image(
    axis: Axis,
    slice: int,
    spin: Spin,
    x: int,
    y: int,
    z: int,
    d: Direction,
) -> (int, int, int, Direction) {
    if in_layer(axis, slice, x, y, z) {
        (
            rotated_coord(axis, spin, x, y, z).0,
            rotated_coord(axis, spin, x, y, z).1,
            rotated_coord(axis, spin, x, y, z).2,
            rotated_dir_spec(axis, spin, d),
        )
    } else {
        (x, y, z, d)
    }
}

/// The cubie that coordinate `(x, y, z)` holds after a quarter turn of the
/// `(axis, slice)` layer with sense `spin`, in terms of the grid `g` before
/// the turn: a slot of the turned layer receives the relabeled cubie from the
/// slot that rotates onto it; every other slot is unchanged.
pub open spec fn rotated_cubie_at(
    g: Seq<Cubie>,
    axis: Axis,
    slice: int,
    spin: Spin,
    x: int,
    y: int,
    z: int,
) -> Cubie {
    if in_layer(axis, slice, x, y, z) {
        let s = rotated_coord(axis, spin.flip_spec(), x, y, z);
        relabel_spec(cubie_at(g, s.0, s.1, s.2), axis, spin)
    } else {
        cubie_at(g, x, y, z)
    }
}

/// The full effect of one committed quarter turn: `g1` is `g0` with the
/// `(axis, slice)` layer turned once with sense `spin`.
pub open spec fn grid_rotated(g0: Seq<Cubie>, g1: Seq<Cubie>, axis: Axis, slice: int, spin: Spin) -> bool {
    &&& g0.len() == 27
    &&& g1.len() == 27
    &&& forall|x: int, y: int, z: int|
        valid_coord(x, y, z) ==> #[trigger] cubie_at(g1, x, y, z) == rotated_cubie_at(
            g0,
            axis,
            slice,
            spin,
            x,
            y,
            z,
        )
}

/// The 3x3x3 grid: exactly 27 cubies, addressed by coordinate through the
/// flat slot order of `idx_of`. A rotation permutes slots, never creates or
/// destroys cubies.
pub struct CubeGrid {
    pub cubies: Vec<Cubie>,
}

impl View for CubeGrid {
    type V = Seq<Cubie>;

    open spec fn view(&self) -> Seq<Cubie> {
        self.cubies@
    }
}

impl CubeGrid {
    /// Well-formedness: the grid holds exactly 27 cubies.
    pub open spec fn wf(self) -> bool {
        self.cubies@.len() == 27
    }

    /// Whether every cubie shows the fixed solved-state table.
    pub open spec fn is_solved(self) -> bool {
        forall|x: int, y: int, z: int|
            valid_coord(x, y, z) ==> #[trigger] cubie_at(self@, x, y, z) == Cubie::solved_spec()
    }

    /// A grid in the solved state: all 27 cubies show the solved-state table.
    pub fn solved() -> (g: CubeGrid)
        ensures
            g.wf(),
            g.is_solved(),
    {
        let mut cubies: Vec<Cubie> = Vec::new();
        let mut i: usize = 0;
        while i < 27
            invariant
                i <= 27,
                cubies@.len() == i as int,
                forall|j: int| 0 <= j < i ==> cubies@[j] == Cubie::solved_spec(),
            decreases 27 - i,
        {
            cubies.push(Cubie::solved());
            i = i + 1;
        }
        let g = CubeGrid { cubies };
        assert forall|x: int, y: int, z: int|
            valid_coord(x, y, z) implies #[trigger] cubie_at(g@, x, y, z) == Cubie::solved_spec() by {
            assert(0 <= idx_of(x, y, z) < 27);
        }
        g
    }

    /// The cubie at coordinate `(x, y, z)`.
    pub fn cubie(&self, x: usize, y: usize, z: usize) -> (c: Cubie)
        requires
            self.wf(),
            x < 3,
            y < 3,
            z < 3,
        ensures
            c == cubie_at(self@, x as int, y as int, z as int),
    {
        self.cubies[x + 3 * y + 9 * z]
    }

    /// Whether this grid holds exactly the same cubies, coordinates and
    /// colors, as `other`.
    pub fn same_as(&self, other: &CubeGrid) -> (r: bool)
        requires
            self.wf(),
            other.wf(),
        ensures
            r <==> self@ == other@,
    {
        let mut i: usize = 0;
        while i < 27
            invariant
                i <= 27,
                self.wf(),
                other.wf(),
                forall|j: int| 0 <= j < i ==> self@[j] == other@[j],
            decreases 27 - i,
        {
            let a = self.cubies[i];
            let b = other.cubies[i];
            if a != b {
                return false;
            }
            i = i + 1;
        }
        assert(self@ =~= other@);
        true
    }

    /// Commit one quarter turn of the `(axis, slice)` layer with sense `spin`.
    /// Every cubie of the layer moves to its rotated slot with its facelet
    /// colors relabeled by the same rotation parameter; every other cubie is
    /// unchanged. A slice outside 0..3 is rejected and leaves the grid as it
    /// was.
    pub fn commit_rotation(&mut self, axis: Axis, slice: usize, spin: Spin) -> (r: Result<(), CubeError>)
        requires
            old(self).wf(),
        ensures
            final(self).wf(),
            slice < 3 ==> r == Ok::<(), CubeError>(()) && grid_rotated(
                old(self)@,
                final(self)@,
                axis,
                slice as int,
                spin,
            ),
            slice >= 3 ==> r == Err::<(), CubeError>(CubeError::InvalidLayer) && final(self)@ == old(self)@,
    {
        if slice >= 3 {
            return Err(CubeError::InvalidLayer);
        }
        let ghost g0: Seq<Cubie> = self.cubies@;
        let mut rotated: Vec<Cubie> = Vec::new();
        let mut z: usize = 0;
        while z < 3
            invariant
                z <= 3,
                slice < 3,
                self.cubies@ == g0,
                g0.len() == 27,
                rotated@.len() == 9 * z as int,
                forall|xx: int, yy: int, zz: int|
                    valid_coord(xx, yy, zz) && idx_of(xx, yy, zz) < rotated@.len()
                        ==> #[trigger] cubie_at(rotated@, xx, yy, zz) == rotated_cubie_at(
                        g0,
                        axis,
                        slice as int,
                        spin,
                        xx,
                        yy,
                        zz,
                    ),
            decreases 3 - z,
        {
            let mut y: usize = 0;
            while y < 3
                invariant
                    y <= 3,
                    z < 3,
                    slice < 3,
                    self.cubies@ == g0,
                    g0.len() == 27,
                    rotated@.len() == 9 * z as int + 3 * y as int,
                    forall|xx: int, yy: int, zz: int|
                        valid_coord(xx, yy, zz) && idx_of(xx, yy, zz) < rotated@.len()
                            ==> #[trigger] cubie_at(rotated@, xx, yy, zz) == rotated_cubie_at(
                            g0,
                            axis,
                            slice as int,
                            spin,
                            xx,
                            yy,
                            zz,
                        ),
                decreases 3 - y,
            {
                let mut x: usize = 0;
                while x < 3
                    invariant
                        x <= 3,
                        y < 3,
                        z < 3,
                        slice < 3,
                        self.cubies@ == g0,
                        g0.len() == 27,
                        rotated@.len() == 9 * z as int + 3 * y as int + x as int,
                        forall|xx: int, yy: int, zz: int|
                            valid_coord(xx, yy, zz) && idx_of(xx, yy, zz) < rotated@.len()
                                ==> #[trigger] cubie_at(rotated@, xx, yy, zz) == rotated_cubie_at(
                                g0,
                                axis,
                                slice as int,
                                spin,
                                xx,
                                yy,
                                zz,
                            ),
                    decreases 3 - x,
                {
                    let here = axis_component(axis, x, y, z);
                    let next: Cubie = if here == slice {
                        let s = rotate_coord(axis, spin.flip(), x, y, z);
                        let si: usize = s.0 + 3 * s.1 + 9 * s.2;
                        relabel(&self.cubies[si], axis, spin)
                    } else {
                        self.cubies[x + 3 * y + 9 * z]
                    };
                    let ghost before = rotated@;
                    rotated.push(next);
                    proof {
                        assert(rotated@ == before.push(next));
                        assert(idx_of(x as int, y as int, z as int) == before.len());
                        assert(next == rotated_cubie_at(
                            g0,
                            axis,
                            slice as int,
                            spin,
                            x as int,
                            y as int,
                            z as int,
                        ));
                    }
                    assert forall|xx: int, yy: int, zz: int|
                        valid_coord(xx, yy, zz) && idx_of(xx, yy, zz) < rotated@.len()
                            implies #[trigger] cubie_at(rotated@, xx, yy, zz) == rotated_cubie_at(
                        g0,
                        axis,
                        slice as int,
                        spin,
                        xx,
                        yy,
                        zz,
                    ) by {
                        let i: int = idx_of(xx, yy, zz);
                        if i < before.len() {
                            assert(cubie_at(before, xx, yy, zz) == rotated_cubie_at(
                                g0,
                                axis,
                                slice as int,
                                spin,
                                xx,
                                yy,
                                zz,
                            ));
                            assert(rotated@[i] == before[i]);
                        } else {
                            assert(xx == x as int && yy == y as int && zz == z as int);
                        }
                    }
                    x = x + 1;
                }
                y = y + 1;
            }
            z = z + 1;
        }
        assert forall|xx: int, yy: int, zz: int| valid_coord(xx, yy, zz) implies idx_of(xx, yy, zz)
            < 27 by {}
        self.cubies = rotated;
        Ok(())
    }
}

} // verus!
