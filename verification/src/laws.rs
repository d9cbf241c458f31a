//! The general laws of the cube model, stated once over the spec-level model
//! and proved for every grid and every turn: closure of a repeated quarter
//! turn, the inverse law, conservation of facelet colors, and monotonicity of
//! the turn animation.

use vstd::prelude::*;

use vstd::arithmetic::div_mod::{
    lemma_div_denominator, lemma_fundamental_div_mod, lemma_fundamental_div_mod_converse,
    lemma_mod_bound,
};

use crate::color::Direction;
use crate::cubie::{relabel_spec, rotated_dir_spec, Cubie};
use crate::engine::{engine_step, next_angle, state_wf, RotationState, FULL_TURN_CENTIDEGREES};
use crate::grid::{
    cubie_at, exposed, grid_rotated, idx_of, in_layer, rotated_coord, rotated_cubie_at,
    shell_colors, shell_index, shell_slot, slot_color, slot_image, valid_coord,
};
use crate::{Axis, Spin};

verus! {

/// Every slot index of the flat cubie array is reached by exactly one grid
/// coordinate: the one made of its base-3 digits.
proof fn lemma_index_coords(i: int)
    requires
        0 <= i < 27,
    ensures
        valid_coord(i % 3, (i / 3) % 3, i / 9),
        idx_of(i % 3, (i / 3) % 3, i / 9) == i,
{
    lemma_fundamental_div_mod(i, 3);
    lemma_fundamental_div_mod(i / 3, 3);
    lemma_fundamental_div_mod(i, 9);
    lemma_mod_bound(i, 3);
    lemma_mod_bound(i / 3, 3);
    lemma_mod_bound(i, 9);
    lemma_div_denominator(i, 3, 3);
}

/// Two grids that agree on every coordinate are the same grid.
proof fn lemma_grids_pointwise_equal(a: Seq<Cubie>, b: Seq<Cubie>)
    requires
        a.len() == 27,
        b.len() == 27,
        forall|x: int, y: int, z: int|
            valid_coord(x, y, z) ==> #[trigger] cubie_at(a, x, y, z) == cubie_at(b, x, y, z),
    ensures
        a == b,
{
    assert forall|i: int| 0 <= i < 27 implies a[i] == b[i] by {
        lemma_index_coords(i);
        assert(cubie_at(a, i % 3, (i / 3) % 3, i / 9) == cubie_at(b, i % 3, (i / 3) % 3, i / 9));
    }
    assert(a =~= b);
}

/// Relabeling for a quarter turn and then for the opposite one restores the
/// cubie's facelet assignment.
proof fn lemma_relabel_flip(c: Cubie, axis: Axis, spin: Spin)
    ensures
        relabel_spec(relabel_spec(c, axis, spin), axis, spin.flip_spec()) == c,
{
}

/// Relabeling four times for the same quarter turn restores the cubie's
/// facelet assignment.
proof fn lemma_relabel_four(c: Cubie, axis: Axis, spin: Spin)
    ensures
        relabel_spec(
            relabel_spec(relabel_spec(relabel_spec(c, axis, spin), axis, spin), axis, spin),
            axis,
            spin,
        ) == c,
{
}

/// A quarter turn of a cubie moves the color it shows in direction `d` to the
/// rotated direction.
proof fn lemma_relabel_transport(c: Cubie, axis: Axis, spin: Spin, d: Direction)
    ensures
        relabel_spec(c, axis, spin).color_spec(rotated_dir_spec(axis, spin, d)) == c.color_spec(d),
{
}

/// Rotating a coordinate and then rotating it back with the opposite sense
/// restores it.
proof fn lemma_coord_roundtrip(axis: Axis, spin: Spin, x: int, y: int, z: int)
    ensures
        rotated_coord(
            axis,
            spin.flip_spec(),
            rotated_coord(axis, spin, x, y, z).0,
            rotated_coord(axis, spin, x, y, z).1,
            rotated_coord(axis, spin, x, y, z).2,
        ) == (x, y, z),
{
}

/// Rotating a direction and then rotating it back with the opposite sense
/// restores it.
proof fn lemma_dir_roundtrip(axis: Axis, spin: Spin, d: Direction)
    ensures
        rotated_dir_spec(axis, spin.flip_spec(), rotated_dir_spec(axis, spin, d)) == d,
{
}

/// The coordinate map of a quarter turn keeps a coordinate inside the grid,
/// keeps it inside or outside the turned layer, and is undone by the
/// opposite sense.
proof fn lemma_coord_map_props(axis: Axis, slice: int, spin: Spin, x: int, y: int, z: int)
    requires
        valid_coord(x, y, z),
    ensures
        valid_coord(
            rotated_coord(axis, spin, x, y, z).0,
            rotated_coord(axis, spin, x, y, z).1,
            rotated_coord(axis, spin, x, y, z).2,
        ),
        in_layer(axis, slice, x, y, z) <==> in_layer(
            axis,
            slice,
            rotated_coord(axis, spin, x, y, z).0,
            rotated_coord(axis, spin, x, y, z).1,
            rotated_coord(axis, spin, x, y, z).2,
        ),
        rotated_coord(
            axis,
            spin.flip_spec(),
            rotated_coord(axis, spin, x, y, z).0,
            rotated_coord(axis, spin, x, y, z).1,
            rotated_coord(axis, spin, x, y, z).2,
        ) == (x, y, z),
{
}

/// The slot map of a quarter turn lands on the cube's shell exactly when it
/// started there.
proof fn lemma_exposure_preserved(axis: Axis, spin: Spin, x: int, y: int, z: int, d: Direction)
    ensures
        exposed(
            rotated_coord(axis, spin, x, y, z).0,
            rotated_coord(axis, spin, x, y, z).1,
            rotated_coord(axis, spin, x, y, z).2,
            rotated_dir_spec(axis, spin, d),
        ) <==> exposed(x, y, z, d),
{
}

/// One facelet of the turned layer lands on its rotated slot with its color.
proof fn lemma_slot_transport(
    g0: Seq<Cubie>,
    g1: Seq<Cubie>,
    axis: Axis,
    slice: int,
    spin: Spin,
    x: int,
    y: int,
    z: int,
    d: Direction,
)
    requires
        grid_rotated(g0, g1, axis, slice, spin),
        valid_coord(x, y, z),
        in_layer(axis, slice, x, y, z),
    ensures
        slot_color(
            g1,
            rotated_coord(axis, spin, x, y, z).0,
            rotated_coord(axis, spin, x, y, z).1,
            rotated_coord(axis, spin, x, y, z).2,
            rotated_dir_spec(axis, spin, d),
        ) == slot_color(g0, x, y, z, d),
{
    let t = rotated_coord(axis, spin, x, y, z);
    lemma_coord_map_props(axis, slice, spin, x, y, z);
    assert(cubie_at(g1, t.0, t.1, t.2) == rotated_cubie_at(g0, axis, slice, spin, t.0, t.1, t.2));
    lemma_relabel_transport(cubie_at(g0, x, y, z), axis, spin, d);
}

/// One cubie of the turned layer lands, relabeled, on the coordinate its own
/// rotates to.
proof fn lemma_turn_source_at(
    g0: Seq<Cubie>,
    g1: Seq<Cubie>,
    axis: Axis,
    slice: int,
    spin: Spin,
    x: int,
    y: int,
    z: int,
)
    requires
        grid_rotated(g0, g1, axis, slice, spin),
        valid_coord(x, y, z),
        in_layer(axis, slice, x, y, z),
    ensures
        cubie_at(
            g1,
            rotated_coord(axis, spin, x, y, z).0,
            rotated_coord(axis, spin, x, y, z).1,
            rotated_coord(axis, spin, x, y, z).2,
        ) == relabel_spec(cubie_at(g0, x, y, z), axis, spin),
{
    lemma_coord_map_props(axis, slice, spin, x, y, z);
    let t = rotated_coord(axis, spin, x, y, z);
    assert(cubie_at(g1, t.0, t.1, t.2) == rotated_cubie_at(g0, axis, slice, spin, t.0, t.1, t.2));
}

/// A committed quarter turn read from the source side, the way the
/// permutation is usually described: each cubie of the turned layer lands,
/// relabeled with the same rotation parameter, on the coordinate its own
/// rotates to. (That every cubie outside the layer stays put, unchanged, is
/// the out-of-layer case of `grid_rotated` itself.)
pub proof fn lemma_turn_source_form(
    g0: Seq<Cubie>,
    g1: Seq<Cubie>,
    axis: Axis,
    slice: int,
    spin: Spin,
)
    requires
        0 <= slice < 3,
        grid_rotated(g0, g1, axis, slice, spin),
    ensures
        forall|x: int, y: int, z: int|
            #![trigger rotated_coord(axis, spin, x, y, z)]
            valid_coord(x, y, z) && in_layer(axis, slice, x, y, z) ==> cubie_at(
                g1,
                rotated_coord(axis, spin, x, y, z).0,
                rotated_coord(axis, spin, x, y, z).1,
                rotated_coord(axis, spin, x, y, z).2,
            ) == relabel_spec(cubie_at(g0, x, y, z), axis, spin),
{
    assert forall|x: int, y: int, z: int|
        #![trigger rotated_coord(axis, spin, x, y, z)]
        valid_coord(x, y, z) && in_layer(axis, slice, x, y, z) implies cubie_at(
        g1,
        rotated_coord(axis, spin, x, y, z).0,
        rotated_coord(axis, spin, x, y, z).1,
        rotated_coord(axis, spin, x, y, z).2,
    ) == relabel_spec(cubie_at(g0, x, y, z), axis, spin) by {
        lemma_turn_source_at(g0, g1, axis, slice, spin, x, y, z);
    }
}

/// Inverse law: committing a quarter turn of a layer and then the opposite
/// quarter turn of the same layer is the identity on the grid.
pub proof fn lemma_turn_then_inverse_identity(
    g0: Seq<Cubie>,
    g1: Seq<Cubie>,
    g2: Seq<Cubie>,
    axis: Axis,
    slice: int,
    spin: Spin,
)
    requires
        0 <= slice < 3,
        grid_rotated(g0, g1, axis, slice, spin),
        grid_rotated(g1, g2, axis, slice, spin.flip_spec()),
    ensures
        g2 == g0,
{
    assert forall|x: int, y: int, z: int| valid_coord(x, y, z) implies #[trigger] cubie_at(
        g2,
        x,
        y,
        z,
    ) == cubie_at(g0, x, y, z) by {
        assert(cubie_at(g2, x, y, z) == rotated_cubie_at(g1, axis, slice, spin.flip_spec(), x, y, z));
        if in_layer(axis, slice, x, y, z) {
            let t = rotated_coord(axis, spin, x, y, z);
            assert(cubie_at(g1, t.0, t.1, t.2) == rotated_cubie_at(g0, axis, slice, spin, t.0, t.1, t.2));
            lemma_coord_roundtrip(axis, spin, x, y, z);
            lemma_relabel_flip(cubie_at(g0, x, y, z), axis, spin);
        } else {
            assert(cubie_at(g1, x, y, z) == rotated_cubie_at(g0, axis, slice, spin, x, y, z));
        }
    }
    lemma_grids_pointwise_equal(g2, g0);
}

/// Permutation closure: committing the same quarter turn four times over is
/// the identity on the grid.
pub proof fn lemma_four_turns_identity(
    g0: Seq<Cubie>,
    g1: Seq<Cubie>,
    g2: Seq<Cubie>,
    g3: Seq<Cubie>,
    g4: Seq<Cubie>,
    axis: Axis,
    slice: int,
    spin: Spin,
)
    requires
        0 <= slice < 3,
        grid_rotated(g0, g1, axis, slice, spin),
        grid_rotated(g1, g2, axis, slice, spin),
        grid_rotated(g2, g3, axis, slice, spin),
        grid_rotated(g3, g4, axis, slice, spin),
    ensures
        g4 == g0,
{
    assert forall|x: int, y: int, z: int| valid_coord(x, y, z) implies #[trigger] cubie_at(
        g4,
        x,
        y,
        z,
    ) == cubie_at(g0, x, y, z) by {
        assert(cubie_at(g4, x, y, z) == rotated_cubie_at(g3, axis, slice, spin, x, y, z));
        if in_layer(axis, slice, x, y, z) {
            let back = spin.flip_spec();
            let s1 = rotated_coord(axis, back, x, y, z);
            let s2 = rotated_coord(axis, back, s1.0, s1.1, s1.2);
            let s3 = rotated_coord(axis, back, s2.0, s2.1, s2.2);
            assert(cubie_at(g3, s1.0, s1.1, s1.2) == rotated_cubie_at(
                g2,
                axis,
                slice,
                spin,
                s1.0,
                s1.1,
                s1.2,
            ));
            assert(cubie_at(g2, s2.0, s2.1, s2.2) == rotated_cubie_at(
                g1,
                axis,
                slice,
                spin,
                s2.0,
                s2.1,
                s2.2,
            ));
            assert(cubie_at(g1, s3.0, s3.1, s3.2) == rotated_cubie_at(
                g0,
                axis,
                slice,
                spin,
                s3.0,
                s3.1,
                s3.2,
            ));
            assert(rotated_coord(axis, back, s3.0, s3.1, s3.2) == (x, y, z));
            lemma_relabel_four(cubie_at(g0, x, y, z), axis, spin);
        } else {
            assert(cubie_at(g3, x, y, z) == rotated_cubie_at(g2, axis, slice, spin, x, y, z));
            assert(cubie_at(g2, x, y, z) == rotated_cubie_at(g1, axis, slice, spin, x, y, z));
            assert(cubie_at(g1, x, y, z) == rotated_cubie_at(g0, axis, slice, spin, x, y, z));
        }
    }
    lemma_grids_pointwise_equal(g4, g0);
}

/// Conservation, slot form: a committed quarter turn moves every facelet of
/// the turned layer to exactly one slot — the rotated coordinate and rotated
/// direction — carrying its color; every other facelet keeps slot and color.
/// The slot map stays inside the grid and the layer, lands on the cube's
/// shell exactly when it started there, and is undone by the opposite turn,
/// so it is a bijection on slots. `lemma_turn_conserves_shell_multiset` draws
/// the counting consequence.
pub proof fn lemma_turn_conserves_colors(
    g0: Seq<Cubie>,
    g1: Seq<Cubie>,
    axis: Axis,
    slice: int,
    spin: Spin,
)
    requires
        0 <= slice < 3,
        grid_rotated(g0, g1, axis, slice, spin),
    ensures
        forall|x: int, y: int, z: int, d: Direction|
            #![trigger slot_color(g0, x, y, z, d)]
            valid_coord(x, y, z) && in_layer(axis, slice, x, y, z) ==> slot_color(
                g1,
                rotated_coord(axis, spin, x, y, z).0,
                rotated_coord(axis, spin, x, y, z).1,
                rotated_coord(axis, spin, x, y, z).2,
                rotated_dir_spec(axis, spin, d),
            ) == slot_color(g0, x, y, z, d),
        forall|x: int, y: int, z: int, d: Direction|
            #![trigger slot_color(g1, x, y, z, d)]
            valid_coord(x, y, z) && !in_layer(axis, slice, x, y, z) ==> slot_color(g1, x, y, z, d)
                == slot_color(g0, x, y, z, d),
        forall|x: int, y: int, z: int|
            #![trigger rotated_coord(axis, spin, x, y, z)]
            valid_coord(x, y, z) ==> valid_coord(
                rotated_coord(axis, spin, x, y, z).0,
                rotated_coord(axis, spin, x, y, z).1,
                rotated_coord(axis, spin, x, y, z).2,
            ) && (in_layer(axis, slice, x, y, z) <==> in_layer(
                axis,
                slice,
                rotated_coord(axis, spin, x, y, z).0,
                rotated_coord(axis, spin, x, y, z).1,
                rotated_coord(axis, spin, x, y, z).2,
            )) && rotated_coord(
                axis,
                spin.flip_spec(),
                rotated_coord(axis, spin, x, y, z).0,
                rotated_coord(axis, spin, x, y, z).1,
                rotated_coord(axis, spin, x, y, z).2,
            ) == (x, y, z),
        forall|x: int, y: int, z: int, d: Direction|
            #![trigger exposed(x, y, z, d), rotated_dir_spec(axis, spin, d)]
            valid_coord(x, y, z) ==> (exposed(
                rotated_coord(axis, spin, x, y, z).0,
                rotated_coord(axis, spin, x, y, z).1,
                rotated_coord(axis, spin, x, y, z).2,
                rotated_dir_spec(axis, spin, d),
            ) <==> exposed(x, y, z, d)),
        forall|d: Direction| #[trigger]
            rotated_dir_spec(axis, spin.flip_spec(), rotated_dir_spec(axis, spin, d)) == d,
{
    assert forall|x: int, y: int, z: int, d: Direction|
        #![trigger slot_color(g0, x, y, z, d)]
        valid_coord(x, y, z) && in_layer(axis, slice, x, y, z) implies slot_color(
        g1,
        rotated_coord(axis, spin, x, y, z).0,
        rotated_coord(axis, spin, x, y, z).1,
        rotated_coord(axis, spin, x, y, z).2,
        rotated_dir_spec(axis, spin, d),
    ) == slot_color(g0, x, y, z, d) by {
        lemma_slot_transport(g0, g1, axis, slice, spin, x, y, z, d);
    }
    assert forall|x: int, y: int, z: int, d: Direction|
        #![trigger slot_color(g1, x, y, z, d)]
        valid_coord(x, y, z) && !in_layer(axis, slice, x, y, z) implies slot_color(g1, x, y, z, d)
        == slot_color(g0, x, y, z, d) by {
        assert(cubie_at(g1, x, y, z) == rotated_cubie_at(g0, axis, slice, spin, x, y, z));
    }
    assert forall|x: int, y: int, z: int|
        #![trigger rotated_coord(axis, spin, x, y, z)]
        valid_coord(x, y, z) implies valid_coord(
        rotated_coord(axis, spin, x, y, z).0,
        rotated_coord(axis, spin, x, y, z).1,
        rotated_coord(axis, spin, x, y, z).2,
    ) && (in_layer(axis, slice, x, y, z) <==> in_layer(
        axis,
        slice,
        rotated_coord(axis, spin, x, y, z).0,
        rotated_coord(axis, spin, x, y, z).1,
        rotated_coord(axis, spin, x, y, z).2,
    )) && rotated_coord(
        axis,
        spin.flip_spec(),
        rotated_coord(axis, spin, x, y, z).0,
        rotated_coord(axis, spin, x, y, z).1,
        rotated_coord(axis, spin, x, y, z).2,
    ) == (x, y, z) by {
        lemma_coord_map_props(axis, slice, spin, x, y, z);
    }
    assert forall|x: int, y: int, z: int, d: Direction|
        #![trigger exposed(x, y, z, d), rotated_dir_spec(axis, spin, d)]
        valid_coord(x, y, z) implies (exposed(
        rotated_coord(axis, spin, x, y, z).0,
        rotated_coord(axis, spin, x, y, z).1,
        rotated_coord(axis, spin, x, y, z).2,
        rotated_dir_spec(axis, spin, d),
    ) <==> exposed(x, y, z, d)) by {
        lemma_exposure_preserved(axis, spin, x, y, z, d);
    }
    assert forall|d: Direction| #[trigger]
        rotated_dir_spec(axis, spin.flip_spec(), rotated_dir_spec(axis, spin, d)) == d by {
        lemma_dir_roundtrip(axis, spin, d);
    }
}

/// Two sequences of equal length whose entries correspond one-to-one under
/// an injective index map hold the same multiset of values.
proof fn lemma_injective_reorder_multiset<A>(a: Seq<A>, b: Seq<A>, m: spec_fn(int) -> int)
    requires
        a.len() == b.len(),
        forall|i: int| 0 <= i < a.len() ==> 0 <= #[trigger] m(i) < b.len(),
        forall|i1: int, i2: int|
            0 <= i1 < a.len() && 0 <= i2 < a.len() && i1 != i2 ==> #[trigger] m(i1) != #[trigger] m(
                i2,
            ),
        forall|i: int| 0 <= i < a.len() ==> b[#[trigger] m(i)] == a[i],
    ensures
        a.to_multiset() == b.to_multiset(),
    decreases a.len(),
{
    broadcast use vstd::seq_lib::group_to_multiset_ensures;
    broadcast use vstd::multiset::group_multiset_axioms;

    if a.len() == 0 {
        assert(a =~= b);
    } else {
        let n: int = a.len() - 1;
        let j: int = m(n);
        let a1 = a.drop_last();
        let b1 = b.remove(j);
        let m1: spec_fn(int) -> int = |i: int|
            if m(i) < j {
                m(i)
            } else {
                m(i) - 1
            };
        assert forall|i: int| 0 <= i < a1.len() implies 0 <= #[trigger] m1(i) < b1.len() by {
            assert(m(i) != m(n));
        }
        assert forall|i1: int, i2: int|
            0 <= i1 < a1.len() && 0 <= i2 < a1.len() && i1 != i2 implies #[trigger] m1(i1)
            != #[trigger] m1(i2) by {
            assert(m(i1) != m(i2));
            assert(m(i1) != m(n));
            assert(m(i2) != m(n));
        }
        assert forall|i: int| 0 <= i < a1.len() implies b1[#[trigger] m1(i)] == a1[i] by {
            assert(m(i) != m(n));
            assert(b[m(i)] == a[i]);
        }
        lemma_injective_reorder_multiset(a1, b1, m1);
        assert(a1.push(a[n]) =~= a);
        assert(a.to_multiset() == a1.to_multiset().insert(a[n]));
        assert(b.contains(b[j]));
        assert(b1.to_multiset() == b.to_multiset().remove(b[j]));
        assert(b1.to_multiset().insert(b[j]) =~= b.to_multiset());
        assert(b[j] == a[n]);
    }
}

/// Every shell index names an exposed slot of the grid, and taking the index
/// of that slot gives the index back.
proof fn lemma_shell_slot_props(i: int)
    requires
        0 <= i < 54,
    ensures
        valid_coord(shell_slot(i).0, shell_slot(i).1, shell_slot(i).2),
        exposed(shell_slot(i).0, shell_slot(i).1, shell_slot(i).2, shell_slot(i).3),
        shell_index(shell_slot(i).0, shell_slot(i).1, shell_slot(i).2, shell_slot(i).3) == i,
{
    lemma_fundamental_div_mod(i, 9);
    lemma_mod_bound(i, 9);
    lemma_fundamental_div_mod(i % 9, 3);
    lemma_mod_bound(i % 9, 3);
}

/// Every exposed slot of the grid has a shell index, and the slot at that
/// index is the slot itself.
proof fn lemma_shell_index_props(x: int, y: int, z: int, d: Direction)
    requires
        valid_coord(x, y, z),
        exposed(x, y, z, d),
    ensures
        0 <= shell_index(x, y, z, d) < 54,
        shell_slot(shell_index(x, y, z, d)) == (x, y, z, d),
{
    match d {
        Direction::PosX => {
            lemma_fundamental_div_mod_converse(y * 3 + z, 9, 0, y * 3 + z);
            lemma_fundamental_div_mod_converse(y * 3 + z, 3, y, z);
        },
        Direction::NegX => {
            lemma_fundamental_div_mod_converse(9 + y * 3 + z, 9, 1, y * 3 + z);
            lemma_fundamental_div_mod_converse(y * 3 + z, 3, y, z);
        },
        Direction::PosY => {
            lemma_fundamental_div_mod_converse(18 + x * 3 + z, 9, 2, x * 3 + z);
            lemma_fundamental_div_mod_converse(x * 3 + z, 3, x, z);
        },
        Direction::NegY => {
            lemma_fundamental_div_mod_converse(27 + x * 3 + z, 9, 3, x * 3 + z);
            lemma_fundamental_div_mod_converse(x * 3 + z, 3, x, z);
        },
        Direction::PosZ => {
            lemma_fundamental_div_mod_converse(36 + x * 3 + y, 9, 4, x * 3 + y);
            lemma_fundamental_div_mod_converse(x * 3 + y, 3, x, y);
        },
        Direction::NegZ => {
            lemma_fundamental_div_mod_converse(45 + x * 3 + y, 9, 5, x * 3 + y);
            lemma_fundamental_div_mod_converse(x * 3 + y, 3, x, y);
        },
    }
}

/// The slot map of a committed quarter turn keeps exposed slots exposed and
/// is undone by the opposite turn.
proof fn lemma_slot_image_props(
    axis: Axis,
    slice: int,
    spin: Spin,
    x: int,
    y: int,
    z: int,
    d: Direction,
)
    requires
        valid_coord(x, y, z),
    ensures
        valid_coord(
            slot_image(axis, slice, spin, x, y, z, d).0,
            slot_image(axis, slice, spin, x, y, z, d).1,
            slot_image(axis, slice, spin, x, y, z, d).2,
        ),
        exposed(x, y, z, d) <==> exposed(
            slot_image(axis, slice, spin, x, y, z, d).0,
            slot_image(axis, slice, spin, x, y, z, d).1,
            slot_image(axis, slice, spin, x, y, z, d).2,
            slot_image(axis, slice, spin, x, y, z, d).3,
        ),
        slot_image(
            axis,
            slice,
            spin.flip_spec(),
            slot_image(axis, slice, spin, x, y, z, d).0,
            slot_image(axis, slice, spin, x, y, z, d).1,
            slot_image(axis, slice, spin, x, y, z, d).2,
            slot_image(axis, slice, spin, x, y, z, d).3,
        ) == (x, y, z, d),
{
    lemma_coord_map_props(axis, slice, spin, x, y, z);
    lemma_exposure_preserved(axis, spin, x, y, z, d);
    lemma_dir_roundtrip(axis, spin, d);
}

/// The index map that the slot map of a quarter turn induces on shell
/// indices.
spec fn shell_map(axis: Axis, slice: int, spin: Spin, i: int) -> int {
    shell_index(
        slot_image(axis, slice, spin, shell_slot(i).0, shell_slot(i).1, shell_slot(i).2, shell_slot(
            i,
        ).3).0,
        slot_image(axis, slice, spin, shell_slot(i).0, shell_slot(i).1, shell_slot(i).2, shell_slot(
            i,
        ).3).1,
        slot_image(axis, slice, spin, shell_slot(i).0, shell_slot(i).1, shell_slot(i).2, shell_slot(
            i,
        ).3).2,
        slot_image(axis, slice, spin, shell_slot(i).0, shell_slot(i).1, shell_slot(i).2, shell_slot(
            i,
        ).3).3,
    )
}

/// The shell map is well-bounded, carries the color of every shell slot of
/// the old grid to its image slot in the new one, and is injective.
proof fn lemma_shell_map_props(
    g0: Seq<Cubie>,
    g1: Seq<Cubie>,
    axis: Axis,
    slice: int,
    spin: Spin,
    i: int,
)
    requires
        0 <= slice < 3,
        grid_rotated(g0, g1, axis, slice, spin),
        0 <= i < 54,
    ensures
        0 <= shell_map(axis, slice, spin, i) < 54,
        shell_colors(g1)[shell_map(axis, slice, spin, i)] == shell_colors(g0)[i],
        shell_map(axis, slice, spin.flip_spec(), shell_map(axis, slice, spin, i)) == i,
{
    lemma_shell_slot_props(i);
    let s = shell_slot(i);
    lemma_slot_image_props(axis, slice, spin, s.0, s.1, s.2, s.3);
    let t = slot_image(axis, slice, spin, s.0, s.1, s.2, s.3);
    lemma_shell_index_props(t.0, t.1, t.2, t.3);
    if in_layer(axis, slice, s.0, s.1, s.2) {
        lemma_slot_transport(g0, g1, axis, slice, spin, s.0, s.1, s.2, s.3);
    } else {
        assert(cubie_at(g1, s.0, s.1, s.2) == rotated_cubie_at(g0, axis, slice, spin, s.0, s.1, s.2));
    }
    lemma_slot_image_props(axis, slice, spin.flip_spec(), t.0, t.1, t.2, t.3);
    assert(slot_image(axis, slice, spin.flip_spec(), t.0, t.1, t.2, t.3) == (s.0, s.1, s.2, s.3));
}

/// Conservation, multiset form: a committed quarter turn preserves the
/// multiset of colors shown on the cube's shell, so for each of the six
/// colors, exactly as many shell slots show it after the turn as before:
/// colors move, and never appear or disappear.
pub proof fn lemma_turn_conserves_shell_multiset(
    g0: Seq<Cubie>,
    g1: Seq<Cubie>,
    axis: Axis,
    slice: int,
    spin: Spin,
)
    requires
        0 <= slice < 3,
        grid_rotated(g0, g1, axis, slice, spin),
    ensures
        shell_colors(g1).to_multiset() == shell_colors(g0).to_multiset(),
{
    let a = shell_colors(g0);
    let b = shell_colors(g1);
    let m: spec_fn(int) -> int = |i: int| shell_map(axis, slice, spin, i);
    assert forall|i: int| 0 <= i < a.len() implies 0 <= #[trigger] m(i) < b.len() by {
        lemma_shell_map_props(g0, g1, axis, slice, spin, i);
    }
    assert forall|i1: int, i2: int|
        0 <= i1 < a.len() && 0 <= i2 < a.len() && i1 != i2 implies #[trigger] m(i1) != #[trigger] m(
        i2,
    ) by {
        lemma_shell_map_props(g0, g1, axis, slice, spin, i1);
        lemma_shell_map_props(g0, g1, axis, slice, spin, i2);
    }
    assert forall|i: int| 0 <= i < a.len() implies b[#[trigger] m(i)] == a[i] by {
        lemma_shell_map_props(g0, g1, axis, slice, spin, i);
    }
    lemma_injective_reorder_multiset(a, b, m);
}

/// Animation monotonicity: one tick with a non-negative frame time never
/// decreases the swept angle and never pushes it past the full quarter turn;
/// the machine returns to idle exactly when the swept angle reaches the full
/// quarter turn, and otherwise keeps the turn's parameters with the new
/// angle. An idle machine stays idle.
pub proof fn lemma_tick_monotone(st: RotationState, dt: int)
    requires
        dt >= 0,
        state_wf(st),
    ensures
        st is Idle ==> engine_step(st, dt) is Idle,
        st matches RotationState::InProgress { axis, slice, spin, elapsed_centidegrees } ==> (
        elapsed_centidegrees as int <= next_angle(elapsed_centidegrees as int, dt) <= FULL_TURN_CENTIDEGREES as int
            && (engine_step(st, dt) is Idle <==> next_angle(elapsed_centidegrees as int, dt)
            == FULL_TURN_CENTIDEGREES as int) && (engine_step(st, dt) is Idle || engine_step(st, dt)
            == (RotationState::InProgress {
            axis,
            slice,
            spin,
            elapsed_centidegrees: next_angle(elapsed_centidegrees as int, dt) as u32,
        }))),
{
}

} // verus!
