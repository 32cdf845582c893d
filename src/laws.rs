use crate::directions::{
    is_direction_bits, is_unit, layer_bits, offset_2d_result, offset_3d_result, offset_x,
    offset_y, offset_z, Direction, InvalidOffset, Step,
};
use vstd::prelude::*;

verus! {

/// Every direction, flat ones first, then the descending and the ascending ones.
pub open(crate) spec fn all_directions() -> Seq<Direction> {
    seq![
        Direction(Step::Stay), Direction(Step::Up), Direction(Step::UpRight), Direction(Step::Right),
        Direction(Step::DownRight), Direction(Step::Down), Direction(Step::DownLeft), Direction(Step::Left),
        Direction(Step::UpLeft),
        Direction(Step::Descend), Direction(Step::DescUp), Direction(Step::DescUpRight), Direction(Step::DescRight),
        Direction(Step::DescDownRight), Direction(Step::DescDown), Direction(Step::DescDownLeft),
        Direction(Step::DescLeft), Direction(Step::DescUpLeft),
        Direction(Step::Ascend), Direction(Step::AscUp), Direction(Step::AscUpRight), Direction(Step::AscRight),
        Direction(Step::AscDownRight), Direction(Step::AscDown), Direction(Step::AscDownLeft),
        Direction(Step::AscLeft), Direction(Step::AscUpLeft),
    ]
}

/// A flat direction converted to its 2D offset and back is the same direction.
pub proof fn lemma_flat_round_trip(d: Direction)
    requires
        d.is_flat(),
    ensures
        offset_2d_result(offset_x(d.bits()), offset_y(d.bits())) == Ok::<Direction, InvalidOffset>(d),
{
    vstd::arithmetic::power2::lemma2_to64();
    Direction::lemma_bits_injective(d, d);
}

/// Any direction converted to its 3D offset and back is the same direction.
pub proof fn lemma_round_trip_3d(d: Direction)
    ensures
        offset_3d_result(offset_x(d.bits()), offset_y(d.bits()), offset_z(d.bits())) == Ok::<Direction, InvalidOffset>(d),
{
    vstd::arithmetic::power2::lemma2_to64();
    Direction::lemma_bits_injective(d, d);
    let b = d.bits();
    assert(b < 16 ==> b | 0 == b && b | 32 == b + 32 && b | 16 == b + 16) by (bit_vector);
    assert(16 <= b < 32 ==> (b - 16) as u8 | 16 == b) by (bit_vector);
    assert(32 <= b < 48 ==> (b - 32) as u8 | 32 == b) by (bit_vector);
}

/// A flat direction stepped onto the layer `z` (one of -1, 0, 1) converts from
/// its 3D offset to the direction with the matching layer flag or-ed into its
/// pattern: a named direction with the same compass part and that layer step.
pub proof fn lemma_layered_round_trip(d: Direction, z: int)
    requires
        d.is_flat(),
        is_unit(z),
    ensures
        ({
            let e = Direction::with_bits(d.bits() | layer_bits(z));
            &&& offset_3d_result(offset_x(d.bits()), offset_y(d.bits()), z) == Ok::<Direction, InvalidOffset>(e)
            &&& e.bits() == d.bits() | layer_bits(z)
            &&& e.compass_bits() == d.bits()
            &&& offset_z(e.bits()) == z
        }),
{
    vstd::arithmetic::power2::lemma2_to64();
    let b = d.bits();
    assert(b < 16 ==> b | 0 == b && b | 32 == b + 32 && b | 16 == b + 16) by (bit_vector);
    let c = b | layer_bits(z);
    assert(exists|w: Direction| w.bits() == c) by {
        let v = match d.0 {
            Step::Stay => if z == 0 { Direction(Step::Stay) } else if z == 1 { Direction(Step::Ascend) } else { Direction(Step::Descend) },
            Step::Up => if z == 0 { Direction(Step::Up) } else if z == 1 { Direction(Step::AscUp) } else { Direction(Step::DescUp) },
            Step::UpRight => if z == 0 { Direction(Step::UpRight) } else if z == 1 { Direction(Step::AscUpRight) } else { Direction(Step::DescUpRight) },
            Step::Right => if z == 0 { Direction(Step::Right) } else if z == 1 { Direction(Step::AscRight) } else { Direction(Step::DescRight) },
            Step::DownRight => if z == 0 { Direction(Step::DownRight) } else if z == 1 { Direction(Step::AscDownRight) } else { Direction(Step::DescDownRight) },
            Step::Down => if z == 0 { Direction(Step::Down) } else if z == 1 { Direction(Step::AscDown) } else { Direction(Step::DescDown) },
            Step::DownLeft => if z == 0 { Direction(Step::DownLeft) } else if z == 1 { Direction(Step::AscDownLeft) } else { Direction(Step::DescDownLeft) },
            Step::Left => if z == 0 { Direction(Step::Left) } else if z == 1 { Direction(Step::AscLeft) } else { Direction(Step::DescLeft) },
            _ => if z == 0 { Direction(Step::UpLeft) } else if z == 1 { Direction(Step::AscUpLeft) } else { Direction(Step::DescUpLeft) },
        };
        assert(v.bits() == c);
    }
}

/// The 2D offset of a direction depends on its compass part alone: directions
/// that differ only in their layer flags have the same 2D offset.
pub proof fn lemma_projection(d: Direction, e: Direction)
    requires
        d.compass_bits() == e.compass_bits(),
    ensures
        offset_x(d.bits()) == offset_x(e.bits()),
        offset_y(d.bits()) == offset_y(e.bits()),
{
    vstd::arithmetic::power2::lemma2_to64();
}

/// Every orthogonal direction is among the eight neighbourhood directions;
/// both groups hold flat directions only, and neither holds the empty step
/// (the pattern 0 of [`Direction::none`]).
pub proof fn lemma_groups()
    ensures
        forall|i: int| 0 <= i < 4 ==> Direction::neighbourhood().contains(#[trigger] Direction::orthogonal()[i]),
        forall|i: int| 0 <= i < 4 ==> (#[trigger] Direction::orthogonal()[i]).is_flat(),
        forall|i: int| 0 <= i < 8 ==> (#[trigger] Direction::neighbourhood()[i]).is_flat(),
        forall|i: int| 0 <= i < 4 ==> (#[trigger] Direction::orthogonal()[i]).bits() != 0,
        forall|i: int| 0 <= i < 8 ==> (#[trigger] Direction::neighbourhood()[i]).bits() != 0,
{
    vstd::arithmetic::power2::lemma2_to64();
    assert forall|i: int| 0 <= i < 4 implies Direction::neighbourhood().contains(
        #[trigger] Direction::orthogonal()[i],
    ) by {
        assert(Direction::neighbourhood()[i] == Direction::orthogonal()[i]);
    }
}

/// The named directions are all the directions there are: each value is one
/// of them, each valid bit pattern belongs to one of them, and no two of them
/// share a pattern.
pub proof fn lemma_exhaustive()
    ensures
        all_directions().len() == 27,
        forall|d: Direction| all_directions().contains(d),
        forall|b: u8| is_direction_bits(b) <==> exists|i: int| 0 <= i < 27 && (#[trigger] all_directions()[i]).bits() == b,
        forall|i: int, j: int| 0 <= i < j < 27 ==> (#[trigger] all_directions()[i]).bits() != (#[trigger] all_directions()[j]).bits(),
{
    vstd::arithmetic::power2::lemma2_to64();
    let s = all_directions();
    assert forall|d: Direction| s.contains(d) by {
        let i: int = match d.0 {
            Step::Stay => 0,
            Step::Up => 1,
            Step::UpRight => 2,
            Step::Right => 3,
            Step::DownRight => 4,
            Step::Down => 5,
            Step::DownLeft => 6,
            Step::Left => 7,
            Step::UpLeft => 8,
            Step::Descend => 9,
            Step::DescUp => 10,
            Step::DescUpRight => 11,
            Step::DescRight => 12,
            Step::DescDownRight => 13,
            Step::DescDown => 14,
            Step::DescDownLeft => 15,
            Step::DescLeft => 16,
            Step::DescUpLeft => 17,
            Step::Ascend => 18,
            Step::AscUp => 19,
            Step::AscUpRight => 20,
            Step::AscRight => 21,
            Step::AscDownRight => 22,
            Step::AscDown => 23,
            Step::AscDownLeft => 24,
            Step::AscLeft => 25,
            Step::AscUpLeft => 26,
        };
        assert(s[i] == d);
    }
}

} // verus!
