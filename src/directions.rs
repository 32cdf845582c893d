use vstd::prelude::*;
use vstd::std_specs::convert::TryFromSpecImpl;

verus! {

// A direction is a six-bit pattern, from the high bit down:
// `ASC DESC UP RIGHT DOWN LEFT`. Each compass bit is one bearing of one axis;
// the two layer flags are the two bearings of the layer axis.

/// The flag of a step one layer down.
pub const DESCEND_BIT: u8 = 0b1_0000;

/// The flag of a step one layer up.
pub const ASCEND_BIT: u8 = 0b10_0000;

/// Whether bit `i` of `b` is set, as 0 or 1.
pub open spec fn bit(b: u8, i: nat) -> int {
    (b as int / vstd::arithmetic::power2::pow2(i) as int) % 2
}

/// Horizontal component of the offset that the pattern `b` stands for.
pub open spec fn offset_x(b: u8) -> int {
    bit(b, 2) - bit(b, 0)
}

/// Vertical component of the offset that the pattern `b` stands for.
pub open spec fn offset_y(b: u8) -> int {
    bit(b, 3) - bit(b, 1)
}

/// Layer component of the offset that the pattern `b` stands for.
pub open spec fn offset_z(b: u8) -> int {
    bit(b, 5) - bit(b, 4)
}

/// A valid pattern: six bits at most, and no axis with both of its bearings set.
pub open spec fn is_direction_bits(b: u8) -> bool {
    &&& b < 64
    &&& !(bit(b, 3) == 1 && bit(b, 1) == 1)
    &&& !(bit(b, 2) == 1 && bit(b, 0) == 1)
    &&& !(bit(b, 5) == 1 && bit(b, 4) == 1)
}

/// A component of a single grid step.
pub open spec fn is_unit(v: int) -> bool {
    -1 <= v <= 1
}

/// The pattern of the flat direction with offset `(x, y)`, for unit components.
pub open spec fn flat_bits(x: int, y: int) -> u8 {
    ((if y == 1 { 8int } else { 0 }) + (if x == 1 { 4int } else { 0 }) + (if y == -1 { 2int } else { 0 })
        + (if x == -1 { 1int } else { 0 })) as u8
}

/// The layer flag for a layer step `z`: ascending, descending or none.
pub open spec fn layer_bits(z: int) -> u8 {
    if z == 1 {
        ASCEND_BIT
    } else if z == -1 {
        DESCEND_BIT
    } else {
        0
    }
}

/// The pattern of the direction with offset `(x, y, z)`, for unit components:
/// the flat pattern of `(x, y)` with the layer flag of `z` or-ed in.
pub open spec fn offset_bits(x: int, y: int, z: int) -> u8 {
    flat_bits(x, y) | layer_bits(z)
}

/// The closed set of steps that a direction can be.
#[derive(Debug, Clone, Copy, PartialEq, Eq, Hash, Structural)]
pub(crate) enum Step {
    Stay,
    Up,
    UpRight,
    Right,
    DownRight,
    Down,
    DownLeft,
    Left,
    UpLeft,
    Descend,
    DescUp,
    DescUpRight,
    DescRight,
    DescDownRight,
    DescDown,
    DescDownLeft,
    DescLeft,
    DescUpLeft,
    Ascend,
    AscUp,
    AscUpRight,
    AscRight,
    AscDownRight,
    AscDown,
    AscDownLeft,
    AscLeft,
    AscUpLeft,
}

/// One step on a layered grid: a compass bearing of the plane or none, and
/// whether it also moves a layer up (ascending) or down (descending).
#[derive(Debug, Clone, Copy, PartialEq, Eq, Hash, Structural)]
pub struct Direction(pub(crate) Step);

/// An offset with a component outside `{-1, 0, 1}`: no direction stands for it.
#[derive(Debug, Clone, Copy, PartialEq, Eq, Structural)]
pub struct InvalidOffset;

impl Direction {
    /// No step: the cell itself.
    pub fn none() -> (r: Direction)
        ensures
            r.bits() == 0b0,
    {
        Direction(Step::Stay)
    }

    /// One step up, within the layer.
    pub fn up() -> (r: Direction)
        ensures
            r.bits() == 0b1000,
    {
        Direction(Step::Up)
    }

    /// One step up and right, within the layer.
    pub fn up_right() -> (r: Direction)
        ensures
            r.bits() == 0b1100,
    {
        Direction(Step::UpRight)
    }

    /// One step right, within the layer.
    pub fn right() -> (r: Direction)
        ensures
            r.bits() == 0b0100,
    {
        Direction(Step::Right)
    }

    /// One step down and right, within the layer.
    pub fn down_right() -> (r: Direction)
        ensures
            r.bits() == 0b0110,
    {
        Direction(Step::DownRight)
    }

    /// One step down, within the layer.
    pub fn down() -> (r: Direction)
        ensures
            r.bits() == 0b0010,
    {
        Direction(Step::Down)
    }

    /// One step down and left, within the layer.
    pub fn down_left() -> (r: Direction)
        ensures
            r.bits() == 0b0011,
    {
        Direction(Step::DownLeft)
    }

    /// One step left, within the layer.
    pub fn left() -> (r: Direction)
        ensures
            r.bits() == 0b0001,
    {
        Direction(Step::Left)
    }

    /// One step up and left, within the layer.
    pub fn up_left() -> (r: Direction)
        ensures
            r.bits() == 0b1001,
    {
        Direction(Step::UpLeft)
    }

    /// One layer down, with no step in the plane.
    pub fn descend() -> (r: Direction)
        ensures
            r.bits() == 0b10000,
    {
        Direction(Step::Descend)
    }

    /// One step up, one layer down.
    pub fn desc_up() -> (r: Direction)
        ensures
            r.bits() == 0b11000,
    {
        Direction(Step::DescUp)
    }

    /// One step up and right, one layer down.
    pub fn desc_up_right() -> (r: Direction)
        ensures
            r.bits() == 0b11100,
    {
        Direction(Step::DescUpRight)
    }

    /// One step right, one layer down.
    pub fn desc_right() -> (r: Direction)
        ensures
            r.bits() == 0b10100,
    {
        Direction(Step::DescRight)
    }

    /// One step down and right, one layer down.
    pub fn desc_down_right() -> (r: Direction)
        ensures
            r.bits() == 0b10110,
    {
        Direction(Step::DescDownRight)
    }

    /// One step down, one layer down.
    pub fn desc_down() -> (r: Direction)
        ensures
            r.bits() == 0b10010,
    {
        Direction(Step::DescDown)
    }

    /// One step down and left, one layer down.
    pub fn desc_down_left() -> (r: Direction)
        ensures
            r.bits() == 0b10011,
    {
        Direction(Step::DescDownLeft)
    }

    /// One step left, one layer down.
    pub fn desc_left() -> (r: Direction)
        ensures
            r.bits() == 0b10001,
    {
        Direction(Step::DescLeft)
    }

    /// One step up and left, one layer down.
    pub fn desc_up_left() -> (r: Direction)
        ensures
            r.bits() == 0b11001,
    {
        Direction(Step::DescUpLeft)
    }

    /// One layer up, with no step in the plane.
    pub fn ascend() -> (r: Direction)
        ensures
            r.bits() == 0b100000,
    {
        Direction(Step::Ascend)
    }

    /// One step up, one layer up.
    pub fn asc_up() -> (r: Direction)
        ensures
            r.bits() == 0b101000,
    {
        Direction(Step::AscUp)
    }

    /// One step up and right, one layer up.
    pub fn asc_up_right() -> (r: Direction)
        ensures
            r.bits() == 0b101100,
    {
        Direction(Step::AscUpRight)
    }

    /// One step right, one layer up.
    pub fn asc_right() -> (r: Direction)
        ensures
            r.bits() == 0b100100,
    {
        Direction(Step::AscRight)
    }

    /// One step down and right, one layer up.
    pub fn asc_down_right() -> (r: Direction)
        ensures
            r.bits() == 0b100110,
    {
        Direction(Step::AscDownRight)
    }

    /// One step down, one layer up.
    pub fn asc_down() -> (r: Direction)
        ensures
            r.bits() == 0b100010,
    {
        Direction(Step::AscDown)
    }

    /// One step down and left, one layer up.
    pub fn asc_down_left() -> (r: Direction)
        ensures
            r.bits() == 0b100011,
    {
        Direction(Step::AscDownLeft)
    }

    /// One step left, one layer up.
    pub fn asc_left() -> (r: Direction)
        ensures
            r.bits() == 0b100001,
    {
        Direction(Step::AscLeft)
    }

    /// One step up and left, one layer up.
    pub fn asc_up_left() -> (r: Direction)
        ensures
            r.bits() == 0b101001,
    {
        Direction(Step::AscUpLeft)
    }

    /// The four orthogonal directions, in this order.
    pub open(crate) spec fn orthogonal() -> Seq<Direction> {
        seq![Direction(Step::Up), Direction(Step::Down), Direction(Step::Left), Direction(Step::Right)]
    }

    /// The eight directions of a cell's plane neighbourhood, in this order:
    /// the orthogonal ones, then the diagonal ones.
    pub open(crate) spec fn neighbourhood() -> Seq<Direction> {
        Direction::orthogonal() + seq![
            Direction(Step::UpLeft),
            Direction(Step::UpRight),
            Direction(Step::DownLeft),
            Direction(Step::DownRight),
        ]
    }

    /// The four orthogonal directions: up, down, left, right.
    pub fn dir_4() -> (r: [Direction; 4])
        ensures
            r@ == Direction::orthogonal(),
    {
        let r = [Direction(Step::Up), Direction(Step::Down), Direction(Step::Left), Direction(Step::Right)];
        assert(r@ =~= Direction::orthogonal());
        r
    }

    /// The eight neighbourhood directions: up, down, left, right, then
    /// up-left, up-right, down-left, down-right.
    pub fn dir_8() -> (r: [Direction; 8])
        ensures
            r@ == Direction::neighbourhood(),
    {
        let r = [
            Direction(Step::Up),
            Direction(Step::Down),
            Direction(Step::Left),
            Direction(Step::Right),
            Direction(Step::UpLeft),
            Direction(Step::UpRight),
            Direction(Step::DownLeft),
            Direction(Step::DownRight),
        ];
        assert(r@ =~= Direction::neighbourhood());
        r
    }

    /// The bit pattern of each direction.
    pub open(crate) spec fn bits(self) -> u8 {
        match self.0 {
            Step::Stay => 0b0,
            Step::Up => 0b1000,
            Step::UpRight => 0b1100,
            Step::Right => 0b0100,
            Step::DownRight => 0b0110,
            Step::Down => 0b0010,
            Step::DownLeft => 0b0011,
            Step::Left => 0b0001,
            Step::UpLeft => 0b1001,
            Step::Descend => 0b10000,
            Step::DescUp => 0b11000,
            Step::DescUpRight => 0b11100,
            Step::DescRight => 0b10100,
            Step::DescDownRight => 0b10110,
            Step::DescDown => 0b10010,
            Step::DescDownLeft => 0b10011,
            Step::DescLeft => 0b10001,
            Step::DescUpLeft => 0b11001,
            Step::Ascend => 0b100000,
            Step::AscUp => 0b101000,
            Step::AscUpRight => 0b101100,
            Step::AscRight => 0b100100,
            Step::AscDownRight => 0b100110,
            Step::AscDown => 0b100010,
            Step::AscDownLeft => 0b100011,
            Step::AscLeft => 0b100001,
            Step::AscUpLeft => 0b101001,
        }
    }

    /// The direction whose bit pattern is `b`, for a valid pattern.
    pub open spec fn with_bits(b: u8) -> Direction {
        choose|d: Direction| d.bits() == b
    }

    /// No two directions share a bit pattern.
    pub proof fn lemma_bits_injective(d: Direction, e: Direction)
        ensures
            d.bits() == e.bits() ==> d == e,
            Direction::with_bits(d.bits()) == d,
    {
        let c = Direction::with_bits(d.bits());
        assert(c.bits() == d.bits());
        assert(c == d);
    }

    /// The compass part of the pattern: the four low bits, without the layer flags.
    pub open spec fn compass_bits(self) -> u8 {
        self.bits() % 16
    }

    /// A flat direction moves within its layer.
    pub open spec fn is_flat(self) -> bool {
        offset_z(self.bits()) == 0
    }

    /// The 2D offset of this direction; the layer is dropped.
    pub fn to_offset_2d(self) -> (r: [i32; 2])
        ensures
            r[0] == offset_x(self.bits()),
            r[1] == offset_y(self.bits()),
    {
        proof { vstd::arithmetic::power2::lemma2_to64(); }
        match self.0 {
            Step::Stay | Step::Descend | Step::Ascend => [0, 0],
            Step::Up | Step::DescUp | Step::AscUp => [0, 1],
            Step::UpRight | Step::DescUpRight | Step::AscUpRight => [1, 1],
            Step::Right | Step::DescRight | Step::AscRight => [1, 0],
            Step::DownRight | Step::DescDownRight | Step::AscDownRight => [1, -1],
            Step::Down | Step::DescDown | Step::AscDown => [0, -1],
            Step::DownLeft | Step::DescDownLeft | Step::AscDownLeft => [-1, -1],
            Step::Left | Step::DescLeft | Step::AscLeft => [-1, 0],
            Step::UpLeft | Step::DescUpLeft | Step::AscUpLeft => [-1, 1],
        }
    }

    /// The 3D offset of this direction: the 2D offset and the layer step.
    pub fn to_offset_3d(self) -> (r: [i32; 3])
        ensures
            r[0] == offset_x(self.bits()),
            r[1] == offset_y(self.bits()),
            r[2] == offset_z(self.bits()),
    {
        proof { vstd::arithmetic::power2::lemma2_to64(); }
        let xy = self.to_offset_2d();
        let z: i32 = match self.0 {
            Step::Descend | Step::DescUp | Step::DescUpRight | Step::DescRight
            | Step::DescDownRight | Step::DescDown | Step::DescDownLeft
            | Step::DescLeft | Step::DescUpLeft => -1,
            Step::Ascend | Step::AscUp | Step::AscUpRight | Step::AscRight
            | Step::AscDownRight | Step::AscDown | Step::AscDownLeft
            | Step::AscLeft | Step::AscUpLeft => 1,
            _ => 0,
        };
        [xy[0], xy[1], z]
    }

    /// The flat direction with the 2D offset `a`; an error where a component
    /// lies outside `{-1, 0, 1}`.
    pub fn from_offset_2d(a: [i32; 2]) -> (r: Result<Direction, InvalidOffset>)
        ensures
            r is Ok <==> is_unit(a[0] as int) && is_unit(a[1] as int),
            r matches Ok(d) ==> d.bits() == flat_bits(a[0] as int, a[1] as int),
    {
        match (a[0], a[1]) {
            (0, 0) => Ok(Direction(Step::Stay)),
            (0, 1) => Ok(Direction(Step::Up)),
            (1, 1) => Ok(Direction(Step::UpRight)),
            (1, 0) => Ok(Direction(Step::Right)),
            (1, -1) => Ok(Direction(Step::DownRight)),
            (0, -1) => Ok(Direction(Step::Down)),
            (-1, -1) => Ok(Direction(Step::DownLeft)),
            (-1, 0) => Ok(Direction(Step::Left)),
            (-1, 1) => Ok(Direction(Step::UpLeft)),
            _ => Err(InvalidOffset),
        }
    }

    /// The direction whose pattern is `b`, if `b` is a valid pattern.
    fn from_bits(b: u8) -> (r: Option<Direction>)
        ensures
            r is Some <==> is_direction_bits(b),
            r matches Some(d) ==> d.bits() == b,
    {
        proof { vstd::arithmetic::power2::lemma2_to64(); }
        match b {
            0b0 => Some(Direction(Step::Stay)),
            0b1000 => Some(Direction(Step::Up)),
            0b1100 => Some(Direction(Step::UpRight)),
            0b0100 => Some(Direction(Step::Right)),
            0b0110 => Some(Direction(Step::DownRight)),
            0b0010 => Some(Direction(Step::Down)),
            0b0011 => Some(Direction(Step::DownLeft)),
            0b0001 => Some(Direction(Step::Left)),
            0b1001 => Some(Direction(Step::UpLeft)),
            0b10000 => Some(Direction(Step::Descend)),
            0b11000 => Some(Direction(Step::DescUp)),
            0b11100 => Some(Direction(Step::DescUpRight)),
            0b10100 => Some(Direction(Step::DescRight)),
            0b10110 => Some(Direction(Step::DescDownRight)),
            0b10010 => Some(Direction(Step::DescDown)),
            0b10011 => Some(Direction(Step::DescDownLeft)),
            0b10001 => Some(Direction(Step::DescLeft)),
            0b11001 => Some(Direction(Step::DescUpLeft)),
            0b100000 => Some(Direction(Step::Ascend)),
            0b101000 => Some(Direction(Step::AscUp)),
            0b101100 => Some(Direction(Step::AscUpRight)),
            0b100100 => Some(Direction(Step::AscRight)),
            0b100110 => Some(Direction(Step::AscDownRight)),
            0b100010 => Some(Direction(Step::AscDown)),
            0b100011 => Some(Direction(Step::AscDownLeft)),
            0b100001 => Some(Direction(Step::AscLeft)),
            0b101001 => Some(Direction(Step::AscUpLeft)),
            _ => None,
        }
    }

    /// The bit pattern of this direction.
    fn pattern(self) -> (r: u8)
        ensures
            r == self.bits(),
    {
        match self.0 {
            Step::Stay => 0b0,
            Step::Up => 0b1000,
            Step::UpRight => 0b1100,
            Step::Right => 0b0100,
            Step::DownRight => 0b0110,
            Step::Down => 0b0010,
            Step::DownLeft => 0b0011,
            Step::Left => 0b0001,
            Step::UpLeft => 0b1001,
            Step::Descend => 0b10000,
            Step::DescUp => 0b11000,
            Step::DescUpRight => 0b11100,
            Step::DescRight => 0b10100,
            Step::DescDownRight => 0b10110,
            Step::DescDown => 0b10010,
            Step::DescDownLeft => 0b10011,
            Step::DescLeft => 0b10001,
            Step::DescUpLeft => 0b11001,
            Step::Ascend => 0b100000,
            Step::AscUp => 0b101000,
            Step::AscUpRight => 0b101100,
            Step::AscRight => 0b100100,
            Step::AscDownRight => 0b100110,
            Step::AscDown => 0b100010,
            Step::AscDownLeft => 0b100011,
            Step::AscLeft => 0b100001,
            Step::AscUpLeft => 0b101001,
        }
    }

    /// The direction with the 3D offset `v`: the flat direction of its first
    /// two components, with the ascending flag or-ed in where the layer step
    /// is 1 and the descending flag where it is -1. An error where a
    /// component lies outside `{-1, 0, 1}`.
    pub fn from_offset_3d(v: [i32; 3]) -> (r: Result<Direction, InvalidOffset>)
        ensures
            r is Ok <==> is_unit(v[0] as int) && is_unit(v[1] as int) && is_unit(v[2] as int),
            r matches Ok(d) ==> d.bits() == offset_bits(v[0] as int, v[1] as int, v[2] as int),
    {
        let flat = match Direction::from_offset_2d([v[0], v[1]]) {
            Ok(d) => d,
            Err(e) => return Err(e),
        };
        let layer: u8 = match v[2] {
            0 => 0,
            1 => ASCEND_BIT,
            -1 => DESCEND_BIT,
            _ => return Err(InvalidOffset),
        };
        let f = flat.pattern();
        proof {
            assert(f < 16 ==> f | 0 == f && f | 32 == f + 32 && f | 16 == f + 16) by (bit_vector);
            vstd::arithmetic::power2::lemma2_to64();
        }
        match Direction::from_bits(f | layer) {
            Some(d) => Ok(d),
            None => Err(InvalidOffset),
        }
    }
}

impl From<Direction> for [i32; 2] {
    fn from(d: Direction) -> (r: [i32; 2]) {
        d.to_offset_2d()
    }
}

impl vstd::std_specs::convert::FromSpecImpl<Direction> for [i32; 2] {
    open spec fn obeys_from_spec() -> bool {
        true
    }

    open spec fn from_spec(d: Direction) -> [i32; 2] {
        [offset_x(d.bits()) as i32, offset_y(d.bits()) as i32]
    }
}

impl From<Direction> for [i32; 3] {
    fn from(d: Direction) -> (r: [i32; 3]) {
        d.to_offset_3d()
    }
}

impl vstd::std_specs::convert::FromSpecImpl<Direction> for [i32; 3] {
    open spec fn obeys_from_spec() -> bool {
        true
    }

    open spec fn from_spec(d: Direction) -> [i32; 3] {
        [offset_x(d.bits()) as i32, offset_y(d.bits()) as i32, offset_z(d.bits()) as i32]
    }
}

/// What converting the 2D offset `(x, y)` gives.
pub open spec fn offset_2d_result(x: int, y: int) -> Result<Direction, InvalidOffset> {
    if is_unit(x) && is_unit(y) {
        Ok(Direction::with_bits(flat_bits(x, y)))
    } else {
        Err(InvalidOffset)
    }
}

/// What converting the 3D offset `(x, y, z)` gives.
pub open spec fn offset_3d_result(x: int, y: int, z: int) -> Result<Direction, InvalidOffset> {
    if is_unit(x) && is_unit(y) && is_unit(z) {
        Ok(Direction::with_bits(offset_bits(x, y, z)))
    } else {
        Err(InvalidOffset)
    }
}

impl TryFrom<[i32; 2]> for Direction {
    type Error = InvalidOffset;

    fn try_from(a: [i32; 2]) -> (r: Result<Direction, InvalidOffset>) {
        let r = Direction::from_offset_2d(a);
        proof {
            match r {
                Ok(d) => Direction::lemma_bits_injective(d, d),
                Err(e) => assert(e == InvalidOffset),
            }
        }
        r
    }
}

impl TryFromSpecImpl<[i32; 2]> for Direction {
    open spec fn obeys_try_from_spec() -> bool {
        true
    }

    open spec fn try_from_spec(a: [i32; 2]) -> Result<Direction, InvalidOffset> {
        offset_2d_result(a[0] as int, a[1] as int)
    }
}

impl TryFrom<[i32; 3]> for Direction {
    type Error = InvalidOffset;

    fn try_from(v: [i32; 3]) -> (r: Result<Direction, InvalidOffset>) {
        let r = Direction::from_offset_3d(v);
        proof {
            match r {
                Ok(d) => Direction::lemma_bits_injective(d, d),
                Err(e) => assert(e == InvalidOffset),
            }
        }
        r
    }
}

impl TryFromSpecImpl<[i32; 3]> for Direction {
    open spec fn obeys_try_from_spec() -> bool {
        true
    }

    open spec fn try_from_spec(v: [i32; 3]) -> Result<Direction, InvalidOffset> {
        offset_3d_result(v[0] as int, v[1] as int, v[2] as int)
    }
}

} // verus!
