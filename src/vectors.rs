use crate::directions::{offset_2d_result, offset_3d_result, offset_x, offset_y, Direction, InvalidOffset};
use glam::{IVec2, IVec3};
use vstd::prelude::*;
use vstd::std_specs::convert::FromSpecImpl;
use vstd::std_specs::convert::TryFromSpecImpl;
use vstd::std_specs::ops::AddSpecImpl;

verus! {

/// glam's 2D integer vector, a plain pair of public `i32` fields.
#[verifier::external_type_specification]
pub struct ExIVec2(IVec2);

/// glam's 3D integer vector, a plain triple of public `i32` fields.
#[verifier::external_type_specification]
pub struct ExIVec3(IVec3);

/// Whether `c + d` fits in an `i32`.
pub open spec fn fits_i32(c: int, d: int) -> bool {
    i32::MIN <= c + d <= i32::MAX
}

/// Whether stepping from `p` along `d` stays within `i32` coordinates.
pub open spec fn step_fits(p: IVec2, d: Direction) -> bool {
    fits_i32(p.x as int, offset_x(d.bits())) && fits_i32(p.y as int, offset_y(d.bits()))
}

/// The cell one step from `p` along `d`, for a step that fits.
pub open spec fn step(p: IVec2, d: Direction) -> IVec2 {
    IVec2 { x: (p.x + offset_x(d.bits())) as i32, y: (p.y + offset_y(d.bits())) as i32 }
}

/// The 2D offset of a direction as a vector.
impl From<Direction> for IVec2 {
    fn from(d: Direction) -> (r: IVec2) {
        let xy = d.to_offset_2d();
        IVec2 { x: xy[0], y: xy[1] }
    }
}

impl FromSpecImpl<Direction> for IVec2 {
    open spec fn obeys_from_spec() -> bool {
        true
    }

    open spec fn from_spec(d: Direction) -> IVec2 {
        IVec2 { x: offset_x(d.bits()) as i32, y: offset_y(d.bits()) as i32 }
    }
}

/// The flat direction of a 2D offset; an error where a component lies outside `{-1, 0, 1}`.
impl TryFrom<IVec2> for Direction {
    type Error = InvalidOffset;

    fn try_from(v: IVec2) -> (r: Result<Direction, InvalidOffset>) {
        Direction::try_from([v.x, v.y])
    }
}

impl TryFromSpecImpl<IVec2> for Direction {
    open spec fn obeys_try_from_spec() -> bool {
        true
    }

    open spec fn try_from_spec(v: IVec2) -> Result<Direction, InvalidOffset> {
        offset_2d_result(v.x as int, v.y as int)
    }
}

/// The direction of a 3D offset; an error where a component lies outside `{-1, 0, 1}`.
impl TryFrom<IVec3> for Direction {
    type Error = InvalidOffset;

    fn try_from(v: IVec3) -> (r: Result<Direction, InvalidOffset>) {
        Direction::try_from([v.x, v.y, v.z])
    }
}

impl TryFromSpecImpl<IVec3> for Direction {
    open spec fn obeys_try_from_spec() -> bool {
        true
    }

    open spec fn try_from_spec(v: IVec3) -> Result<Direction, InvalidOffset> {
        offset_3d_result(v.x as int, v.y as int, v.z as int)
    }
}

/// `p + d` is the cell one step from `p` along `d`; the layer is dropped.
/// The step must stay within `i32` coordinates.
impl std::ops::Add<Direction> for IVec2 {
    type Output = IVec2;

    fn add(self, addend: Direction) -> (r: IVec2) {
        let xy = addend.to_offset_2d();
        IVec2 { x: xy[0] + self.x, y: xy[1] + self.y }
    }
}

impl AddSpecImpl<Direction> for IVec2 {
    open spec fn obeys_add_spec() -> bool {
        true
    }

    open spec fn add_req(self, addend: Direction) -> bool {
        step_fits(self, addend)
    }

    open spec fn add_spec(self, addend: Direction) -> IVec2 {
        step(self, addend)
    }
}

/// `d + p` is the same cell as `p + d`.
impl std::ops::Add<IVec2> for Direction {
    type Output = IVec2;

    fn add(self, addend: IVec2) -> (r: IVec2) {
        let xy = self.to_offset_2d();
        IVec2 { x: xy[0] + addend.x, y: xy[1] + addend.y }
    }
}

impl AddSpecImpl<IVec2> for Direction {
    open spec fn obeys_add_spec() -> bool {
        true
    }

    open spec fn add_req(self, addend: IVec2) -> bool {
        step_fits(addend, self)
    }

    open spec fn add_spec(self, addend: IVec2) -> IVec2 {
        step(addend, self)
    }
}

} // verus!
