use glam::{IVec2, IVec3};
use grid_direction::{Direction, InvalidOffset};

fn flat() -> [Direction; 9] {
    [
        Direction::none(),
        Direction::up(),
        Direction::up_right(),
        Direction::right(),
        Direction::down_right(),
        Direction::down(),
        Direction::down_left(),
        Direction::left(),
        Direction::up_left(),
    ]
}

fn descending() -> [Direction; 9] {
    [
        Direction::descend(),
        Direction::desc_up(),
        Direction::desc_up_right(),
        Direction::desc_right(),
        Direction::desc_down_right(),
        Direction::desc_down(),
        Direction::desc_down_left(),
        Direction::desc_left(),
        Direction::desc_up_left(),
    ]
}

fn ascending() -> [Direction; 9] {
    [
        Direction::ascend(),
        Direction::asc_up(),
        Direction::asc_up_right(),
        Direction::asc_right(),
        Direction::asc_down_right(),
        Direction::asc_down(),
        Direction::asc_down_left(),
        Direction::asc_left(),
        Direction::asc_up_left(),
    ]
}

const FLAT_OFFSETS: [[i32; 2]; 9] = [
    [0, 0],
    [0, 1],
    [1, 1],
    [1, 0],
    [1, -1],
    [0, -1],
    [-1, -1],
    [-1, 0],
    [-1, 1],
];

#[test]
fn flat_offsets_match_table() {
    for (d, o) in flat().into_iter().zip(FLAT_OFFSETS) {
        let a: [i32; 2] = d.into();
        assert_eq!(a, o);
        assert_eq!(d.to_offset_2d(), o);
        assert_eq!(d.to_offset_3d(), [o[0], o[1], 0]);
    }
}

#[test]
fn flat_round_trip() {
    for d in flat() {
        let a: [i32; 2] = d.into();
        assert_eq!(Direction::try_from(a), Ok(d));
        assert_eq!(Direction::from_offset_2d(a), Ok(d));
        let v: IVec2 = d.into();
        assert_eq!(Direction::try_from(v), Ok(d));
    }
}

#[test]
fn layered_round_trip() {
    for (i, o) in FLAT_OFFSETS.into_iter().enumerate() {
        assert_eq!(Direction::try_from([o[0], o[1], 0]), Ok(flat()[i]));
        assert_eq!(Direction::try_from([o[0], o[1], -1]), Ok(descending()[i]));
        assert_eq!(Direction::try_from([o[0], o[1], 1]), Ok(ascending()[i]));
        assert_eq!(Direction::try_from(IVec3::new(o[0], o[1], 1)), Ok(ascending()[i]));
        assert_eq!(Direction::from_offset_3d([o[0], o[1], -1]), Ok(descending()[i]));
    }
    assert_eq!(Direction::try_from([1, 1, 1]), Ok(Direction::asc_up_right()));
    assert_eq!(Direction::try_from([0, 0, -1]), Ok(Direction::descend()));
}

#[test]
fn round_trip_3d_for_every_direction() {
    for d in flat().into_iter().chain(descending()).chain(ascending()) {
        let v: [i32; 3] = d.into();
        assert_eq!(Direction::try_from(v), Ok(d));
    }
}

#[test]
fn projection_drops_layer() {
    assert_eq!(Direction::up().to_offset_2d(), [0, 1]);
    assert_eq!(Direction::asc_up().to_offset_2d(), [0, 1]);
    assert_eq!(Direction::desc_up().to_offset_2d(), [0, 1]);
    assert_eq!(Direction::asc_up().to_offset_3d(), [0, 1, 1]);
    assert_eq!(Direction::desc_up().to_offset_3d(), [0, 1, -1]);
    for i in 0..9 {
        let f: [i32; 2] = flat()[i].into();
        let d: [i32; 2] = descending()[i].into();
        let a: [i32; 2] = ascending()[i].into();
        assert_eq!(f, d);
        assert_eq!(f, a);
    }
}

#[test]
fn groups() {
    let four = Direction::dir_4();
    let eight = Direction::dir_8();
    assert_eq!(
        four,
        [Direction::up(), Direction::down(), Direction::left(), Direction::right()]
    );
    assert_eq!(
        eight,
        [
            Direction::up(),
            Direction::down(),
            Direction::left(),
            Direction::right(),
            Direction::up_left(),
            Direction::up_right(),
            Direction::down_left(),
            Direction::down_right(),
        ]
    );
    for d in four {
        assert!(eight.contains(&d));
    }
    for d in eight {
        assert!(flat().contains(&d));
        assert_eq!(d.to_offset_3d()[2], 0);
    }
    assert!(!four.contains(&Direction::none()));
    assert!(!eight.contains(&Direction::none()));
}

#[test]
fn addition_translates() {
    assert_eq!(IVec2::new(5, 5) + Direction::down_left(), IVec2::new(4, 4));
    assert_eq!(Direction::down_left() + IVec2::new(5, 5), IVec2::new(4, 4));
    assert_eq!(IVec2::new(0, 0) + Direction::none(), IVec2::new(0, 0));
    assert_eq!(IVec2::new(0, 0) + Direction::asc_up_right(), IVec2::new(1, 1));
    let v: IVec2 = Direction::left().into();
    assert_eq!(v, IVec2::new(-1, 0));
}

#[test]
fn out_of_range_offsets_fail() {
    assert_eq!(Direction::try_from([2, 0]), Err(InvalidOffset));
    assert_eq!(Direction::try_from([0, -2]), Err(InvalidOffset));
    assert_eq!(Direction::from_offset_2d([2, 0]), Err(InvalidOffset));
    assert_eq!(Direction::try_from(IVec2::new(0, -2)), Err(InvalidOffset));
    assert_eq!(Direction::try_from([0, 0, 2]), Err(InvalidOffset));
    assert_eq!(Direction::try_from([3, 0, 0]), Err(InvalidOffset));
    assert_eq!(Direction::try_from(IVec3::new(0, 0, -2)), Err(InvalidOffset));
    assert_eq!(Direction::from_offset_3d([i32::MIN, 0, 1]), Err(InvalidOffset));
}

#[test]
fn named_directions_are_distinct() {
    let all: Vec<Direction> = flat().into_iter().chain(descending()).chain(ascending()).collect();
    assert_eq!(all.len(), 27);
    for i in 0..all.len() {
        for j in 0..all.len() {
            assert_eq!(i == j, all[i] == all[j]);
            assert_eq!(i == j, all[i].to_offset_3d() == all[j].to_offset_3d());
        }
    }
}
