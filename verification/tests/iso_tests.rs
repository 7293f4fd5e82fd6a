use robofill::grid::WorldPoint;
use robofill::iso_coords::IsoCoord;

#[test]
fn new_keeps_coordinates() {
    let p = IsoCoord::new(-3, 7);
    assert_eq!(p.x, -3);
    assert_eq!(p.y, 7);
}

#[test]
fn from_cartesian_values() {
    let p = IsoCoord::from_cartesian(10, 4);
    assert_eq!(p.x, 6);
    assert_eq!(p.y, 7);
}

#[test]
fn from_cartesian_negative_x() {
    // A point above the x = y diagonal projects left of the origin, and
    // the half is rounded down.
    let p = IsoCoord::from_cartesian(3, 8);
    assert_eq!(p.x, -5);
    assert_eq!(p.y, 5);
}

#[test]
fn from_point_on_diagonal() {
    let p = IsoCoord::from_point(WorldPoint { x: 30, y: 30 });
    assert_eq!(p.x, 0);
    assert_eq!(p.y, 30);
}

#[test]
fn as_point_round_trip() {
    let p = IsoCoord::from_cartesian(100, 40);
    assert_eq!(p.as_point(), (60, 70));
}
