use rectangles::{area, area_with_tuple};

#[test]
fn area_of_width_30_and_height_50() {
    let width1: u32 = 30;
    let height1: u32 = 50;
    assert_eq!(area(width1, height1), 1500);
}

#[test]
fn area_of_bare_sides_is_their_product() {
    assert_eq!(area(7, 11), 77);
    assert_eq!(area(11, 7), 77);
    assert_eq!(area(0, 50), 0);
    assert_eq!(area(30, 0), 0);
}

#[test]
fn area_of_bare_sides_does_not_wrap() {
    assert_eq!(area(65_536, 65_536), 4_294_967_296);
    assert_eq!(area(u32::MAX, u32::MAX), 18_446_744_065_119_617_025);
}

#[test]
fn area_with_tuple_of_30_by_50() {
    let rect1: (u32, u32) = (30, 50);
    assert_eq!(area_with_tuple(rect1), 1500);
}

#[test]
fn area_with_tuple_reads_both_parts() {
    assert_eq!(area_with_tuple((7, 11)), 77);
    assert_eq!(area_with_tuple((0, 11)), 0);
    assert_eq!(area_with_tuple((u32::MAX, u32::MAX)), 18_446_744_065_119_617_025);
}
