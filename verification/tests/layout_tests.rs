use bandview::layout::{split, Direction, Rect};

#[test]
fn horizontal_split_even_width() {
    let region = Rect { x: 0, y: 0, width: 80, height: 24 };
    let halves = split(Direction::Horizontal, region);
    assert_eq!(halves.len(), 2);
    assert_eq!(halves[0], Rect { x: 0, y: 0, width: 40, height: 24 });
    assert_eq!(halves[1], Rect { x: 40, y: 0, width: 40, height: 24 });
}

#[test]
fn horizontal_split_odd_width_first_half_larger() {
    let region = Rect { x: 2, y: 1, width: 5, height: 4 };
    let halves = split(Direction::Horizontal, region);
    assert_eq!(halves[0], Rect { x: 2, y: 1, width: 3, height: 4 });
    assert_eq!(halves[1], Rect { x: 5, y: 1, width: 2, height: 4 });
    // The two halves tile the region exactly.
    assert_eq!(halves[0].width + halves[1].width, region.width);
    assert_eq!(halves[0].x + halves[0].width, halves[1].x);
}

#[test]
fn vertical_split_odd_height_first_half_larger() {
    let region = Rect { x: 0, y: 0, width: 10, height: 7 };
    let halves = split(Direction::Vertical, region);
    assert_eq!(halves[0], Rect { x: 0, y: 0, width: 10, height: 4 });
    assert_eq!(halves[1], Rect { x: 0, y: 4, width: 10, height: 3 });
    assert_eq!(halves[0].height + halves[1].height, region.height);
}

#[test]
fn split_of_degenerate_region() {
    let region = Rect { x: 3, y: 3, width: 0, height: 1 };
    let halves = split(Direction::Horizontal, region);
    assert_eq!(halves[0], Rect { x: 3, y: 3, width: 0, height: 1 });
    assert_eq!(halves[1], Rect { x: 3, y: 3, width: 0, height: 1 });
}
