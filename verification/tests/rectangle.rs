use snippets::rectangle::{area, Rectangle};

#[test]
fn area_thirty_by_fifty() {
    let rect = Rectangle { width: 30, height: 50 };
    assert_eq!(area(&rect), 1500);
}

#[test]
fn area_with_zero_side() {
    let rect = Rectangle { width: 0, height: 7 };
    assert_eq!(area(&rect), 0);
}

#[test]
fn area_largest_thin_rectangle() {
    let rect = Rectangle { width: u32::MAX, height: 1 };
    assert_eq!(area(&rect), u32::MAX);
}
