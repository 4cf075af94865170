use vstd::prelude::*;

verus! {

/// A rectangle with unsigned pixel dimensions.
#[derive(Debug)]
pub struct Rectangle {
    pub width: u32,
    pub height: u32,
}

/// The area of a rectangle: the product of its width and height.
///
/// The multiplication is unchecked, so the caller must ensure the
/// product fits in `u32`.
pub fn area(rectangle: &Rectangle) -> (a: u32)
    requires
        rectangle.width * rectangle.height <= u32::MAX,
    ensures
        a == rectangle.width * rectangle.height,
{
    rectangle.width * rectangle.height
}

} // verus!
