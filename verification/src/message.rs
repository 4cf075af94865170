use vstd::prelude::*;

verus! {

/// A tagged union: a message is exactly one of four alternative shapes.
pub enum Message {
    Quit,
    Move { x: i32, y: i32 },
    Write(String),
    ChangeColor(i32, i32, i32),
}

// The tagged union above is semantically equivalent to the following
// closed family of four distinct record types, one per variant.

/// Record equivalent of `Message::Quit`.
pub struct QuitMessage;

/// Record equivalent of `Message::Move`.
pub struct MoveMessage {
    pub x: i32,
    pub y: i32,
}

/// Record equivalent of `Message::Write`.
pub struct WriteMessage(pub String);

/// Record equivalent of `Message::ChangeColor`.
pub struct ChangeColorMessage(pub i32, pub i32, pub i32);

impl Message {
    /// Dispatch on a message. Every variant can host a method; this one
    /// performs no action and has no observable effect.
    pub fn call(&self) {
    }
}

/// Law: the four variants are distinguishable by tag — no two
/// constructors yield the same value — and a payload written into a
/// variant is read back unchanged.
pub proof fn lemma_variants_distinguishable(x: i32, y: i32, s: String, r: i32, g: i32, b: i32)
    ensures
        Message::Quit is Quit,
        (Message::Move { x, y }) is Move,
        Message::Write(s) is Write,
        Message::ChangeColor(r, g, b) is ChangeColor,
        Message::Quit != (Message::Move { x, y }),
        Message::Quit != Message::Write(s),
        Message::Quit != Message::ChangeColor(r, g, b),
        (Message::Move { x, y }) != Message::Write(s),
        (Message::Move { x, y }) != Message::ChangeColor(r, g, b),
        Message::Write(s) != Message::ChangeColor(r, g, b),
        (Message::Move { x, y })->Move_x == x,
        (Message::Move { x, y })->Move_y == y,
        Message::Write(s)->Write_0 == s,
        Message::ChangeColor(r, g, b)->ChangeColor_0 == r,
        Message::ChangeColor(r, g, b)->ChangeColor_1 == g,
        Message::ChangeColor(r, g, b)->ChangeColor_2 == b,
{
}

} // verus!
