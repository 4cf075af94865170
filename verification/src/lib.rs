//! Small verified library of introductory examples: a greeting builder,
//! a user-record constructor, a rectangle area computation, and a tagged
//! message type with an equivalent family of record types.

pub mod greeting;
pub mod message;
pub mod rectangle;
pub mod user;
