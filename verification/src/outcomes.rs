pub mod calls;
pub mod events;
pub mod metadata;
pub mod numerals;
pub mod spans;
pub mod tags;
pub mod timing;
pub mod visitors;
