//! The components of the interface: their state and how it changes.
pub mod centered;
pub mod cursor;
pub mod home;
