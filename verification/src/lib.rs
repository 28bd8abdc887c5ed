//! A singly linked list of strings that is filled and emptied at its front.
//!
//! [`List`] is the list; [`model`] says what its operations do to the
//! sequence of values it holds.

pub mod list;
pub mod model;

pub use list::List;
