//! What comes out of the library's functions, in terms of what went in.
//!
//! Each law speaks of calls: `call_ensures(f, args, result)` says that a call of
//! `f` with these arguments may return this result, and `call_requires(f, args)`
//! that the call may be made. A mutable reference among the arguments stands for
//! the value before the call; what the call makes of it is its final value. What
//! the laws say of it is said of plain fields, texts and bytes.

pub mod address;
pub mod filters;
pub mod fixtures;
pub mod helper;
pub mod metadata;
pub mod server;
pub mod table;
pub mod test_filter;
pub mod traffic;
