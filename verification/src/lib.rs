//! A runtime interface-casting engine for polymorphic object handles.
//!
//! A *concrete value* (an application type) can be viewed through an
//! *interface handle* (a broader type that erases which concrete type is
//! inside). Four protocols move a handle between views:
//!
//! - **upcast**: widen a view to a broader interface; infallible.
//! - **downcast**: narrow a view back to an exact concrete type, gated by a
//!   runtime identity check; on failure the handle comes back unchanged.
//! - **convert**: replace the underlying value in place so the handle also
//!   satisfies a target interface, via a per-type conversion routine.
//! - **veecast**: downcast to a named intermediate concrete type, then
//!   upcast it to an otherwise unrelated target interface.
//!
//! Applications opt types in by implementing the capability traits, each of
//! which carries the laws that the casting protocols are proved from.
//!
//! Every expected failure — a failed identity check, a refused conversion —
//! is returned as a value; no operation here panics.

pub mod object;
pub mod is;
pub mod upcast;
pub mod downcast;
pub mod convert;
pub mod veecast;
pub mod laws;
pub mod players;

pub use crate::object::Object;
pub use crate::is::Is;
pub use crate::is::IsObjOf;
