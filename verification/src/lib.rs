//! Runtime support for JavaScript bindings: handles to values that live in the
//! host's heap table, the borrow-flag protocol that guards Rust objects handed
//! to the host against re-entrant aliasing, and the small decisions the runtime
//! takes on the answers the host gives back.

pub mod borrow;
pub mod clamped;
pub mod fatal;
pub mod host;
pub mod refcell;
pub mod rt;
pub mod value;

pub use clamped::Clamped;
pub use refcell::WasmRefCell;
pub use value::JsValue;
