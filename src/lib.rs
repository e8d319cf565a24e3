//! A copyable, comparable, hashable identifier for a `'static` type.
//!
//! [`ConstTypeId`] holds the native [`core::any::TypeId`] of the type it was
//! built for. Two identifiers are equal exactly when they resolve to the same
//! native identifier; their order is the native order.

mod native;
mod type_ident;

pub use native::native_order;
pub use type_ident::{ident_order, lemma_order_agrees_with_eq, reversed, ConstTypeId};
