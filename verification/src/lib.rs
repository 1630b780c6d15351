//! A cell whose value can be revoked at run time, and a bit-mask helper.
//!
//! [`sync::revocable::Revocable`] owns a value until it is revoked. Whoever
//! holds the cell exclusively may revoke it or ask for a guard on the value;
//! once revoked, the cell hands out no guard again.

pub mod bits;
pub mod sync;
