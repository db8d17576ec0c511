//! Exclusive owners of reference-counted allocations.
//!
//! [`UniqRc`] and [`UniqArc`] each hold one `Rc` or `Arc` that no other
//! strong or weak pointer shares. Holding the only pointer, they hand out
//! `&mut` access like a `Box`, and give the `Rc` or `Arc` back without
//! moving the pointee.
pub mod arc;
pub mod laws;
pub mod make_mut;
pub mod order;
pub mod rc;

pub use arc::UniqArc;
pub use make_mut::MakeMut;
pub use rc::UniqRc;
