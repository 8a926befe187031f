//! Write-once containers: `MonoBox`, a write-once `Option<Box<T>>`
//! with a single exclusive owner, and `MonoArc`, a write-once
//! `Option<Arc<T>>` whose payload may be co-owned by many handles.
//! Both start empty and move from `None` to `Some` at most once
//! through the one-shot `store` path; after that the contents are
//! frozen.  Only a caller with exclusive access (`&mut`) may change a
//! populated cell again, through `swap` and `take`.
//!
//! Every operation that can change a cell takes `&mut self`, so
//! Rust's exclusive borrows serialize the writers; the one-shot
//! `store` still refuses to overwrite a populated cell and hands the
//! rejected value back, so the first writer wins in whatever order
//! callers take their turns.  The shared upgrade protocol — first
//! store wins, later stores are rejected with nothing lost, and a
//! populated cell can never be observed empty again until an
//! exclusive-access operation — is modelled in [`write_once`] and its
//! laws are proved there once for both cells.

pub mod mono_arc;
pub mod mono_box;
pub mod write_once;

pub use mono_arc::MonoArc;
pub use mono_box::MonoBox;
