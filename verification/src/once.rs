//! The write-once cells that the guard, the locator and the call sites cache
//! their outcome in.
//!
//! A cell that is shared is filled at most once, by the one initialiser that
//! wins, and never emptied again. So every cell has one value that it settles
//! on, and whoever reads a filled cell reads that value. Nothing here takes a
//! cell by exclusive reference, which is the only way to empty one.
//!
//! Each cell is a private field of its owner, beside the operations that the
//! owner was built with, and is filled only by the owner's one initialiser.

use crate::backend::BackendHandle;
use crate::sigstack::StackError;
use once_cell::sync::OnceCell;
use std::sync::atomic::AtomicUsize;
use vstd::prelude::*;

verus! {

/// `once_cell::sync::OnceCell`, a cell that is written at most once and can be
/// shared between threads. Whether a cell is filled yet is not known: another
/// thread may fill it at any moment.
#[verifier::external_type_specification]
#[verifier::external_body]
#[verifier::reject_recursive_types(T)]
pub struct ExOnceCell<T>(OnceCell<T>);

/// `OnceCell::new` makes an empty cell. Nothing is claimed of it.
pub assume_specification<T>[ OnceCell::<T>::new ]() -> (cell: OnceCell<T>);

/// The outcome that a guard's cell settles on.
pub uninterp spec fn settled_stack(cell: OnceCell<Result<(), StackError>>) -> Result<
    (),
    StackError,
>;

/// The handle that a locator's cell settles on.
pub uninterp spec fn settled_handle(cell: OnceCell<BackendHandle>) -> BackendHandle;

/// The entry, or none, that a call site's cell settles on.
pub uninterp spec fn settled_entry(cell: OnceCell<Option<&'static AtomicUsize>>) -> Option<
    &'static AtomicUsize,
>;

} // verus!
