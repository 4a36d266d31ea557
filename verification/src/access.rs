//! Exclusive access to a value that is reached through a shared reference.
//!
//! The adapters keep their runtime in a `std::cell::RefCell`. Whether the cell
//! grants a borrow depends on the borrows that are alive at that moment, which
//! no contract can see: the cell and its guard are opaque here, and nothing is
//! claimed of them. What is done with either answer of the cell is the work of
//! [`with_access`].

use std::cell::BorrowMutError;
use std::cell::RefCell;
use std::cell::RefMut;
use vstd::prelude::*;

verus! {

/// `std::cell::RefCell`, carried as an opaque value.
#[verifier::external_type_specification]
#[verifier::external_body]
#[verifier::reject_recursive_types(T)]
pub struct ExRefCell<T: ?Sized>(RefCell<T>);

/// `std::cell::RefMut`, the guard of an exclusive borrow, carried as an opaque
/// value. The borrow ends when the guard is dropped.
#[verifier::external_type_specification]
#[verifier::external_body]
#[verifier::reject_recursive_types(T)]
pub struct ExRefMut<'b, T: ?Sized + 'b>(RefMut<'b, T>);

/// `std::cell::BorrowMutError`, the answer of a cell that is already borrowed.
#[verifier::external_type_specification]
#[verifier::external_body]
pub struct ExBorrowMutError(BorrowMutError);

/// `RefCell::new` makes a cell that owns `value`. Nothing is claimed of the
/// cell.
pub assume_specification<T>[ RefCell::<T>::new ](value: T) -> (cell: RefCell<T>);

/// `RefCell::try_borrow_mut` asks for the exclusive borrow and does not panic.
/// Which answer comes back depends on the borrows alive at the call, so
/// nothing is claimed of it.
pub assume_specification<T: ?Sized>[ RefCell::<T>::try_borrow_mut ](
    cell: &RefCell<T>,
) -> (access: Result<RefMut<'_, T>, BorrowMutError>);

/// The failure of a call that found the runtime lent out to another call.
#[derive(Debug, Clone, Copy, PartialEq, Eq, Structural)]
pub struct AccessViolation;

/// Finishes a call for either answer of the cell.
///
/// With the access granted, the guard is handed to `drive` and what `drive`
/// returns is returned as it is. The guard is moved into `drive`, and no type
/// that `drive` can return holds its borrow. With the access refused, `drive`
/// is dropped uncalled and the call fails.
pub fn with_access<R, T, G>(
    access: Result<RefMut<'_, R>, BorrowMutError>,
    drive: G,
) -> (res: Result<T, AccessViolation>) where G: for <'b>FnOnce(RefMut<'b, R>) -> T
    requires
        access is Ok ==> drive.requires((access->Ok_0,)),
    ensures
        res is Ok <==> access is Ok,
        access is Ok ==> drive.ensures((access->Ok_0,), res->Ok_0),
        access is Err ==> res == Err::<T, AccessViolation>(AccessViolation),
{
    match access {
        Ok(guard) => Ok(drive(guard)),
        Err(_) => Err(AccessViolation),
    }
}

} // verus!
