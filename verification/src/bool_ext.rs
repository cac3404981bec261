//! Extension trait for converting a `bool` into a `Result`.

use vstd::prelude::*;

verus! {

/// Extension trait turning a truth value into a `Result<(), E>`.
pub trait BoolExt: Sized {
    /// Holds exactly when the value stands for `true`.
    spec fn spec_truth(&self) -> bool;

    /// Returns `Ok(())` when the value is true, else `Err(err_fn())`.
    fn then_ok_or_else<E, F: FnOnce() -> E>(self, err_fn: F) -> (r: Result<(), E>)
        requires
            !self.spec_truth() ==> err_fn.requires(()),
        ensures
            r is Ok <==> self.spec_truth(),
            r matches Err(e) ==> err_fn.ensures((), e),
    ;

    /// Returns `Ok(())` when the value is true, else `Err(err)`.
    fn then_ok_or<E>(self, err: E) -> (r: Result<(), E>)
        ensures
            r is Ok <==> self.spec_truth(),
            r matches Err(e) ==> e == err,
    ;
}

impl BoolExt for bool {
    open spec fn spec_truth(&self) -> bool {
        *self
    }

    fn then_ok_or_else<E, F: FnOnce() -> E>(self, err_fn: F) -> (r: Result<(), E>) {
        if self {
            Ok(())
        } else {
            Err(err_fn())
        }
    }

    fn then_ok_or<E>(self, err: E) -> (r: Result<(), E>) {
        if self {
            Ok(())
        } else {
            Err(err)
        }
    }
}

} // verus!
