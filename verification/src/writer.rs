//! The destinations that `write_lossy` can serve.

use crate::console::Console;
use vstd::prelude::*;

verus! {

/// A destination of `write_lossy`: it tells whether it is a console at the
/// moment of the write.
pub trait WriteLossy {
    /// The console capability of the destination, or `None` where it takes
    /// arbitrary bytes. Asked anew at every write, since a destination may
    /// be redirected in between.
    fn to_console(&self) -> Option<Console<'_>>;
}

impl WriteLossy for Vec<u8> {
    /// A byte buffer is never a console.
    fn to_console(&self) -> (r: Option<Console<'_>>)
        ensures
            r is None,
    {
        None
    }
}

impl<T: WriteLossy + ?Sized> WriteLossy for &mut T {
    /// A borrowed destination answers as the destination itself.
    fn to_console(&self) -> (r: Option<Console<'_>>)
        ensures
            call_ensures(T::to_console, (&*old(*self),), r),
    {
        (**self).to_console()
    }
}

impl<T: WriteLossy + ?Sized> WriteLossy for Box<T> {
    /// A boxed destination answers as the destination itself.
    fn to_console(&self) -> (r: Option<Console<'_>>)
        ensures
            call_ensures(T::to_console, (&**self,), r),
    {
        (**self).to_console()
    }
}

} // verus!
