//! Printing of byte strings that need not be valid UTF-8, with as little
//! loss as the destination allows.
//!
//! A destination that takes arbitrary bytes is given the bytes as they are.
//! A console is given the wide character string of the value where it has
//! one, which loses nothing either; only a console that must be given bytes
//! gets them repaired, each ill-formed sequence replaced by U+FFFD.
//!
//! The library decides and computes; it makes no system call. `write_lossy`
//! returns the write to perform, and `console::WideWriter` says call by call
//! what to offer a console's write primitive.

use vstd::prelude::*;
use vstd::utf8::valid_utf8;

pub mod bytes;
pub mod console;
pub mod writer;

pub use bytes::ByteStr;
pub use bytes::ByteStrView;
pub use bytes::ToBytes;
pub use bytes::WideStr;
pub use console::Console;
pub use writer::WriteLossy;

use bytes::wide_view;
use console::fits;
use console::handle_of;
use console::lemma_received_in_order;
use console::run;
use console::ConsoleReply;
use console::WriteError;

verus! {

/// The write that a destination is owed for a value.
#[derive(Debug, PartialEq, Eq)]
pub enum Action<'a> {
    /// Write the code units to the console, by `console::WideWriter`.
    WriteWide(Console<'a>, Vec<u16>),
    /// Write the bytes through the destination's ordinary byte-write entry.
    WriteAll(Vec<u8>),
}

/// What an `Action` holds.
pub enum ActionView {
    /// The handle of the console, and the code units for it.
    WriteWide(isize, Seq<u16>),
    /// The bytes for the destination.
    WriteAll(Seq<u8>),
}

impl<'a> View for Action<'a> {
    type V = ActionView;

    open spec fn view(&self) -> ActionView {
        match self {
            Action::WriteWide(console, units) => ActionView::WriteWide(console@, units@),
            Action::WriteAll(bytes) => ActionView::WriteAll(bytes@),
        }
    }
}

/// The write owed to a destination whose console, if it is one, has the
/// handle `console`, for a value with the byte string `bytes` and the wide
/// string `wide`.
pub open spec fn dispatch_spec(
    console: Option<isize>,
    bytes: ByteStrView,
    wide: Option<Seq<u16>>,
) -> ActionView {
    match console {
        Some(console) => match wide {
            Some(units) => ActionView::WriteWide(console, units),
            None => ActionView::WriteAll(bytes.lossy()),
        },
        None => ActionView::WriteAll(bytes.exact()),
    }
}

/// Chooses the write for a value, given the destination's console
/// capability. No console: the value's bytes, unchanged, whether or not they
/// are well-formed. A console and a wide string: the wide string, unchanged.
/// A console and no wide string: the bytes repaired, which differ from the
/// value's own exactly when those are ill-formed.
pub fn dispatch<'a>(console: Option<Console<'a>>, bytes: &ByteStr, wide: Option<WideStr>) -> (r:
    Action<'a>)
    ensures
        r@ == dispatch_spec(handle_of(console), bytes@, wide_view(wide)),
        console is None ==> r@ == ActionView::WriteAll(bytes@.exact()),
        console is Some && wide is Some ==> r@ == ActionView::WriteWide(console->0@, wide->0@),
        console is Some && wide is None ==> r@ == ActionView::WriteAll(bytes@.lossy()) && (r@
            == ActionView::WriteAll(bytes@.exact()) <==> valid_utf8(bytes@.exact())),
{
    match console {
        Some(console) => match wide {
            Some(string) => Action::WriteWide(console, string.into_units()),
            None => Action::WriteAll(bytes.render(true)),
        },
        None => Action::WriteAll(bytes.render(false)),
    }
}

/// A value with a wide string loses nothing on its way to a console: it is
/// the wide string that is handed to the console writer, not repaired
/// bytes, and a write of it that ends with success has given the console
/// exactly that string.
pub proof fn lemma_console_write_is_lossless(
    console: isize,
    bytes: ByteStrView,
    units: Seq<u16>,
    replies: Seq<ConsoleReply>,
)
    requires
        units.len() <= usize::MAX,
        fits(units.len(), 0, replies),
        run(units, 0, replies).outcome == Some(Ok::<(), WriteError>(())),
    ensures
        dispatch_spec(Some(console), bytes, Some(units)) == ActionView::WriteWide(console, units),
        run(units, 0, replies).received == units,
{
    lemma_received_in_order(units, 0, replies);
    assert(units.subrange(0, units.len() as int) =~= units);
}

/// Chooses the write of `value` to `writer`: asks the destination whether
/// it is a console, asks the value for its wide string only if it is, and
/// for its byte string only if that is what will be written.
pub fn write_lossy<'a, T, W>(writer: &'a W, value: &T) -> (r: Action<'a>) where
    T: ToBytes + ?Sized,
    W: WriteLossy + ?Sized,

    ensures
        exists|console: Option<Console>, bytes: ByteStr, wide: Option<WideStr>|
            {
                &&& call_ensures(W::to_console, (writer,), console)
                &&& console is Some ==> call_ensures(T::to_wide, (value,), wide)
                &&& console is None || wide is None ==> call_ensures(T::to_bytes, (value,), bytes)
                &&& r@ == dispatch_spec(handle_of(console), bytes@, wide_view(wide))
            },
{
    let console = writer.to_console();
    if let Some(handle) = console {
        let wide = value.to_wide();
        if let Some(string) = wide {
            let action = Action::WriteWide(handle, string.into_units());
            proof {
                let bytes: ByteStr = arbitrary();
                assert(action@ == dispatch_spec(handle_of(console), bytes@, wide_view(wide)));
            }
            return action;
        }
    }
    let bytes = value.to_bytes();
    let action = dispatch(console, &bytes, None);
    proof {
        let wide: Option<WideStr> = None;
        assert(action@ == dispatch_spec(handle_of(console), bytes@, wide_view(wide)));
    }
    action
}

} // verus!
