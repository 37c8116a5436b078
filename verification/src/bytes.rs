//! The representations that a value is reduced to before it is written.

use std::borrow::Cow;
use vstd::prelude::*;
use vstd::slice::slice_to_vec;
use vstd::string::StrSliceExecFns;
use vstd::string::StringSliceAdditionalSpecFns;
use vstd::utf8::decode_utf8;
use vstd::utf8::decode_utf8_encode_utf8;
use vstd::utf8::encode_utf8_valid_utf8;
use vstd::utf8::encode_utf8;
use vstd::utf8::valid_utf8;

verus! {

/// The text that the standard library's lossy decoder makes of a byte
/// sequence: every maximal ill-formed subsequence becomes one U+FFFD.
pub uninterp spec fn utf8_lossy(bytes: Seq<u8>) -> Seq<char>;

/// Calls `String::from_utf8_lossy`. The text that comes back is the lossy
/// decoding of `bytes`; for well-formed `bytes` it is their ordinary decoding.
#[verifier::external_body]
pub(crate) fn decode_lossy(bytes: &[u8]) -> (text: String)
    ensures
        text@ == utf8_lossy(bytes@),
        valid_utf8(bytes@) ==> text@ == decode_utf8(bytes@),
{
    String::from_utf8_lossy(bytes).into_owned()
}

/// The bytes of the lossy rendering of `bytes`: the text that the lossy
/// decoder makes of them, encoded again.
pub open spec fn lossy_bytes(bytes: Seq<u8>) -> Seq<u8> {
    encode_utf8(utf8_lossy(bytes))
}

#[derive(Debug)]
pub(crate) enum ByteStrInner<'a> {
    Bytes(&'a [u8]),
    Str(String),
}

/// What a `ByteStr` holds.
pub enum ByteStrView {
    /// Bytes of unknown form, kept as they are.
    Bytes(Seq<u8>),
    /// Text, which every destination can take.
    Str(Seq<char>),
}

impl ByteStrView {
    /// The bytes that a destination taking arbitrary bytes is given.
    pub open spec fn exact(self) -> Seq<u8> {
        match self {
            ByteStrView::Bytes(bytes) => bytes,
            ByteStrView::Str(text) => encode_utf8(text),
        }
    }

    /// The bytes that a destination taking only text is given.
    pub open spec fn lossy(self) -> Seq<u8> {
        match self {
            ByteStrView::Bytes(bytes) => lossy_bytes(bytes),
            ByteStrView::Str(text) => encode_utf8(text),
        }
    }

    /// The bytes written for this value, lossily or exactly.
    pub open spec fn rendered(self, lossy: bool) -> Seq<u8> {
        if lossy {
            self.lossy()
        } else {
            self.exact()
        }
    }
}

/// A value returned by `ToBytes::to_bytes`.
#[derive(Debug)]
pub struct ByteStr<'a>(pub(crate) ByteStrInner<'a>);

impl<'a> View for ByteStr<'a> {
    type V = ByteStrView;

    closed spec fn view(&self) -> ByteStrView {
        match self.0 {
            ByteStrInner::Bytes(bytes) => ByteStrView::Bytes(bytes@),
            ByteStrInner::Str(text) => ByteStrView::Str(text@),
        }
    }
}

impl<'a> ByteStr<'a> {
    /// Wraps a byte string lossily: the result holds the text that the
    /// lossy decoder makes of `string`, whose bytes are those of `string`
    /// exactly when `string` is well-formed.
    pub fn from_utf8_lossy(string: &'a [u8]) -> (r: Self)
        ensures
            r@ == ByteStrView::Str(utf8_lossy(string@)),
            r@.exact() == lossy_bytes(string@),
            r@.exact() == string@ <==> valid_utf8(string@),
    {
        broadcast use {encode_utf8_valid_utf8, decode_utf8_encode_utf8};

        ByteStr(ByteStrInner::Str(decode_lossy(string)))
    }

    /// Wraps text, which is written to every destination as it is.
    pub fn from_string(text: String) -> (r: Self)
        ensures
            r@ == ByteStrView::Str(text@),
    {
        ByteStr(ByteStrInner::Str(text))
    }

    /// The bytes to write for this value. A lossy rendering of raw bytes
    /// repairs them, and changes them exactly when they are ill-formed;
    /// every other rendering hands the held bytes on as they are.
    pub fn render(&self, lossy: bool) -> (r: Vec<u8>)
        ensures
            r@ == self@.rendered(lossy),
            r@ == self@.exact() <==> !lossy || valid_utf8(self@.exact()),
            lossy ==> valid_utf8(r@),
    {
        broadcast use {encode_utf8_valid_utf8, decode_utf8_encode_utf8};

        match &self.0 {
            ByteStrInner::Bytes(bytes) => {
                if lossy {
                    let text = decode_lossy(bytes);
                    text.as_str().as_bytes_vec()
                } else {
                    slice_to_vec(bytes)
                }
            },
            ByteStrInner::Str(text) => text.as_str().as_bytes_vec(),
        }
    }
}

/// A value returned by `ToBytes::to_wide`.
#[derive(Debug)]
pub struct WideStr(pub(crate) Vec<u16>);

impl View for WideStr {
    type V = Seq<u16>;

    closed spec fn view(&self) -> Seq<u16> {
        self.0@
    }
}

impl WideStr {
    /// Wraps a wide character string.
    pub fn new(string: Vec<u16>) -> (r: Self)
        ensures
            r@ == string@,
    {
        WideStr(string)
    }

    /// The code units of the string, taken out of it.
    pub fn into_units(self) -> (r: Vec<u16>)
        ensures
            r@ == self@,
    {
        self.0
    }
}

/// The wide view that an optional `WideStr` stands for.
pub open spec fn wide_view(wide: Option<WideStr>) -> Option<Seq<u16>> {
    match wide {
        Some(string) => Some(string@),
        None => None,
    }
}

/// Represents a type as a byte string, and where it has one as a wide
/// character string.
pub trait ToBytes {
    /// Returns a byte string that will be used to represent the instance.
    fn to_bytes(&self) -> ByteStr<'_>;

    /// Returns a wide character string that will be used to represent the
    /// instance. `None` causes `to_bytes` to be used instead.
    fn to_wide(&self) -> Option<WideStr>;
}

impl ToBytes for [u8] {
    fn to_bytes(&self) -> (r: ByteStr<'_>)
        ensures
            r@ == ByteStrView::Bytes(self@),
    {
        ByteStr(ByteStrInner::Bytes(self))
    }

    fn to_wide(&self) -> (r: Option<WideStr>)
        ensures
            r is None,
    {
        None
    }
}

impl<const N: usize> ToBytes for [u8; N] {
    fn to_bytes(&self) -> (r: ByteStr<'_>)
        ensures
            r@ == ByteStrView::Bytes(self@),
    {
        self.as_slice().to_bytes()
    }

    fn to_wide(&self) -> (r: Option<WideStr>)
        ensures
            r is None,
    {
        self.as_slice().to_wide()
    }
}

/// `Cow`'s `deref`, which lends the value that the `Cow` holds or borrows.
/// Nothing is claimed of what comes back.
pub assume_specification<'a, 'b, B: ?Sized + ToOwned>[ <Cow<'a, B> as std::ops::Deref>::deref ](
    cow: &'b Cow<'a, B>,
) -> &'b B;

impl<'a, T> ToBytes for Cow<'a, T> where T: ?Sized + ToBytes + ToOwned, T::Owned: ToBytes {
    /// The byte string of the value that the `Cow` lends.
    fn to_bytes(&self) -> (r: ByteStr<'_>)
        ensures
            exists|lent: &T|
                call_ensures(<Cow<'a, T> as std::ops::Deref>::deref, (self,), lent) && call_ensures(
                    T::to_bytes,
                    (lent,),
                    r,
                ),
    {
        (**self).to_bytes()
    }

    /// The wide string of the value that the `Cow` lends.
    fn to_wide(&self) -> (r: Option<WideStr>)
        ensures
            exists|lent: &T|
                call_ensures(<Cow<'a, T> as std::ops::Deref>::deref, (self,), lent) && call_ensures(
                    T::to_wide,
                    (lent,),
                    r,
                ),
    {
        (**self).to_wide()
    }
}

impl ToBytes for Vec<u8> {
    fn to_bytes(&self) -> (r: ByteStr<'_>)
        ensures
            r@ == ByteStrView::Bytes(self@),
    {
        self.as_slice().to_bytes()
    }

    fn to_wide(&self) -> (r: Option<WideStr>)
        ensures
            r is None,
    {
        self.as_slice().to_wide()
    }
}

} // verus!
