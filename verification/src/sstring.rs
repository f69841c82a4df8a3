//! Byte strings: stack vectors of bytes, with their decoding to text.

use vstd::prelude::*;
use vstd::utf8::{decode_utf8, valid_utf8};
use kerr::KErr;
use crate::error::{error_of, error_with};
use crate::svec::{SVec, StackVec};

verus! {

/// A stack vector of bytes, read as text: everything that `SVec` offers for bytes, and the
/// decoding of the bytes held.
pub trait SString: SVec<Item = u8> {
    /// The bytes decoded as UTF-8; bytes that are no valid UTF-8 give the error `Utf8Error`.
    fn as_string(&self) -> (r: Result<String, KErr>)
        requires
            self.wf(),
        ensures
            valid_utf8(self@) ==> r is Ok && r->Ok_0@ == decode_utf8(self@),
            !valid_utf8(self@) ==> r is Err && r->Err_0 == error_of("Utf8Error"@),
    ;
}

/// Calls `String::from_utf8`, which checks that the bytes are valid UTF-8 and, if they are,
/// turns the vector into a `String` of the same bytes; otherwise it fails.
#[verifier::external_body]
fn text_of_bytes(bytes: Vec<u8>) -> (r: Option<String>)
    ensures
        r is Some <==> valid_utf8(bytes@),
        r is Some ==> r->0@ == decode_utf8(bytes@),
{
    match String::from_utf8(bytes) {
        Ok(s) => Some(s),
        Err(_) => None,
    }
}

impl<const N: usize> StackVec<u8, N> {
    /// The bytes decoded as UTF-8; bytes that are no valid UTF-8 give the error `Utf8Error`.
    pub fn as_string(&self) -> (r: Result<String, KErr>)
        requires
            self.wf(),
        ensures
            valid_utf8(self@) ==> r is Ok && r->Ok_0@ == decode_utf8(self@),
            !valid_utf8(self@) ==> r is Err && r->Err_0 == error_of("Utf8Error"@),
    {
        let mut bytes: Vec<u8> = Vec::new();
        let n: usize = self.len();
        let mut i: usize = 0;
        while i < n
            invariant
                self.wf(),
                n == self@.len(),
                i <= n,
                bytes@ == self@.take(i as int),
            decreases n - i,
        {
            bytes.push(self.get_copy(i));
            assert(bytes@ =~= self@.take(i + 1));
            i += 1;
        }
        assert(bytes@ =~= self@);
        match text_of_bytes(bytes) {
            Some(s) => Ok(s),
            None => Err(error_with("Utf8Error")),
        }
    }
}

impl<const N: usize> SString for StackVec<u8, N> {
    fn as_string(&self) -> (r: Result<String, KErr>) {
        StackVec::<u8, N>::as_string(self)
    }
}

pub type SString1 = StackVec<u8, 1>;

pub type SString2 = StackVec<u8, 2>;

pub type SString4 = StackVec<u8, 4>;

pub type SString8 = StackVec<u8, 8>;

pub type SString16 = StackVec<u8, 16>;

pub type SString32 = StackVec<u8, 32>;

pub type SString64 = StackVec<u8, 64>;

pub type SString128 = StackVec<u8, 128>;

pub type SString256 = StackVec<u8, 256>;

pub type SString512 = StackVec<u8, 512>;

pub type SString1024 = StackVec<u8, 1024>;

pub type SString2048 = StackVec<u8, 2048>;

pub type SString4096 = StackVec<u8, 4096>;

pub type SString8192 = StackVec<u8, 8192>;

} // verus!
