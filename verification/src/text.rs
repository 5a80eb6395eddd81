//! Marshalling of borrowed C strings into owned text.
//!
//! A caller on the far side of the boundary passes a pointer. What can be read
//! through it is modelled as `Option<&[u8]>`: `None` for the null pointer, and
//! otherwise the readable bytes that start at the pointer, which must hold the
//! terminating NUL. The text is the bytes before the first NUL, decoded as UTF-8.
use core::str::Utf8Error;
use vstd::prelude::*;
use vstd::utf8::{decode_utf8, encode_utf8, valid_utf8};

verus! {

/// `core::str::Utf8Error`, the error of `core::str::from_utf8`, carried through unread.
#[verifier::external_type_specification]
#[verifier::external_body]
pub struct ExUtf8Error(Utf8Error);

/// `core::str::from_utf8` views a byte slice as a string slice without copying.
/// The contract claims what its documentation says: the call succeeds exactly
/// when the bytes are well-formed UTF-8, and the string slice it hands back is
/// made of those same bytes, so that its UTF-8 encoding is the slice given.
pub assume_specification[ core::str::from_utf8 ](v: &[u8]) -> (res: Result<&str, Utf8Error>)
    ensures
        res is Ok <==> valid_utf8(v@),
        res matches Ok(s) ==> encode_utf8(s@) == v@,
;

/// Why a borrowed C string could not be turned into text.
#[derive(Clone, Copy, Debug, PartialEq, Eq, Structural)]
pub enum TextError {
    /// The pointer was null.
    NullPointer,
    /// No NUL byte ends the readable bytes.
    Unterminated,
    /// The bytes before the terminator are not well-formed UTF-8.
    InvalidUtf8,
}

/// What can be read through a borrowed pointer, as a mathematical value.
pub open spec fn readable(raw: Option<&[u8]>) -> Option<Seq<u8>> {
    match raw {
        Some(bytes) => Some(bytes@),
        None => None,
    }
}

/// `n` is the position of the first NUL byte of `buf`.
pub open spec fn is_terminator(buf: Seq<u8>, n: int) -> bool {
    &&& 0 <= n < buf.len()
    &&& buf[n] == 0
    &&& forall|i: int| 0 <= i < n ==> buf[i] != 0
}

/// The position of the first NUL byte of `buf`, if it has one.
pub open spec fn terminator(buf: Seq<u8>) -> Option<int> {
    if exists|n: int| is_terminator(buf, n) {
        Some(choose|n: int| is_terminator(buf, n))
    } else {
        None
    }
}

/// A buffer has at most one first NUL byte.
pub proof fn lemma_terminator_unique(buf: Seq<u8>, n: int)
    requires
        is_terminator(buf, n),
    ensures
        terminator(buf) == Some(n),
{
    let m = choose|m: int| is_terminator(buf, m);
    assert(is_terminator(buf, m));
    if m < n {
        assert(buf[m] != 0);
    } else if n < m {
        assert(buf[n] != 0);
    }
}

/// The outcome of a marshalling that fails for the reason `e`.
pub open spec fn failed(e: TextError) -> Result<Seq<char>, TextError> {
    Err(e)
}

/// The text that a borrowed pointer denotes, or the reason it denotes none.
pub open spec fn marshalled(raw: Option<Seq<u8>>) -> Result<Seq<char>, TextError> {
    match raw {
        None => Err(TextError::NullPointer),
        Some(buf) => match terminator(buf) {
            None => Err(TextError::Unterminated),
            Some(n) => if valid_utf8(buf.take(n)) {
                Ok(decode_utf8(buf.take(n)))
            } else {
                Err(TextError::InvalidUtf8)
            },
        },
    }
}

/// Text that was marshalled encodes to the bytes it was read from: the bytes
/// before the first NUL.
pub proof fn lemma_marshalled_round_trip(buf: Seq<u8>)
    requires
        marshalled(Some(buf)) is Ok,
    ensures
        terminator(buf) is Some,
        encode_utf8(marshalled(Some(buf))->Ok_0) == buf.take(terminator(buf)->0),
{
    vstd::utf8::decode_utf8_encode_utf8(buf.take(terminator(buf)->0));
}

/// Each failure has its own cause: the null pointer, a buffer without a NUL
/// byte, and ill-formed bytes before the first NUL.
pub proof fn lemma_marshalled_failures(raw: Option<Seq<u8>>)
    ensures
        marshalled(raw) == failed(TextError::NullPointer) <==> raw is None,
        marshalled(raw) == failed(TextError::Unterminated) <==> (raw matches Some(buf)
            && forall|i: int| 0 <= i < buf.len() ==> buf[i] != 0),
        marshalled(raw) == failed(TextError::InvalidUtf8) <==> (raw matches Some(buf)
            && exists|n: int| is_terminator(buf, n) && !valid_utf8(buf.take(n))),
{
    if let Some(buf) = raw {
        if exists|n: int| is_terminator(buf, n) {
            let n = choose|n: int| is_terminator(buf, n);
            assert(buf[n] == 0);
            assert forall|m: int| is_terminator(buf, m) implies m == n by {
                lemma_terminator_unique(buf, m);
            }
        } else {
            lemma_no_terminator(buf, 0);
        }
    }
}

/// A buffer without a first NUL byte has no NUL byte at all.
proof fn lemma_no_terminator(buf: Seq<u8>, upto: int)
    requires
        0 <= upto <= buf.len(),
        forall|n: int| !is_terminator(buf, n),
        forall|i: int| 0 <= i < upto ==> buf[i] != 0,
    ensures
        forall|i: int| 0 <= i < buf.len() ==> buf[i] != 0,
    decreases buf.len() - upto,
{
    if upto < buf.len() {
        if buf[upto] == 0 {
            assert(is_terminator(buf, upto));
        }
        lemma_no_terminator(buf, upto + 1);
    }
}

/// Finds the first NUL byte of `buf`.
pub fn find_terminator(buf: &[u8]) -> (pos: Option<usize>)
    ensures
        match pos {
            Some(n) => terminator(buf@) == Some(n as int),
            None => terminator(buf@) is None,
        },
{
    let mut i: usize = 0;
    while i < buf.len()
        invariant
            i <= buf.len(),
            forall|j: int| 0 <= j < i ==> buf@[j] != 0,
        decreases buf.len() - i,
    {
        if buf[i] == 0 {
            proof {
                lemma_terminator_unique(buf@, i as int);
            }
            return Some(i);
        }
        i += 1;
    }
    None
}

/// Copies the text behind a borrowed pointer into an owned string.
pub fn marshal_text(raw: Option<&[u8]>) -> (res: Result<String, TextError>)
    ensures
        match res {
            Ok(text) => marshalled(readable(raw)) == Ok::<Seq<char>, TextError>(text@),
            Err(e) => marshalled(readable(raw)) == failed(e),
        },
{
    let buf = match raw {
        Some(buf) => buf,
        None => {
            return Err(TextError::NullPointer);
        },
    };
    let n = match find_terminator(buf) {
        Some(n) => n,
        None => {
            return Err(TextError::Unterminated);
        },
    };
    match core::str::from_utf8(&buf[0..n]) {
        Ok(text) => {
            proof {
                vstd::utf8::encode_utf8_decode_utf8(text@);
            }
            Ok(text.to_owned())
        },
        Err(_) => Err(TextError::InvalidUtf8),
    }
}

} // verus!
