//! Text that may be handed to the native library as a C string.

use vstd::prelude::*;
use vstd::utf8::{encode_utf8, valid_utf8};
use crate::error::ContractViolation;

verus! {

/// Whether no byte of `bytes` is the terminator of a C string.
pub open spec fn nul_free(bytes: Seq<u8>) -> bool {
    forall|i: int| 0 <= i < bytes.len() ==> bytes[i] != 0
}

/// Text rejected for holding a NUL byte.
#[derive(Debug, Copy, Clone, PartialEq, Eq, Structural)]
pub struct NulError {
    /// The index of the first NUL byte in the text's UTF-8 encoding.
    pub position: usize,
}

#[verifier::external_type_specification]
#[verifier::external_body]
pub struct ExFromUtf8Error(std::string::FromUtf8Error);

/// `String::from_utf8` accepts exactly the byte vectors that are valid
/// UTF-8, and the string it returns is encoded by the bytes it was given.
pub assume_specification[ String::from_utf8 ](vec: Vec<u8>) -> (r: Result<
    String,
    std::string::FromUtf8Error,
>)
    ensures
        r is Ok <==> valid_utf8(vec@),
        r matches Ok(text) ==> encode_utf8(text@) == vec@,
;

/// UTF-8 text without a NUL byte: what a C string can carry unchanged.
#[derive(Debug, PartialEq, Eq)]
pub struct SafeString {
    text: String,
}

impl View for SafeString {
    type V = Seq<char>;

    closed spec fn view(&self) -> Seq<char> {
        self.text@
    }
}

impl Clone for SafeString {
    fn clone(&self) -> (copy: SafeString)
        ensures
            copy@ == self@,
    {
        proof {
            use_type_invariant(self);
        }
        SafeString { text: self.text.clone() }
    }
}

impl SafeString {
    #[verifier::type_invariant]
    spec fn wf(self) -> bool {
        nul_free(encode_utf8(self.text@))
    }

    /// The UTF-8 encoding of the text: the bytes that cross the boundary,
    /// without the terminator.
    pub open spec fn bytes(self) -> Seq<u8> {
        encode_utf8(self@)
    }

    /// Validates `text`: accepts it if and only if its encoding holds no NUL
    /// byte, and otherwise reports where the first one is.
    pub fn new(text: String) -> (r: Result<SafeString, NulError>)
        ensures
            r is Ok <==> nul_free(encode_utf8(text@)),
            r matches Ok(s) ==> s@ == text@,
            r matches Err(e) ==> {
                &&& e.position < encode_utf8(text@).len()
                &&& encode_utf8(text@)[e.position as int] == 0
                &&& nul_free(encode_utf8(text@).take(e.position as int))
            },
    {
        let bytes = text.as_str().as_bytes();
        let mut i: usize = 0;
        while i < bytes.len()
            invariant
                i <= bytes.len(),
                bytes@ == encode_utf8(text@),
                nul_free(bytes@.take(i as int)),
            decreases bytes.len() - i,
        {
            if bytes[i] == 0 {
                return Err(NulError { position: i });
            }
            i += 1;
        }
        assert(bytes@.take(i as int) == bytes@);
        Ok(SafeString { text })
    }

    /// Reads a name that the native library returned. Such a name is UTF-8
    /// text without a NUL byte; anything else is a contract violation.
    pub fn decode(raw: Vec<u8>) -> (r: Result<SafeString, ContractViolation>)
        ensures
            r is Ok <==> valid_utf8(raw@) && nul_free(raw@),
            r matches Ok(s) ==> s.bytes() == raw@,
            r matches Err(e) ==> e == ContractViolation::InvalidName,
    {
        match String::from_utf8(raw) {
            Ok(text) => match SafeString::new(text) {
                Ok(s) => Ok(s),
                Err(_) => Err(ContractViolation::InvalidName),
            },
            Err(_) => Err(ContractViolation::InvalidName),
        }
    }

    /// The text.
    pub fn as_str(&self) -> (text: &str)
        ensures
            text@ == self@,
            nul_free(self.bytes()),
    {
        proof {
            use_type_invariant(self);
        }
        self.text.as_str()
    }

    /// The text as a C string: its bytes, then the terminator, which is the
    /// only NUL byte.
    pub fn to_bytes_with_nul(&self) -> (out: Vec<u8>)
        ensures
            out@ == self.bytes().push(0),
            nul_free(self.bytes()),
    {
        proof {
            use_type_invariant(self);
        }
        let mut out = self.text.as_str().as_bytes_vec();
        out.push(0);
        out
    }
}

} // verus!
