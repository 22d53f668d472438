//! The identifiers of commits and trees, and the text that a commit's
//! identifier is written in.

use vstd::prelude::*;

verus! {

/// The number of bytes in an identifier.
pub const OBJECT_ID_BYTES: usize = 20;

/// The largest number of hexadecimal digits that a hash may be written in.
pub const HASH_MAX_DIGITS: usize = 40;

/// Whether `c` is one of `0`-`9`, `a`-`f`, `A`-`F`.
pub open spec fn is_hex_digit(c: char) -> bool {
    ('0' <= c && c <= '9') || ('a' <= c && c <= 'f') || ('A' <= c && c <= 'F')
}

/// The number that the hexadecimal digit `c` stands for.
pub open spec fn hex_value(c: char) -> int {
    if '0' <= c && c <= '9' {
        c as int - '0' as int
    } else if 'a' <= c && c <= 'f' {
        c as int - 'a' as int + 10
    } else {
        c as int - 'A' as int + 10
    }
}

/// Whether `text` can be read as a commit identifier: between one and forty
/// hexadecimal digits and nothing else.
pub open spec fn well_formed_hash(text: Seq<char>) -> bool {
    &&& 1 <= text.len() <= HASH_MAX_DIGITS
    &&& forall|i: int| 0 <= i < text.len() ==> is_hex_digit(#[trigger] text[i])
}

/// The value of the digit at position `i` of `text`; a hash that is written
/// with fewer than forty digits is read as if zeros followed.
pub open spec fn hash_digit(text: Seq<char>, i: int) -> int {
    if 0 <= i < text.len() {
        hex_value(text[i])
    } else {
        0
    }
}

/// The identifier that a well-formed hash denotes: two digits to a byte, the
/// first of them the high half.
pub open spec fn hash_bytes(text: Seq<char>) -> Seq<u8> {
    Seq::new(
        OBJECT_ID_BYTES as nat,
        |i: int| (16 * hash_digit(text, 2 * i) + hash_digit(text, 2 * i + 1)) as u8,
    )
}

/// The identifier of one object of a repository, a commit or a tree: twenty
/// bytes.
#[derive(Clone, Copy, Debug, PartialEq, Eq)]
pub struct ObjectId {
    bytes: [u8; 20],
}

impl View for ObjectId {
    type V = Seq<u8>;

    closed spec fn view(&self) -> Seq<u8> {
        self.bytes@
    }
}

impl ObjectId {
    /// The identifier made of the given bytes.
    pub fn from_bytes(bytes: [u8; 20]) -> (id: ObjectId)
        ensures
            id@ == bytes@,
    {
        ObjectId { bytes }
    }

    /// The bytes of this identifier.
    pub fn bytes(&self) -> (bytes: [u8; 20])
        ensures
            bytes@ == self@,
    {
        self.bytes
    }

    /// Every identifier has twenty bytes.
    pub proof fn lemma_length(self)
        ensures
            self@.len() == OBJECT_ID_BYTES,
    {
    }
}

} // verus!
