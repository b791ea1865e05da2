use vstd::prelude::*;
use vstd::slice::slice_to_vec;
use vstd::utf8::{decode_utf8, valid_utf8};

verus! {

/// The bytes in front of the first NUL, or all of them when there is none.
pub open spec fn until_nul(b: Seq<u8>) -> Seq<u8>
    decreases b.len(),
{
    if b.len() == 0 || b[0] == 0 {
        Seq::empty()
    } else {
        seq![b[0]] + until_nul(b.subrange(1, b.len() as int))
    }
}

/// The text of a NUL-padded UTF-8 field; empty when it is not valid UTF-8.
pub open spec fn field_text(b: Seq<u8>) -> Seq<char> {
    if valid_utf8(until_nul(b)) {
        decode_utf8(until_nul(b))
    } else {
        Seq::empty()
    }
}

proof fn lemma_until_nul_prefix(b: Seq<u8>, i: int)
    requires
        0 <= i <= b.len(),
        forall|j: int| 0 <= j < i ==> b[j] != 0,
        i == b.len() || b[i] == 0,
    ensures
        until_nul(b) == b.subrange(0, i),
    decreases b.len(),
{
    if b.len() == 0 || b[0] == 0 {
        assert(b.subrange(0, i) =~= Seq::empty());
    } else {
        let rest = b.subrange(1, b.len() as int);
        lemma_until_nul_prefix(rest, i - 1);
        assert(b.subrange(0, i) =~= seq![b[0]] + rest.subrange(0, i - 1));
    }
}

/// Copies the bytes in front of the first NUL.
pub fn trim_nul(b: &[u8]) -> (r: Vec<u8>)
    ensures
        r@ == until_nul(b@),
{
    let n = b.len();
    let mut r: Vec<u8> = Vec::new();
    let mut i: usize = 0;
    while i < n && b[i] != 0
        invariant
            n == b@.len(),
            i <= n,
            r@ == b@.subrange(0, i as int),
            forall|j: int| 0 <= j < i ==> b@[j] != 0,
        decreases n - i,
    {
        r.push(b[i]);
        i += 1;
        assert(r@ =~= b@.subrange(0, i as int));
    }
    proof {
        lemma_until_nul_prefix(b@, i as int);
    }
    r
}

/// Relies on std's `String::from_utf8`: it succeeds exactly when the bytes
/// are valid UTF-8, and the string then holds the characters they encode.
#[verifier::external_body]
fn utf8_string(bytes: Vec<u8>) -> (r: Option<String>)
    ensures
        match r {
            Some(s) => valid_utf8(bytes@) && s@ == decode_utf8(bytes@),
            None => !valid_utf8(bytes@),
        },
{
    String::from_utf8(bytes).ok()
}

/// The text of a NUL-padded UTF-8 field as the game writes it.
pub fn field_string(b: &[u8]) -> (r: String)
    ensures
        r@ == field_text(b@),
{
    match utf8_string(trim_nul(b)) {
        Some(s) => s,
        None => String::new(),
    }
}

/// The text of bytes that are valid UTF-8; empty otherwise.
pub open spec fn text_or_blank(b: Seq<u8>) -> Seq<char> {
    if valid_utf8(b) {
        decode_utf8(b)
    } else {
        Seq::empty()
    }
}

/// The text of `b` when it is valid UTF-8, else an empty string.
pub fn utf8_or_empty(b: &[u8]) -> (r: String)
    ensures
        r@ == text_or_blank(b@),
{
    match utf8_string(slice_to_vec(b)) {
        Some(s) => s,
        None => String::new(),
    }
}

} // verus!
