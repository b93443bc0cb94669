//! Preparing raw byte text for drawing: curses reads a byte string up to its
//! first NUL byte, and the drawing calls take that text as UTF-8.
use vstd::prelude::*;
use vstd::utf8::{decode_utf8, encode_scalar, encode_utf8, valid_utf8};
use libc::c_char;

verus! {

broadcast use {vstd::utf8::decode_utf8_encode_utf8, vstd::utf8::encode_utf8_decode_utf8};

/// The bytes of `s` that come before its first NUL byte (all of `s` when it
/// holds none).
pub open spec fn before_nul(s: Seq<c_char>) -> Seq<c_char>
    decreases s.len(),
{
    if s.len() == 0 || s[0] == 0 {
        Seq::empty()
    } else {
        seq![s[0]] + before_nul(s.drop_first())
    }
}

/// The text bytes of `s`: the bytes before its first NUL, each read unsigned.
pub open spec fn text_bytes(s: Seq<c_char>) -> Seq<u8> {
    before_nul(s).map_values(|c: c_char| c as u8)
}

/// The characters that a byte string stands for, if its text bytes are UTF-8.
pub open spec fn decoded_text(s: Seq<c_char>) -> Option<Seq<char>> {
    if valid_utf8(text_bytes(s)) {
        Some(decode_utf8(text_bytes(s)))
    } else {
        None
    }
}

/// `before_nul` is the longest prefix free of NUL bytes.
pub proof fn lemma_before_nul(s: Seq<c_char>)
    ensures
        before_nul(s).len() <= s.len(),
        before_nul(s) == s.take(before_nul(s).len() as int),
        forall|i: int| 0 <= i < before_nul(s).len() ==> s[i] != 0,
        before_nul(s).len() < s.len() ==> s[before_nul(s).len() as int] == 0,
    decreases s.len(),
{
    if s.len() > 0 && s[0] != 0 {
        let rest = s.drop_first();
        lemma_before_nul(rest);
        assert(before_nul(s) =~= s.take(before_nul(s).len() as int));
        assert forall|i: int| 0 <= i < before_nul(s).len() implies s[i] != 0 by {
            if i > 0 {
                assert(s[i] == rest[i - 1]);
            }
        }
    } else {
        assert(before_nul(s) =~= s.take(0));
    }
}

/// A NUL character in a text shows as a zero byte in its UTF-8 encoding.
pub proof fn lemma_nul_char_encodes_to_zero(chars: Seq<char>, i: int)
    requires
        0 <= i < chars.len(),
        chars[i] == '\0',
    ensures
        encode_utf8(chars).contains(0u8),
    decreases chars.len(),
{
    let first = encode_scalar(chars[0] as u32);
    assert(encode_utf8(chars) == first + encode_utf8(chars.drop_first()));
    if i == 0 {
        assert(0u32 & 0x7F == 0) by (bit_vector);
        assert(chars[0] as u32 == 0);
        assert(first == seq![0u8]);
        assert(encode_utf8(chars)[0] == 0u8);
    } else {
        lemma_nul_char_encodes_to_zero(chars.drop_first(), i - 1);
        let rest = encode_utf8(chars.drop_first());
        let j = choose|j: int| 0 <= j < rest.len() && rest[j] == 0u8;
        assert(encode_utf8(chars)[first.len() + j] == 0u8);
    }
}

/// The text bytes of a byte string: the bytes before its first NUL, each
/// read as an unsigned byte.
pub fn bytes_before_nul(text: &Vec<c_char>) -> (r: Vec<u8>)
    ensures
        r@ == text_bytes(text@),
{
    proof {
        lemma_before_nul(text@);
    }
    let mut r: Vec<u8> = Vec::new();
    let mut i: usize = 0;
    while i < text.len() && text[i] != 0
        invariant
            i <= before_nul(text@).len(),
            r@ == before_nul(text@).take(i as int).map_values(|c: c_char| c as u8),
            before_nul(text@).len() <= text@.len(),
            before_nul(text@) == text@.take(before_nul(text@).len() as int),
            forall|k: int| 0 <= k < before_nul(text@).len() ==> text@[k] != 0,
            before_nul(text@).len() < text@.len() ==> text@[before_nul(text@).len() as int] == 0,
        decreases text.len() - i,
    {
        proof {
            if i == before_nul(text@).len() {
                assert(text@[i as int] == 0);
            }
        }
        r.push(text[i] as u8);
        i = i + 1;
        assert(r@ =~= before_nul(text@).take(i as int).map_values(|c: c_char| c as u8));
    }
    proof {
        if i < before_nul(text@).len() {
            assert(text@[i as int] != 0);
        }
        assert(before_nul(text@).take(i as int) =~= before_nul(text@));
    }
    r
}

/// Relies on `String::from_utf8`: it succeeds exactly when the bytes are
/// UTF-8, and the string it returns is made of those same bytes.
#[verifier::external_body]
fn string_from_utf8(bytes: Vec<u8>) -> (r: Option<String>)
    ensures
        r is Some <==> valid_utf8(bytes@),
        r is Some ==> encode_utf8(r->Some_0@) == bytes@,
{
    String::from_utf8(bytes).ok()
}

/// The text that a byte string holds before its first NUL byte, or `None`
/// when those bytes are not UTF-8. The text never holds a NUL character.
pub fn bytes_to_text(text: &Vec<c_char>) -> (r: Option<String>)
    ensures
        r is Some <==> decoded_text(text@) is Some,
        r is Some ==> r->Some_0@ == decoded_text(text@)->Some_0,
        r is Some ==> !r->Some_0@.contains('\0'),
        r is Some ==> encode_utf8(r->Some_0@) == text_bytes(text@),
{
    let bytes = bytes_before_nul(text);
    let ghost b = bytes@;
    proof {
        lemma_before_nul(text@);
        assert forall|k: int| 0 <= k < b.len() implies b[k] != 0u8 by {
            let c = before_nul(text@)[k];
            assert(c == text@[k]);
            assert(c != 0);
            assert(b[k] == c as u8);
            assert(c as u8 != 0u8) by (bit_vector)
                requires
                    c != 0i8,
            ;
        }
    }
    let r = string_from_utf8(bytes);
    proof {
        if r is Some {
            let s = r->Some_0@;
            assert(decode_utf8(encode_utf8(s)) == s);
            if s.contains('\0') {
                let i = choose|i: int| 0 <= i < s.len() && s[i] == '\0';
                lemma_nul_char_encodes_to_zero(s, i);
            }
        }
    }
    r
}

} // verus!
