//! Text in the fixed fields that the driver fills: a run of bytes, closed by
//! a zero byte, inside a buffer of fixed capacity.
use vstd::prelude::*;
use vstd::slice::slice_subrange;
use vstd::utf8::{
    char_is_scalar, char_u32_cast, decode_utf8, encode_scalar, encode_utf8, encode_utf8_decode_utf8, encode_utf8_valid_utf8,
    has_width_1_encoding, is_ascii_chars, is_ascii_chars_encode_utf8, last_continuation_byte,
    leading_byte_width_1, leading_byte_width_2, leading_byte_width_3, leading_byte_width_4,
    second_last_continuation_byte, third_last_continuation_byte, valid_utf8,
};

verus! {

/// `n` is the position of the first zero byte of `bytes`.
pub open spec fn is_text_end(bytes: Seq<u8>, n: int) -> bool {
    &&& 0 <= n < bytes.len()
    &&& bytes[n] == 0
    &&& forall|i: int| 0 <= i < n ==> bytes[i] != 0
}

/// `bytes` holds a zero byte, and so a text that ends before it.
pub open spec fn terminated(bytes: Seq<u8>) -> bool {
    exists|n: int| is_text_end(bytes, n)
}

/// The position of the first zero byte of a terminated field.
pub open spec fn text_end(bytes: Seq<u8>) -> int {
    choose|n: int| is_text_end(bytes, n)
}

/// The bytes of the text that a field holds: those before its first zero
/// byte. A field without a zero byte holds no text.
pub open spec fn field_bytes(bytes: Seq<u8>) -> Option<Seq<u8>> {
    if terminated(bytes) {
        Some(bytes.take(text_end(bytes)))
    } else {
        None
    }
}

/// The text that a field holds, where its bytes before the first zero byte are
/// UTF-8.
pub open spec fn field_text(bytes: Seq<u8>) -> Option<Seq<char>> {
    match field_bytes(bytes) {
        Some(text) => if valid_utf8(text) {
            Some(decode_utf8(text))
        } else {
            None
        },
        None => None,
    }
}

/// What a field of `capacity` bytes holds once `text` is stored in it: as much
/// of `text` as leaves room for the closing zero byte, then zero bytes to the
/// end.
pub open spec fn stored_text(text: Seq<u8>, capacity: nat) -> Seq<u8> {
    Seq::new(
        capacity,
        |i: int|
            if i < text.len() && i < capacity - 1 {
                text[i]
            } else {
                0u8
            },
    )
}

/// How many bytes of a text of `len` bytes a field of `capacity` bytes keeps.
pub open spec fn kept_len(len: nat, capacity: nat) -> int {
    if len < capacity {
        len as int
    } else {
        capacity - 1
    }
}

/// A field has at most one first zero byte.
pub proof fn lemma_text_end_unique(bytes: Seq<u8>, n: int, m: int)
    requires
        is_text_end(bytes, n),
        is_text_end(bytes, m),
    ensures
        n == m,
{
    if n < m {
        assert(bytes[n] != 0);
    } else if m < n {
        assert(bytes[m] != 0);
    }
}

/// A field whose first zero byte is at `n` holds the `n` bytes before it.
pub proof fn lemma_field_bytes_at(bytes: Seq<u8>, n: int)
    requires
        is_text_end(bytes, n),
    ensures
        terminated(bytes),
        text_end(bytes) == n,
        field_bytes(bytes) == Some(bytes.take(n)),
{
    lemma_text_end_unique(bytes, n, text_end(bytes));
}

/// The position of the first zero byte of `buf`, if it has one.
pub fn find_text_end(buf: &[u8]) -> (r: Option<usize>)
    ensures
        r is Some <==> terminated(buf@),
        r matches Some(n) ==> n == text_end(buf@),
{
    let mut i: usize = 0;
    while i < buf.len()
        invariant
            i <= buf@.len(),
            forall|k: int| 0 <= k < i ==> buf@[k] != 0,
        decreases buf@.len() - i,
    {
        if buf[i] == 0 {
            proof {
                lemma_field_bytes_at(buf@, i as int);
            }
            return Some(i);
        }
        i += 1;
    }
    assert(!terminated(buf@)) by {
        assert forall|n: int| 0 <= n < buf@.len() implies !is_text_end(buf@, n) by {
            assert(buf@[n] != 0);
        }
    }
    None
}

/// `core::str::from_utf8`: the string slice over `bytes`. The standard
/// library gives one exactly when `bytes` is UTF-8, and its bytes are then
/// `bytes`. This is taken from the documentation of the standard library and
/// not proved here.
#[verifier::external_body]
fn str_from_utf8(bytes: &[u8]) -> (r: Option<&str>)
    ensures
        r is Some <==> valid_utf8(bytes@),
        r matches Some(s) ==> encode_utf8(s@) == bytes@,
{
    core::str::from_utf8(bytes).ok()
}

/// The bytes before the first zero byte of `buf`, if it has one.
pub fn read_field_bytes(buf: &[u8]) -> (r: Option<&[u8]>)
    ensures
        match r {
            Some(text) => field_bytes(buf@) == Some(text@),
            None => field_bytes(buf@) is None,
        },
{
    match find_text_end(buf) {
        Some(n) => Some(slice_subrange(buf, 0, n)),
        None => None,
    }
}

/// The text that `buf` holds: its bytes before the first zero byte, read as
/// UTF-8. There is none if `buf` has no zero byte or those bytes are not
/// UTF-8.
pub fn read_field_text(buf: &[u8]) -> (r: Option<&str>)
    ensures
        match r {
            Some(text) => field_text(buf@) == Some(text@),
            None => field_text(buf@) is None,
        },
{
    match read_field_bytes(buf) {
        Some(bytes) => {
            let r = str_from_utf8(bytes);
            proof {
                if let Some(text) = r {
                    encode_utf8_decode_utf8(text@);
                }
            }
            r
        },
        None => None,
    }
}

/// Stores `text` in a field of `N` bytes, as the driver does: the text is cut
/// to `N - 1` bytes where it is longer, and the rest of the field is zero.
pub fn store_text<const N: usize>(text: &[u8]) -> (field: [u8; N])
    ensures
        field@ == stored_text(text@, N as nat),
{
    let mut field = [0u8; N];
    let mut i: usize = 0;
    while i < text.len() && i + 1 < N
        invariant
            i <= text@.len(),
            i < N || N == 0,
            field@.len() == N,
            forall|k: int| 0 <= k < i ==> field@[k] == text@[k],
            forall|k: int| i <= k < N ==> field@[k] == 0u8,
        decreases text@.len() - i,
    {
        field[i] = text[i];
        i += 1;
    }
    field
}

/// A stored text is read back as it was, up to the field's capacity less the
/// closing zero byte, provided that the part that is kept holds no zero byte.
pub proof fn lemma_stored_bytes_round_trip(text: Seq<u8>, capacity: nat)
    requires
        capacity >= 1,
        forall|i: int| 0 <= i < kept_len(text.len(), capacity) ==> text[i] != 0,
    ensures
        field_bytes(stored_text(text, capacity)) == Some(
            text.take(kept_len(text.len(), capacity)),
        ),
{
    let field = stored_text(text, capacity);
    let n = kept_len(text.len(), capacity);
    lemma_field_bytes_at(field, n);
    assert(field.take(n) =~= text.take(n));
}

/// A stored text that holds a zero byte is read back only up to that byte.
pub proof fn lemma_stored_bytes_stop_at_zero(text: Seq<u8>, capacity: nat, n: int)
    requires
        is_text_end(text, n),
        n < capacity,
    ensures
        field_bytes(stored_text(text, capacity)) == Some(text.take(n)),
{
    let field = stored_text(text, capacity);
    lemma_field_bytes_at(field, n);
    assert(field.take(n) =~= text.take(n));
}

/// The encoding of a character other than the zero character holds no zero
/// byte.
proof fn lemma_scalar_bytes_nonzero(scalar: u32)
    requires
        scalar != 0,
    ensures
        forall|i: int| 0 <= i < encode_scalar(scalar).len() ==> encode_scalar(scalar)[i] != 0,
{
    assert(has_width_1_encoding(scalar) ==> leading_byte_width_1(scalar) != 0) by (bit_vector)
        requires
            scalar != 0,
    ;
    assert(leading_byte_width_2(scalar) != 0) by (bit_vector);
    assert(leading_byte_width_3(scalar) != 0) by (bit_vector);
    assert(leading_byte_width_4(scalar) != 0) by (bit_vector);
    assert(last_continuation_byte(scalar) != 0) by (bit_vector);
    assert(second_last_continuation_byte(scalar) != 0) by (bit_vector);
    assert(third_last_continuation_byte(scalar) != 0) by (bit_vector);
}

/// The encoding of a text without the zero character holds no zero byte.
pub proof fn lemma_encoding_without_zero(text: Seq<char>)
    requires
        !text.contains('\0'),
    ensures
        forall|i: int| 0 <= i < encode_utf8(text).len() ==> encode_utf8(text)[i] != 0,
    decreases text.len(),
{
    if text.len() > 0 {
        let first = encode_scalar(text[0] as u32);
        let rest = text.drop_first();
        assert(!rest.contains('\0')) by {
            if rest.contains('\0') {
                let k = choose|k: int| 0 <= k < rest.len() && rest[k] == '\0';
                assert(text[k + 1] == '\0');
            }
        }
        assert(text[0] as u32 != 0) by {
            char_is_scalar(text[0]);
            char_u32_cast(text[0], text[0] as u32);
            char_u32_cast('\0', 0u32);
        }
        lemma_scalar_bytes_nonzero(text[0] as u32);
        lemma_encoding_without_zero(rest);
        assert forall|i: int| 0 <= i < encode_utf8(text).len() implies encode_utf8(text)[i]
            != 0 by {
            if i < first.len() {
                assert(encode_utf8(text)[i] == first[i]);
            } else {
                assert(encode_utf8(text)[i] == encode_utf8(rest)[i - first.len()]);
            }
        }
    }
}

/// The encoding of two texts, one after the other, is the encoding of the
/// first followed by that of the second.
pub proof fn lemma_encoding_of_concat(a: Seq<char>, b: Seq<char>)
    ensures
        encode_utf8(a + b) == encode_utf8(a) + encode_utf8(b),
    decreases a.len(),
{
    if a.len() == 0 {
        assert(a + b =~= b);
    } else {
        lemma_encoding_of_concat(a.drop_first(), b);
        assert((a + b).drop_first() =~= a.drop_first() + b);
    }
}

/// A text that is stored in a field and read back comes out as its first
/// `kept` characters, whenever the bytes that the field keeps are the encoding
/// of just these characters and none of them is the zero character. This holds
/// of a text that fits as a whole, with `kept` its length, and of a longer one
/// that is cut between two characters.
pub proof fn lemma_stored_text_round_trip(text: Seq<char>, kept: int, capacity: nat)
    requires
        capacity >= 1,
        0 <= kept <= text.len(),
        !text.take(kept).contains('\0'),
        encode_utf8(text.take(kept)).len() == kept_len(encode_utf8(text).len(), capacity),
    ensures
        field_text(stored_text(encode_utf8(text), capacity)) == Some(text.take(kept)),
{
    let head = text.take(kept);
    let bytes = encode_utf8(text);
    let field = stored_text(bytes, capacity);
    let n = encode_utf8(head).len() as int;
    assert(text =~= head + text.skip(kept));
    lemma_encoding_of_concat(head, text.skip(kept));
    lemma_encoding_without_zero(head);
    assert forall|i: int| 0 <= i < n implies field[i] != 0 by {
        assert(field[i] == encode_utf8(head)[i]);
    }
    lemma_field_bytes_at(field, n);
    assert(field.take(n) =~= encode_utf8(head));
    encode_utf8_valid_utf8(head);
    encode_utf8_decode_utf8(head);
}

/// An ASCII text that is stored in a field and read back comes out as it
/// was, cut to the field's capacity less the closing zero byte where it is
/// longer, provided that the part that is kept holds no zero character.
pub proof fn lemma_stored_ascii_round_trip(text: Seq<char>, capacity: nat)
    requires
        capacity >= 1,
        is_ascii_chars(text),
        !text.take(kept_len(text.len(), capacity)).contains('\0'),
    ensures
        field_text(stored_text(encode_utf8(text), capacity)) == Some(
            text.take(kept_len(text.len(), capacity)),
        ),
{
    let kept = kept_len(text.len(), capacity);
    is_ascii_chars_encode_utf8(text);
    is_ascii_chars_encode_utf8(text.take(kept));
    lemma_stored_text_round_trip(text, kept, capacity);
}

} // verus!
