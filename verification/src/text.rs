//! Comparisons of strings, stated over their characters and computed over
//! their UTF-8 bytes.

use vstd::prelude::*;
use vstd::string::*;
use vstd::utf8::*;

verus! {

/// Encoding distributes over concatenation.
pub proof fn lemma_encode_concat(a: Seq<char>, b: Seq<char>)
    ensures
        encode_utf8(a + b) =~= encode_utf8(a) + encode_utf8(b),
    decreases a.len(),
{
    if a.len() == 0 {
        assert(a + b =~= b);
    } else {
        assert((a + b).drop_first() =~= a.drop_first() + b);
        lemma_encode_concat(a.drop_first(), b);
    }
}

/// Two strings with the same bytes have the same characters.
pub proof fn lemma_encode_injective(a: Seq<char>, b: Seq<char>)
    requires
        encode_utf8(a) == encode_utf8(b),
    ensures
        a == b,
{
    encode_utf8_decode_utf8(a);
    encode_utf8_decode_utf8(b);
}

/// A valid encoding that opens another valid encoding stops at a character
/// boundary of it.
proof fn lemma_valid_prefix_is_boundary(bytes: Seq<u8>, index: int)
    requires
        valid_utf8(bytes),
        0 <= index <= bytes.len(),
        valid_utf8(bytes.subrange(0, index)),
    ensures
        is_char_boundary(bytes, index),
    decreases bytes.len(),
{
    if index > 0 {
        let head = bytes.subrange(0, index);
        let width = length_of_first_scalar(bytes);
        assert(head[0] == bytes[0]);
        assert(length_of_first_scalar(head) == width);
        assert(width <= index);
        let rest = pop_first_scalar(bytes);
        assert(pop_first_scalar(head) =~= rest.subrange(0, index - width));
        lemma_valid_prefix_is_boundary(rest, index - width);
    }
}

/// Splitting a string's bytes where a second string's bytes begin splits its
/// characters there too.
proof fn lemma_split_at_boundary(whole: Seq<char>, index: int)
    requires
        0 <= index <= encode_utf8(whole).len(),
        is_char_boundary(encode_utf8(whole), index),
    ensures
        whole =~= decode_utf8(encode_utf8(whole).subrange(0, index)) + decode_utf8(
            encode_utf8(whole).subrange(index, encode_utf8(whole).len() as int),
        ),
{
    let bytes = encode_utf8(whole);
    encode_utf8_valid_utf8(whole);
    encode_utf8_decode_utf8(whole);
    decode_utf8_split(bytes, index);
}

/// A string opens another exactly when its bytes open the other's bytes.
pub proof fn lemma_prefix_by_bytes(prefix: Seq<char>, s: Seq<char>)
    ensures
        prefix.is_prefix_of(s) <==> encode_utf8(prefix).is_prefix_of(encode_utf8(s)),
{
    let pb = encode_utf8(prefix);
    let sb = encode_utf8(s);
    if prefix.is_prefix_of(s) {
        let rest = s.subrange(prefix.len() as int, s.len() as int);
        assert(s =~= prefix + rest);
        lemma_encode_concat(prefix, rest);
        assert(pb =~= sb.subrange(0, pb.len() as int));
    }
    if pb.is_prefix_of(sb) {
        let index = pb.len() as int;
        encode_utf8_valid_utf8(prefix);
        encode_utf8_valid_utf8(s);
        assert(sb.subrange(0, index) =~= pb);
        lemma_valid_prefix_is_boundary(sb, index);
        lemma_split_at_boundary(s, index);
        encode_utf8_decode_utf8(prefix);
        let tail = decode_utf8(sb.subrange(index, sb.len() as int));
        assert(s =~= prefix + tail);
        assert(prefix =~= s.subrange(0, prefix.len() as int));
    }
}

/// A string closes another exactly when its bytes close the other's bytes.
pub proof fn lemma_suffix_by_bytes(suffix: Seq<char>, s: Seq<char>)
    ensures
        suffix.is_suffix_of(s) <==> encode_utf8(suffix).is_suffix_of(encode_utf8(s)),
{
    let fb = encode_utf8(suffix);
    let sb = encode_utf8(s);
    if suffix.is_suffix_of(s) {
        let front = s.subrange(0, s.len() - suffix.len());
        assert(s =~= front + suffix);
        lemma_encode_concat(front, suffix);
        assert(fb =~= sb.subrange(sb.len() - fb.len(), sb.len() as int));
    }
    if fb.is_suffix_of(sb) {
        let index = sb.len() - fb.len();
        encode_utf8_valid_utf8(suffix);
        encode_utf8_valid_utf8(s);
        assert(sb.subrange(index, sb.len() as int) =~= fb);
        if fb.len() == 0 {
            assert(is_char_boundary(sb, index)) by {
                is_char_boundary_start_end_of_seq(sb);
            }
        } else {
            assert(sb[index] == fb[0]);
            is_char_boundary_start_end_of_seq(fb);
            is_char_boundary_iff_not_is_continuation_byte(fb, 0);
            is_char_boundary_iff_not_is_continuation_byte(sb, index);
        }
        lemma_split_at_boundary(s, index);
        encode_utf8_decode_utf8(suffix);
        let front = decode_utf8(sb.subrange(0, index));
        assert(s =~= front + suffix);
        assert(suffix =~= s.subrange(s.len() - suffix.len(), s.len() as int));
    }
}

/// Whether `a` and `b` hold the same bytes.
pub fn same_bytes(a: &[u8], b: &[u8]) -> (r: bool)
    ensures
        r == (a@ == b@),
{
    if a.len() != b.len() {
        return false;
    }
    let mut i: usize = 0;
    while i < a.len()
        invariant
            i <= a.len(),
            a.len() == b.len(),
            forall|k: int| 0 <= k < i ==> a@[k] == b@[k],
        decreases a.len() - i,
    {
        if a[i] != b[i] {
            return false;
        }
        i += 1;
    }
    assert(a@ =~= b@);
    true
}

/// Whether `s` begins with the bytes of `prefix`.
pub fn bytes_start_with(s: &[u8], prefix: &[u8]) -> (r: bool)
    ensures
        r == prefix@.is_prefix_of(s@),
{
    if prefix.len() > s.len() {
        return false;
    }
    let mut i: usize = 0;
    while i < prefix.len()
        invariant
            i <= prefix.len() <= s.len(),
            forall|k: int| 0 <= k < i ==> s@[k] == prefix@[k],
        decreases prefix.len() - i,
    {
        if s[i] != prefix[i] {
            assert(s@.subrange(0, prefix@.len() as int)[i as int] != prefix@[i as int]);
            return false;
        }
        i += 1;
    }
    assert(prefix@ =~= s@.subrange(0, prefix@.len() as int));
    true
}

/// Whether `s` ends with the bytes of `suffix`.
pub fn bytes_end_with(s: &[u8], suffix: &[u8]) -> (r: bool)
    ensures
        r == suffix@.is_suffix_of(s@),
{
    if suffix.len() > s.len() {
        return false;
    }
    let start: usize = s.len() - suffix.len();
    let mut i: usize = 0;
    while i < suffix.len()
        invariant
            i <= suffix.len() <= s.len(),
            start == s.len() - suffix.len(),
            forall|k: int| 0 <= k < i ==> s@[start + k] == suffix@[k],
        decreases suffix.len() - i,
    {
        if s[start + i] != suffix[i] {
            assert(s@.subrange(start as int, s@.len() as int)[i as int] != suffix@[i as int]);
            return false;
        }
        i += 1;
    }
    assert(suffix@ =~= s@.subrange(start as int, s@.len() as int));
    true
}

/// Whether `a` and `b` hold the same characters.
pub fn same_text(a: &str, b: &str) -> (r: bool)
    ensures
        r == (a@ == b@),
{
    let r = same_bytes(a.as_bytes(), b.as_bytes());
    proof {
        if r {
            lemma_encode_injective(a@, b@);
        }
    }
    r
}

/// Whether `s` begins with `prefix`.
pub fn starts_with(s: &str, prefix: &str) -> (r: bool)
    ensures
        r == prefix@.is_prefix_of(s@),
{
    proof {
        lemma_prefix_by_bytes(prefix@, s@);
    }
    bytes_start_with(s.as_bytes(), prefix.as_bytes())
}

/// Whether `s` ends with `suffix`.
pub fn ends_with(s: &str, suffix: &str) -> (r: bool)
    ensures
        r == suffix@.is_suffix_of(s@),
{
    proof {
        lemma_suffix_by_bytes(suffix@, s@);
    }
    bytes_end_with(s.as_bytes(), suffix.as_bytes())
}

} // verus!
