//! The vanity test: does an address end with the wanted suffix?

use vstd::prelude::*;
use vstd::string::*;

verus! {

/// `pattern` is a suffix of `text`: the last `pattern.len()` characters of
/// `text` are exactly those of `pattern`. Characters are compared as they
/// are; upper and lower case differ.
pub open spec fn is_suffix_of(pattern: Seq<char>, text: Seq<char>) -> bool {
    &&& pattern.len() <= text.len()
    &&& text.subrange(text.len() - pattern.len(), text.len() as int) == pattern
}

/// The same relation, character by character.
pub proof fn lemma_suffix_pointwise(pattern: Seq<char>, text: Seq<char>)
    requires
        pattern.len() <= text.len(),
    ensures
        is_suffix_of(pattern, text) <==> forall|i: int|
            0 <= i < pattern.len() ==> text[text.len() - pattern.len() + i] == #[trigger] pattern[i],
{
    let tail = text.subrange(text.len() - pattern.len(), text.len() as int);
    if is_suffix_of(pattern, text) {
        assert forall|i: int| 0 <= i < pattern.len() implies text[text.len() - pattern.len() + i]
            == #[trigger] pattern[i] by {
            assert(tail[i] == pattern[i]);
        }
    }
    if forall|i: int|
        0 <= i < pattern.len() ==> text[text.len() - pattern.len() + i] == #[trigger] pattern[i] {
        assert(tail =~= pattern);
    }
}

/// Compares the last `pattern` characters of `address` one by one.
fn matches_chars(address: &str, pattern: &str) -> (hit: bool)
    ensures
        hit == is_suffix_of(pattern@, address@),
{
    let text_len: usize = address.unicode_len();
    let pattern_len: usize = pattern.unicode_len();
    if pattern_len > text_len {
        return false;
    }
    let offset: usize = text_len - pattern_len;
    proof {
        lemma_suffix_pointwise(pattern@, address@);
    }
    let mut i: usize = 0;
    while i < pattern_len
        invariant
            i <= pattern_len,
            pattern_len == pattern@.len(),
            text_len == address@.len(),
            offset == text_len - pattern_len,
            forall|j: int| 0 <= j < i ==> address@[offset + j] == #[trigger] pattern@[j],
        decreases pattern_len - i,
    {
        if address.get_char(offset + i) != pattern.get_char(i) {
            assert(address@[offset + i] != pattern@[i as int]);
            return false;
        }
        i += 1;
    }
    true
}

/// Compares the last `pattern` bytes of `address`; for ASCII text a byte is
/// a character.
fn matches_ascii(address: &str, pattern: &str) -> (hit: bool)
    requires
        is_ascii(address),
        is_ascii(pattern),
    ensures
        hit == is_suffix_of(pattern@, address@),
{
    broadcast use is_ascii_spec_bytes;

    let text: &[u8] = address.as_bytes();
    let wanted: &[u8] = pattern.as_bytes();
    let text_len: usize = text.len();
    let pattern_len: usize = wanted.len();
    proof {
        is_ascii_spec_bytes(address);
        is_ascii_spec_bytes(pattern);
    }
    if pattern_len > text_len {
        return false;
    }
    let offset: usize = text_len - pattern_len;
    proof {
        lemma_suffix_pointwise(pattern@, address@);
    }
    let mut i: usize = 0;
    while i < pattern_len
        invariant
            i <= pattern_len,
            is_ascii(address),
            is_ascii(pattern),
            text@ == address.spec_bytes(),
            wanted@ == pattern.spec_bytes(),
            pattern_len == pattern@.len(),
            text_len == address@.len(),
            offset == text_len - pattern_len,
            forall|j: int| 0 <= j < i ==> address@[offset + j] == #[trigger] pattern@[j],
        decreases pattern_len - i,
    {
        let a: u8 = text[offset + i];
        let p: u8 = wanted[i];
        assert(a == address@[offset + i] as u8);
        assert(p == pattern@[i as int] as u8);
        if a != p {
            assert(address@[offset + i] != pattern@[i as int]);
            return false;
        }
        assert(address@[offset + i] == pattern@[i as int]);
        i += 1;
    }
    true
}

/// Whether `address` ends with `pattern`, case-sensitively and without any
/// normalisation. The empty pattern matches every address.
pub fn matches(address: &str, pattern: &str) -> (hit: bool)
    ensures
        hit == is_suffix_of(pattern@, address@),
{
    if address.is_ascii() && pattern.is_ascii() {
        matches_ascii(address, pattern)
    } else {
        matches_chars(address, pattern)
    }
}

} // verus!
