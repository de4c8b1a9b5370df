//! Byte-level text helpers: the first byte of a string and substring search.
use vstd::prelude::*;
use vstd::string::StringSliceAdditionalSpecFns;
use vstd::utf8::encode_utf8;

verus! {

/// `needle` occurs in `haystack` starting at byte offset `i`.
pub open spec fn occurs_at(haystack: Seq<u8>, needle: Seq<u8>, i: int) -> bool {
    &&& 0 <= i
    &&& i + needle.len() <= haystack.len()
    &&& haystack.subrange(i, i + needle.len()) == needle
}

/// `needle` occurs somewhere in `haystack`.
pub open spec fn contains_bytes(haystack: Seq<u8>, needle: Seq<u8>) -> bool {
    exists|i: int| #[trigger] occurs_at(haystack, needle, i)
}

/// The text `needle` occurs in the text `haystack`, compared by their UTF-8 encodings
/// (which is how `str::contains` with a `&str` pattern compares).
pub open spec fn contains_text(haystack: Seq<char>, needle: Seq<char>) -> bool {
    contains_bytes(encode_utf8(haystack), encode_utf8(needle))
}

/// The first byte of the UTF-8 encoding of `s`, or `None` when `s` is empty.
pub open spec fn leading_byte(s: Seq<char>) -> Option<u8> {
    if encode_utf8(s).len() == 0 {
        None
    } else {
        Some(encode_utf8(s)[0])
    }
}

/// A text encodes to no bytes exactly when it has no characters.
pub proof fn lemma_encode_utf8_empty(s: Seq<char>)
    ensures
        encode_utf8(s).len() == 0 <==> s.len() == 0,
{
    if s.len() > 0 {
        assert(encode_utf8(s) == vstd::utf8::encode_scalar(s[0] as u32) + encode_utf8(
            s.drop_first(),
        ));
    }
}

/// The encoding of a concatenation is the concatenation of the encodings.
pub proof fn lemma_encode_utf8_concat(a: Seq<char>, b: Seq<char>)
    ensures
        encode_utf8(a + b) == encode_utf8(a) + encode_utf8(b),
    decreases a.len(),
{
    if a.len() == 0 {
        assert(a + b =~= b);
        assert(encode_utf8(a) =~= Seq::<u8>::empty());
        assert(encode_utf8(a) + encode_utf8(b) =~= encode_utf8(b));
    } else {
        lemma_encode_utf8_concat(a.drop_first(), b);
        assert((a + b).drop_first() =~= a.drop_first() + b);
        assert((a + b)[0] == a[0]);
        let e0 = vstd::utf8::encode_scalar(a[0] as u32);
        assert(encode_utf8(a + b) == e0 + encode_utf8(a.drop_first() + b));
        assert(encode_utf8(a) == e0 + encode_utf8(a.drop_first()));
        assert(e0 + (encode_utf8(a.drop_first()) + encode_utf8(b)) =~= (e0 + encode_utf8(
            a.drop_first(),
        )) + encode_utf8(b));
    }
}

/// Whether `needle` occurs in `haystack` at offset `i`.
fn occurs_at_exec(haystack: &[u8], needle: &[u8], i: usize) -> (r: bool)
    requires
        i + needle@.len() <= haystack@.len(),
    ensures
        r == occurs_at(haystack@, needle@, i as int),
{
    let n = needle.len();
    let hl = haystack.len();
    let mut j: usize = 0;
    while j < n
        invariant
            n == needle@.len(),
            hl == haystack@.len(),
            i + n <= haystack@.len(),
            j <= n,
            forall|k: int| 0 <= k < j ==> haystack@[i + k] == needle@[k],
        decreases n - j,
    {
        if haystack[i + j] != needle[j] {
            proof {
                assert(haystack@.subrange(i as int, i + n)[j as int] != needle@[j as int]);
            }
            return false;
        }
        j = j + 1;
    }
    proof {
        assert(haystack@.subrange(i as int, i + n) =~= needle@);
    }
    true
}

/// Whether `needle` occurs in `haystack`, as `str::contains` answers it.
pub fn contains(haystack: &str, needle: &str) -> (r: bool)
    ensures
        r == contains_text(haystack@, needle@),
{
    let h = haystack.as_bytes();
    let n = needle.as_bytes();
    if n.len() > h.len() {
        proof {
            assert forall|i: int| !#[trigger] occurs_at(h@, n@, i) by {}
        }
        return false;
    }
    let last = h.len() - n.len();
    let mut i: usize = 0;
    loop
        invariant
            h@ == haystack.spec_bytes(),
            n@ == needle.spec_bytes(),
            last + n@.len() == h@.len(),
            i <= last,
            forall|k: int| 0 <= k < i ==> !#[trigger] occurs_at(h@, n@, k),
        decreases last - i,
    {
        if occurs_at_exec(h, n, i) {
            return true;
        }
        if i == last {
            proof {
                assert forall|k: int| !#[trigger] occurs_at(h@, n@, k) by {
                    if 0 <= k < i {
                    } else if k == i {
                    } else {
                    }
                }
            }
            return false;
        }
        i = i + 1;
    }
}

/// The first byte of `s`; `s` must not be empty.
pub fn first_byte(s: &str) -> (b: u8)
    requires
        s@.len() > 0,
    ensures
        leading_byte(s@) == Some(b),
        b == encode_utf8(s@)[0],
{
    proof {
        lemma_encode_utf8_empty(s@);
    }
    let bytes = s.as_bytes();
    bytes[0]
}

/// The first byte of `s`, or `None` when `s` is empty.
pub fn first_byte_if_any(s: &str) -> (r: Option<u8>)
    ensures
        r == leading_byte(s@),
        s@.len() == 0 ==> r is None,
        s@.len() > 0 ==> r == Some(encode_utf8(s@)[0]),
{
    proof {
        lemma_encode_utf8_empty(s@);
    }
    let bytes = s.as_bytes();
    if bytes.len() == 0 {
        None
    } else {
        Some(bytes[0])
    }
}

} // verus!
