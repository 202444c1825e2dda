//! Case-insensitive substring matching over UTF-8 bytes.
//!
//! The purge filters compare message text the way the platform transports
//! it: as UTF-8 bytes, with ASCII letters folded to lower case and every
//! other byte left alone. A needle that appears inside a longer word still
//! counts as an occurrence.

use vstd::prelude::*;
use vstd::utf8::encode_utf8;

verus! {

/// ASCII lower-case folding of one byte: `A`..`Z` map to `a`..`z`, all
/// other bytes are unchanged.
pub open spec fn lower_byte(b: u8) -> u8 {
    if 65 <= b <= 90 {
        (b + 32) as u8
    } else {
        b
    }
}

/// ASCII lower-case folding of a byte sequence.
pub open spec fn lower_bytes(s: Seq<u8>) -> Seq<u8> {
    s.map_values(|b: u8| lower_byte(b))
}

/// The UTF-8 bytes of a character sequence, folded to ASCII lower case.
pub open spec fn folded_bytes(s: Seq<char>) -> Seq<u8> {
    lower_bytes(encode_utf8(s))
}

/// Whether `needle` occurs in `hay` starting at position `i`.
pub open spec fn occurs_at(hay: Seq<u8>, needle: Seq<u8>, i: int) -> bool {
    &&& 0 <= i
    &&& i + needle.len() <= hay.len()
    &&& forall|j: int| 0 <= j < needle.len() ==> hay[i + j] == needle[j]
}

/// Whether `needle` occurs anywhere in `hay`. An empty needle occurs in
/// everything.
pub open spec fn contains_seq(hay: Seq<u8>, needle: Seq<u8>) -> bool {
    exists|i: int| occurs_at(hay, needle, i)
}

/// Folds a byte vector to ASCII lower case.
pub fn ascii_lowercase(v: &Vec<u8>) -> (r: Vec<u8>)
    ensures
        r@ == lower_bytes(v@),
{
    let n = v.len();
    let mut r: Vec<u8> = Vec::new();
    let mut i: usize = 0;
    while i < n
        invariant
            i <= n,
            n == v@.len(),
            r@ =~= lower_bytes(v@).take(i as int),
        decreases n - i,
    {
        let b = v[i];
        if 65 <= b && b <= 90 {
            r.push(b + 32);
        } else {
            r.push(b);
        }
        proof {
            assert(r@ =~= lower_bytes(v@).take(i as int + 1));
        }
        i = i + 1;
    }
    proof {
        assert(lower_bytes(v@).take(n as int) =~= lower_bytes(v@));
    }
    r
}

fn occurs_at_index(hay: &Vec<u8>, needle: &Vec<u8>, i: usize) -> (r: bool)
    requires
        i + needle@.len() <= hay@.len(),
    ensures
        r == occurs_at(hay@, needle@, i as int),
{
    let n = needle.len();
    let hl = hay.len();
    let mut j: usize = 0;
    while j < n
        invariant
            j <= n,
            n == needle@.len(),
            hl == hay@.len(),
            i + n <= hl,
            forall|t: int| 0 <= t < j ==> hay@[i + t] == needle@[t],
        decreases n - j,
    {
        if hay[i + j] != needle[j] {
            return false;
        }
        j = j + 1;
    }
    true
}

/// Whether `needle` occurs anywhere in `hay`.
pub fn contains_bytes(hay: &Vec<u8>, needle: &Vec<u8>) -> (r: bool)
    ensures
        r == contains_seq(hay@, needle@),
{
    let hl = hay.len();
    let nl = needle.len();
    if nl > hl {
        proof {
            assert forall|i: int| !occurs_at(hay@, needle@, i) by {}
        }
        return false;
    }
    let mut i: usize = 0;
    while i <= hl - nl
        invariant
            nl <= hl,
            hl == hay@.len(),
            nl == needle@.len(),
            i <= hl - nl + 1,
            forall|k: int| 0 <= k < i ==> !occurs_at(hay@, needle@, k),
        decreases hl - nl + 1 - i,
    {
        if occurs_at_index(hay, needle, i) {
            return true;
        }
        i = i + 1;
    }
    proof {
        assert forall|k: int| !occurs_at(hay@, needle@, k) by {
            if 0 <= k < i {
            } else if k > hl - nl {
                assert(k + needle@.len() > hay@.len());
            }
        }
    }
    false
}

/// Case-insensitive containment of `needle` in `hay`, at the level of
/// ASCII-folded UTF-8 bytes.
pub fn contains_text_ci(hay: &str, needle: &str) -> (r: bool)
    ensures
        r == contains_seq(folded_bytes(hay@), folded_bytes(needle@)),
{
    let hb = hay.as_bytes_vec();
    let nb = needle.as_bytes_vec();
    let hf = ascii_lowercase(&hb);
    let nf = ascii_lowercase(&nb);
    contains_bytes(&hf, &nf)
}

} // verus!
