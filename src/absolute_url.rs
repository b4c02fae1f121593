//! The shape of an absolute URL, and whether its path starts with a bucket.
//!
//! A URL is read as its UTF-8 bytes: `scheme "://" authority [path] [query]`,
//! where the scheme is an ASCII letter followed by letters, digits, `+`, `-`
//! or `.`, and the authority is non-empty and holds none of `/`, `?`, `#`.
use vstd::prelude::*;
use vstd::utf8::encode_utf8;

verus! {

pub open spec fn is_alpha(b: u8) -> bool {
    (0x61 <= b && b <= 0x7a) || (0x41 <= b && b <= 0x5a)
}

pub open spec fn is_scheme_byte(b: u8) -> bool {
    is_alpha(b) || (0x30 <= b && b <= 0x39) || b == 0x2b || b == 0x2d || b == 0x2e
}

/// `/`, `?` and `#` end the authority of a URL.
pub open spec fn ends_authority(b: u8) -> bool {
    b == 0x2f || b == 0x3f || b == 0x23
}

/// `s[..k]` is the scheme, `s[k..k + 3]` is "://", and `s[k + 3..j]` is the
/// non-empty authority, which runs to the end of `s` or to a byte that ends it.
pub open spec fn splits_at(s: Seq<u8>, k: int, j: int) -> bool {
    &&& 1 <= k
    &&& k + 3 < j <= s.len()
    &&& is_alpha(s[0])
    &&& forall|i: int| 1 <= i < k ==> is_scheme_byte(#[trigger] s[i])
    &&& s[k] == 0x3a && s[k + 1] == 0x2f && s[k + 2] == 0x2f
    &&& forall|i: int| k + 3 <= i < j ==> !ends_authority(#[trigger] s[i])
    &&& (j == s.len() || ends_authority(s[j]))
}

pub open spec fn is_absolute_url(s: Seq<u8>) -> bool {
    exists|k: int, j: int| splits_at(s, k, j)
}

/// Behind the authority that ends at `j`, the path's first segment is `b`.
pub open spec fn path_starts_with_segment(s: Seq<u8>, j: int, b: Seq<u8>) -> bool {
    let e = j + 1 + b.len();
    &&& 0 <= j < s.len()
    &&& s[j] == 0x2f
    &&& e <= s.len()
    &&& s.subrange(j + 1, e) == b
    &&& (e == s.len() || ends_authority(s[e]))
}

/// `s` is an absolute URL whose path starts with the segment `b`.
pub open spec fn names_bucket(s: Seq<u8>, b: Seq<u8>) -> bool {
    exists|k: int, j: int| splits_at(s, k, j) && path_starts_with_segment(s, j, b)
}

/// A URL splits in one way at most.
pub proof fn lemma_split_unique(s: Seq<u8>, k1: int, j1: int, k2: int, j2: int)
    requires
        splits_at(s, k1, j1),
        splits_at(s, k2, j2),
    ensures
        k1 == k2,
        j1 == j2,
{
    if k1 < k2 {
        assert(is_scheme_byte(s[k1]));
    } else if k2 < k1 {
        assert(is_scheme_byte(s[k2]));
    }
    if j1 < j2 {
        assert(!ends_authority(s[j1]));
    } else if j2 < j1 {
        assert(!ends_authority(s[j2]));
    }
}

fn scheme_byte(b: u8) -> (r: bool)
    ensures
        r == is_scheme_byte(b),
{
    (0x61 <= b && b <= 0x7a) || (0x41 <= b && b <= 0x5a) || (0x30 <= b && b <= 0x39) || b == 0x2b
        || b == 0x2d || b == 0x2e
}

fn authority_end(b: u8) -> (r: bool)
    ensures
        r == ends_authority(b),
{
    b == 0x2f || b == 0x3f || b == 0x23
}

/// Finds where the scheme and the authority of `s` end.
pub fn split_url(s: &[u8]) -> (r: Option<(usize, usize)>)
    ensures
        match r {
            Some((k, j)) => splits_at(s@, k as int, j as int),
            None => !is_absolute_url(s@),
        },
{
    let n = s.len();
    if n == 0 || !((0x61 <= s[0] && s[0] <= 0x7a) || (0x41 <= s[0] && s[0] <= 0x5a)) {
        return None;
    }
    let mut k: usize = 1;
    while k < n && scheme_byte(s[k])
        invariant
            1 <= k <= n,
            n == s@.len(),
            forall|i: int| 1 <= i < k ==> is_scheme_byte(#[trigger] s@[i]),
        decreases n - k,
    {
        k = k + 1;
    }
    if n - k <= 3 || s[k] != 0x3a || s[k + 1] != 0x2f || s[k + 2] != 0x2f {
        proof {
            assert forall|k2: int, j2: int| !splits_at(s@, k2, j2) by {
                if splits_at(s@, k2, j2) {
                    if k2 > k {
                        assert(is_scheme_byte(s@[k as int]));
                    } else if k2 < k {
                        assert(is_scheme_byte(s@[k2]));
                    }
                }
            }
        }
        return None;
    }
    let mut j: usize = k + 3;
    while j < n && !authority_end(s[j])
        invariant
            k + 3 <= j <= n,
            n == s@.len(),
            forall|i: int| k + 3 <= i < j ==> !ends_authority(#[trigger] s@[i]),
        decreases n - j,
    {
        j = j + 1;
    }
    if j == k + 3 {
        proof {
            assert forall|k2: int, j2: int| !splits_at(s@, k2, j2) by {
                if splits_at(s@, k2, j2) {
                    if k2 > k {
                        assert(is_scheme_byte(s@[k as int]));
                    } else if k2 < k {
                        assert(is_scheme_byte(s@[k2]));
                    }
                    assert(!ends_authority(s@[j as int]));
                }
            }
        }
        return None;
    }
    Some((k, j))
}

/// Whether `url` is an absolute URL whose path starts with the segment `bucket`.
pub fn url_names_bucket(url: &str, bucket: &str) -> (r: bool)
    ensures
        r == names_bucket(encode_utf8(url@), encode_utf8(bucket@)),
{
    let s = url.as_bytes();
    let b = bucket.as_bytes();
    let n = s.len();
    let m = b.len();
    match split_url(s) {
        None => false,
        Some((k, j)) => {
            proof {
                assert forall|k2: int, j2: int|
                    splits_at(s@, k2, j2) implies k2 == k && j2 == j by {
                    lemma_split_unique(s@, k as int, j as int, k2, j2);
                }
                assert(names_bucket(s@, b@) == path_starts_with_segment(s@, j as int, b@));
            }
            if j == n || s[j] != 0x2f || n - j - 1 < m {
                return false;
            }
            let mut i: usize = 0;
            while i < m
                invariant
                    0 <= i <= m,
                    m == b@.len(),
                    n == s@.len(),
                    j + 1 + m <= n,
                    s@ == encode_utf8(url@),
                    b@ == encode_utf8(bucket@),
                    names_bucket(s@, b@) == path_starts_with_segment(s@, j as int, b@),
                    forall|t: int| 0 <= t < i ==> s@[j + 1 + t] == b@[t],
                decreases m - i,
            {
                if s[j + 1 + i] != b[i] {
                    assert(s@.subrange(j + 1, j + 1 + m)[i as int] != b@[i as int]);
                    assert(s@.subrange(j + 1, j + 1 + m) != b@);
                    return false;
                }
                i = i + 1;
            }
            assert(s@.subrange(j + 1, j + 1 + m) =~= b@);
            let e = j + 1 + m;
            e == n || authority_end(s[e])
        },
    }
}

} // verus!
