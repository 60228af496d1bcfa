//! The response-header model the rate limiter studies: a header set is a
//! sequence of name/value string pairs, names are matched ignoring ASCII
//! case, and the three quota headers carry unsigned decimal values.

use vstd::prelude::*;

verus! {

/// The code point of `c`, with an ASCII upper-case letter folded to lower
/// case.
pub open spec fn fold_case(c: char) -> int {
    if 65 <= c as u32 && c as u32 <= 90 {
        c as u32 + 32
    } else {
        c as u32 as int
    }
}

/// Two character sequences are equal up to ASCII case, as HTTP header names
/// are matched.
pub open spec fn eq_ignore_case(a: Seq<char>, b: Seq<char>) -> bool {
    &&& a.len() == b.len()
    &&& forall|i: int| 0 <= i < a.len() ==> fold_case(a[i]) == fold_case(b[i])
}

/// Compares two strings for equality up to ASCII case.
pub fn str_eq_ignore_case(a: &str, b: &str) -> (r: bool)
    ensures
        r == eq_ignore_case(a@, b@),
{
    let alen = a.unicode_len();
    let blen = b.unicode_len();
    if alen != blen {
        return false;
    }
    let mut i: usize = 0;
    while i < alen
        invariant
            alen == a@.len(),
            blen == b@.len(),
            alen == blen,
            i <= alen,
            forall|j: int| 0 <= j < i ==> fold_case(a@[j]) == fold_case(b@[j]),
        decreases alen - i,
    {
        let ua = a.get_char(i) as u32;
        let ub = b.get_char(i) as u32;
        let fa = if 65 <= ua && ua <= 90 { ua + 32 } else { ua };
        let fb = if 65 <= ub && ub <= 90 { ub + 32 } else { ub };
        if fa != fb {
            assert(fold_case(a@[i as int]) != fold_case(b@[i as int]));
            return false;
        }
        i = i + 1;
    }
    true
}

/// `c` is an ASCII decimal digit.
pub open spec fn is_digit(c: char) -> bool {
    48 <= c as u32 && c as u32 <= 57
}

/// The numeric value of the digit `c`.
pub open spec fn digit_val(c: char) -> int {
    c as u32 - 48
}

/// A non-empty, all-digit sequence: the form of an unsigned decimal number.
pub open spec fn is_dec(s: Seq<char>) -> bool {
    &&& s.len() > 0
    &&& forall|i: int| 0 <= i < s.len() ==> is_digit(s[i])
}

/// The value of a digit sequence read as a base-10 number.
pub open spec fn dec_val(s: Seq<char>) -> int
    decreases s.len(),
{
    if s.len() == 0 {
        0
    } else {
        dec_val(s.drop_last()) * 10 + digit_val(s.last())
    }
}

/// A digit sequence never reads as a negative number.
pub proof fn lemma_dec_val_nonneg(s: Seq<char>)
    requires
        forall|i: int| 0 <= i < s.len() ==> is_digit(s[i]),
    ensures
        dec_val(s) >= 0,
    decreases s.len(),
{
    if s.len() > 0 {
        lemma_dec_val_nonneg(s.drop_last());
    }
}

/// Reading more digits never shrinks the value: any prefix of an all-digit
/// sequence reads as at most the whole sequence's value.
pub proof fn lemma_dec_val_prefix(s: Seq<char>, j: int)
    requires
        0 <= j <= s.len(),
        forall|i: int| 0 <= i < s.len() ==> is_digit(s[i]),
    ensures
        dec_val(s.subrange(0, j)) <= dec_val(s),
    decreases s.len() - j,
{
    if j == s.len() {
        assert(s.subrange(0, j) =~= s);
    } else {
        let p = s.subrange(0, j);
        let q = s.subrange(0, j + 1);
        assert(q.drop_last() =~= p);
        lemma_dec_val_nonneg(p);
        assert(dec_val(q) == dec_val(p) * 10 + digit_val(s[j]));
        lemma_dec_val_prefix(s, j + 1);
    }
}

/// Parses a non-empty all-digit string as a `u64`. Returns `None` when the
/// string is empty, holds a non-digit character, or its value exceeds
/// `u64::MAX`.
pub fn parse_u64(s: &str) -> (r: Option<u64>)
    ensures
        match r {
            Some(v) => is_dec(s@) && v == dec_val(s@),
            None => !(is_dec(s@) && dec_val(s@) <= u64::MAX),
        },
{
    let len = s.unicode_len();
    if len == 0 {
        return None;
    }
    let mut acc: u64 = 0;
    let mut i: usize = 0;
    while i < len
        invariant
            len == s@.len(),
            0 < len,
            i <= len,
            forall|j: int| 0 <= j < i ==> is_digit(s@[j]),
            acc == dec_val(s@.subrange(0, i as int)),
        decreases len - i,
    {
        let u = s.get_char(i) as u32;
        if u < 48 || u > 57 {
            assert(!is_digit(s@[i as int]));
            return None;
        }
        let d = (u - 48) as u64;
        proof {
            assert(s@.subrange(0, i + 1 as int).drop_last() =~= s@.subrange(0, i as int));
        }
        let next = match acc.checked_mul(10) {
            Some(m) => m.checked_add(d),
            None => None,
        };
        match next {
            Some(v) => {
                acc = v;
            },
            None => {
                proof {
                    if is_dec(s@) {
                        lemma_dec_val_prefix(s@, i + 1 as int);
                    }
                }
                return None;
            },
        }
        i = i + 1;
    }
    proof {
        assert(s@.subrange(0, len as int) =~= s@);
    }
    Some(acc)
}

/// The value of the first header whose name matches `name` up to ASCII case,
/// or nothing when no header does.
pub open spec fn header_lookup(hs: Seq<(String, String)>, name: Seq<char>) -> Option<Seq<char>>
    decreases hs.len(),
{
    if hs.len() == 0 {
        None
    } else if eq_ignore_case(hs[0].0@, name) {
        Some(hs[0].1@)
    } else {
        header_lookup(hs.drop_first(), name)
    }
}

/// A lookup that has passed over unmatched entries continues on the rest of
/// the header set.
pub proof fn lemma_header_lookup_skip(hs: Seq<(String, String)>, name: Seq<char>, i: int)
    requires
        0 <= i <= hs.len(),
        forall|j: int| 0 <= j < i ==> !eq_ignore_case(hs[j].0@, name),
    ensures
        header_lookup(hs, name) == header_lookup(hs.skip(i), name),
    decreases i,
{
    if i > 0 {
        lemma_header_lookup_skip(hs, name, i - 1);
        let rest = hs.skip(i - 1);
        assert(rest.len() > 0);
        assert(rest[0] == hs[i - 1]);
        assert(!eq_ignore_case(rest[0].0@, name));
        assert(rest.drop_first() =~= hs.skip(i));
        assert(header_lookup(rest, name) == header_lookup(rest.drop_first(), name));
    } else {
        assert(hs.skip(0) =~= hs);
    }
}

/// Finds the value of the first header named `name`, matching names without
/// regard to ASCII case.
pub fn find_header<'a>(headers: &'a Vec<(String, String)>, name: &str) -> (r: Option<&'a String>)
    ensures
        match r {
            Some(v) => header_lookup(headers@, name@) == Some(v@),
            None => header_lookup(headers@, name@) is None,
        },
{
    let mut i: usize = 0;
    while i < headers.len()
        invariant
            i <= headers@.len(),
            forall|j: int| 0 <= j < i ==> !eq_ignore_case(headers@[j].0@, name@),
        decreases headers@.len() - i,
    {
        let entry = &headers[i];
        if str_eq_ignore_case(entry.0.as_str(), name) {
            proof {
                lemma_header_lookup_skip(headers@, name@, i as int);
                assert(headers@.skip(i as int)[0] == headers@[i as int]);
            }
            return Some(&entry.1);
        }
        i = i + 1;
    }
    proof {
        lemma_header_lookup_skip(headers@, name@, headers@.len() as int);
        assert(headers@.skip(headers@.len() as int) =~= Seq::<(String, String)>::empty());
    }
    None
}

} // verus!
