//! Parsing of comma-separated field specifications.
//!
//! Callers name the fields a search should return as one comma-separated
//! string; this module splits it into the individual field names, trimming
//! the whitespace around each.

use vstd::prelude::*;

verus! {

/// Whitespace as Unicode defines it (the White_Space property), as trimmed
/// around field names.
pub open spec fn is_space(c: char) -> bool {
    (9 <= c as u32 && c as u32 <= 13) || c as u32 == 32 || c as u32 == 0x85 || c as u32 == 0xA0
        || c as u32 == 0x1680 || (0x2000 <= c as u32 && c as u32 <= 0x200A) || c as u32 == 0x2028
        || c as u32 == 0x2029 || c as u32 == 0x202F || c as u32 == 0x205F || c as u32 == 0x3000
}

/// The first position at or after `i` holding a non-space character, or the
/// end of `s`.
pub open spec fn first_non_space(s: Seq<char>, i: int) -> int
    decreases s.len() - i,
{
    if i < s.len() && is_space(s[i]) {
        first_non_space(s, i + 1)
    } else {
        i
    }
}

/// The position just after the last non-space character strictly before `j`,
/// or `0` when there is none.
pub open spec fn scan_back(s: Seq<char>, j: int) -> int
    decreases j,
{
    if j > 0 && is_space(s[j - 1]) {
        scan_back(s, j - 1)
    } else {
        j
    }
}

/// `s` with leading and trailing whitespace removed.
pub open spec fn trim(s: Seq<char>) -> Seq<char> {
    let a = first_non_space(s, 0);
    let b = scan_back(s, s.len() as int);
    if a <= b {
        s.subrange(a, b)
    } else {
        Seq::empty()
    }
}

/// The first position at or after `i` holding a comma, or the end of `s`.
pub open spec fn first_comma(s: Seq<char>, i: int) -> int
    decreases s.len() - i,
{
    if i < s.len() && s[i] != ',' {
        first_comma(s, i + 1)
    } else {
        i
    }
}

/// The comma-separated fields of `s` from position `i` on, each trimmed.
/// A string without commas is one single field; empty fields stay empty.
pub open spec fn parse_fields_from(s: Seq<char>, i: int) -> Seq<Seq<char>>
    decreases s.len() - i,
{
    let j = first_comma(s, i);
    if i <= j < s.len() {
        seq![trim(s.subrange(i, j))] + parse_fields_from(s, j + 1)
    } else {
        seq![trim(s.subrange(i, s.len() as int))]
    }
}

/// The comma-separated fields of `s`, each trimmed.
pub open spec fn parse_fields(s: Seq<char>) -> Seq<Seq<char>> {
    parse_fields_from(s, 0)
}

/// What `first_non_space` finds: everything before it is space, and it stops
/// on a non-space character or the end.
pub proof fn lemma_first_non_space(s: Seq<char>, i: int)
    requires
        0 <= i <= s.len(),
    ensures
        i <= first_non_space(s, i) <= s.len(),
        forall|k: int| i <= k < first_non_space(s, i) ==> is_space(#[trigger] s[k]),
        first_non_space(s, i) < s.len() ==> !is_space(s[first_non_space(s, i)]),
    decreases s.len() - i,
{
    if i < s.len() && is_space(s[i]) {
        lemma_first_non_space(s, i + 1);
    }
}

/// What `scan_back` finds: everything from it up to `j` is space, and the
/// character just before it, if any, is not.
pub proof fn lemma_scan_back(s: Seq<char>, j: int)
    requires
        0 <= j <= s.len(),
    ensures
        0 <= scan_back(s, j) <= j,
        forall|k: int| scan_back(s, j) <= k < j ==> is_space(#[trigger] s[k]),
        scan_back(s, j) > 0 ==> !is_space(s[scan_back(s, j) - 1]),
    decreases j,
{
    if j > 0 && is_space(s[j - 1]) {
        lemma_scan_back(s, j - 1);
    }
}

/// What `first_comma` finds: no comma before it, and it stops on a comma or
/// the end.
pub proof fn lemma_first_comma(s: Seq<char>, i: int)
    requires
        0 <= i <= s.len(),
    ensures
        i <= first_comma(s, i) <= s.len(),
        forall|k: int| i <= k < first_comma(s, i) ==> #[trigger] s[k] != ',',
        first_comma(s, i) < s.len() ==> s[first_comma(s, i)] == ',',
    decreases s.len() - i,
{
    if i < s.len() && s[i] != ',' {
        lemma_first_comma(s, i + 1);
    }
}

/// True of a whitespace character.
fn is_space_char(c: char) -> (r: bool)
    ensures
        r == is_space(c),
{
    let u = c as u32;
    (9 <= u && u <= 13) || u == 32 || u == 0x85 || u == 0xA0 || u == 0x1680 || (0x2000 <= u && u
        <= 0x200A) || u == 0x2028 || u == 0x2029 || u == 0x202F || u == 0x205F || u == 0x3000
}

/// Removes leading and trailing whitespace.
pub fn trim_str(s: &str) -> (r: String)
    ensures
        r@ == trim(s@),
{
    let n = s.unicode_len();
    let mut a: usize = 0;
    while a < n && is_space_char(s.get_char(a))
        invariant
            n == s@.len(),
            0 <= a <= n,
            forall|k: int| 0 <= k < a ==> is_space(#[trigger] s@[k]),
        decreases n - a,
    {
        a = a + 1;
    }
    proof {
        lemma_first_non_space(s@, 0);
        let fs = first_non_space(s@, 0);
        if fs < a {
            assert(is_space(s@[fs]));
            assert(false);
        }
        if a < fs {
            assert(is_space(s@[a as int]));
            assert(false);
        }
    }
    let mut b: usize = n;
    while b > a && is_space_char(s.get_char(b - 1))
        invariant
            n == s@.len(),
            a <= b <= n,
            forall|k: int| b <= k < n ==> is_space(#[trigger] s@[k]),
        decreases b,
    {
        b = b - 1;
    }
    proof {
        lemma_scan_back(s@, n as int);
        let sb = scan_back(s@, n as int);
        if a < n {
            // the segment has a non-space character, so both scans stop
            // strictly inside it and agree
            assert(!is_space(s@[a as int]));
            assert(b > a);
            assert(!is_space(s@[b - 1]));
            if sb < b {
                assert(is_space(s@[b - 1]));
                assert(false);
            }
            if b < sb {
                assert(is_space(s@[sb - 1]));
                assert(false);
            }
            assert(s@.subrange(a as int, b as int) == trim(s@));
        } else {
            // all spaces: both the exec result and the spec are empty
            assert(a == n && b == n);
            assert(s@.subrange(a as int, b as int) =~= Seq::<char>::empty());
            if sb >= a {
                assert(sb == n);
                assert(trim(s@) =~= Seq::<char>::empty());
            } else {
                assert(trim(s@) == Seq::<char>::empty());
            }
        }
    }
    s.substring_char(a, b).to_owned()
}

/// Splits `s` on commas and trims each piece.
pub fn split_trim_fields(s: &str) -> (r: Vec<String>)
    ensures
        r.deep_view() == parse_fields(s@),
{
    let n = s.unicode_len();
    let mut r: Vec<String> = Vec::new();
    let mut seg_start: usize = 0;
    let mut i: usize = 0;
    while i < n
        invariant
            n == s@.len(),
            0 <= seg_start <= i <= n,
            forall|k: int| seg_start <= k < i ==> #[trigger] s@[k] != ',',
            parse_fields(s@) == r.deep_view() + parse_fields_from(s@, seg_start as int),
        decreases n - i,
    {
        let c = s.get_char(i);
        if c == ',' {
            let seg = s.substring_char(seg_start, i);
            let piece = trim_str(seg);
            proof {
                lemma_first_comma(s@, seg_start as int);
                let j = first_comma(s@, seg_start as int);
                if j < i {
                    assert(s@[j] == ',');
                    assert(false);
                }
                if i < j {
                    assert(s@[i as int] != ',');
                    assert(false);
                }
                assert(parse_fields_from(s@, seg_start as int) == seq![
                    trim(s@.subrange(seg_start as int, i as int)),
                ] + parse_fields_from(s@, i + 1));
            }
            let ghost old_r = r.deep_view();
            r.push(piece);
            proof {
                assert(r.deep_view() =~= old_r + seq![piece@]);
                assert(r.deep_view() + parse_fields_from(s@, i + 1) =~= old_r + (seq![piece@]
                    + parse_fields_from(s@, i + 1)));
            }
            seg_start = i + 1;
        }
        i = i + 1;
    }
    let seg = s.substring_char(seg_start, n);
    let piece = trim_str(seg);
    proof {
        lemma_first_comma(s@, seg_start as int);
        let j = first_comma(s@, seg_start as int);
        if j < n {
            assert(s@[j] == ',');
            assert(false);
        }
        assert(parse_fields_from(s@, seg_start as int) == seq![
            trim(s@.subrange(seg_start as int, n as int)),
        ]);
    }
    let ghost old_r = r.deep_view();
    r.push(piece);
    proof {
        assert(r.deep_view() =~= old_r + seq![piece@]);
    }
    r
}

} // verus!
