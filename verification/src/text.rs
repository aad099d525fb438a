//! Character-level helpers for operator input. Champion names are matched
//! case-insensitively, with spaces, other ASCII whitespace and apostrophes
//! removed from the operator's text before the comparison.

use vstd::prelude::*;
use vstd::string::StringExecFns;

verus! {

/// Compares two string slices by their character contents.
pub fn str_eq(a: &str, b: &str) -> (r: bool)
    ensures
        r == (a@ == b@),
{
    let owned_a = String::from_str(a);
    let owned_b = String::from_str(b);
    owned_a == owned_b
}

/// Lower-cases an ASCII capital letter; every other character is unchanged.
pub open spec fn lower_char(c: char) -> char {
    if 'A' <= c && c <= 'Z' {
        ((c as u8 + 32) as u8) as char
    } else {
        c
    }
}

/// Characters removed from operator input before matching: ASCII whitespace
/// and the apostrophe.
pub open spec fn discard_char(c: char) -> bool {
    c == ' ' || c == '\t' || c == '\n' || c == '\r' || c == '\''
}

/// Operator input, normalized: discarded characters removed, the rest
/// lower-cased.
pub open spec fn clean_name(s: Seq<char>) -> Seq<char>
    decreases s.len(),
{
    if s.len() == 0 {
        Seq::empty()
    } else if discard_char(s[0]) {
        clean_name(s.drop_first())
    } else {
        seq![lower_char(s[0])] + clean_name(s.drop_first())
    }
}

/// A catalog name, normalized: only lower-cased, nothing removed.
pub open spec fn lower_name(s: Seq<char>) -> Seq<char>
    decreases s.len(),
{
    if s.len() == 0 {
        Seq::empty()
    } else {
        seq![lower_char(s[0])] + lower_name(s.drop_first())
    }
}

proof fn lemma_clean_name_concat(a: Seq<char>, b: Seq<char>)
    ensures
        clean_name(a + b) == clean_name(a) + clean_name(b),
    decreases a.len(),
{
    if a.len() == 0 {
        assert(a + b =~= b);
        assert(clean_name(a) + clean_name(b) =~= clean_name(b));
    } else {
        assert((a + b).drop_first() =~= a.drop_first() + b);
        lemma_clean_name_concat(a.drop_first(), b);
        if discard_char(a[0]) {
            assert(clean_name(a + b) == clean_name(a) + clean_name(b));
        } else {
            assert(seq![lower_char(a[0])] + (clean_name(a.drop_first()) + clean_name(b)) =~= (
            seq![lower_char(a[0])] + clean_name(a.drop_first())) + clean_name(b));
        }
    }
}

proof fn lemma_lower_name_concat(a: Seq<char>, b: Seq<char>)
    ensures
        lower_name(a + b) == lower_name(a) + lower_name(b),
    decreases a.len(),
{
    if a.len() == 0 {
        assert(a + b =~= b);
        assert(lower_name(a) + lower_name(b) =~= lower_name(b));
    } else {
        assert((a + b).drop_first() =~= a.drop_first() + b);
        lemma_lower_name_concat(a.drop_first(), b);
        assert(seq![lower_char(a[0])] + (lower_name(a.drop_first()) + lower_name(b)) =~= (
        seq![lower_char(a[0])] + lower_name(a.drop_first())) + lower_name(b));
    }
}

/// Lower-cases one character, as `lower_char` describes.
pub fn to_lower(c: char) -> (r: char)
    ensures
        r == lower_char(c),
{
    if 'A' <= c && c <= 'Z' {
        let b = c as u8;
        (b + 32) as char
    } else {
        c
    }
}

/// Decides whether a character is removed from operator input.
pub fn is_discarded(c: char) -> (r: bool)
    ensures
        r == discard_char(c),
{
    c == ' ' || c == '\t' || c == '\n' || c == '\r' || c == '\''
}

/// Normalizes operator input to the form champion names are matched in.
pub fn clean_str(s: &str) -> (r: Vec<char>)
    ensures
        r@ == clean_name(s@),
{
    let n = s.unicode_len();
    let mut r: Vec<char> = Vec::new();
    let mut i: usize = 0;
    while i < n
        invariant
            n == s@.len(),
            i <= n,
            r@ == clean_name(s@.subrange(0, i as int)),
        decreases n - i,
    {
        let c = s.get_char(i);
        let ghost prefix = s@.subrange(0, i as int);
        let ghost one = seq![s@[i as int]];
        if !is_discarded(c) {
            r.push(to_lower(c));
        }
        proof {
            assert(s@.subrange(0, i + 1) =~= prefix + one);
            lemma_clean_name_concat(prefix, one);
            assert(one.drop_first() =~= Seq::<char>::empty());
            assert(clean_name(Seq::<char>::empty()) =~= Seq::<char>::empty());
            if discard_char(c) {
                assert(clean_name(one) =~= Seq::<char>::empty());
            } else {
                assert(clean_name(one) =~= seq![lower_char(c)]);
            }
            assert(r@ =~= clean_name(prefix) + clean_name(one));
        }
        i += 1;
    }
    proof {
        assert(s@.subrange(0, n as int) =~= s@);
    }
    r
}

/// Lower-cases a catalog name, keeping every character.
pub fn lower_str(s: &str) -> (r: Vec<char>)
    ensures
        r@ == lower_name(s@),
{
    let n = s.unicode_len();
    let mut r: Vec<char> = Vec::new();
    let mut i: usize = 0;
    while i < n
        invariant
            n == s@.len(),
            i <= n,
            r@ == lower_name(s@.subrange(0, i as int)),
        decreases n - i,
    {
        let c = s.get_char(i);
        let ghost prefix = s@.subrange(0, i as int);
        let ghost one = seq![s@[i as int]];
        r.push(to_lower(c));
        proof {
            assert(s@.subrange(0, i + 1) =~= prefix + one);
            lemma_lower_name_concat(prefix, one);
            assert(one.drop_first() =~= Seq::<char>::empty());
            assert(lower_name(Seq::<char>::empty()) =~= Seq::<char>::empty());
            assert(lower_name(one) =~= seq![lower_char(c)]);
            assert(r@ =~= lower_name(prefix) + lower_name(one));
        }
        i += 1;
    }
    proof {
        assert(s@.subrange(0, n as int) =~= s@);
    }
    r
}

/// Compares two character vectors for equality of their contents.
pub fn chars_equal(a: &Vec<char>, b: &Vec<char>) -> (r: bool)
    ensures
        r == (a@ == b@),
{
    if a.len() != b.len() {
        return false;
    }
    let mut i: usize = 0;
    while i < a.len()
        invariant
            a@.len() == b@.len(),
            i <= a@.len(),
            forall|j: int| 0 <= j < i ==> a@[j] == b@[j],
        decreases a@.len() - i,
    {
        if a[i] != b[i] {
            return false;
        }
        i += 1;
    }
    proof {
        assert(a@ =~= b@);
    }
    true
}

} // verus!
