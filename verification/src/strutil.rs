//! Verified text helpers: exact and ASCII-case-insensitive comparison,
//! header token splitting, and decimal rendering.

use vstd::prelude::*;

verus! {

/// Code point of a character after lower-casing the ASCII range 'A'..'Z'.
pub open spec fn lower_code(c: int) -> int {
    if 65 <= c <= 90 {
        c + 32
    } else {
        c
    }
}

/// Character-wise ASCII-case-insensitive equality of two character sequences.
pub open spec fn eq_ignore_case(a: Seq<char>, b: Seq<char>) -> bool {
    a.len() == b.len() && (forall|i: int|
        0 <= i < a.len() ==> lower_code(a[i] as int) == lower_code(b[i] as int))
}

/// Compares two strings, treating ASCII letters of either case as equal.
pub fn str_eq_ignore_case(a: &str, b: &str) -> (r: bool)
    ensures
        r == eq_ignore_case(a@, b@),
{
    let alen = a.unicode_len();
    let blen = b.unicode_len();
    if alen != blen {
        return false;
    }
    let mut i: usize = 0;
    while i < alen
        invariant
            i <= alen,
            alen == a@.len(),
            blen == b@.len(),
            alen == blen,
            forall|j: int| 0 <= j < i ==> lower_code(a@[j] as int) == lower_code(b@[j] as int),
        decreases alen - i,
    {
        let ca = a.get_char(i) as u32;
        let cb = b.get_char(i) as u32;
        let la = if 65 <= ca && ca <= 90 {
            ca + 32
        } else {
            ca
        };
        let lb = if 65 <= cb && cb <= 90 {
            cb + 32
        } else {
            cb
        };
        if la != lb {
            assert(lower_code(a@[i as int] as int) != lower_code(b@[i as int] as int));
            return false;
        }
        i = i + 1;
    }
    true
}

/// Compares two strings character by character.
pub fn str_eq(a: &str, b: &str) -> (r: bool)
    ensures
        r == (a@ == b@),
{
    let alen = a.unicode_len();
    let blen = b.unicode_len();
    if alen != blen {
        return false;
    }
    let mut i: usize = 0;
    while i < alen
        invariant
            i <= alen,
            alen == a@.len(),
            blen == b@.len(),
            alen == blen,
            forall|j: int| 0 <= j < i ==> a@[j] == b@[j],
        decreases alen - i,
    {
        if a.get_char(i) != b.get_char(i) {
            return false;
        }
        i = i + 1;
    }
    proof {
        assert(a@ =~= b@);
    }
    true
}

/// The separators on which a header token list is split.
pub open spec fn is_sep(c: char) -> bool {
    c == ' ' || c == ','
}

/// Length of the leading separator-free run of `s`.
pub open spec fn run_len(s: Seq<char>) -> nat
    decreases s.len(),
{
    if s.len() == 0 || is_sep(s[0]) {
        0
    } else {
        1 + run_len(s.drop_first())
    }
}

/// The leading run is never longer than the whole sequence.
pub proof fn lemma_run_len_le(s: Seq<char>)
    ensures
        run_len(s) <= s.len(),
    decreases s.len(),
{
    if s.len() != 0 && !is_sep(s[0]) {
        lemma_run_len_le(s.drop_first());
    }
}

/// The non-empty tokens of `s`, in order, split on space and comma.
pub open spec fn tokens_of(s: Seq<char>) -> Seq<Seq<char>>
    decreases s.len(),
    via tokens_of_decreases
{
    if s.len() == 0 {
        Seq::empty()
    } else if is_sep(s[0]) {
        tokens_of(s.drop_first())
    } else {
        seq![s.take(run_len(s) as int)] + tokens_of(s.skip(run_len(s) as int))
    }
}

#[via_fn]
proof fn tokens_of_decreases(s: Seq<char>) {
    lemma_run_len_le(s);
}

/// The views of a sequence of owned strings.
pub open spec fn str_views(ts: Seq<String>) -> Seq<Seq<char>> {
    ts.map_values(|t: String| t@)
}

/// A leading run of `m` separator-free characters ended by a separator
/// (or the end of the sequence) is exactly the leading run.
proof fn lemma_run_len_exact(s: Seq<char>, m: int)
    requires
        0 <= m <= s.len(),
        forall|k: int| 0 <= k < m ==> !is_sep(s[k]),
        m == s.len() || is_sep(s[m]),
    ensures
        run_len(s) == m,
    decreases s.len(),
{
    if s.len() == 0 {
    } else if m == 0 {
    } else {
        assert(!is_sep(s[0]));
        lemma_run_len_exact(s.drop_first(), m - 1);
    }
}

/// Splits `s` on spaces and commas, returning its non-empty tokens in order.
pub fn split_tokens(s: &str) -> (r: Vec<String>)
    ensures
        str_views(r@) == tokens_of(s@),
{
    let mut r: Vec<String> = Vec::new();
    let len = s.unicode_len();
    let mut i: usize = 0;
    proof {
        assert(s@.skip(0) =~= s@);
        assert(str_views(r@) =~= Seq::<Seq<char>>::empty());
    }
    while i < len
        invariant
            i <= len,
            len == s@.len(),
            str_views(r@) + tokens_of(s@.skip(i as int)) =~= tokens_of(s@),
        decreases len - i,
    {
        let c = s.get_char(i);
        if c == ' ' || c == ',' {
            proof {
                assert(s@.skip(i as int).drop_first() =~= s@.skip(i + 1));
            }
            i = i + 1;
        } else {
            let start = i;
            let mut j = i + 1;
            while j < len
                invariant
                    start < j <= len,
                    len == s@.len(),
                    forall|k: int| start <= k < j ==> !is_sep(s@[k]),
                ensures
                    start < j <= len,
                    forall|k: int| start <= k < j ==> !is_sep(s@[k]),
                    j == len || is_sep(s@[j as int]),
                decreases len - j,
            {
                let cj = s.get_char(j);
                if cj == ' ' || cj == ',' {
                    break;
                }
                j = j + 1;
            }
            let tok = s.substring_char(start, j);
            let owned = String::from_str(tok);
            proof {
                let rest = s@.skip(start as int);
                lemma_run_len_exact(rest, j - start);
                assert(rest.take((j - start) as int) =~= s@.subrange(start as int, j as int));
                assert(rest.skip((j - start) as int) =~= s@.skip(j as int));
                assert(tokens_of(rest) =~= seq![s@.subrange(start as int, j as int)] + tokens_of(
                    s@.skip(j as int),
                ));
            }
            r.push(owned);
            proof {
                assert(str_views(r@) =~= str_views(r@.drop_last()).push(owned@));
            }
            i = j;
        }
    }
    proof {
        assert(s@.skip(len as int) =~= Seq::<char>::empty());
        assert(str_views(r@) =~= tokens_of(s@));
    }
    r
}

/// Whether some token of `v` equals `t`, ignoring ASCII case.
pub open spec fn has_token(v: Seq<char>, t: Seq<char>) -> bool {
    exists|i: int| 0 <= i < tokens_of(v).len() && eq_ignore_case(tokens_of(v)[i], t)
}

/// Tests whether the token list `value` contains `token`, ignoring ASCII case.
pub fn contains_token_ignore_case(value: &str, token: &str) -> (r: bool)
    ensures
        r == has_token(value@, token@),
{
    let toks = split_tokens(value);
    let mut i: usize = 0;
    while i < toks.len()
        invariant
            i <= toks.len(),
            str_views(toks@) == tokens_of(value@),
            forall|j: int| 0 <= j < i ==> !eq_ignore_case(tokens_of(value@)[j], token@),
        decreases toks.len() - i,
    {
        if str_eq_ignore_case(toks[i].as_str(), token) {
            assert(eq_ignore_case(tokens_of(value@)[i as int], token@));
            return true;
        }
        i = i + 1;
    }
    false
}

/// The decimal digit characters.
pub open spec fn digit_char(d: int) -> char {
    "0123456789"@[d]
}

/// The decimal rendering of `n`, most significant digit first.
pub open spec fn dec_str(n: nat) -> Seq<char>
    decreases n,
{
    if n < 10 {
        seq![digit_char(n as int)]
    } else {
        dec_str(n / 10) + seq![digit_char((n % 10) as int)]
    }
}

/// Renders `n` in decimal.
pub fn u64_dec(n: u64) -> (s: String)
    ensures
        s@ == dec_str(n as nat),
    decreases n,
{
    let digits = "0123456789";
    proof {
        reveal_strlit("0123456789");
    }
    if n < 10 {
        let d = digits.substring_char(n as usize, n as usize + 1);
        let owned = String::from_str(d);
        proof {
            assert(owned@ =~= seq![digit_char(n as int)]);
        }
        owned
    } else {
        let mut prefix = u64_dec(n / 10);
        let d = digits.substring_char((n % 10) as usize, (n % 10) as usize + 1);
        prefix.append(d);
        proof {
            assert(d@ =~= seq![digit_char((n % 10) as int)]);
            assert(prefix@ =~= dec_str(n as nat));
        }
        prefix
    }
}

} // verus!
