//! Verified text utilities: digit stripping, digit-string parsing and
//! formatting, and substring search over semi-structured log text.

use vstd::prelude::*;
use vstd::string::*;

verus! {

pub open spec fn is_digit(c: char) -> bool {
    48 <= c as u32 && c as u32 <= 57
}

pub open spec fn digit_val(c: char) -> nat {
    if is_digit(c) {
        (c as u32 - 48) as nat
    } else {
        0
    }
}

/// The subsequence of decimal digits of `s`, in order.
pub open spec fn strip_digits(s: Seq<char>) -> Seq<char> {
    s.filter(|c: char| is_digit(c))
}

/// `s` with every double-quote character removed.
pub open spec fn strip_quotes(s: Seq<char>) -> Seq<char> {
    s.filter(|c: char| c != '"')
}

/// The numeric value of a digit string, most significant digit first.
pub open spec fn digits_val(s: Seq<char>) -> nat
    decreases s.len(),
{
    if s.len() == 0 {
        0
    } else {
        digits_val(s.drop_last()) * 10 + digit_val(s.last())
    }
}

pub open spec fn all_digits(s: Seq<char>) -> bool {
    forall|i: int| 0 <= i < s.len() ==> is_digit(#[trigger] s[i])
}

/// `needle` occurs as a contiguous run of characters inside `h`.
pub open spec fn spec_contains(h: Seq<char>, needle: Seq<char>) -> bool {
    exists|i: int|
        0 <= i && i + needle.len() <= h.len() && #[trigger] h.subrange(i, i + needle.len())
            == needle
}

pub fn char_is_digit(c: char) -> (r: bool)
    ensures
        r == is_digit(c),
{
    let u = c as u32;
    48 <= u && u <= 57
}

/// One filtering step: extending the prefix by one character extends its
/// filtered image by that character exactly when the predicate holds.
proof fn lemma_filter_step(s: Seq<char>, i: int, pred: spec_fn(char) -> bool)
    requires
        0 <= i < s.len(),
    ensures
        s.subrange(0, i + 1).filter(pred) == if pred(s[i]) {
            s.subrange(0, i).filter(pred).push(s[i])
        } else {
            s.subrange(0, i).filter(pred)
        },
{
    reveal(Seq::filter);
    let ext = s.subrange(0, i + 1);
    assert(ext.drop_last() =~= s.subrange(0, i));
    assert(ext.last() == s[i]);
}

/// Keep only the decimal digits of `s` (the tolerant numeric-field
/// extraction that the scanners apply to raw log text).
pub fn strip_non_digits(s: &str) -> (r: String)
    ensures
        r@ == strip_digits(s@),
{
    let n = s.unicode_len();
    let mut out = String::new();
    let mut i: usize = 0;
    while i < n
        invariant
            i <= n,
            n == s@.len(),
            out@ == strip_digits(s@.subrange(0, i as int)),
        decreases n - i,
    {
        let c = s.get_char(i);
        if char_is_digit(c) {
            out.append(s.substring_char(i, i + 1));
            proof {
                assert(s@.subrange(i as int, i + 1) =~= seq![s@[i as int]]);
            }
        }
        proof {
            lemma_filter_step(s@, i as int, |c: char| is_digit(c));
            if is_digit(s@[i as int]) {
                assert(out@ =~= s@.subrange(0, i as int).filter(|c: char| is_digit(c)).push(
                    s@[i as int],
                ));
            }
        }
        i = i + 1;
    }
    proof {
        assert(s@.subrange(0, n as int) =~= s@);
    }
    out
}

/// Remove every double-quote character from `s` (JSON-rendered scalars
/// carry their quotes; timestamps are parsed without them).
pub fn strip_quote_chars(s: &str) -> (r: String)
    ensures
        r@ == strip_quotes(s@),
{
    let n = s.unicode_len();
    let mut out = String::new();
    let mut i: usize = 0;
    while i < n
        invariant
            i <= n,
            n == s@.len(),
            out@ == strip_quotes(s@.subrange(0, i as int)),
        decreases n - i,
    {
        let c = s.get_char(i);
        if c != '"' {
            out.append(s.substring_char(i, i + 1));
            proof {
                assert(s@.subrange(i as int, i + 1) =~= seq![s@[i as int]]);
            }
        }
        proof {
            lemma_filter_step(s@, i as int, |c: char| c != '"');
            if s@[i as int] != '"' {
                assert(out@ =~= s@.subrange(0, i as int).filter(|c: char| c != '"').push(
                    s@[i as int],
                ));
            }
        }
        i = i + 1;
    }
    proof {
        assert(s@.subrange(0, n as int) =~= s@);
    }
    out
}

/// Every character that digit stripping keeps is a digit.
pub proof fn lemma_strip_digits_all_digits(s: Seq<char>)
    ensures
        all_digits(strip_digits(s)),
{
    assert forall|i: int|
        0 <= i < strip_digits(s).len() implies is_digit(#[trigger] strip_digits(s)[i]) by {
        s.lemma_filter_pred(|c: char| is_digit(c), i);
    }
}

/// Growing a digit string never shrinks its value.
proof fn lemma_digits_val_prefix_le(s: Seq<char>, i: int, j: int)
    requires
        0 <= i <= j <= s.len(),
    ensures
        digits_val(s.subrange(0, i)) <= digits_val(s.subrange(0, j)),
    decreases j - i,
{
    if i < j {
        lemma_digits_val_prefix_le(s, i, j - 1);
        let p = s.subrange(0, j);
        assert(p.drop_last() =~= s.subrange(0, j - 1));
        assert(digits_val(s.subrange(0, j - 1)) * 10 + digit_val(p.last()) >= digits_val(
            s.subrange(0, j - 1),
        ));
    }
}

/// Parse a string as a decimal `u64`: defined exactly on non-empty
/// all-digit strings whose value fits.
pub fn parse_digits_u64(s: &str) -> (r: Option<u64>)
    ensures
        r is Some <==> s@.len() > 0 && all_digits(s@) && digits_val(s@) <= u64::MAX,
        r is Some ==> r->0 == digits_val(s@),
{
    let n = s.unicode_len();
    if n == 0 {
        return None;
    }
    let mut acc: u64 = 0;
    let mut i: usize = 0;
    while i < n
        invariant
            i <= n,
            n == s@.len(),
            all_digits(s@.subrange(0, i as int)),
            acc == digits_val(s@.subrange(0, i as int)),
        decreases n - i,
    {
        let c = s.get_char(i);
        if !char_is_digit(c) {
            return None;
        }
        let d = (c as u32 - 48) as u64;
        proof {
            lemma_filter_step(s@, i as int, |c: char| is_digit(c));
            assert(s@.subrange(0, i + 1).drop_last() =~= s@.subrange(0, i as int));
        }
        if acc > (u64::MAX - d) / 10 {
            proof {
                assert(digits_val(s@.subrange(0, i + 1)) == acc * 10 + d);
                lemma_digits_val_prefix_le(s@, i + 1, n as int);
                assert(s@.subrange(0, n as int) =~= s@);
            }
            return None;
        }
        acc = acc * 10 + d;
        i = i + 1;
    }
    proof {
        assert(s@.subrange(0, n as int) =~= s@);
    }
    Some(acc)
}

pub open spec fn digit_char(d: nat) -> char {
    (48 + d) as char
}

/// The decimal rendering of `n`, most significant digit first.
pub open spec fn spec_u64_string(n: nat) -> Seq<char>
    decreases n,
{
    if n < 10 {
        seq![digit_char(n)]
    } else {
        spec_u64_string(n / 10).push(digit_char(n % 10))
    }
}

fn digit_str(d: u64) -> (r: &'static str)
    requires
        d < 10,
    ensures
        r@ == seq![digit_char(d as nat)],
{
    proof {
        reveal_strlit("0");
        reveal_strlit("1");
        reveal_strlit("2");
        reveal_strlit("3");
        reveal_strlit("4");
        reveal_strlit("5");
        reveal_strlit("6");
        reveal_strlit("7");
        reveal_strlit("8");
        reveal_strlit("9");
    }
    let r = match d {
        0 => "0",
        1 => "1",
        2 => "2",
        3 => "3",
        4 => "4",
        5 => "5",
        6 => "6",
        7 => "7",
        8 => "8",
        _ => "9",
    };
    proof {
        assert(r@ =~= seq![digit_char(d as nat)]);
    }
    r
}

/// Render `n` in decimal (chain heights travel as strings in responses).
pub fn u64_to_string(n: u64) -> (r: String)
    ensures
        r@ == spec_u64_string(n as nat),
    decreases n,
{
    if n < 10 {
        String::from_str(digit_str(n))
    } else {
        let mut s = u64_to_string(n / 10);
        s.append(digit_str(n % 10));
        proof {
            assert(s@ =~= spec_u64_string((n / 10) as nat).push(digit_char((n % 10) as nat)));
        }
        s
    }
}

/// Compare `h`'s run of characters starting at `at` against `needle`.
fn str_match_at(h: &str, needle: &str, at: usize) -> (r: bool)
    requires
        at + needle@.len() <= h@.len(),
        h@.len() <= usize::MAX,
    ensures
        r == (h@.subrange(at as int, at + needle@.len()) == needle@),
{
    let nl = needle.unicode_len();
    let mut k: usize = 0;
    while k < nl
        invariant
            k <= nl,
            nl == needle@.len(),
            at + nl <= h@.len(),
            h@.len() <= usize::MAX,
            forall|k2: int| 0 <= k2 < k ==> h@[at + k2] == needle@[k2],
        decreases nl - k,
    {
        if h.get_char(at + k) != needle.get_char(k) {
            proof {
                assert(h@.subrange(at as int, at + needle@.len())[k as int] != needle@[k as int]);
            }
            return false;
        }
        k = k + 1;
    }
    proof {
        assert(h@.subrange(at as int, at + needle@.len()) =~= needle@);
    }
    true
}

/// Character-wise string equality.
pub fn str_eq(a: &str, b: &str) -> (r: bool)
    ensures
        r == (a@ == b@),
{
    let al = a.unicode_len();
    let bl = b.unicode_len();
    if al != bl {
        return false;
    }
    let mut i: usize = 0;
    while i < al
        invariant
            i <= al,
            al == a@.len(),
            al == b@.len(),
            forall|j: int| 0 <= j < i ==> a@[j] == b@[j],
        decreases al - i,
    {
        if a.get_char(i) != b.get_char(i) {
            return false;
        }
        i = i + 1;
    }
    proof {
        assert(a@ =~= b@);
    }
    true
}

/// Substring search, the `contains` test the scanners use to classify
/// actions, match attribute keys and spot fee denominations.
pub fn str_contains(h: &str, needle: &str) -> (r: bool)
    ensures
        r == spec_contains(h@, needle@),
{
    let hl = h.unicode_len();
    let nl = needle.unicode_len();
    if nl > hl {
        return false;
    }
    let limit = hl - nl;
    let mut i: usize = 0;
    loop
        invariant
            nl <= hl,
            hl == h@.len(),
            nl == needle@.len(),
            limit == hl - nl,
            i <= limit,
            forall|j: int|
                0 <= j < i ==> #[trigger] h@.subrange(j, j + needle@.len()) != needle@,
        decreases limit - i,
    {
        if str_match_at(h, needle, i) {
            return true;
        }
        if i == limit {
            proof {
                assert forall|j: int|
                    !(0 <= j && j + needle@.len() <= h@.len() && #[trigger] h@.subrange(
                        j,
                        j + needle@.len(),
                    ) == needle@) by {
                    if 0 <= j && j + needle@.len() <= h@.len() {
                        if j < limit as int {
                        } else {
                            assert(j == limit as int);
                        }
                    }
                }
            }
            return false;
        }
        i = i + 1;
    }
}

} // verus!
