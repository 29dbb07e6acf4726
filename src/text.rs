//! Character-level helpers shared by the other modules.
use vstd::prelude::*;
use vstd::string::*;

verus! {

/// The parameter that marks a content type as UTF-8 text.
pub open spec fn utf8_marker() -> Seq<char> {
    seq!['c', 'h', 'a', 'r', 's', 'e', 't', '=', 'u', 't', 'f', '-', '8']
}

/// `c` equals `p` once ASCII upper case letters are folded to lower case
/// (`p` being a lower case letter or a non-letter).
pub open spec fn folds_to(c: char, p: char) -> bool {
    c == p || ('a' <= p && p <= 'z' && (c as u32) + 32 == (p as u32))
}

/// `pat` occurs in `s` at position `i`, ignoring ASCII case in `s`.
pub open spec fn occurs_folded_at(s: Seq<char>, pat: Seq<char>, i: int) -> bool {
    0 <= i && i + pat.len() <= s.len() && forall|j: int|
        0 <= j < pat.len() ==> #[trigger] folds_to(s[i + j], pat[j])
}

/// A content type declares UTF-8 text when it holds `charset=utf-8` in any
/// ASCII case.
pub open spec fn declares_utf8(s: Seq<char>) -> bool {
    exists|i: int| occurs_folded_at(s, utf8_marker(), i)
}

/// The decimal digit for `d` (below ten).
pub open spec fn digit_char(d: nat) -> char {
    seq!['0', '1', '2', '3', '4', '5', '6', '7', '8', '9'][d as int]
}

/// The decimal notation of `n`, without leading zeros.
pub open spec fn decimal(n: nat) -> Seq<char>
    decreases n,
{
    if n < 10 {
        seq![digit_char(n)]
    } else {
        decimal(n / 10).push(digit_char(n % 10))
    }
}

/// Relies on str::chars, collected into a vector: the characters in order.
#[verifier::external_body]
pub(crate) fn char_vec(s: &str) -> (r: Vec<char>)
    ensures
        r@ == s@,
{
    s.chars().collect()
}

/// Relies on String::push: appends one character.
#[verifier::external_body]
pub(crate) fn push_char(s: &mut String, c: char)
    ensures
        final(s)@ == old(s)@.push(c),
{
    s.push(c)
}

/// Appends `t` to `s`.
pub fn push_text(s: &mut String, t: &str)
    ensures
        final(s)@ == old(s)@ + t@,
{
    s.append(t);
}

/// Tells whether a declared content type marks UTF-8 text: it holds
/// `charset=utf-8`, upper or lower case alike.
pub fn is_utf8_content_type(content_type: &str) -> (r: bool)
    ensures
        r == declares_utf8(content_type@),
{
    let s = char_vec(content_type);
    let pat: Vec<char> = vec!['c', 'h', 'a', 'r', 's', 'e', 't', '=', 'u', 't', 'f', '-', '8'];
    assert(pat@ =~= utf8_marker());
    if s.len() < pat.len() {
        assert forall|i: int| !occurs_folded_at(s@, utf8_marker(), i) by {}
        return false;
    }
    let last = s.len() - pat.len();
    let mut i: usize = 0;
    while i <= last
        invariant
            s@ == content_type@,
            pat@ == utf8_marker(),
            last == s.len() - pat.len(),
            i <= last + 1,
            forall|k: int| 0 <= k < i ==> !occurs_folded_at(s@, utf8_marker(), k),
        decreases last + 1 - i,
    {
        let mut j: usize = 0;
        let mut ok = true;
        while j < pat.len()
            invariant
                s@ == content_type@,
                pat@ == utf8_marker(),
                i <= last,
                last == s.len() - pat.len(),
                j <= pat.len(),
                ok == forall|m: int| 0 <= m < j ==> folds_to(s@[i + m], pat@[m]),
            decreases pat.len() - j,
        {
            let c = s[i + j];
            let p = pat[j];
            let same = c == p || ('a' <= p && p <= 'z' && (c as u32) == (p as u32) - 32);
            if !same {
                assert(!folds_to(s@[i + j], pat@[j as int]));
            }
            ok = ok && same;
            j = j + 1;
        }
        if ok {
            assert(occurs_folded_at(s@, utf8_marker(), i as int));
            return true;
        }
        i = i + 1;
    }
    assert forall|k: int| !occurs_folded_at(s@, utf8_marker(), k) by {
        if 0 <= k && k + 13 <= s@.len() {
            assert(k < i);
        }
    }
    false
}

/// Appends the decimal notation of `n` to `out`.
pub fn push_decimal(out: &mut String, n: u64)
    ensures
        final(out)@ == old(out)@ + decimal(n as nat),
    decreases n,
{
    if n >= 10 {
        push_decimal(out, n / 10);
    }
    let d = n % 10;
    let c = if d == 0 { '0' } else if d == 1 { '1' } else if d == 2 { '2' } else if d == 3 { '3' }
        else if d == 4 { '4' } else if d == 5 { '5' } else if d == 6 { '6' } else if d == 7 { '7' }
        else if d == 8 { '8' } else { '9' };
    assert(c == digit_char(d as nat));
    push_char(out, c);
    proof {
        if n >= 10 {
            assert(decimal(n as nat) == decimal((n / 10) as nat).push(digit_char((n % 10) as nat)));
        } else {
            assert(decimal(n as nat) == seq![digit_char(n as nat)]);
        }
    }
    assert(final(out)@ =~= old(out)@ + decimal(n as nat));
}

} // verus!
