//! String building blocks with exact contracts over `Seq<char>` views.

use vstd::prelude::*;

verus! {

/// The character for a decimal digit.
pub open spec fn digit_char(d: nat) -> char {
    if d == 0 { '0' }
    else if d == 1 { '1' }
    else if d == 2 { '2' }
    else if d == 3 { '3' }
    else if d == 4 { '4' }
    else if d == 5 { '5' }
    else if d == 6 { '6' }
    else if d == 7 { '7' }
    else if d == 8 { '8' }
    else { '9' }
}

/// The decimal rendering of a natural number, most significant digit first,
/// with no leading zeros (zero itself renders as `0`).
pub open spec fn decimal(n: nat) -> Seq<char>
    decreases n,
{
    if n < 10 {
        seq![digit_char(n)]
    } else {
        decimal(n / 10).push(digit_char(n % 10))
    }
}

/// Appends one character to a string.
///
/// Trusted: calls `String::push`, which std documents as appending the given
/// `char` to the end of the string.
#[verifier::external_body]
pub(crate) fn push_char(s: &mut String, c: char)
    ensures
        final(s)@ == old(s)@.push(c),
{
    s.push(c);
}

fn exec_digit_char(d: u32) -> (c: char)
    requires
        d < 10,
    ensures
        c == digit_char(d as nat),
{
    if d == 0 { '0' }
    else if d == 1 { '1' }
    else if d == 2 { '2' }
    else if d == 3 { '3' }
    else if d == 4 { '4' }
    else if d == 5 { '5' }
    else if d == 6 { '6' }
    else if d == 7 { '7' }
    else if d == 8 { '8' }
    else { '9' }
}

/// Appends the decimal rendering of `n` to `s`.
pub fn push_decimal(s: &mut String, n: u32)
    ensures
        final(s)@ == old(s)@ + decimal(n as nat),
    decreases n,
{
    if n >= 10 {
        push_decimal(s, n / 10);
    }
    let c = exec_digit_char(n % 10);
    push_char(s, c);
    proof {
        if n >= 10 {
            assert(decimal(n as nat) == decimal((n / 10) as nat).push(digit_char((n % 10) as nat)));
        }
    }
    assert(s@ =~= old(s)@ + decimal(n as nat)) by {
        if n < 10 {
            assert(decimal(n as nat) =~= seq![digit_char(n as nat)]);
        }
    }
}


/// Whether `c` is alphanumeric in Unicode's sense: it has the `Alphabetic`
/// property or is numeric (general category `Nd`, `Nl` or `No`).
pub uninterp spec fn unicode_alphanumeric(c: char) -> bool;

/// An ASCII letter or an ASCII digit.
pub open spec fn is_ascii_alnum(c: char) -> bool {
    'a' <= c <= 'z' || 'A' <= c <= 'Z' || '0' <= c <= '9'
}

/// An ASCII character.
pub open spec fn is_ascii_char(c: char) -> bool {
    (c as u32) < 128
}

/// Trusted: calls `char::is_alphanumeric` (`is_alphabetic() || is_numeric()`,
/// by Unicode's `Alphabetic` property and numeric categories). Its result is
/// named `unicode_alphanumeric`. Among ASCII characters exactly the letters
/// and the digits qualify; which non-ASCII characters qualify (a Unicode table)
/// is left unsaid.
#[verifier::external_body]
pub(crate) fn char_is_alphanumeric(c: char) -> (r: bool)
    ensures
        r == unicode_alphanumeric(c),
        is_ascii_char(c) ==> (r <==> is_ascii_alnum(c)),
{
    c.is_alphanumeric()
}

/// A character that may appear in a Rust identifier as the derived `Debug`
/// rendering of an enum writes it: alphanumeric or `_`.
pub open spec fn ident_char(c: char) -> bool {
    unicode_alphanumeric(c) || c == '_'
}

/// `n` is the length of the run of `true` that starts `flags`.
pub open spec fn is_leading_true_len(flags: Seq<bool>, n: int) -> bool {
    &&& 0 <= n <= flags.len()
    &&& forall|i: int| 0 <= i < n ==> #[trigger] flags[i]
    &&& (n == flags.len() || !flags[n])
}

/// An identifier character among ASCII characters: a letter, a digit or `_`.
pub open spec fn is_ascii_ident_char(c: char) -> bool {
    is_ascii_alnum(c) || c == '_'
}

/// On the ASCII characters of `s`, being an identifier character is the ASCII
/// classification.
pub open spec fn ascii_classified(s: Seq<char>) -> bool {
    forall|i: int| 0 <= i < s.len() && is_ascii_char(#[trigger] s[i]) ==> (ident_char(s[i]) <==> is_ascii_ident_char(s[i]))
}

/// `p` is the longest prefix of `s` made of identifier characters.
pub open spec fn is_leading_ident(s: Seq<char>, p: Seq<char>) -> bool {
    &&& p.len() <= s.len()
    &&& p == s.take(p.len() as int)
    &&& forall|i: int| 0 <= i < p.len() ==> #[trigger] ident_char(s[i])
    &&& (p.len() == s.len() || !ident_char(s[p.len() as int]))
}

/// The length of the run of `true` at the start of `flags`.
pub fn leading_true_count(flags: &Vec<bool>) -> (n: usize)
    ensures
        is_leading_true_len(flags@, n as int),
{
    let mut n: usize = 0;
    while n < flags.len() && flags[n]
        invariant
            n <= flags.len(),
            forall|i: int| 0 <= i < n ==> #[trigger] flags@[i],
        decreases flags.len() - n,
    {
        n = n + 1;
    }
    n
}

/// The longest prefix of `s` made of identifier characters (alphanumerics and
/// `_`): the leading identifier of a derived `Debug` rendering.
pub fn leading_ident(s: &str) -> (p: String)
    ensures
        is_leading_ident(s@, p@),
        ascii_classified(s@),
{
    let len = s.unicode_len();
    let mut flags: Vec<bool> = Vec::new();
    let mut i: usize = 0;
    while i < len
        invariant
            len == s@.len(),
            i <= len,
            flags@.len() == i,
            forall|j: int| 0 <= j < i ==> #[trigger] flags@[j] == ident_char(s@[j]),
            forall|j: int| 0 <= j < i && is_ascii_char(#[trigger] s@[j]) ==> (ident_char(s@[j]) <==> is_ascii_ident_char(s@[j])),
        decreases len - i,
    {
        let c = s.get_char(i);
        let alnum = char_is_alphanumeric(c);
        flags.push(alnum || c == '_');
        i = i + 1;
    }
    let n = leading_true_count(&flags);
    let mut p = String::new();
    let mut k: usize = 0;
    while k < n
        invariant
            n <= len,
            len == s@.len(),
            k <= n,
            p@ == s@.take(k as int),
        decreases n - k,
    {
        let c = s.get_char(k);
        push_char(&mut p, c);
        k = k + 1;
        assert(p@ =~= s@.take(k as int));
    }
    assert forall|j: int| 0 <= j < n implies #[trigger] ident_char(s@[j]) by {
        assert(flags@[j]);
    }
    proof {
        if n < len {
            assert(!flags@[n as int]);
        }
    }
    p
}

/// Lines joined with `\n` between them (none after the last).
pub open spec fn join_lines(lines: Seq<Seq<char>>) -> Seq<char>
    decreases lines.len(),
{
    if lines.len() == 0 {
        Seq::empty()
    } else if lines.len() == 1 {
        lines[0]
    } else {
        join_lines(lines.drop_last()) + seq!['\n'] + lines.last()
    }
}

} // verus!
