use vstd::prelude::*;
use vstd::string::StringExecFns;

verus! {

/// The character of a decimal digit.
pub open spec fn digit_char(d: nat) -> char {
    if d == 0 { '0' }
    else if d == 1 { '1' }
    else if d == 2 { '2' }
    else if d == 3 { '3' }
    else if d == 4 { '4' }
    else if d == 5 { '5' }
    else if d == 6 { '6' }
    else if d == 7 { '7' }
    else if d == 8 { '8' }
    else { '9' }
}

/// The decimal notation of a natural number, most significant digit first, without leading zeros.
pub open spec fn decimal(n: nat) -> Seq<char>
    decreases n,
{
    if n < 10 {
        seq![digit_char(n)]
    } else {
        decimal(n / 10).push(digit_char(n % 10))
    }
}

/// Appends one character to a string.
#[verifier::external_body]
pub(crate) fn push_char(s: &mut String, c: char)
    ensures
        final(s)@ == old(s)@.push(c),
{
    s.push(c);
}

fn exec_digit_char(d: u64) -> (c: char)
    requires
        d < 10,
    ensures
        c == digit_char(d as nat),
{
    if d == 0 { '0' }
    else if d == 1 { '1' }
    else if d == 2 { '2' }
    else if d == 3 { '3' }
    else if d == 4 { '4' }
    else if d == 5 { '5' }
    else if d == 6 { '6' }
    else if d == 7 { '7' }
    else if d == 8 { '8' }
    else { '9' }
}

/// The decimal notation of `n`, as `format!("{}", n)` writes it.
pub fn u64_to_decimal(n: u64) -> (s: String)
    ensures
        s@ == decimal(n as nat),
    decreases n,
{
    if n < 10 {
        let mut s = String::new();
        push_char(&mut s, exec_digit_char(n));
        assert(s@ =~= decimal(n as nat));
        s
    } else {
        let mut s = u64_to_decimal(n / 10);
        push_char(&mut s, exec_digit_char(n % 10));
        s
    }
}

/// A number in decimal, with a minus sign when it is negative.
pub open spec fn signed_decimal(v: int) -> Seq<char> {
    if v < 0 {
        seq!['-'] + decimal((-v) as nat)
    } else {
        decimal(v as nat)
    }
}

/// The decimal notation of `v`, as `format!("{}", v)` writes it.
pub fn i64_to_decimal(v: i64) -> (s: String)
    ensures
        s@ == signed_decimal(v as int),
{
    if v < 0 {
        let mut s = String::new();
        push_char(&mut s, '-');
        let magnitude: u64 = if v == i64::MIN { 9223372036854775808u64 } else { (-v) as u64 };
        let digits = u64_to_decimal(magnitude);
        s.append(digits.as_str());
        assert(s@ =~= signed_decimal(v as int));
        s
    } else {
        u64_to_decimal(v as u64)
    }
}

/// `true` or `false`, as `format!("{}", b)` writes a `bool`.
pub open spec fn bool_text(b: bool) -> Seq<char> {
    if b { "true"@ } else { "false"@ }
}

pub fn bool_to_text(b: bool) -> (s: String)
    ensures
        s@ == bool_text(b),
{
    if b { String::from_str("true") } else { String::from_str("false") }
}

/// Doubles each occurrence of `quote` in `s`.
pub open spec fn double_char(s: Seq<char>, quote: char) -> Seq<char>
    decreases s.len(),
{
    if s.len() == 0 {
        Seq::empty()
    } else {
        let rest = double_char(s.drop_last(), quote);
        if s.last() == quote {
            rest.push(quote).push(quote)
        } else {
            rest.push(s.last())
        }
    }
}

/// Every `quote` in `s` is one of a doubled pair `quote quote`.
pub open spec fn quotes_paired(s: Seq<char>, quote: char) -> bool
    decreases s.len(),
{
    if s.len() == 0 {
        true
    } else if s.last() == quote {
        s.len() >= 2 && s[s.len() - 2] == quote && quotes_paired(s.take(s.len() - 2), quote)
    } else {
        quotes_paired(s.drop_last(), quote)
    }
}

/// Reads each doubled pair `quote quote` back as one `quote`.
pub open spec fn undouble_char(s: Seq<char>, quote: char) -> Seq<char>
    decreases s.len(),
{
    if s.len() == 0 {
        Seq::empty()
    } else if s.last() == quote && s.len() >= 2 {
        undouble_char(s.take(s.len() - 2), quote).push(quote)
    } else {
        undouble_char(s.drop_last(), quote).push(s.last())
    }
}

/// Doubling a character leaves no lone occurrence of it, and reading the
/// doubled pairs back gives the original text.
pub proof fn lemma_double_char_inverse(s: Seq<char>, quote: char)
    ensures
        quotes_paired(double_char(s, quote), quote),
        undouble_char(double_char(s, quote), quote) == s,
    decreases s.len(),
{
    if s.len() > 0 {
        lemma_double_char_inverse(s.drop_last(), quote);
        let rest = double_char(s.drop_last(), quote);
        let d = double_char(s, quote);
        if s.last() == quote {
            assert(d.take(d.len() - 2) =~= rest);
        } else {
            assert(d.drop_last() =~= rest);
        }
        assert(s.drop_last().push(s.last()) =~= s);
    }
}

pub fn double_quote_char(input: &str, quote: char) -> (out: String)
    ensures
        out@ == double_char(input@, quote),
{
    broadcast use vstd::string::group_string_axioms;
    let mut out = String::new();
    for c in it: input.chars()
        invariant
            it.seq() == input@,
            out@ == double_char(input@.take(it.index() as int), quote),
    {
        assert(input@.take(it.index() + 1).drop_last() =~= input@.take(it.index() as int));
        if c == quote {
            push_char(&mut out, quote);
            push_char(&mut out, quote);
        } else {
            push_char(&mut out, c);
        }
    }
    assert(input@.take(input@.len() as int) =~= input@);
    out
}

/// The parts written one after another with `sep` between each two neighbours,
/// as `[String]::join` writes them.
pub open spec fn join(parts: Seq<Seq<char>>, sep: Seq<char>) -> Seq<char>
    decreases parts.len(),
{
    if parts.len() == 0 {
        Seq::empty()
    } else if parts.len() == 1 {
        parts[0]
    } else {
        join(parts.drop_last(), sep) + sep + parts.last()
    }
}

/// The views of a list of strings.
pub open spec fn views(v: Seq<String>) -> Seq<Seq<char>> {
    v.map_values(|s: String| s@)
}

/// Joins the strings with `sep` between each two neighbours.
pub fn join_strings(parts: &Vec<String>, sep: &str) -> (out: String)
    ensures
        out@ == join(views(parts@), sep@),
{
    let mut out = String::new();
    let n = parts.len();
    let mut i: usize = 0;
    while i < n
        invariant
            n == parts@.len(),
            i <= n,
            out@ == join(views(parts@.take(i as int)), sep@),
        decreases n - i,
    {
        assert(views(parts@.take(i + 1)).drop_last() =~= views(parts@.take(i as int)));
        if i != 0 {
            out.append(sep);
        }
        out.append(parts[i].as_str());
        assert(views(parts@.take(i + 1)).last() == parts@[i as int]@);
        proof {
            if i == 0 {
                assert(out@ =~= views(parts@.take(1))[0]);
            }
        }
        i = i + 1;
    }
    assert(parts@.take(n as int) =~= parts@);
    out
}

} // verus!
