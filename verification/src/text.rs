//! Text helpers shared by the shell: decimal rendering, exact comparison,
//! concatenation and the path-joining rule of a POSIX `Path::join`.
use vstd::prelude::*;
use vstd::string::*;

verus! {

/// The character of one decimal digit.
pub open spec fn digit_char(d: nat) -> char {
    if d == 0 { '0' }
    else if d == 1 { '1' }
    else if d == 2 { '2' }
    else if d == 3 { '3' }
    else if d == 4 { '4' }
    else if d == 5 { '5' }
    else if d == 6 { '6' }
    else if d == 7 { '7' }
    else if d == 8 { '8' }
    else { '9' }
}

/// The shortest decimal rendering of a natural number (as `Display` prints it).
pub open spec fn decimal(n: nat) -> Seq<char>
    decreases n,
{
    if n < 10 {
        seq![digit_char(n)]
    } else {
        decimal(n / 10).push(digit_char(n % 10))
    }
}

/// The decimal rendering of a signed integer, with a leading minus sign.
pub open spec fn signed_decimal(n: int) -> Seq<char> {
    if n < 0 {
        seq!['-'] + decimal((-n) as nat)
    } else {
        decimal(n as nat)
    }
}

fn digit_text(d: u64) -> (s: &'static str)
    requires
        d < 10,
    ensures
        s@ == seq![digit_char(d as nat)],
{
    proof {
        reveal_strlit("0");
        reveal_strlit("1");
        reveal_strlit("2");
        reveal_strlit("3");
        reveal_strlit("4");
        reveal_strlit("5");
        reveal_strlit("6");
        reveal_strlit("7");
        reveal_strlit("8");
        reveal_strlit("9");
    }
    if d == 0 { "0" }
    else if d == 1 { "1" }
    else if d == 2 { "2" }
    else if d == 3 { "3" }
    else if d == 4 { "4" }
    else if d == 5 { "5" }
    else if d == 6 { "6" }
    else if d == 7 { "7" }
    else if d == 8 { "8" }
    else { "9" }
}

/// The last `width` decimal digits of `n`, zero-padded on the left.
pub open spec fn fixed_digits(n: nat, width: nat) -> Seq<char>
    decreases width,
{
    if width == 0 {
        seq![]
    } else {
        fixed_digits(n / 10, (width - 1) as nat).push(digit_char(n % 10))
    }
}

/// Renders the last `width` decimal digits of `n`, zero-padded.
pub fn fixed_text(n: u64, width: u64) -> (s: String)
    ensures
        s@ == fixed_digits(n as nat, width as nat),
    decreases width,
{
    if width == 0 {
        String::new()
    } else {
        let mut s = fixed_text(n / 10, width - 1);
        s.append(digit_text(n % 10));
        s
    }
}

/// Renders `n` in decimal.
pub fn u64_text(n: u64) -> (s: String)
    ensures
        s@ == decimal(n as nat),
    decreases n,
{
    if n < 10 {
        String::from_str(digit_text(n))
    } else {
        let mut s = u64_text(n / 10);
        s.append(digit_text(n % 10));
        s
    }
}

/// Renders `n` in decimal with a leading `-` when it is negative.
pub fn i64_text(n: i64) -> (s: String)
    ensures
        s@ == signed_decimal(n as int),
{
    if n < 0 {
        let magnitude: u64 = ((-(n + 1)) as u64) + 1;
        let mut s = String::from_str("-");
        proof {
            reveal_strlit("-");
        }
        let digits = u64_text(magnitude);
        s.append(digits.as_str());
        s
    } else {
        u64_text(n as u64)
    }
}

/// Exact equality of two strings.
pub fn str_eq(a: &str, b: &str) -> (r: bool)
    ensures
        r == (a@ == b@),
{
    let x = a.to_owned();
    let y = b.to_owned();
    x == y
}

/// `a` followed by `b`, as a new string.
pub fn concat2(a: &str, b: &str) -> (s: String)
    ensures
        s@ == a@ + b@,
{
    let mut s = String::from_str(a);
    s.append(b);
    s
}

/// `a`, `b` and `c` in order, as a new string.
pub fn concat3(a: &str, b: &str, c: &str) -> (s: String)
    ensures
        s@ == a@ + b@ + c@,
{
    let mut s = String::from_str(a);
    s.append(b);
    s.append(c);
    s
}

/// The result of a POSIX `Path::join(base, rel)`: an absolute `rel`
/// replaces the base, an empty base yields `rel`, and a single separator is
/// inserted unless the base already ends in one.
pub open spec fn path_join(base: Seq<char>, rel: Seq<char>) -> Seq<char> {
    if rel.len() > 0 && rel[0] == '/' {
        rel
    } else if base.len() == 0 {
        rel
    } else if base[base.len() - 1] == '/' {
        base + rel
    } else {
        base + seq!['/'] + rel
    }
}

/// Joins a relative path onto a base path as a POSIX `Path::join` does.
pub fn join_path(base: &str, rel: &str) -> (s: String)
    ensures
        s@ == path_join(base@, rel@),
{
    let rel_len = rel.unicode_len();
    let base_len = base.unicode_len();
    if rel_len > 0 && rel.get_char(0) == '/' {
        String::from_str(rel)
    } else if base_len == 0 {
        String::from_str(rel)
    } else if base.get_char(base_len - 1) == '/' {
        concat2(base, rel)
    } else {
        proof {
            reveal_strlit("/");
        }
        concat3(base, "/", rel)
    }
}

} // verus!
