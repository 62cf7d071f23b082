//! Decimal rendering of integers and the small text layouts built on it.
use vstd::prelude::*;

verus! {

/// The character of a decimal digit.
pub open spec fn digit_char(d: nat) -> char {
    if d == 0 { '0' }
    else if d == 1 { '1' }
    else if d == 2 { '2' }
    else if d == 3 { '3' }
    else if d == 4 { '4' }
    else if d == 5 { '5' }
    else if d == 6 { '6' }
    else if d == 7 { '7' }
    else if d == 8 { '8' }
    else { '9' }
}

/// The decimal representation of `n`, most significant digit first, without leading zeros.
pub open spec fn dec(n: nat) -> Seq<char>
    decreases n,
{
    if n < 10 {
        seq![digit_char(n)]
    } else {
        dec(n / 10) + seq![digit_char(n % 10)]
    }
}

/// `n` rendered with at least two digits, padded with a leading zero (`{:02}`).
pub open spec fn pad2(n: nat) -> Seq<char> {
    if n < 10 { seq!['0'] + dec(n) } else { dec(n) }
}

fn digit_str(d: u64) -> (s: &'static str)
    requires
        d < 10,
    ensures
        s@ == seq![digit_char(d as nat)],
{
    proof {
        reveal_strlit("0");
        reveal_strlit("1");
        reveal_strlit("2");
        reveal_strlit("3");
        reveal_strlit("4");
        reveal_strlit("5");
        reveal_strlit("6");
        reveal_strlit("7");
        reveal_strlit("8");
        reveal_strlit("9");
    }
    if d == 0 { "0" }
    else if d == 1 { "1" }
    else if d == 2 { "2" }
    else if d == 3 { "3" }
    else if d == 4 { "4" }
    else if d == 5 { "5" }
    else if d == 6 { "6" }
    else if d == 7 { "7" }
    else if d == 8 { "8" }
    else { "9" }
}

/// Renders `n` in decimal, as `n.to_string()` does.
pub fn dec_string(n: u64) -> (s: String)
    ensures
        s@ == dec(n as nat),
    decreases n,
{
    if n < 10 {
        String::from_str(digit_str(n))
    } else {
        let mut s = dec_string(n / 10);
        s.append(digit_str(n % 10));
        s
    }
}

/// Renders `n` with at least two digits, as `format!("{:02}", n)` does.
pub fn pad2_string(n: u64) -> (s: String)
    ensures
        s@ == pad2(n as nat),
{
    if n < 10 {
        let mut s = String::from_str("0");
        proof { reveal_strlit("0"); }
        let d = dec_string(n);
        s.append(d.as_str());
        s
    } else {
        dec_string(n)
    }
}

/// Appends the decimal rendering of `n` to `s`.
pub fn push_dec(s: &mut String, n: u64)
    ensures
        final(s)@ == old(s)@ + dec(n as nat),
{
    let d = dec_string(n);
    s.append(d.as_str());
}

/// Appends the two-digit rendering of `n` to `s`.
pub fn push_pad2(s: &mut String, n: u64)
    ensures
        final(s)@ == old(s)@ + pad2(n as nat),
{
    let d = pad2_string(n);
    s.append(d.as_str());
}

/// Appends `t` to `s`.
pub fn push_str(s: &mut String, t: &str)
    ensures
        final(s)@ == old(s)@ + t@,
{
    s.append(t);
}

/// A length in seconds as `hh:mm:ss` when it is over an hour, `mm:ss` otherwise.
pub open spec fn hms(secs: nat) -> Seq<char> {
    if secs > 3600 {
        pad2(secs / 3600) + ":"@ + pad2((secs % 3600) / 60) + ":"@ + pad2(secs % 60)
    } else {
        pad2(secs / 60) + ":"@ + pad2(secs % 60)
    }
}

/// Renders a length in seconds as `hh:mm:ss` when it is over an hour, `mm:ss` otherwise.
pub fn hms_string(secs: u64) -> (s: String)
    ensures
        s@ == hms(secs as nat),
{
    let mut s = String::new();
    if secs > 3600 {
        push_pad2(&mut s, secs / 3600);
        push_str(&mut s, ":");
        push_pad2(&mut s, (secs % 3600) / 60);
        push_str(&mut s, ":");
        push_pad2(&mut s, secs % 60);
    } else {
        push_pad2(&mut s, secs / 60);
        push_str(&mut s, ":");
        push_pad2(&mut s, secs % 60);
    }
    s
}

/// A size in bytes in the largest decimal unit it reaches, rounded down.
pub open spec fn file_size(s: nat) -> Seq<char> {
    if s < 1000 {
        dec(s) + " Bytes"@
    } else if s < 1000 * 1000 {
        dec(s / 1000) + " KB"@
    } else if s < 1000 * 1000 * 1000 {
        dec(s / (1000 * 1000)) + " MB"@
    } else if s < 1000 * 1000 * 1000 * 1000 {
        dec(s / (1000 * 1000 * 1000)) + " GB"@
    } else {
        "Really big"@
    }
}

/// Renders a size in bytes in the largest decimal unit it reaches, rounded down.
pub fn file_size_string(s: u64) -> (r: String)
    ensures
        r@ == file_size(s as nat),
{
    let mut r = String::new();
    if s < 1000 {
        push_dec(&mut r, s);
        push_str(&mut r, " Bytes");
    } else if s < 1000 * 1000 {
        push_dec(&mut r, s / 1000);
        push_str(&mut r, " KB");
    } else if s < 1000 * 1000 * 1000 {
        push_dec(&mut r, s / (1000 * 1000));
        push_str(&mut r, " MB");
    } else if s < 1000 * 1000 * 1000 * 1000 {
        push_dec(&mut r, s / (1000 * 1000 * 1000));
        push_str(&mut r, " GB");
    } else {
        push_str(&mut r, "Really big");
    }
    r
}

/// The decimal rendering of an optional number, empty when absent.
pub open spec fn opt_dec(o: Option<u32>) -> Seq<char> {
    match o {
        Some(n) => dec(n as nat),
        None => Seq::empty(),
    }
}

/// Renders an optional number, empty when absent.
pub fn opt_dec_string(o: Option<u32>) -> (s: String)
    ensures
        s@ == opt_dec(o),
{
    match o {
        Some(n) => dec_string(n as u64),
        None => String::new(),
    }
}

} // verus!
