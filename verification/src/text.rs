//! Text helpers: string comparison, decimal rendering and the short labels
//! the overlay draws.

use vstd::prelude::*;

verus! {

/// True when two string slices hold the same characters.
pub fn str_eq(a: &str, b: &str) -> (r: bool)
    ensures
        r == (a@ == b@),
{
    let x = a.to_owned();
    let y = b.to_owned();
    x == y
}

/// The character for a decimal digit.
pub open spec fn digit_char(d: nat) -> char {
    if d == 0 { '0' } else if d == 1 { '1' } else if d == 2 { '2' } else if d == 3 { '3' }
    else if d == 4 { '4' } else if d == 5 { '5' } else if d == 6 { '6' } else if d == 7 { '7' }
    else if d == 8 { '8' } else { '9' }
}

/// Decimal representation of a natural number, without leading zeros.
pub open spec fn dec(n: nat) -> Seq<char>
    decreases n,
{
    if n < 10 {
        seq![digit_char(n)]
    } else {
        dec(n / 10).push(digit_char(n % 10))
    }
}

fn digit_str(d: u64) -> (r: &'static str)
    requires
        d < 10,
    ensures
        r@ == seq![digit_char(d as nat)],
{
    if d == 0 { proof { reveal_strlit("0"); } "0" }
    else if d == 1 { proof { reveal_strlit("1"); } "1" }
    else if d == 2 { proof { reveal_strlit("2"); } "2" }
    else if d == 3 { proof { reveal_strlit("3"); } "3" }
    else if d == 4 { proof { reveal_strlit("4"); } "4" }
    else if d == 5 { proof { reveal_strlit("5"); } "5" }
    else if d == 6 { proof { reveal_strlit("6"); } "6" }
    else if d == 7 { proof { reveal_strlit("7"); } "7" }
    else if d == 8 { proof { reveal_strlit("8"); } "8" }
    else { proof { reveal_strlit("9"); } "9" }
}

/// Appends the decimal representation of `n` to `out`.
pub fn push_dec(out: &mut String, n: u64)
    ensures
        final(out)@ == old(out)@ + dec(n as nat),
    decreases n,
{
    if n < 10 {
        out.append(digit_str(n));
    } else {
        push_dec(out, n / 10);
        out.append(digit_str(n % 10));
        proof {
            assert(dec(n as nat) == dec((n / 10) as nat).push(digit_char((n % 10) as nat)));
        }
    }
}

/// The decimal representation of `n` as a fresh string.
pub fn to_dec(n: u64) -> (r: String)
    ensures
        r@ == dec(n as nat),
{
    let mut s = String::new();
    push_dec(&mut s, n);
    proof { assert(s@ =~= dec(n as nat)); }
    s
}

/// `prefix` followed by the decimal representation of `n`.
pub fn tagged(prefix: &str, n: u64) -> (r: String)
    ensures
        r@ == prefix@ + dec(n as nat),
{
    let mut s = prefix.to_owned();
    push_dec(&mut s, n);
    s
}

/// A number of at least two digits: single digits get a leading zero.
pub open spec fn dec2(n: nat) -> Seq<char> {
    if n < 10 { seq!['0'] + dec(n) } else { dec(n) }
}

/// Appends `n` with at least two digits.
fn push_dec2(out: &mut String, n: u64)
    ensures
        final(out)@ == old(out)@ + dec2(n as nat),
{
    if n < 10 {
        out.append("0");
        proof { reveal_strlit("0"); }
    }
    push_dec(out, n);
    proof {
        if n < 10 {
            assert(final(out)@ =~= old(out)@ + dec2(n as nat));
        }
    }
}

/// A duration in whole seconds as `h:mm:ss`, or `m:ss` under an hour.
pub open spec fn clock_text(secs: nat) -> Seq<char> {
    let h = secs / 3600;
    let m = (secs % 3600) / 60;
    let s = secs % 60;
    if h > 0 {
        dec(h) + seq![':'] + dec2(m) + seq![':'] + dec2(s)
    } else {
        dec(m) + seq![':'] + dec2(s)
    }
}

/// Appends `secs` as `h:mm:ss`, or `m:ss` under an hour.
pub fn push_clock(out: &mut String, secs: u64)
    ensures
        final(out)@ == old(out)@ + clock_text(secs as nat),
{
    let h = secs / 3600;
    let m = (secs % 3600) / 60;
    let s = secs % 60;
    proof { reveal_strlit(":"); }
    let ghost start = out@;
    if h > 0 {
        push_dec(out, h);
        out.append(":");
        push_dec2(out, m);
        out.append(":");
        push_dec2(out, s);
        assert(out@ =~= start + clock_text(secs as nat));
    } else {
        push_dec(out, m);
        out.append(":");
        push_dec2(out, s);
        assert(out@ =~= start + clock_text(secs as nat));
    }
}

/// The talk-time label: `h:mm:ss`, or `m:ss` under an hour.
pub fn talk_time_label(secs: u64) -> (r: String)
    ensures
        r@ == clock_text(secs as nat),
{
    let mut s = String::new();
    push_clock(&mut s, secs);
    assert(s@ =~= clock_text(secs as nat));
    s
}

/// The session-timer label: a bullet, a space, then the clock text.
pub fn timer_label(secs: u64) -> (r: String)
    ensures
        r@ == seq!['\u{2022}', ' '] + clock_text(secs as nat),
{
    let mut s = "\u{2022} ".to_owned();
    proof { reveal_strlit("\u{2022} "); }
    push_clock(&mut s, secs);
    s
}

/// The latency label, such as `~42ms`.
pub fn ping_label(latency_ms: u32) -> (r: String)
    ensures
        r@ == seq!['~'] + dec(latency_ms as nat) + "ms"@,
{
    let mut s = "~".to_owned();
    push_dec(&mut s, latency_ms as u64);
    s.append("ms");
    proof { reveal_strlit("~"); reveal_strlit("ms"); }
    s
}

/// The participant-count label, such as `3 in channel`.
pub fn count_label(count: usize) -> (r: String)
    ensures
        r@ == dec(count as nat) + " in channel"@,
{
    let mut s = String::new();
    push_dec(&mut s, count as u64);
    s.append(" in channel");
    assert(s@ =~= dec(count as nat) + " in channel"@);
    s
}

/// The compact-mode overflow badge, such as `+2`.
pub fn overflow_label(overflow: usize) -> (r: String)
    ensures
        r@ == seq!['+'] + dec(overflow as nat),
{
    let mut s = "+".to_owned();
    proof { reveal_strlit("+"); }
    push_dec(&mut s, overflow as u64);
    s
}

/// The scroll indicator: how many rows are hidden above and below, or
/// nothing when none are.
pub open spec fn scroll_text(above: nat, below: nat) -> Seq<char> {
    if above > 0 && below > 0 {
        seq!['\u{2191}'] + dec(above) + seq![' ', ' ', '\u{2193}'] + dec(below)
    } else if above > 0 {
        seq!['\u{2191}'] + dec(above) + " more above"@
    } else if below > 0 {
        seq!['\u{2193}'] + dec(below) + " more below"@
    } else {
        Seq::empty()
    }
}

pub fn scroll_label(above: usize, below: usize) -> (r: String)
    ensures
        r@ == scroll_text(above as nat, below as nat),
{
    let mut s = String::new();
    proof {
        reveal_strlit("\u{2191}");
        reveal_strlit("\u{2193}");
        reveal_strlit("  \u{2193}");
    }
    if above > 0 && below > 0 {
        s.append("\u{2191}");
        push_dec(&mut s, above as u64);
        s.append("  \u{2193}");
        push_dec(&mut s, below as u64);
    } else if above > 0 {
        s.append("\u{2191}");
        push_dec(&mut s, above as u64);
        s.append(" more above");
    } else if below > 0 {
        s.append("\u{2193}");
        push_dec(&mut s, below as u64);
        s.append(" more below");
    }
    assert(s@ =~= scroll_text(above as nat, below as nat));
    s
}

/// The uppercase form of a character, as Unicode defines it.
pub uninterp spec fn uppercase(c: char) -> Seq<char>;

/// Calls `char::to_uppercase` and collects the characters it yields into a
/// string. Claimed: the result is `uppercase(c)`, and for 'a'..='z' it is the
/// matching letter of 'A'..='Z' (as the documentation of `to_uppercase` shows).
#[verifier::external_body]
fn char_uppercase(c: char) -> (r: String)
    ensures
        r@ == uppercase(c),
        'a' <= c <= 'z' ==> r@ == seq![((c as u32) - 32) as char],
{
    c.to_uppercase().to_string()
}

/// The initial shown on an avatar placeholder: the name's first character in
/// uppercase, or "?" for an empty name.
pub open spec fn initial_text(name: Seq<char>) -> Seq<char> {
    if name.len() == 0 { seq!['?'] } else { uppercase(name[0]) }
}

pub fn initial_for_name(name: &str) -> (r: String)
    ensures
        r@ == initial_text(name@),
{
    if name.unicode_len() == 0 {
        proof { reveal_strlit("?"); }
        "?".to_owned()
    } else {
        char_uppercase(name.get_char(0))
    }
}

/// The sum of a sequence of bytes.
pub open spec fn byte_sum(b: Seq<u8>) -> nat
    decreases b.len(),
{
    if b.len() == 0 { 0 } else { byte_sum(b.drop_last()) + b.last() as nat }
}

/// Which of the four placeholder colours an id gets: the sum of its UTF-8
/// bytes modulo 4.
pub fn placeholder_color_index(user_id: &str) -> (r: usize)
    ensures
        r == byte_sum(vstd::utf8::encode_utf8(user_id@)) % 4,
{
    let bytes = user_id.as_bytes();
    let mut hue: u32 = 0;
    let mut i: usize = 0;
    while i < bytes.len()
        invariant
            i <= bytes@.len(),
            bytes@ == vstd::utf8::encode_utf8(user_id@),
            hue as nat == byte_sum(bytes@.take(i as int)) % 0x1_0000_0000,
        decreases bytes.len() - i,
    {
        assert(bytes@.take(i + 1).drop_last() =~= bytes@.take(i as int));
        hue = hue.wrapping_add(bytes[i] as u32);
        i += 1;
    }
    assert(bytes@.take(i as int) =~= bytes@);
    proof {
        vstd::arithmetic::div_mod::lemma_mod_mod(byte_sum(bytes@) as int, 4, 0x4000_0000);
    }
    (hue % 4) as usize
}

} // verus!
