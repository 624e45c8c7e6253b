//! Rendering of numbers as text for the human-readable descriptions.
use vstd::prelude::*;
use vstd::string::StringExecFns;

verus! {

/// The lowercase hexadecimal digit for `d` (`d < 16`).
pub open spec fn digit_char(d: nat) -> char {
    if d == 0 { '0' }
    else if d == 1 { '1' }
    else if d == 2 { '2' }
    else if d == 3 { '3' }
    else if d == 4 { '4' }
    else if d == 5 { '5' }
    else if d == 6 { '6' }
    else if d == 7 { '7' }
    else if d == 8 { '8' }
    else if d == 9 { '9' }
    else if d == 10 { 'a' }
    else if d == 11 { 'b' }
    else if d == 12 { 'c' }
    else if d == 13 { 'd' }
    else if d == 14 { 'e' }
    else { 'f' }
}

/// The decimal notation of `n`, without leading zeros.
pub open spec fn decimal(n: nat) -> Seq<char>
    decreases n,
{
    if n < 10 {
        seq![digit_char(n)]
    } else {
        decimal(n / 10).push(digit_char(n % 10))
    }
}

/// The four-digit, zero-padded, lowercase hexadecimal notation of `n`.
pub open spec fn hex4(n: u16) -> Seq<char> {
    seq![
        digit_char((n / 4096) as nat),
        digit_char(((n / 256) % 16) as nat),
        digit_char(((n / 16) % 16) as nat),
        digit_char((n % 16) as nat),
    ]
}

/// The number a digit character stands for: `0`-`9` and `a`-`f` by their
/// character codes, -1 for any other character.
pub open spec fn digit_value(c: char) -> int {
    if '0' <= c && c <= '9' {
        (c as int) - ('0' as int)
    } else if 'a' <= c && c <= 'f' {
        (c as int) - ('a' as int) + 10
    } else {
        -1
    }
}

/// The number that the digits `s` stand for in base `base`, most significant first.
pub open spec fn digits_value(s: Seq<char>, base: int) -> int
    decreases s.len(),
{
    if s.len() == 0 {
        0
    } else {
        digits_value(s.drop_last(), base) * base + digit_value(s.last())
    }
}

/// Each digit character stands for its own number.
pub proof fn lemma_digit_char_value(d: nat)
    requires
        d < 16,
    ensures
        digit_value(digit_char(d)) == d,
{
}

/// The decimal notation of `n` is a non-empty run of decimal digits, without
/// a leading zero unless `n` is 0, that stands for `n`.
pub proof fn lemma_decimal_value(n: nat)
    ensures
        decimal(n).len() >= 1,
        forall|i: int| 0 <= i < decimal(n).len() ==> 0 <= #[trigger] digit_value(decimal(n)[i]) < 10,
        digits_value(decimal(n), 10) == n,
        n > 0 ==> decimal(n)[0] != '0',
    decreases n,
{
    if n >= 10 {
        lemma_decimal_value(n / 10);
        let s = decimal(n);
        assert(s.drop_last() =~= decimal(n / 10));
        assert forall|i: int| 0 <= i < s.len() implies 0 <= #[trigger] digit_value(s[i]) < 10 by {
            if i < s.len() - 1 {
                assert(s[i] == decimal(n / 10)[i]);
            }
        }
        assert(s[0] == decimal(n / 10)[0]);
        lemma_digit_char_value(n % 10);
        assert(digits_value(s, 10) == digits_value(decimal(n / 10), 10) * 10 + digit_value(
            digit_char(n % 10),
        ));
        assert((n / 10) * 10 + n % 10 == n) by (nonlinear_arith);
    } else {
        let s = decimal(n);
        assert(s.drop_last() =~= Seq::<char>::empty());
        lemma_digit_char_value(n);
        assert(digits_value(s, 10) == digits_value(Seq::<char>::empty(), 10) * 10 + digit_value(
            digit_char(n),
        ));
    }
}

/// The four-digit hexadecimal notation of `n` is four hexadecimal digits that
/// stand for `n`.
pub proof fn lemma_hex4_value(n: u16)
    ensures
        hex4(n).len() == 4,
        forall|i: int| 0 <= i < 4 ==> 0 <= #[trigger] digit_value(hex4(n)[i]) < 16,
        digits_value(hex4(n), 16) == n,
{
    let s = hex4(n);
    assert(s.drop_last().drop_last().drop_last().drop_last() =~= Seq::<char>::empty());
    assert(s.drop_last().drop_last().drop_last() =~= seq![s[0]]);
    assert(s.drop_last().drop_last() =~= seq![s[0], s[1]]);
    assert(s.drop_last() =~= seq![s[0], s[1], s[2]]);
    assert(seq![s[0]].drop_last() =~= Seq::<char>::empty());
    assert(seq![s[0], s[1]].drop_last() =~= seq![s[0]]);
    assert(seq![s[0], s[1], s[2]].drop_last() =~= seq![s[0], s[1]]);
    assert(((n / 4096) * 16 + (n / 256) % 16) * 16 + (n / 16) % 16 == n / 16) by (nonlinear_arith)
        requires
            n < 0x1_0000,
    ;
    assert((n / 16) * 16 + n % 16 == n) by (nonlinear_arith);
    lemma_digit_char_value((n / 4096) as nat);
    lemma_digit_char_value(((n / 256) % 16) as nat);
    lemma_digit_char_value(((n / 16) % 16) as nat);
    lemma_digit_char_value((n % 16) as nat);
    let e = Seq::<char>::empty();
    assert(digits_value(seq![s[0]], 16) == digits_value(e, 16) * 16 + digit_value(s[0]));
    assert(digits_value(seq![s[0], s[1]], 16) == digits_value(seq![s[0]], 16) * 16 + digit_value(
        s[1],
    ));
    assert(digits_value(seq![s[0], s[1], s[2]], 16) == digits_value(seq![s[0], s[1]], 16) * 16
        + digit_value(s[2]));
    assert(digits_value(s, 16) == digits_value(seq![s[0], s[1], s[2]], 16) * 16 + digit_value(
        s[3],
    ));
}

/// A one-character string holding the digit `d`.
fn digit_str(d: u8) -> (r: &'static str)
    requires
        d < 16,
    ensures
        r@ == seq![digit_char(d as nat)],
{
    if d == 0 {
        proof { reveal_strlit("0"); }
        "0"
    } else if d == 1 {
        proof { reveal_strlit("1"); }
        "1"
    } else if d == 2 {
        proof { reveal_strlit("2"); }
        "2"
    } else if d == 3 {
        proof { reveal_strlit("3"); }
        "3"
    } else if d == 4 {
        proof { reveal_strlit("4"); }
        "4"
    } else if d == 5 {
        proof { reveal_strlit("5"); }
        "5"
    } else if d == 6 {
        proof { reveal_strlit("6"); }
        "6"
    } else if d == 7 {
        proof { reveal_strlit("7"); }
        "7"
    } else if d == 8 {
        proof { reveal_strlit("8"); }
        "8"
    } else if d == 9 {
        proof { reveal_strlit("9"); }
        "9"
    } else if d == 10 {
        proof { reveal_strlit("a"); }
        "a"
    } else if d == 11 {
        proof { reveal_strlit("b"); }
        "b"
    } else if d == 12 {
        proof { reveal_strlit("c"); }
        "c"
    } else if d == 13 {
        proof { reveal_strlit("d"); }
        "d"
    } else if d == 14 {
        proof { reveal_strlit("e"); }
        "e"
    } else {
        proof { reveal_strlit("f"); }
        "f"
    }
}

/// Appends the decimal notation of `n` to `s`.
pub fn push_decimal(s: &mut String, n: u64)
    ensures
        final(s)@ == old(s)@ + decimal(n as nat),
    decreases n,
{
    if n >= 10 {
        push_decimal(s, n / 10);
    }
    s.append(digit_str((n % 10) as u8));
    assert(final(s)@ =~= old(s)@ + decimal(n as nat));
}

/// Appends the four-digit lowercase hexadecimal notation of `n` to `s`.
pub fn push_hex4(s: &mut String, n: u16)
    ensures
        final(s)@ == old(s)@ + hex4(n),
{
    s.append(digit_str((n / 4096) as u8));
    s.append(digit_str(((n / 256) % 16) as u8));
    s.append(digit_str(((n / 16) % 16) as u8));
    s.append(digit_str((n % 16) as u8));
    assert(final(s)@ =~= old(s)@ + hex4(n));
}

} // verus!
