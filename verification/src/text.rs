//! Numbers written out as text: upper-case hexadecimal and decimal digits.
use vstd::prelude::*;
use vstd::string::*;

verus! {

/// The character of digit `d` (`0`-`9`, then `A`-`F`).
pub open spec fn digit_char(d: int) -> char {
    if d == 0 {
        '0'
    } else if d == 1 {
        '1'
    } else if d == 2 {
        '2'
    } else if d == 3 {
        '3'
    } else if d == 4 {
        '4'
    } else if d == 5 {
        '5'
    } else if d == 6 {
        '6'
    } else if d == 7 {
        '7'
    } else if d == 8 {
        '8'
    } else if d == 9 {
        '9'
    } else if d == 10 {
        'A'
    } else if d == 11 {
        'B'
    } else if d == 12 {
        'C'
    } else if d == 13 {
        'D'
    } else if d == 14 {
        'E'
    } else {
        'F'
    }
}

/// The upper-case hexadecimal digits of `n`, without leading zeros (`0` for zero).
pub open spec fn hex_digits(n: nat) -> Seq<char>
    decreases n,
{
    if n < 16 {
        seq![digit_char(n as int)]
    } else {
        hex_digits(n / 16).push(digit_char((n % 16) as int))
    }
}

/// The decimal digits of `n`, without leading zeros (`0` for zero).
pub open spec fn dec_digits(n: nat) -> Seq<char>
    decreases n,
{
    if n < 10 {
        seq![digit_char(n as int)]
    } else {
        dec_digits(n / 10).push(digit_char((n % 10) as int))
    }
}

/// `k` zero characters.
pub open spec fn zeros(k: nat) -> Seq<char> {
    Seq::new(k, |i: int| '0')
}

/// The hexadecimal digits of `n`, with zeros in front up to `width` characters.
pub open spec fn hex_padded(n: nat, width: nat) -> Seq<char> {
    let h = hex_digits(n);
    if h.len() < width {
        zeros((width - h.len()) as nat) + h
    } else {
        h
    }
}

/// The text of the single digit `d`.
fn digit_str(d: u32) -> (s: &'static str)
    requires
        d < 16,
    ensures
        s@ == seq![digit_char(d as int)],
{
    proof {
        reveal_strlit("0");
        reveal_strlit("1");
        reveal_strlit("2");
        reveal_strlit("3");
        reveal_strlit("4");
        reveal_strlit("5");
        reveal_strlit("6");
        reveal_strlit("7");
        reveal_strlit("8");
        reveal_strlit("9");
        reveal_strlit("A");
        reveal_strlit("B");
        reveal_strlit("C");
        reveal_strlit("D");
        reveal_strlit("E");
        reveal_strlit("F");
    }
    let s = if d == 0 {
        "0"
    } else if d == 1 {
        "1"
    } else if d == 2 {
        "2"
    } else if d == 3 {
        "3"
    } else if d == 4 {
        "4"
    } else if d == 5 {
        "5"
    } else if d == 6 {
        "6"
    } else if d == 7 {
        "7"
    } else if d == 8 {
        "8"
    } else if d == 9 {
        "9"
    } else if d == 10 {
        "A"
    } else if d == 11 {
        "B"
    } else if d == 12 {
        "C"
    } else if d == 13 {
        "D"
    } else if d == 14 {
        "E"
    } else {
        "F"
    };
    assert(s@ =~= seq![digit_char(d as int)]);
    s
}

/// The number of hexadecimal digits of `n`.
fn hex_len(n: u32) -> (k: usize)
    ensures
        k == hex_digits(n as nat).len(),
        1 <= k <= 8,
    decreases n,
{
    if n < 16 {
        1
    } else {
        let k = hex_len(n / 16);
        assert(n / 16 < 0x1000_0000);
        assert(hex_digits((n / 16) as nat).len() < 8) by {
            lemma_hex_len_bound((n / 16) as nat);
        }
        k + 1
    }
}

/// A number below 16^7 has at most seven hexadecimal digits.
proof fn lemma_hex_len_bound(n: nat)
    requires
        n < 0x1000_0000,
    ensures
        hex_digits(n).len() <= 7,
        n < 0x100_0000 ==> hex_digits(n).len() <= 6,
        n < 0x10_0000 ==> hex_digits(n).len() <= 5,
        n < 0x1_0000 ==> hex_digits(n).len() <= 4,
        n < 0x1000 ==> hex_digits(n).len() <= 3,
        n < 0x100 ==> hex_digits(n).len() <= 2,
        n < 0x10 ==> hex_digits(n).len() <= 1,
    decreases n,
{
    if n >= 16 {
        lemma_hex_len_bound(n / 16);
    }
}

/// Appends the hexadecimal digits of `n`.
pub fn push_hex(s: &mut String, n: u32)
    ensures
        final(s)@ == old(s)@ + hex_digits(n as nat),
    decreases n,
{
    if n >= 16 {
        push_hex(s, n / 16);
    }
    s.append(digit_str(n % 16));
    assert(s@ =~= old(s)@ + hex_digits(n as nat));
}

/// Appends the hexadecimal digits of `n`, with zeros in front up to `width` characters.
pub fn push_hex_padded(s: &mut String, n: u32, width: usize)
    ensures
        final(s)@ == old(s)@ + hex_padded(n as nat, width as nat),
{
    let k = hex_len(n);
    if k < width {
        let mut i: usize = k;
        while i < width
            invariant
                k <= i <= width,
                s@ == old(s)@ + zeros((i - k) as nat),
            decreases width - i,
        {
            s.append("0");
            proof {
                reveal_strlit("0");
            }
            i = i + 1;
            assert(s@ =~= old(s)@ + zeros((i - k) as nat));
        }
    }
    push_hex(s, n);
    assert(s@ =~= old(s)@ + hex_padded(n as nat, width as nat));
}

/// Appends the decimal digits of `n`.
pub fn push_dec(s: &mut String, n: usize)
    ensures
        final(s)@ == old(s)@ + dec_digits(n as nat),
    decreases n,
{
    if n >= 10 {
        push_dec(s, n / 10);
    }
    s.append(digit_str((n % 10) as u32));
    assert(s@ =~= old(s)@ + dec_digits(n as nat));
}


/// The value of a digit character by its character code: `0`-`9` are 0-9
/// and `A`-`F` are 10-15.
pub open spec fn char_value(c: char) -> int {
    if c <= '9' {
        c as int - '0' as int
    } else {
        c as int - 'A' as int + 10
    }
}

/// The value of the numeral `s` in base `base`, most significant digit first.
pub open spec fn numeral_value(s: Seq<char>, base: int) -> int
    decreases s.len(),
{
    if s.len() == 0 {
        0
    } else {
        numeral_value(s.drop_last(), base) * base + char_value(s.last())
    }
}

/// The digit written for `d` is the `d`-th character of `0123456789ABCDEF`,
/// and its character code gives `d` back.
pub proof fn lemma_digit_char(d: int)
    requires
        0 <= d < 16,
    ensures
        digit_char(d) == "0123456789ABCDEF"@[d],
        char_value(digit_char(d)) == d,
{
    reveal_strlit("0123456789ABCDEF");
}

/// The hexadecimal text of `n` is a base-16 numeral whose value is `n`.
pub proof fn lemma_hex_digits_value(n: nat)
    ensures
        numeral_value(hex_digits(n), 16) == n,
        hex_digits(n).len() >= 1,
    decreases n,
{
    lemma_digit_char((n % 16) as int);
    let h = hex_digits(n);
    if n >= 16 {
        lemma_hex_digits_value(n / 16);
        assert(h.drop_last() =~= hex_digits(n / 16));
        assert(h.last() == digit_char((n % 16) as int));
        assert(numeral_value(h, 16) == numeral_value(h.drop_last(), 16) * 16 + char_value(
            h.last(),
        ));
    } else {
        assert(h.drop_last() =~= Seq::<char>::empty());
        assert(numeral_value(h.drop_last(), 16) == 0);
        assert(numeral_value(h, 16) == numeral_value(h.drop_last(), 16) * 16 + char_value(
            h.last(),
        ));
    }
}

/// The decimal text of `n` is a base-10 numeral whose value is `n`.
pub proof fn lemma_dec_digits_value(n: nat)
    ensures
        numeral_value(dec_digits(n), 10) == n,
        dec_digits(n).len() >= 1,
    decreases n,
{
    lemma_digit_char((n % 10) as int);
    let h = dec_digits(n);
    if n >= 10 {
        lemma_dec_digits_value(n / 10);
        assert(h.drop_last() =~= dec_digits(n / 10));
        assert(h.last() == digit_char((n % 10) as int));
        assert(numeral_value(h, 10) == numeral_value(h.drop_last(), 10) * 10 + char_value(
            h.last(),
        ));
    } else {
        assert(h.drop_last() =~= Seq::<char>::empty());
        assert(numeral_value(h.drop_last(), 10) == 0);
        assert(numeral_value(h, 10) == numeral_value(h.drop_last(), 10) * 10 + char_value(
            h.last(),
        ));
    }
}

/// Zeros in front of a numeral do not change its value.
pub proof fn lemma_leading_zeros_value(k: nat, h: Seq<char>, base: int)
    ensures
        numeral_value(zeros(k) + h, base) == numeral_value(h, base),
    decreases h.len() + k,
{
    if h.len() == 0 {
        assert(zeros(k) + h =~= zeros(k));
        if k > 0 {
            assert(zeros(k).drop_last() =~= zeros((k - 1) as nat) + h);
            lemma_leading_zeros_value((k - 1) as nat, h, base);
        }
    } else {
        assert((zeros(k) + h).drop_last() =~= zeros(k) + h.drop_last());
        lemma_leading_zeros_value(k, h.drop_last(), base);
    }
}

/// The zero-padded hexadecimal text of `n` is at least `width` characters
/// long and is a base-16 numeral whose value is `n`.
pub proof fn lemma_hex_padded_value(n: nat, width: nat)
    ensures
        numeral_value(hex_padded(n, width), 16) == n,
        hex_padded(n, width).len() >= width,
{
    lemma_hex_digits_value(n);
    let h = hex_digits(n);
    if h.len() < width {
        lemma_leading_zeros_value((width - h.len()) as nat, h, 16);
    }
}

} // verus!
