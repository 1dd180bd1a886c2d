use vstd::prelude::*;

verus! {

/// The character of digit `d` (0..15), upper case past 9.
pub open spec fn digit_char(d: int) -> char {
    if d < 10 {
        (48 + d) as char
    } else {
        (55 + d) as char
    }
}

/// `n` in decimal, without leading zeros.
pub open spec fn dec_digits(n: nat) -> Seq<char>
    decreases n,
{
    if n < 10 {
        seq![digit_char(n as int)]
    } else {
        dec_digits(n / 10) + seq![digit_char((n % 10) as int)]
    }
}

/// `n` in decimal, with a minus sign when negative.
pub open spec fn dec_text(n: int) -> Seq<char> {
    if n < 0 {
        seq!['-'] + dec_digits((-n) as nat)
    } else {
        dec_digits(n as nat)
    }
}

/// `n` in upper-case hexadecimal, without leading zeros.
pub open spec fn hex_digits(n: nat) -> Seq<char>
    decreases n,
{
    if n < 16 {
        seq![digit_char(n as int)]
    } else {
        hex_digits(n / 16) + seq![digit_char((n % 16) as int)]
    }
}

/// `n` in upper-case hexadecimal, zero-padded to at least `width` digits.
pub open spec fn hex_padded(n: nat, width: nat) -> Seq<char> {
    let digits = hex_digits(n);
    if digits.len() < width {
        Seq::new((width - digits.len()) as nat, |i: int| '0') + digits
    } else {
        digits
    }
}

/// A one-character string for digit `d`.
pub fn digit_str(d: u8) -> (r: &'static str)
    requires
        d < 16,
    ensures
        r@ == seq![digit_char(d as int)],
{
    proof {
        reveal_strlit("0");
        reveal_strlit("1");
        reveal_strlit("2");
        reveal_strlit("3");
        reveal_strlit("4");
        reveal_strlit("5");
        reveal_strlit("6");
        reveal_strlit("7");
        reveal_strlit("8");
        reveal_strlit("9");
        reveal_strlit("A");
        reveal_strlit("B");
        reveal_strlit("C");
        reveal_strlit("D");
        reveal_strlit("E");
        reveal_strlit("F");
    }
    let r = match d {
        0 => "0",
        1 => "1",
        2 => "2",
        3 => "3",
        4 => "4",
        5 => "5",
        6 => "6",
        7 => "7",
        8 => "8",
        9 => "9",
        10 => "A",
        11 => "B",
        12 => "C",
        13 => "D",
        14 => "E",
        _ => "F",
    };
    assert(r@ =~= seq![digit_char(d as int)]);
    r
}

/// Appends `n` in decimal.
pub fn push_dec_digits(s: &mut String, n: u32)
    ensures
        final(s)@ == old(s)@ + dec_digits(n as nat),
    decreases n,
{
    if n >= 10 {
        push_dec_digits(s, n / 10);
    }
    let ghost mid = s@;
    s.append(digit_str((n % 10) as u8));
    assert(s@ =~= old(s)@ + dec_digits(n as nat));
}

/// Appends `n` in decimal, with a minus sign when negative.
pub fn push_dec(s: &mut String, n: i32)
    ensures
        final(s)@ == old(s)@ + dec_text(n as int),
{
    if n < 0 {
        proof {
            reveal_strlit("-");
        }
        s.append("-");
        let m: u32 = (0 - (n as i64)) as u32;
        push_dec_digits(s, m);
        assert(s@ =~= old(s)@ + dec_text(n as int));
    } else {
        push_dec_digits(s, n as u32);
    }
}

/// Appends `n` in hexadecimal, without leading zeros.
pub fn push_hex_digits(s: &mut String, n: u32)
    ensures
        final(s)@ == old(s)@ + hex_digits(n as nat),
    decreases n,
{
    if n >= 16 {
        push_hex_digits(s, n / 16);
    }
    s.append(digit_str((n % 16) as u8));
    assert(s@ =~= old(s)@ + hex_digits(n as nat));
}

/// The number of hexadecimal digits of `n`.
fn hex_len(n: u32) -> (r: usize)
    ensures
        r == hex_digits(n as nat).len(),
        r <= 8,
    decreases n,
{
    proof {
        lemma_hex_len(n as nat);
    }
    if n >= 16 {
        hex_len(n / 16) + 1
    } else {
        1
    }
}

proof fn lemma_hex_len(n: nat)
    ensures
        n < 0x1_0000_0000 ==> hex_digits(n).len() <= 8,
        hex_digits(n).len() >= 1,
    decreases n,
{
    if n >= 16 {
        lemma_hex_len(n / 16);
    }
    if n < 0x1_0000_0000 {
        assert(pow16(8) == 0x1_0000_0000) by {
            reveal_with_fuel(pow16, 9);
        }
        lemma_hex_len_bound(n, 7);
    }
}

/// A number below 16^(k+1) has at most k+1 hexadecimal digits.
proof fn lemma_hex_len_bound(n: nat, k: nat)
    requires
        n < pow16(k + 1),
    ensures
        hex_digits(n).len() <= k + 1,
    decreases k,
{
    if n >= 16 {
        if k == 0 {
            assert(pow16(1) == 16 * pow16(0));
        } else {
            assert(pow16(k + 1) == 16 * pow16(k));
            lemma_hex_len_bound(n / 16, (k - 1) as nat);
        }
    }
}

pub open spec fn pow16(k: nat) -> nat
    decreases k,
{
    if k == 0 {
        1
    } else {
        16 * pow16((k - 1) as nat)
    }
}

/// Appends `n` in hexadecimal, zero-padded to at least `width` digits.
pub fn push_hex(s: &mut String, n: u32, width: usize)
    ensures
        final(s)@ == old(s)@ + hex_padded(n as nat, width as nat),
{
    let len = hex_len(n);
    let mut k: usize = len;
    proof {
        reveal_strlit("0");
    }
    while k < width
        invariant
            len <= k,
            k <= width || k == len,
            len == hex_digits(n as nat).len(),
            s@ == old(s)@ + Seq::new((k - len) as nat, |i: int| '0'),
        decreases width - k,
    {
        proof {
            reveal_strlit("0");
        }
        s.append("0");
        k += 1;
        assert(s@ =~= old(s)@ + Seq::new((k - len) as nat, |i: int| '0'));
    }
    push_hex_digits(s, n);
    if len < width {
        assert(k == width);
    } else {
        assert(k == len);
        assert(Seq::new((k - len) as nat, |i: int| '0') =~= Seq::<char>::empty());
    }
    assert(s@ =~= old(s)@ + hex_padded(n as nat, width as nat));
}

/// The lower-case character of digit `d` (0..15).
pub open spec fn lower_digit_char(d: int) -> char {
    if d < 10 {
        (48 + d) as char
    } else {
        (87 + d) as char
    }
}

/// `n` in lower-case hexadecimal, without leading zeros.
pub open spec fn lower_hex_digits(n: nat) -> Seq<char>
    decreases n,
{
    if n < 16 {
        seq![lower_digit_char(n as int)]
    } else {
        lower_hex_digits(n / 16) + seq![lower_digit_char((n % 16) as int)]
    }
}

/// `n` in lower-case hexadecimal, zero-padded to at least `width` digits.
pub open spec fn lower_hex_padded(n: nat, width: nat) -> Seq<char> {
    let digits = lower_hex_digits(n);
    if digits.len() < width {
        Seq::new((width - digits.len()) as nat, |i: int| '0') + digits
    } else {
        digits
    }
}

fn lower_digit_str(d: u8) -> (r: &'static str)
    requires
        d < 16,
    ensures
        r@ == seq![lower_digit_char(d as int)],
{
    if d < 10 {
        digit_str(d)
    } else {
        proof {
            reveal_strlit("a");
            reveal_strlit("b");
            reveal_strlit("c");
            reveal_strlit("d");
            reveal_strlit("e");
            reveal_strlit("f");
        }
        let r = match d {
            10 => "a",
            11 => "b",
            12 => "c",
            13 => "d",
            14 => "e",
            _ => "f",
        };
        assert(r@ =~= seq![lower_digit_char(d as int)]);
        r
    }
}

fn push_lower_hex_digits(s: &mut String, n: u32)
    ensures
        final(s)@ == old(s)@ + lower_hex_digits(n as nat),
    decreases n,
{
    if n >= 16 {
        push_lower_hex_digits(s, n / 16);
    }
    s.append(lower_digit_str((n % 16) as u8));
    assert(s@ =~= old(s)@ + lower_hex_digits(n as nat));
}

proof fn lemma_lower_hex_len(n: nat)
    ensures
        lower_hex_digits(n).len() == hex_digits(n).len(),
    decreases n,
{
    if n >= 16 {
        lemma_lower_hex_len(n / 16);
    }
}

/// Appends `n` in lower-case hexadecimal, zero-padded to at least `width`
/// digits.
pub fn push_lower_hex(s: &mut String, n: u32, width: usize)
    ensures
        final(s)@ == old(s)@ + lower_hex_padded(n as nat, width as nat),
{
    let len = hex_len(n);
    proof {
        lemma_lower_hex_len(n as nat);
    }
    let mut k: usize = len;
    while k < width
        invariant
            len <= k,
            k <= width || k == len,
            len == lower_hex_digits(n as nat).len(),
            s@ == old(s)@ + Seq::new((k - len) as nat, |i: int| '0'),
        decreases width - k,
    {
        proof {
            reveal_strlit("0");
        }
        s.append("0");
        k += 1;
        assert(s@ =~= old(s)@ + Seq::new((k - len) as nat, |i: int| '0'));
    }
    push_lower_hex_digits(s, n);
    if len >= width {
        assert(Seq::new((k - len) as nat, |i: int| '0') =~= Seq::<char>::empty());
    }
    assert(s@ =~= old(s)@ + lower_hex_padded(n as nat, width as nat));
}

} // verus!
