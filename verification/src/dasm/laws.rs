use vstd::prelude::*;

use crate::text::{digit_char, dec_digits, dec_text, hex_digits, hex_padded};
use crate::dasm::syntax::{
    all_digits, all_hex, digits_value, hex_value, hex_ok, signed_ok, signed_value, is_digit,
    is_hex, hex_digit_value, operand_syntax, index_reg, is_word, is_space, word_end,
    space_end, top_comma, parsed, suffix_size,
};
use crate::dasm::{
    instance_text, size_text, can_disassemble, decodes_to, first_match, optable, ea_operand,
    word_at, ea_mode, ea_reg, imm_words, OpcodeInstance, OperandDecoder,
    lemma_ea_fields, lemma_first_match_bounds,
};
use crate::dasm::operand::{Operand, operand_text, xreg_text};
use crate::dasm::Size;

verus! {

/// Decimal text reads back as the number it was written from.
pub proof fn lemma_dec_digits_read(n: nat)
    ensures
        all_digits(dec_digits(n)),
        digits_value(dec_digits(n)) == n,
    decreases n,
{
    let t = dec_digits(n);
    if n < 10 {
        assert(t.drop_last() =~= Seq::<char>::empty());
        assert(digits_value(t.drop_last()) == 0);
        assert(t.last() == digit_char(n as int));
        assert(digits_value(t) == digits_value(t.drop_last()) * 10 + (t.last() as int - 48));
    } else {
        lemma_dec_digits_read(n / 10);
        assert(t.drop_last() =~= dec_digits(n / 10));
        assert(t.last() == digit_char((n % 10) as int));
        assert(digits_value(t) == digits_value(t.drop_last()) * 10 + (t.last() as int - 48));
        assert forall|i: int| 0 <= i < t.len() implies is_digit(#[trigger] t[i]) by {
            if i < t.len() - 1 {
                assert(t[i] == dec_digits(n / 10)[i]);
            }
        }
    }
}

/// Signed decimal text reads back as the number it was written from.
pub proof fn lemma_dec_text_read(d: int)
    requires
        -0x8000_0000 <= d < 0x8000_0000,
    ensures
        signed_ok(dec_text(d)),
        signed_value(dec_text(d)) == d,
{
    let t = dec_text(d);
    if d < 0 {
        lemma_dec_digits_read((-d) as nat);
        assert(t.drop_first() =~= dec_digits((-d) as nat));
    } else {
        lemma_dec_digits_read(d as nat);
        assert(is_digit(t[0]));
    }
}

/// Hexadecimal text reads back as the number it was written from.
pub proof fn lemma_hex_digits_read(n: nat)
    ensures
        all_hex(hex_digits(n)),
        hex_value(hex_digits(n)) == n,
    decreases n,
{
    let t = hex_digits(n);
    if n < 16 {
        assert(t.drop_last() =~= Seq::<char>::empty());
        assert(hex_value(t.drop_last()) == 0);
        assert(t.last() == digit_char(n as int));
        assert(hex_value(t) == hex_value(t.drop_last()) * 16 + hex_digit_value(t.last()));
    } else {
        lemma_hex_digits_read(n / 16);
        assert(t.drop_last() =~= hex_digits(n / 16));
        assert(t.last() == digit_char((n % 16) as int));
        assert(hex_value(t) == hex_value(t.drop_last()) * 16 + hex_digit_value(t.last()));
        assert forall|i: int| 0 <= i < t.len() implies is_hex(#[trigger] t[i]) by {
            if i < t.len() - 1 {
                assert(t[i] == hex_digits(n / 16)[i]);
            }
        }
    }
}

/// A leading zero does not change a hexadecimal value.
proof fn lemma_hex_leading_zero(t: Seq<char>)
    ensures
        hex_value(seq!['0'] + t) == hex_value(t),
    decreases t.len(),
{
    let z = seq!['0'] + t;
    if t.len() == 0 {
        assert(z.drop_last() =~= Seq::<char>::empty());
        assert(hex_value(z.drop_last()) == 0);
        assert(z.len() == 1 && z.last() == '0');
        assert(hex_value(z) == hex_value(z.drop_last()) * 16 + hex_digit_value(z.last()));
    } else {
        lemma_hex_leading_zero(t.drop_last());
        assert(z.drop_last() =~= seq!['0'] + t.drop_last());
        assert(z.last() == t.last());
    }
}

proof fn lemma_zeros_then(k: nat, t: Seq<char>)
    requires
        all_hex(t),
    ensures
        all_hex(Seq::new(k, |i: int| '0') + t),
        hex_value(Seq::new(k, |i: int| '0') + t) == hex_value(t),
    decreases k,
{
    if k > 0 {
        let rest = Seq::new((k - 1) as nat, |i: int| '0') + t;
        lemma_zeros_then((k - 1) as nat, t);
        lemma_hex_leading_zero(rest);
        assert(Seq::new(k, |i: int| '0') + t =~= seq!['0'] + rest);
        let z = seq!['0'] + rest;
        assert forall|i: int| 0 <= i < z.len() implies is_hex(#[trigger] z[i]) by {
            if i > 0 {
                assert(z[i] == rest[i - 1]);
            }
        }
    }
}

/// Zero-padded hexadecimal text reads back as the number it was written
/// from.
pub proof fn lemma_hex_padded_read(n: nat, width: nat)
    requires
        n < 0x1_0000_0000,
    ensures
        hex_ok(hex_padded(n, width)),
        hex_value(hex_padded(n, width)) == n,
{
    lemma_hex_digits_read(n);
    let digits = hex_digits(n);
    if digits.len() < width {
        lemma_zeros_then((width - digits.len()) as nat, digits);
    }
}

/// An operand whose text reads back as itself: its registers are in
/// range, a word address is below $8000 (the text of one above reads back
/// as a long address), and immediate data has the instruction's `size`.
pub open spec fn op_writable(op: Operand, size: Size) -> bool {
    match op {
        Operand::DataRegisterDirect(r) => r < 8,
        Operand::AddressRegisterDirect(r) => r < 8,
        Operand::AddressRegisterIndirect(r) => r < 8,
        Operand::AddressRegisterIndirectWithPredecrement(r) => r < 8,
        Operand::AddressRegisterIndirectWithPostincrement(r) => r < 8,
        Operand::AddressRegisterIndirectWithDisplacement(r, _) => r < 8,
        Operand::AddressRegisterIndirectWithIndex(r, x, _) => r < 8 && x < 16,
        Operand::PcWithDisplacement(_) => true,
        Operand::PcWithIndex(x, _) => x < 16,
        Operand::AbsoluteWord(w) => w <= 0x7FFF,
        Operand::AbsoluteLong(_) => true,
        Operand::Immediate(s, _) => s == size,
    }
}

/// The first character of a decimal number's text is a digit or a minus
/// sign, and none of its characters is a parenthesis or comma.
proof fn lemma_dec_text_chars(d: int)
    requires
        -0x8000_0000 <= d < 0x8000_0000,
    ensures
        dec_text(d).len() >= 1,
        dec_text(d)[0] == '-' || is_digit(dec_text(d)[0]),
        dec_text(d).len() == 1 ==> is_digit(dec_text(d)[0]),
        forall|i: int| 0 <= i < dec_text(d).len() ==> (#[trigger] dec_text(d)[i] == '-' || is_digit(
            dec_text(d)[i],
        )),
{
    lemma_dec_text_read(d);
    let t = dec_text(d);
    if d < 0 {
        lemma_dec_digits_read((-d) as nat);
        assert forall|i: int| 0 <= i < t.len() implies (#[trigger] t[i] == '-' || is_digit(t[i])) by {
            if i > 0 {
                assert(t[i] == dec_digits((-d) as nat)[i - 1]);
            }
        }
    } else {
        lemma_dec_digits_read(d as nat);
    }
}

proof fn lemma_index_reg(x: u8)
    requires
        x < 16,
    ensures
        index_reg(xreg_text(x)[0], xreg_text(x)[1]) == x,
        xreg_text(x).len() == 2,
        xreg_text(x)[0] == 'D' || xreg_text(x)[0] == 'A',
        '0' <= xreg_text(x)[1] <= '7',
{
    assert(x < 16 ==> (x & 8 > 0) == (x >= 8) && x & 7 == x % 8) by (bit_vector);
}

proof fn lemma_read_registers(op: Operand, size: Size)
    requires
        op_writable(op, size),
        op is DataRegisterDirect || op is AddressRegisterDirect || op is AddressRegisterIndirect
            || op is AddressRegisterIndirectWithPostincrement
            || op is AddressRegisterIndirectWithPredecrement,
    ensures
        operand_syntax(operand_text(op), size) == Some(op),
{
    let x = operand_text(op);
    match op {
        Operand::DataRegisterDirect(r) => {
            assert(x =~= seq!['D', digit_char(r as int)]);
        },
        Operand::AddressRegisterDirect(r) => {
            assert(x =~= seq!['A', digit_char(r as int)]);
        },
        Operand::AddressRegisterIndirect(r) => {
            assert(x =~= seq!['(', 'A', digit_char(r as int), ')']);
        },
        Operand::AddressRegisterIndirectWithPostincrement(r) => {
            assert(x =~= seq!['(', 'A', digit_char(r as int), ')', '+']);
        },
        Operand::AddressRegisterIndirectWithPredecrement(r) => {
            assert(x =~= seq!['-', '(', 'A', digit_char(r as int), ')']);
        },
        _ => {},
    }
}

proof fn lemma_read_displacement(r: u8, d: i16, size: Size)
    requires
        r < 8,
    ensures
        operand_syntax(
            operand_text(Operand::AddressRegisterIndirectWithDisplacement(r, d)),
            size,
        ) == Some(Operand::AddressRegisterIndirectWithDisplacement(r, d)),
{
    let x = operand_text(Operand::AddressRegisterIndirectWithDisplacement(r, d));
    let n = x.len() as int;
    let t = dec_text(d as int);
    lemma_dec_text_read(d as int);
    lemma_dec_text_chars(d as int);
    assert(x =~= t + seq!['(', 'A', digit_char(r as int), ')']);
    assert(x.subrange(0, n - 4) =~= t);
    assert(x[0] == t[0]);
}

proof fn lemma_read_index(r: u8, i: u8, d: i8, size: Size)
    requires
        r < 8,
        i < 16,
    ensures
        operand_syntax(operand_text(Operand::AddressRegisterIndirectWithIndex(r, i, d)), size)
            == Some(Operand::AddressRegisterIndirectWithIndex(r, i, d)),
{
    let x = operand_text(Operand::AddressRegisterIndirectWithIndex(r, i, d));
    let n = x.len() as int;
    let t = dec_text(d as int);
    let xr = xreg_text(i);
    lemma_dec_text_read(d as int);
    lemma_dec_text_chars(d as int);
    lemma_index_reg(i);
    assert(x =~= t + seq!['(', 'A', digit_char(r as int), ',', xr[0], xr[1], ')']);
    assert(x.subrange(0, n - 7) =~= t);
}

proof fn lemma_read_pc_displacement(d: i16, size: Size)
    ensures
        operand_syntax(operand_text(Operand::PcWithDisplacement(d)), size) == Some(
            Operand::PcWithDisplacement(d),
        ),
{
    let x = operand_text(Operand::PcWithDisplacement(d));
    let n = x.len() as int;
    let t = dec_text(d as int);
    lemma_dec_text_read(d as int);
    lemma_dec_text_chars(d as int);
    assert(x =~= t + seq!['(', 'P', 'C', ')']);
    assert(x.subrange(0, n - 4) =~= t);
    assert(x[0] == t[0]);
}

proof fn lemma_read_pc_index(i: u8, d: i8, size: Size)
    requires
        i < 16,
    ensures
        operand_syntax(operand_text(Operand::PcWithIndex(i, d)), size) == Some(
            Operand::PcWithIndex(i, d),
        ),
{
    let x = operand_text(Operand::PcWithIndex(i, d));
    let n = x.len() as int;
    let t = dec_text(d as int);
    let xr = xreg_text(i);
    lemma_dec_text_read(d as int);
    lemma_dec_text_chars(d as int);
    lemma_index_reg(i);
    assert(x =~= t + seq!['(', 'P', 'C', ',', xr[0], xr[1], ')']);
    assert(x.subrange(0, n - 7) =~= t);
    assert(x[0] == t[0]);
}

proof fn lemma_read_absolute(op: Operand, size: Size)
    requires
        op_writable(op, size),
        op is AbsoluteWord || op is AbsoluteLong || op is Immediate,
    ensures
        operand_syntax(operand_text(op), size) == Some(op),
{
    let x = operand_text(op);
    let n = x.len() as int;
    match op {
        Operand::AbsoluteWord(w) => {
            let h = hex_padded(w as nat, 4);
            lemma_hex_padded_read(w as nat, 4);
            assert(x.subrange(1, n) =~= h);
            assert(is_hex(x[n - 1]));
        },
        Operand::AbsoluteLong(l) => {
            let h = hex_padded(l as nat, 8);
            lemma_hex_padded_read(l as nat, 8);
            assert(x.subrange(1, n - 2) =~= h);
            assert(x.subrange(1, n)[n - 3] == '.');
        },
        Operand::Immediate(_, v) => {
            let h = hex_padded(v as nat, 4);
            lemma_hex_padded_read(v as nat, 4);
            assert(x.subrange(2, n) =~= h);
            assert(is_hex(x[n - 1]));
        },
        _ => {},
    }
}

/// The text of a well-formed operand reads back as that operand.
pub proof fn lemma_operand_read(op: Operand, size: Size)
    requires
        op_writable(op, size),
    ensures
        operand_syntax(operand_text(op), size) == Some(op),
{
    match op {
        Operand::AddressRegisterIndirectWithDisplacement(r, d) => lemma_read_displacement(r, d, size),
        Operand::AddressRegisterIndirectWithIndex(r, i, d) => lemma_read_index(r, i, d, size),
        Operand::PcWithDisplacement(d) => lemma_read_pc_displacement(d, size),
        Operand::PcWithIndex(i, d) => lemma_read_pc_index(i, d, size),
        Operand::AbsoluteWord(_) => lemma_read_absolute(op, size),
        Operand::AbsoluteLong(_) => lemma_read_absolute(op, size),
        Operand::Immediate(_, _) => lemma_read_absolute(op, size),
        _ => lemma_read_registers(op, size),
    }
}
/// Neither a parenthesis nor a comma.
pub open spec fn plain(c: char) -> bool {
    c != '(' && c != ')' && c != ','
}

proof fn lemma_skip_plain(s: Seq<char>, i: int, j: int, d: int)
    requires
        0 <= i <= j <= s.len(),
        forall|k: int| i <= k < j ==> plain(#[trigger] s[k]),
    ensures
        top_comma(s, i, d) == top_comma(s, j, d),
    decreases j - i,
{
    if i < j {
        assert(plain(s[i]));
        lemma_skip_plain(s, i + 1, j, d);
    }
}

/// Scanning for a separating comma passes over an operand's text: it
/// holds no comma outside parentheses and leaves them balanced. Its first
/// character is no white space.
proof fn lemma_scan_operand(op: Operand, size: Size, s: Seq<char>, at: int)
    requires
        op_writable(op, size),
        0 <= at,
        at + operand_text(op).len() <= s.len(),
        s.subrange(at, at + operand_text(op).len()) == operand_text(op),
    ensures
        top_comma(s, at, 0) == top_comma(s, at + operand_text(op).len(), 0),
        operand_text(op).len() >= 1,
        !is_space(operand_text(op)[0]),
{
    let t = operand_text(op);
    let n = t.len() as int;
    assert forall|k: int| 0 <= k < n implies s[at + k] == #[trigger] t[k] by {
        assert(s.subrange(at, at + n)[k] == s[at + k]);
    }
    match op {
        Operand::DataRegisterDirect(r) => {
            assert(t =~= seq!['D', digit_char(r as int)]);
            lemma_skip_plain(s, at, at + 2, 0);
        },
        Operand::AddressRegisterDirect(r) => {
            assert(t =~= seq!['A', digit_char(r as int)]);
            lemma_skip_plain(s, at, at + 2, 0);
        },
        Operand::AddressRegisterIndirect(r) => {
            assert(t =~= seq!['(', 'A', digit_char(r as int), ')']);
            lemma_skip_plain(s, at + 1, at + 3, 1);
            assert(top_comma(s, at, 0) == top_comma(s, at + 1, 1));
            assert(top_comma(s, at + 3, 1) == top_comma(s, at + 4, 0));
        },
        Operand::AddressRegisterIndirectWithPostincrement(r) => {
            assert(t =~= seq!['(', 'A', digit_char(r as int), ')', '+']);
            lemma_skip_plain(s, at + 1, at + 3, 1);
            assert(top_comma(s, at, 0) == top_comma(s, at + 1, 1));
            assert(top_comma(s, at + 3, 1) == top_comma(s, at + 4, 0));
            assert(top_comma(s, at + 4, 0) == top_comma(s, at + 5, 0));
        },
        Operand::AddressRegisterIndirectWithPredecrement(r) => {
            assert(t =~= seq!['-', '(', 'A', digit_char(r as int), ')']);
            lemma_skip_plain(s, at + 2, at + 4, 1);
            assert(top_comma(s, at, 0) == top_comma(s, at + 1, 0));
            assert(top_comma(s, at + 1, 0) == top_comma(s, at + 2, 1));
            assert(top_comma(s, at + 4, 1) == top_comma(s, at + 5, 0));
        },
        Operand::AddressRegisterIndirectWithDisplacement(r, d) => {
            let l = dec_text(d as int).len() as int;
            lemma_dec_text_chars(d as int);
            assert(t =~= dec_text(d as int) + seq!['(', 'A', digit_char(r as int), ')']);
            assert forall|k: int| at <= k < at + l implies plain(#[trigger] s[k]) by {
                assert(s[k] == t[k - at]);
            }
            lemma_skip_plain(s, at, at + l, 0);
            assert forall|k: int| at + l + 1 <= k < at + l + 3 implies plain(#[trigger] s[k]) by {
                assert(s[k] == t[k - at]);
            }
            lemma_skip_plain(s, at + l + 1, at + l + 3, 1);
            assert(s[at + l] == t[l] && s[at + l + 3] == t[l + 3]);
            assert(top_comma(s, at + l, 0) == top_comma(s, at + l + 1, 1));
            assert(top_comma(s, at + l + 3, 1) == top_comma(s, at + l + 4, 0));
        },
        Operand::AddressRegisterIndirectWithIndex(r, i, d) => {
            let l = dec_text(d as int).len() as int;
            lemma_dec_text_chars(d as int);
            lemma_index_reg(i);
            let xr = xreg_text(i);
            assert(t =~= dec_text(d as int) + seq![
                '(',
                'A',
                digit_char(r as int),
                ',',
                xr[0],
                xr[1],
                ')',
            ]);
            assert forall|k: int| at <= k < at + l implies plain(#[trigger] s[k]) by {
                assert(s[k] == t[k - at]);
            }
            lemma_skip_plain(s, at, at + l, 0);
            assert forall|k: int| at + l + 1 <= k < at + l + 3 implies plain(#[trigger] s[k]) by {
                assert(s[k] == t[k - at]);
            }
            lemma_skip_plain(s, at + l + 1, at + l + 3, 1);
            assert forall|k: int| at + l + 4 <= k < at + l + 6 implies plain(#[trigger] s[k]) by {
                assert(s[k] == t[k - at]);
            }
            lemma_skip_plain(s, at + l + 4, at + l + 6, 1);
            assert(s[at + l] == t[l] && s[at + l + 3] == t[l + 3] && s[at + l + 6] == t[l + 6]);
            assert(top_comma(s, at + l, 0) == top_comma(s, at + l + 1, 1));
            assert(top_comma(s, at + l + 3, 1) == top_comma(s, at + l + 4, 1));
            assert(top_comma(s, at + l + 6, 1) == top_comma(s, at + l + 7, 0));
        },
        Operand::PcWithDisplacement(d) => {
            let l = dec_text(d as int).len() as int;
            lemma_dec_text_chars(d as int);
            assert(t =~= dec_text(d as int) + seq!['(', 'P', 'C', ')']);
            assert forall|k: int| at <= k < at + l implies plain(#[trigger] s[k]) by {
                assert(s[k] == t[k - at]);
            }
            lemma_skip_plain(s, at, at + l, 0);
            assert forall|k: int| at + l + 1 <= k < at + l + 3 implies plain(#[trigger] s[k]) by {
                assert(s[k] == t[k - at]);
            }
            lemma_skip_plain(s, at + l + 1, at + l + 3, 1);
            assert(s[at + l] == t[l] && s[at + l + 3] == t[l + 3]);
            assert(top_comma(s, at + l, 0) == top_comma(s, at + l + 1, 1));
            assert(top_comma(s, at + l + 3, 1) == top_comma(s, at + l + 4, 0));
        },
        Operand::PcWithIndex(i, d) => {
            let l = dec_text(d as int).len() as int;
            lemma_dec_text_chars(d as int);
            lemma_index_reg(i);
            let xr = xreg_text(i);
            assert(t =~= dec_text(d as int) + seq!['(', 'P', 'C', ',', xr[0], xr[1], ')']);
            assert forall|k: int| at <= k < at + l implies plain(#[trigger] s[k]) by {
                assert(s[k] == t[k - at]);
            }
            lemma_skip_plain(s, at, at + l, 0);
            assert forall|k: int| at + l + 1 <= k < at + l + 3 implies plain(#[trigger] s[k]) by {
                assert(s[k] == t[k - at]);
            }
            lemma_skip_plain(s, at + l + 1, at + l + 3, 1);
            assert forall|k: int| at + l + 4 <= k < at + l + 6 implies plain(#[trigger] s[k]) by {
                assert(s[k] == t[k - at]);
            }
            lemma_skip_plain(s, at + l + 4, at + l + 6, 1);
            assert(s[at + l] == t[l] && s[at + l + 3] == t[l + 3] && s[at + l + 6] == t[l + 6]);
            assert(top_comma(s, at + l, 0) == top_comma(s, at + l + 1, 1));
            assert(top_comma(s, at + l + 3, 1) == top_comma(s, at + l + 4, 1));
            assert(top_comma(s, at + l + 6, 1) == top_comma(s, at + l + 7, 0));
        },
        Operand::AbsoluteWord(w) => {
            lemma_hex_padded_read(w as nat, 4);
            let h = hex_padded(w as nat, 4);
            assert forall|k: int| at <= k < at + n implies plain(#[trigger] s[k]) by {
                assert(s[k] == t[k - at]);
                if k > at {
                    assert(t[k - at] == h[k - at - 1]);
                }
            }
            lemma_skip_plain(s, at, at + n, 0);
        },
        Operand::AbsoluteLong(l) => {
            lemma_hex_padded_read(l as nat, 8);
            let h = hex_padded(l as nat, 8);
            assert forall|k: int| at <= k < at + n implies plain(#[trigger] s[k]) by {
                assert(s[k] == t[k - at]);
                if at < k < at + n - 2 {
                    assert(t[k - at] == h[k - at - 1]);
                }
            }
            lemma_skip_plain(s, at, at + n, 0);
        },
        Operand::Immediate(_, v) => {
            lemma_hex_padded_read(v as nat, 4);
            let h = hex_padded(v as nat, 4);
            assert forall|k: int| at <= k < at + n implies plain(#[trigger] s[k]) by {
                assert(s[k] == t[k - at]);
                if k > at + 1 {
                    assert(t[k - at] == h[k - at - 2]);
                }
            }
            lemma_skip_plain(s, at, at + n, 0);
        },
    }
}

proof fn lemma_word_run(s: Seq<char>, i: int, j: int)
    requires
        0 <= i <= j <= s.len(),
        forall|k: int| i <= k < j ==> is_word(#[trigger] s[k]),
        j == s.len() || !is_word(s[j]),
    ensures
        word_end(s, i) == j,
    decreases j - i,
{
    if i < j {
        assert(is_word(s[i]));
        lemma_word_run(s, i + 1, j);
    }
}

/// An instruction whose text reads back as itself: a mnemonic of word
/// characters and one or two well-formed operands.
pub open spec fn instance_writable(mnemonic: Seq<char>, size: Size, ops: Seq<Operand>) -> bool {
    &&& mnemonic.len() > 0
    &&& forall|i: int| 0 <= i < mnemonic.len() ==> is_word(#[trigger] mnemonic[i])
    &&& 1 <= ops.len() <= 2
    &&& forall|i: int| 0 <= i < ops.len() ==> op_writable(#[trigger] ops[i], size)
}

/// The text before an instruction's operands reads back as its mnemonic
/// and size, the operands' text starting after one tab.
proof fn lemma_head_reads_back(mnemonic: Seq<char>, size: Size, rest: Seq<char>)
    requires
        mnemonic.len() > 0,
        forall|i: int| 0 <= i < mnemonic.len() ==> is_word(#[trigger] mnemonic[i]),
        rest.len() > 0,
        !is_space(rest[0]),
    ensures
        ({
            let s = mnemonic + size_text(size) + seq!['\t'] + rest;
            let m = word_end(s, 0);
            let has_size = m + 1 < s.len() && s[m] == '.' && is_word(s[m + 1]);
            let after = if has_size { m + 2 } else { m };
            &&& m == mnemonic.len()
            &&& (if has_size { suffix_size(s[m + 1]) } else { Size::Unsized }) == size
            &&& space_end(s, after) == after + 1
            &&& s.subrange(space_end(s, after), s.len() as int) == rest
            &&& s.subrange(0, m) == mnemonic
        }),
{
    let s = mnemonic + size_text(size) + seq!['\t'] + rest;
    let m = mnemonic.len() as int;
    let after = m + size_text(size).len();
    assert forall|k: int| 0 <= k < m implies is_word(#[trigger] s[k]) by {
        assert(s[k] == mnemonic[k]);
    }
    lemma_word_run(s, 0, m);
    assert(s[after] == '\t');
    assert(s[after + 1] == rest[0]);
    assert(space_end(s, after) == space_end(s, after + 1));
    assert(space_end(s, after + 1) == after + 1);
    assert(s.subrange(after + 1, s.len() as int) =~= rest);
    assert(s.subrange(0, m) =~= mnemonic);
}

/// The operands' text reads back as the operands, split at the comma that
/// separates them.
proof fn lemma_operands_read_back(size: Size, ops: Seq<Operand>)
    requires
        1 <= ops.len() <= 2,
        forall|i: int| 0 <= i < ops.len() ==> op_writable(#[trigger] ops[i], size),
    ensures
        ({
            let t1 = operand_text(ops[0]);
            let rest = if ops.len() == 1 { t1 } else { t1 + seq![','] + operand_text(ops[1]) };
            let c = top_comma(rest, 0, 0);
            &&& rest.len() > 0
            &&& !is_space(rest[0])
            &&& operand_syntax(rest.subrange(0, c), size) == Some(ops[0])
            &&& (ops.len() == 2 <==> c < rest.len())
            &&& ops.len() == 2 ==> operand_syntax(rest.subrange(c + 1, rest.len() as int), size)
                == Some(ops[1])
        }),
{
    let t1 = operand_text(ops[0]);
    let rest = if ops.len() == 1 {
        t1
    } else {
        t1 + seq![','] + operand_text(ops[1])
    };
    assert(op_writable(ops[0], size));
    assert(rest.subrange(0, t1.len() as int) =~= t1);
    lemma_scan_operand(ops[0], size, rest, 0);
    assert(rest[0] == t1[0]);
    lemma_operand_read(ops[0], size);
    if ops.len() == 2 {
        assert(op_writable(ops[1], size));
        lemma_operand_read(ops[1], size);
        assert(rest[t1.len() as int] == ',');
        assert(top_comma(rest, t1.len() as int, 0) == t1.len());
        assert(rest.subrange(t1.len() as int + 1, rest.len() as int) =~= operand_text(ops[1]));
    } else {
        assert(top_comma(rest, t1.len() as int, 0) == rest.len());
    }
}

/// Reading the text of an instruction gives back that instruction:
/// `parse_assembler` inverts `OpcodeInstance::to_string` on every
/// instruction whose text can stand for it.
pub proof fn law_text_reads_back(mnemonic: Seq<char>, size: Size, ops: Seq<Operand>)
    requires
        instance_writable(mnemonic, size, ops),
    ensures
        parsed(instance_text(mnemonic, size, ops)) == Some((mnemonic, size, ops)),
{
    let t1 = operand_text(ops[0]);
    let rest = if ops.len() == 1 {
        t1
    } else {
        t1 + seq![','] + operand_text(ops[1])
    };
    lemma_operands_read_back(size, ops);
    lemma_head_reads_back(mnemonic, size, rest);
    assert(instance_text(mnemonic, size, ops) =~= mnemonic + size_text(size) + seq!['\t'] + rest);
    if ops.len() == 2 {
        assert(seq![ops[0], ops[1]] =~= ops);
    } else {
        assert(seq![ops[0]] =~= ops);
    }
}
proof fn lemma_index_field(ext: u16)
    by (bit_vector)
    ensures
        (ext >> 12u16) < 16,
{
}

/// The operand the effective address field decodes to is well formed
/// unless it is an absolute word address of $8000 or above.
proof fn lemma_ea_writable(opcode: u16, size: Size, pc: u32, w: Seq<u16>)
    requires
        ea_mode(opcode) != 7 || ea_reg(opcode) <= 4,
        size != Size::Unsized,
        !(ea_operand(opcode, size, pc, w) matches Operand::AbsoluteWord(a) && a > 0x7FFF),
    ensures
        op_writable(ea_operand(opcode, size, pc, w), size),
{
    lemma_ea_fields(opcode);
    lemma_index_field(word_at(w, pc + 2));
}

/// The text the disassembler gives an instruction reads back as what it
/// decoded, unless it holds an absolute word address of $8000 or above
/// (whose text reads back as a long address).
pub proof fn law_disassembled_text_reads_back(pc: u32, w: Seq<u16>, inst: OpcodeInstance)
    requires
        can_disassemble(pc, w),
        decodes_to(pc, w, inst),
        forall|i: int|
            0 <= i < inst.operands@.len() ==> !(#[trigger] inst.operands@[i] matches Operand::AbsoluteWord(
                a,
            ) && a > 0x7FFF),
    ensures
        parsed(instance_text(inst.mnemonic@, inst.size, inst.operands@)) == Some(
            (inst.mnemonic@, inst.size, inst.operands@),
        ),
{
    let opcode = word_at(w, pc as int);
    lemma_first_match_bounds(opcode, 0);
    lemma_ea_fields(opcode);
    let i = first_match(opcode)->0;
    let info = optable()[i];
    let ops = inst.operands@;
    reveal_strlit("ADD");
    reveal_strlit("ADDA");
    reveal_strlit("ADDI");
    assert(info.size != Size::Unsized);
    assert(ea_mode(opcode) != 7 || ea_reg(opcode) <= 4) by {
        crate::dasm::lemma_match_decodable(opcode, i);
    }
    assert(!(ops[0] matches Operand::AbsoluteWord(a) && a > 0x7FFF));
    assert(!(ops[1] matches Operand::AbsoluteWord(a) && a > 0x7FFF));
    if info.decoder == OperandDecoder::ImmEa {
        lemma_ea_writable(opcode, info.size, (pc + 2 * imm_words(info.size)) as u32, w);
    } else {
        lemma_ea_writable(opcode, info.size, pc, w);
    }
    assert forall|k: int| 0 <= k < inst.mnemonic@.len() implies is_word(
        #[trigger] inst.mnemonic@[k],
    ) by {}
    law_text_reads_back(inst.mnemonic@, inst.size, ops);
}

} // verus!
