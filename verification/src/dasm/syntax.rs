use vstd::prelude::*;

use crate::dasm::Size;
use crate::dasm::operand::Operand;

verus! {

/// Letters, digits and underscore.
pub open spec fn is_word(c: char) -> bool {
    ('A' <= c <= 'Z') || ('a' <= c <= 'z') || ('0' <= c <= '9') || c == '_'
}

/// The characters of the Unicode White_Space property.
pub open spec fn is_space(c: char) -> bool {
    ('\t' <= c <= '\r') || c == ' ' || c == '\u{85}' || c == '\u{a0}' || c == '\u{1680}'
        || ('\u{2000}' <= c <= '\u{200a}') || c == '\u{2028}' || c == '\u{2029}' || c == '\u{202f}'
        || c == '\u{205f}' || c == '\u{3000}'
}

pub open spec fn is_digit(c: char) -> bool {
    '0' <= c <= '9'
}

/// Decimal digits and upper-case hexadecimal letters.
pub open spec fn is_hex(c: char) -> bool {
    ('0' <= c <= '9') || ('A' <= c <= 'F')
}

/// A register number, 0 to 7.
pub open spec fn is_reg(c: char) -> bool {
    '0' <= c <= '7'
}

pub open spec fn digit_value(c: char) -> int {
    c as int - 48
}

pub open spec fn hex_digit_value(c: char) -> int {
    if c <= '9' {
        c as int - 48
    } else {
        c as int - 55
    }
}

/// The value of a string of decimal digits.
pub open spec fn digits_value(t: Seq<char>) -> nat
    decreases t.len(),
{
    if t.len() == 0 {
        0
    } else {
        (digits_value(t.drop_last()) * 10 + digit_value(t.last())) as nat
    }
}

/// The value of a string of hexadecimal digits.
pub open spec fn hex_value(t: Seq<char>) -> nat
    decreases t.len(),
{
    if t.len() == 0 {
        0
    } else {
        (hex_value(t.drop_last()) * 16 + hex_digit_value(t.last())) as nat
    }
}

pub open spec fn all_digits(t: Seq<char>) -> bool {
    t.len() > 0 && forall|i: int| 0 <= i < t.len() ==> is_digit(#[trigger] t[i])
}

pub open spec fn all_hex(t: Seq<char>) -> bool {
    t.len() > 0 && forall|i: int| 0 <= i < t.len() ==> is_hex(#[trigger] t[i])
}

/// An optionally negative decimal number that fits in an `i32`.
pub open spec fn signed_ok(t: Seq<char>) -> bool {
    if t.len() > 0 && t[0] == '-' {
        all_digits(t.drop_first()) && digits_value(t.drop_first()) <= 0x8000_0000
    } else {
        all_digits(t) && digits_value(t) < 0x8000_0000
    }
}

pub open spec fn signed_value(t: Seq<char>) -> int {
    if t.len() > 0 && t[0] == '-' {
        -digits_value(t.drop_first())
    } else {
        digits_value(t) as int
    }
}

/// A hexadecimal number that fits in a `u32`.
pub open spec fn hex_ok(t: Seq<char>) -> bool {
    all_hex(t) && hex_value(t) < 0x1_0000_0000
}

proof fn lemma_digits_grow(t: Seq<char>, k: int)
    requires
        0 <= k <= t.len(),
        forall|i: int| 0 <= i < t.len() ==> is_digit(#[trigger] t[i]),
    ensures
        digits_value(t.subrange(0, k)) <= digits_value(t),
    decreases t.len() - k,
{
    if k < t.len() {
        lemma_digits_grow(t, k + 1);
        assert(t.subrange(0, k + 1).drop_last() =~= t.subrange(0, k));
    } else {
        assert(t.subrange(0, k) =~= t);
    }
}

proof fn lemma_hex_grow(t: Seq<char>, k: int)
    requires
        0 <= k <= t.len(),
        forall|i: int| 0 <= i < t.len() ==> is_hex(#[trigger] t[i]),
    ensures
        hex_value(t.subrange(0, k)) <= hex_value(t),
    decreases t.len() - k,
{
    if k < t.len() {
        lemma_hex_grow(t, k + 1);
        assert(t.subrange(0, k + 1).drop_last() =~= t.subrange(0, k));
    } else {
        assert(t.subrange(0, k) =~= t);
    }
}

/// The value of the decimal digits `t[lo..hi]`, or `None` when they are
/// not all digits, there are none, or the value exceeds `limit`.
fn parse_digits(t: &Vec<char>, lo: usize, hi: usize, limit: u64) -> (r: Option<u64>)
    requires
        lo <= hi <= t.len(),
        limit <= 0x1_0000_0000,
    ensures
        r matches Some(v) ==> all_digits(t@.subrange(lo as int, hi as int)) && v == digits_value(
            t@.subrange(lo as int, hi as int),
        ) && v <= limit,
        r is None ==> !(all_digits(t@.subrange(lo as int, hi as int)) && digits_value(
            t@.subrange(lo as int, hi as int),
        ) <= limit),
{
    let ghost x = t@.subrange(lo as int, hi as int);
    if lo == hi {
        return None;
    }
    let mut v: u64 = 0;
    let mut k: usize = lo;
    while k < hi
        invariant
            lo <= k <= hi <= t.len(),
            limit <= 0x1_0000_0000,
            x == t@.subrange(lo as int, hi as int),
            forall|i: int| 0 <= i < k - lo ==> is_digit(#[trigger] x[i]),
            v == digits_value(x.subrange(0, k - lo)),
            v <= limit,
        decreases hi - k,
    {
        let c = t[k];
        assert(x[k - lo] == c);
        if !('0' <= c && c <= '9') {
            return None;
        }
        proof {
            assert(x.subrange(0, k - lo + 1).drop_last() =~= x.subrange(0, k - lo));
        }
        v = v * 10 + (c as u64 - 48);
        k += 1;
        if v > limit {
            proof {
                if all_digits(x) {
                    lemma_digits_grow(x, k - lo);
                }
            }
            return None;
        }
    }
    proof {
        assert(x.subrange(0, k - lo) =~= x);
    }
    Some(v)
}

/// The value of the hexadecimal digits `t[lo..hi]`, or `None` when they
/// are not all hexadecimal digits, there are none, or the value does not
/// fit in a `u32`.
fn parse_hex(t: &Vec<char>, lo: usize, hi: usize) -> (r: Option<u32>)
    requires
        lo <= hi <= t.len(),
    ensures
        r matches Some(v) ==> hex_ok(t@.subrange(lo as int, hi as int)) && v == hex_value(
            t@.subrange(lo as int, hi as int),
        ),
        r is None ==> !hex_ok(t@.subrange(lo as int, hi as int)),
{
    let ghost x = t@.subrange(lo as int, hi as int);
    if lo == hi {
        return None;
    }
    let mut v: u64 = 0;
    let mut k: usize = lo;
    while k < hi
        invariant
            lo <= k <= hi <= t.len(),
            x == t@.subrange(lo as int, hi as int),
            forall|i: int| 0 <= i < k - lo ==> is_hex(#[trigger] x[i]),
            v == hex_value(x.subrange(0, k - lo)),
            v < 0x1_0000_0000,
        decreases hi - k,
    {
        let c = t[k];
        assert(x[k - lo] == c);
        let d: u64 = if '0' <= c && c <= '9' {
            c as u64 - 48
        } else if 'A' <= c && c <= 'F' {
            c as u64 - 55
        } else {
            return None;
        };
        proof {
            assert(x.subrange(0, k - lo + 1).drop_last() =~= x.subrange(0, k - lo));
        }
        v = v * 16 + d;
        k += 1;
        if v >= 0x1_0000_0000 {
            proof {
                if all_hex(x) {
                    lemma_hex_grow(x, k - lo);
                }
            }
            return None;
        }
    }
    proof {
        assert(x.subrange(0, k - lo) =~= x);
    }
    Some(v as u32)
}

/// The value of the optionally negative decimal number `t[lo..hi]`, or
/// `None` when it is no such number or does not fit in an `i32`.
fn parse_signed(t: &Vec<char>, lo: usize, hi: usize) -> (r: Option<i32>)
    requires
        lo <= hi <= t.len(),
    ensures
        r matches Some(v) ==> signed_ok(t@.subrange(lo as int, hi as int)) && v == signed_value(
            t@.subrange(lo as int, hi as int),
        ),
        r is None ==> !signed_ok(t@.subrange(lo as int, hi as int)),
{
    let ghost x = t@.subrange(lo as int, hi as int);
    if lo < hi && t[lo] == '-' {
        proof {
            assert(x.drop_first() =~= t@.subrange(lo + 1, hi as int));
        }
        match parse_digits(t, lo + 1, hi, 0x8000_0000) {
            Some(v) => Some((0 - (v as i64)) as i32),
            None => None,
        }
    } else {
        match parse_digits(t, lo, hi, 0x7fff_ffff) {
            Some(v) => Some(v as i32),
            None => None,
        }
    }
}

pub open spec fn reg_value(c: char) -> u8 {
    (c as int - 48) as u8
}

/// The index register written `kind` (`D` or `A`) and `num`, bit 3 set for
/// an address register.
pub open spec fn index_reg(kind: char, num: char) -> u8 {
    ((if kind == 'D' { 0int } else { 8int }) + reg_value(num)) as u8
}

/// `x` ends in `(A` register `)`.
pub open spec fn ends_areg(x: Seq<char>) -> bool {
    let n = x.len() as int;
    n >= 4 && x[n - 4] == '(' && x[n - 3] == 'A' && is_reg(x[n - 2]) && x[n - 1] == ')'
}

/// `x` ends in `(A` register `,` index register `)`.
pub open spec fn ends_aindex(x: Seq<char>) -> bool {
    let n = x.len() as int;
    n >= 7 && x[n - 7] == '(' && x[n - 6] == 'A' && is_reg(x[n - 5]) && x[n - 4] == ',' && (x[n
        - 3] == 'D' || x[n - 3] == 'A') && is_reg(x[n - 2]) && x[n - 1] == ')'
}

/// `x` ends in `(PC)`.
pub open spec fn ends_pc(x: Seq<char>) -> bool {
    let n = x.len() as int;
    n >= 4 && x[n - 4] == '(' && x[n - 3] == 'P' && x[n - 2] == 'C' && x[n - 1] == ')'
}

/// `x` ends in `(PC,` index register `)`.
pub open spec fn ends_pcindex(x: Seq<char>) -> bool {
    let n = x.len() as int;
    n >= 7 && x[n - 7] == '(' && x[n - 6] == 'P' && x[n - 5] == 'C' && x[n - 4] == ',' && (x[n
        - 3] == 'D' || x[n - 3] == 'A') && is_reg(x[n - 2]) && x[n - 1] == ')'
}

/// The operand written `x`, by the first addressing mode whose syntax it
/// has; immediate data takes the instruction's `size`.
pub open spec fn operand_syntax(x: Seq<char>, size: Size) -> Option<Operand> {
    let n = x.len() as int;
    if n == 2 && x[0] == 'D' && is_reg(x[1]) {
        Some(Operand::DataRegisterDirect(reg_value(x[1])))
    } else if n == 2 && x[0] == 'A' && is_reg(x[1]) {
        Some(Operand::AddressRegisterDirect(reg_value(x[1])))
    } else if n == 4 && x[0] == '(' && x[1] == 'A' && is_reg(x[2]) && x[3] == ')' {
        Some(Operand::AddressRegisterIndirect(reg_value(x[2])))
    } else if n == 5 && x[0] == '(' && x[1] == 'A' && is_reg(x[2]) && x[3] == ')' && x[4] == '+' {
        Some(Operand::AddressRegisterIndirectWithPostincrement(reg_value(x[2])))
    } else if n == 5 && x[0] == '-' && x[1] == '(' && x[2] == 'A' && is_reg(x[3]) && x[4] == ')' {
        Some(Operand::AddressRegisterIndirectWithPredecrement(reg_value(x[3])))
    } else if ends_areg(x) && signed_ok(x.subrange(0, n - 4)) {
        Some(
            Operand::AddressRegisterIndirectWithDisplacement(
                reg_value(x[n - 2]),
                signed_value(x.subrange(0, n - 4)) as i16,
            ),
        )
    } else if ends_aindex(x) && signed_ok(x.subrange(0, n - 7)) {
        Some(
            Operand::AddressRegisterIndirectWithIndex(
                reg_value(x[n - 5]),
                index_reg(x[n - 3], x[n - 2]),
                signed_value(x.subrange(0, n - 7)) as i8,
            ),
        )
    } else if n >= 2 && x[0] == '$' && hex_ok(x.subrange(1, n)) {
        let v = hex_value(x.subrange(1, n));
        if v > 0x7FFF {
            Some(Operand::AbsoluteLong(v as u32))
        } else {
            Some(Operand::AbsoluteWord(v as u16))
        }
    } else if n >= 4 && x[0] == '$' && x[n - 2] == '.' && x[n - 1] == 'L' && hex_ok(
        x.subrange(1, n - 2),
    ) {
        Some(Operand::AbsoluteLong(hex_value(x.subrange(1, n - 2)) as u32))
    } else if ends_pc(x) && signed_ok(x.subrange(0, n - 4)) {
        Some(Operand::PcWithDisplacement(signed_value(x.subrange(0, n - 4)) as i16))
    } else if ends_pcindex(x) && signed_ok(x.subrange(0, n - 7)) {
        Some(
            Operand::PcWithIndex(
                index_reg(x[n - 3], x[n - 2]),
                signed_value(x.subrange(0, n - 7)) as i8,
            ),
        )
    } else if n >= 3 && x[0] == '#' && x[1] == '$' && hex_ok(x.subrange(2, n)) {
        Some(Operand::Immediate(size, hex_value(x.subrange(2, n)) as u32))
    } else {
        None
    }
}

fn is_reg_char(c: char) -> (r: bool)
    ensures
        r == is_reg(c),
{
    '0' <= c && c <= '7'
}

fn reg_of(c: char) -> (r: u8)
    requires
        is_reg(c),
    ensures
        r == reg_value(c),
{
    (c as u32 - 48) as u8
}

fn index_of(kind: char, num: char) -> (r: u8)
    requires
        kind == 'D' || kind == 'A',
        is_reg(num),
    ensures
        r == index_reg(kind, num),
{
    let offset: u8 = if kind == 'D' { 0 } else { 8 };
    offset + reg_of(num)
}

/// The operand written `t[lo..hi]`.
fn parse_operand(t: &Vec<char>, lo: usize, hi: usize, size: Size) -> (r: Option<Operand>)
    requires
        lo <= hi <= t.len(),
    ensures
        r == operand_syntax(t@.subrange(lo as int, hi as int), size),
{
    let ghost x = t@.subrange(lo as int, hi as int);
    let n = hi - lo;
    assert(forall|k: int| 0 <= k < n ==> x[k] == t@[lo + k]);
    if n == 2 && t[lo] == 'D' && is_reg_char(t[lo + 1]) {
        return Some(Operand::DataRegisterDirect(reg_of(t[lo + 1])));
    }
    if n == 2 && t[lo] == 'A' && is_reg_char(t[lo + 1]) {
        return Some(Operand::AddressRegisterDirect(reg_of(t[lo + 1])));
    }
    if n == 4 && t[lo] == '(' && t[lo + 1] == 'A' && is_reg_char(t[lo + 2]) && t[lo + 3] == ')' {
        return Some(Operand::AddressRegisterIndirect(reg_of(t[lo + 2])));
    }
    if n == 5 && t[lo] == '(' && t[lo + 1] == 'A' && is_reg_char(t[lo + 2]) && t[lo + 3] == ')'
        && t[lo + 4] == '+' {
        return Some(Operand::AddressRegisterIndirectWithPostincrement(reg_of(t[lo + 2])));
    }
    if n == 5 && t[lo] == '-' && t[lo + 1] == '(' && t[lo + 2] == 'A' && is_reg_char(t[lo + 3])
        && t[lo + 4] == ')' {
        return Some(Operand::AddressRegisterIndirectWithPredecrement(reg_of(t[lo + 3])));
    }
    if n >= 4 && t[hi - 4] == '(' && t[hi - 3] == 'A' && is_reg_char(t[hi - 2]) && t[hi - 1]
        == ')' {
        proof {
            assert(x.subrange(0, n - 4) =~= t@.subrange(lo as int, hi - 4));
        }
        if let Some(d) = parse_signed(t, lo, hi - 4) {
            return Some(
                Operand::AddressRegisterIndirectWithDisplacement(reg_of(t[hi - 2]), d as i16),
            );
        }
    }
    if n >= 7 && t[hi - 7] == '(' && t[hi - 6] == 'A' && is_reg_char(t[hi - 5]) && t[hi - 4]
        == ',' && (t[hi - 3] == 'D' || t[hi - 3] == 'A') && is_reg_char(t[hi - 2]) && t[hi - 1]
        == ')' {
        proof {
            assert(x.subrange(0, n - 7) =~= t@.subrange(lo as int, hi - 7));
        }
        if let Some(d) = parse_signed(t, lo, hi - 7) {
            return Some(
                Operand::AddressRegisterIndirectWithIndex(
                    reg_of(t[hi - 5]),
                    index_of(t[hi - 3], t[hi - 2]),
                    d as i8,
                ),
            );
        }
    }
    if n >= 2 && t[lo] == '$' {
        proof {
            assert(x.subrange(1, n as int) =~= t@.subrange(lo + 1, hi as int));
        }
        if let Some(v) = parse_hex(t, lo + 1, hi) {
            if v > 0x7FFF {
                return Some(Operand::AbsoluteLong(v));
            } else {
                return Some(Operand::AbsoluteWord(v as u16));
            }
        }
    }
    if n >= 4 && t[lo] == '$' && t[hi - 2] == '.' && t[hi - 1] == 'L' {
        proof {
            assert(x.subrange(1, n - 2) =~= t@.subrange(lo + 1, hi - 2));
        }
        if let Some(v) = parse_hex(t, lo + 1, hi - 2) {
            return Some(Operand::AbsoluteLong(v));
        }
    }
    if n >= 4 && t[hi - 4] == '(' && t[hi - 3] == 'P' && t[hi - 2] == 'C' && t[hi - 1] == ')' {
        proof {
            assert(x.subrange(0, n - 4) =~= t@.subrange(lo as int, hi - 4));
        }
        if let Some(d) = parse_signed(t, lo, hi - 4) {
            return Some(Operand::PcWithDisplacement(d as i16));
        }
    }
    if n >= 7 && t[hi - 7] == '(' && t[hi - 6] == 'P' && t[hi - 5] == 'C' && t[hi - 4] == ',' && (
    t[hi - 3] == 'D' || t[hi - 3] == 'A') && is_reg_char(t[hi - 2]) && t[hi - 1] == ')' {
        proof {
            assert(x.subrange(0, n - 7) =~= t@.subrange(lo as int, hi - 7));
        }
        if let Some(d) = parse_signed(t, lo, hi - 7) {
            return Some(Operand::PcWithIndex(index_of(t[hi - 3], t[hi - 2]), d as i8));
        }
    }
    if n >= 3 && t[lo] == '#' && t[lo + 1] == '$' {
        proof {
            assert(x.subrange(2, n as int) =~= t@.subrange(lo + 2, hi as int));
        }
        if let Some(v) = parse_hex(t, lo + 2, hi) {
            return Some(Operand::Immediate(size, v));
        }
    }
    None
}

/// The end of the run of word characters in `s` from `i` on.
pub open spec fn word_end(s: Seq<char>, i: int) -> int
    decreases s.len() - i,
{
    if 0 <= i < s.len() && is_word(s[i]) {
        word_end(s, i + 1)
    } else {
        i
    }
}

/// The end of the run of white space in `s` from `i` on.
pub open spec fn space_end(s: Seq<char>, i: int) -> int
    decreases s.len() - i,
{
    if 0 <= i < s.len() && is_space(s[i]) {
        space_end(s, i + 1)
    } else {
        i
    }
}

pub open spec fn paren_step(c: char) -> int {
    if c == '(' {
        1
    } else if c == ')' {
        -1
    } else {
        0
    }
}

/// The first comma in `s` from `i` on that stands outside parentheses,
/// `depth` being the nesting at `i`; `s.len()` where there is none.
pub open spec fn top_comma(s: Seq<char>, i: int, depth: int) -> int
    decreases s.len() - i,
{
    if i < 0 || i >= s.len() {
        s.len() as int
    } else if s[i] == ',' && depth == 0 {
        i
    } else {
        top_comma(s, i + 1, depth + paren_step(s[i]))
    }
}

/// The size a `.` suffix letter names.
pub open spec fn suffix_size(c: char) -> Size {
    if c == 'B' {
        Size::Byte
    } else if c == 'W' {
        Size::Word
    } else if c == 'L' {
        Size::Long
    } else {
        Size::Unsized
    }
}

/// An instruction written `s`: a mnemonic of word characters, an optional
/// size suffix (`.` and one word character), white space, then one operand
/// or two separated by a comma outside parentheses. Gives the mnemonic,
/// the size and the operands, or `None` where `s` is not so written.
pub open spec fn parsed(s: Seq<char>) -> Option<(Seq<char>, Size, Seq<Operand>)> {
    let m = word_end(s, 0);
    let has_size = m + 1 < s.len() && s[m] == '.' && is_word(s[m + 1]);
    let size = if has_size { suffix_size(s[m + 1]) } else { Size::Unsized };
    let after = if has_size { m + 2 } else { m };
    let start = space_end(s, after);
    let rest = s.subrange(start, s.len() as int);
    let c = top_comma(rest, 0, 0);
    let first = operand_syntax(rest.subrange(0, c), size);
    let second = operand_syntax(rest.subrange(c + 1, rest.len() as int), size);
    if m == 0 || start == after || first is None || (c < rest.len() && second is None) {
        None
    } else if c < rest.len() {
        Some((s.subrange(0, m), size, seq![first->0, second->0]))
    } else {
        Some((s.subrange(0, m), size, seq![first->0]))
    }
}

fn is_word_char(c: char) -> (r: bool)
    ensures
        r == is_word(c),
{
    ('A' <= c && c <= 'Z') || ('a' <= c && c <= 'z') || ('0' <= c && c <= '9') || c == '_'
}

fn is_space_char(c: char) -> (r: bool)
    ensures
        r == is_space(c),
{
    ('\t' <= c && c <= '\r') || c == ' ' || c == '\u{85}' || c == '\u{a0}' || c == '\u{1680}'
        || ('\u{2000}' <= c && c <= '\u{200a}') || c == '\u{2028}' || c == '\u{2029}' || c == '\u{202f}'
        || c == '\u{205f}' || c == '\u{3000}'
}

fn find_word_end(t: &Vec<char>, i: usize) -> (r: usize)
    requires
        i <= t.len(),
    ensures
        r == word_end(t@, i as int),
        i <= r <= t.len(),
    decreases t.len() - i,
{
    if i < t.len() && is_word_char(t[i]) {
        find_word_end(t, i + 1)
    } else {
        i
    }
}

fn find_space_end(t: &Vec<char>, i: usize) -> (r: usize)
    requires
        i <= t.len(),
    ensures
        r == space_end(t@, i as int),
        i <= r <= t.len(),
    decreases t.len() - i,
{
    if i < t.len() && is_space_char(t[i]) {
        find_space_end(t, i + 1)
    } else {
        i
    }
}

/// `top_comma` over `t[lo..]`, from `i` on at nesting `depth`, as an index
/// into `t`.
fn find_top_comma(t: &Vec<char>, lo: usize, i: usize, depth: i128) -> (r: usize)
    requires
        lo <= i <= t.len(),
        -(i - lo) <= depth <= i - lo,
    ensures
        r - lo == top_comma(t@.subrange(lo as int, t.len() as int), i - lo, depth as int),
        i <= r <= t.len(),
    decreases t.len() - i,
{
    let ghost rest = t@.subrange(lo as int, t.len() as int);
    if i >= t.len() {
        return i;
    }
    assert(rest[i - lo] == t@[i as int]);
    let c = t[i];
    if c == ',' && depth == 0 {
        i
    } else {
        let step: i128 = if c == '(' {
            1
        } else if c == ')' {
            -1
        } else {
            0
        };
        find_top_comma(t, lo, i + 1, depth + step)
    }
}

fn size_of_suffix(c: char) -> (r: Size)
    ensures
        r == suffix_size(c),
{
    if c == 'B' {
        Size::Byte
    } else if c == 'W' {
        Size::Word
    } else if c == 'L' {
        Size::Long
    } else {
        Size::Unsized
    }
}

/// Parses the instruction written `t`: gives where its mnemonic ends, its
/// size and its operands.
pub fn parse_instruction(t: &Vec<char>) -> (r: Option<(usize, Size, Vec<Operand>)>)
    ensures
        parsed(t@) is None ==> r is None,
        parsed(t@) matches Some((m, size, ops)) ==> (r matches Some((end, sz, v)) && end
            <= t.len() && t@.subrange(0, end as int) == m && sz == size && v@ == ops),
{
    let len = t.len();
    let m = find_word_end(t, 0);
    let has_size = m < len && m + 1 < len && t[m] == '.' && is_word_char(t[m + 1]);
    let size = if has_size {
        size_of_suffix(t[m + 1])
    } else {
        Size::Unsized
    };
    let after = if has_size {
        m + 2
    } else {
        m
    };
    let start = find_space_end(t, after);
    let ghost rest = t@.subrange(start as int, len as int);
    let c = find_top_comma(t, start, start, 0);
    if m == 0 || start == after {
        return None;
    }
    proof {
        assert(rest.subrange(0, c - start) =~= t@.subrange(start as int, c as int));
    }
    let first = parse_operand(t, start, c, size);
    let first = match first {
        Some(op) => op,
        None => {
            return None;
        },
    };
    let mut operands = vec![first];
    if c < len {
        proof {
            assert(rest.subrange(c - start + 1, rest.len() as int) =~= t@.subrange(
                c + 1,
                len as int,
            ));
        }
        let second = parse_operand(t, c + 1, len, size);
        match second {
            Some(op) => operands.push(op),
            None => {
                return None;
            },
        }
    }
    proof {
        let (pm, ps, pops) = parsed(t@)->0;
        if c < len {
            assert(operands@ =~= seq![pops[0], pops[1]]);
        } else {
            assert(operands@ =~= seq![pops[0]]);
        }
    }
    Some((m, size, operands))
}

} // verus!
