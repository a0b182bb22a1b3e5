//! Bit-level meaning of the 32-bit registers: one flag per line, and packed
//! four-bit routing fields.
use stm32_metapac::exti::regs::Lines;
use stm32_metapac::syscfg::regs::Exticr;
use vstd::prelude::*;

verus! {

/// Whether bit `n` of `word` is set.
pub open spec fn bit(word: u32, n: int) -> bool {
    0 <= n < 32 && (word >> (n as u32)) & 1u32 == 1u32
}

/// The positions of the bits that are set in `word`.
pub open spec fn bits(word: u32) -> Set<int> {
    Set::new(|n: int| bit(word, n))
}

/// The word with bit `n` alone set.
pub open spec fn single(n: int) -> u32 {
    1u32 << (n as u32)
}

/// The four-bit field `k` (0 to 3) of a routing word.
pub open spec fn field(word: u32, k: int) -> int {
    ((word >> ((4 * k) as u32)) & 0x0fu32) as int
}

/// The routing word with field `k` replaced by the low four bits of `val`.
pub open spec fn with_field(word: u32, k: int, val: u8) -> u32 {
    (word & !(0x0fu32 << ((4 * k) as u32))) | (((val as u32) & 0x0fu32) << ((4 * k) as u32))
}

/// The word with bit `n` replaced by `val`.
pub open spec fn with_bit(word: u32, n: int, val: bool) -> u32 {
    (word & !(1u32 << (n as u32))) | ((if val { 1u32 } else { 0u32 }) << (n as u32))
}

/// `stm32_metapac::exti::regs::Lines::line`: the flag of line `n` is bit `n`
/// of the register value. The outside function panics for `n >= 32`.
#[verifier::external_body]
pub(crate) fn lines_line(word: u32, n: usize) -> (r: bool)
    requires
        n < 32,
    ensures
        r == bit(word, n as int),
{
    Lines(word).line(n)
}

/// `stm32_metapac::exti::regs::Lines::set_line`: bit `n` of the register
/// value is replaced by `val`, every other bit is kept. The outside function
/// panics for `n >= 32`.
#[verifier::external_body]
pub(crate) fn lines_set_line(word: u32, n: usize, val: bool) -> (r: u32)
    requires
        n < 32,
    ensures
        r == with_bit(word, n as int, val),
{
    let mut lines = Lines(word);
    lines.set_line(n, val);
    lines.0
}

/// `stm32_metapac::syscfg::regs::Exticr::exti`: field `k` of a routing word
/// is the four bits that start at bit `4 * k`. The outside function panics
/// for `k >= 4`.
#[verifier::external_body]
pub(crate) fn exticr_exti(word: u32, k: usize) -> (r: u8)
    requires
        k < 4,
    ensures
        r as int == field(word, k as int),
{
    Exticr(word).exti(k)
}

/// `stm32_metapac::syscfg::regs::Exticr::set_exti`: field `k` of a routing
/// word is replaced by the low four bits of `val`, the rest of the word is
/// kept. The outside function panics for `k >= 4`.
#[verifier::external_body]
pub(crate) fn exticr_set_exti(word: u32, k: usize, val: u8) -> (r: u32)
    requires
        k < 4,
    ensures
        r == with_field(word, k as int, val),
{
    let mut reg = Exticr(word);
    reg.set_exti(k, val);
    reg.0
}

/// Replacing bit `i` changes bit `i` and no other.
pub proof fn lemma_with_bit(word: u32, i: int, val: bool, j: int)
    requires
        0 <= i < 32,
    ensures
        bit(with_bit(word, i, val), j) == (if j == i { val } else { bit(word, j) }),
{
    if 0 <= j < 32 {
        let a = i as u32;
        let b = j as u32;
        assert((((word & !(1u32 << a)) | ((if val { 1u32 } else { 0u32 }) << a)) >> b) & 1u32 == 1u32
            <==> (if b == a { val } else { (word >> b) & 1u32 == 1u32 })) by (bit_vector)
            requires
                a < 32,
                b < 32,
        ;
    }
}

/// Writing ones to a write-one-to-clear register clears exactly the written
/// bits.
pub proof fn lemma_clear_written(word: u32, written: u32, j: int)
    ensures
        bit(word & !written, j) == (bit(word, j) && !bit(written, j)),
{
    if 0 <= j < 32 {
        let b = j as u32;
        assert(((word & !written) >> b) & 1u32 == 1u32 <==> ((word >> b) & 1u32 == 1u32 && !((written
            >> b) & 1u32 == 1u32))) by (bit_vector)
            requires
                b < 32,
        ;
    }
}

/// A word with one bit set has that bit and no other.
pub proof fn lemma_single(i: int, j: int)
    requires
        0 <= i < 32,
    ensures
        bit(single(i), j) == (j == i),
{
    if 0 <= j < 32 {
        let a = i as u32;
        let b = j as u32;
        assert(((1u32 << a) >> b) & 1u32 == 1u32 <==> b == a) by (bit_vector)
            requires
                a < 32,
                b < 32,
        ;
    }
}

/// The zero word has no bit set.
pub proof fn lemma_zero(j: int)
    ensures
        !bit(0u32, j),
{
    if 0 <= j < 32 {
        let b = j as u32;
        assert((0u32 >> b) & 1u32 == 0u32) by (bit_vector)
            requires
                b < 32,
        ;
    }
}

/// Replacing a field changes that field and no other.
pub proof fn lemma_with_field(word: u32, k: int, val: u8, m: int)
    requires
        0 <= k < 4,
        0 <= m < 4,
    ensures
        field(with_field(word, k, val), m) == (if m == k { (val & 0x0fu8) as int } else { field(word, m) }),
{
    let a = (4 * k) as u32;
    let b = (4 * m) as u32;
    assert((((word & !(0x0fu32 << a)) | (((val as u32) & 0x0fu32) << a)) >> b) & 0x0fu32 == (if b
        == a { (val & 0x0fu8) as u32 } else { (word >> b) & 0x0fu32 })) by (bit_vector)
        requires
            a == 0 || a == 4 || a == 8 || a == 12,
            b == 0 || b == 4 || b == 8 || b == 12,
    ;
}

/// Reads bit `n` of `word`.
pub fn get_bit(word: u32, n: u8) -> (r: bool)
    requires
        n < 32,
    ensures
        r == bits(word).contains(n as int),
{
    lines_line(word, n as usize)
}

/// Replaces bit `n` of `word` by `val`.
pub fn set_bit(word: u32, n: u8, val: bool) -> (r: u32)
    requires
        n < 32,
    ensures
        bits(r) == (if val { bits(word).insert(n as int) } else { bits(word).remove(n as int) }),
{
    let r = lines_set_line(word, n as usize, val);
    proof {
        assert forall|j: int| bit(r, j) == (if j == n as int { val } else { bit(word, j) }) by {
            lemma_with_bit(word, n as int, val, j);
        }
        assert(bits(r) =~= (if val { bits(word).insert(n as int) } else { bits(word).remove(n as int) }));
    }
    r
}

} // verus!
