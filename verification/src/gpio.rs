//! The GPIO registers of one port: the input data register, the bit
//! set/reset register that drives the outputs, and the mode, output type and
//! pull configuration of each pin. A pin's index is the index of the line
//! that it can be routed to.
use crate::bits::{bit, bits, lemma_single, lemma_with_bit, single, with_bit};
use crate::line::{Level, Line, Pull};
use stm32_metapac::gpio::regs::{Bsrr, Idr, Moder, Otyper, Pupdr};
use stm32_metapac::gpio::vals;
use vstd::prelude::*;

verus! {

/// What a pin is used for.
#[derive(Clone, Copy, Debug, PartialEq, Eq, Structural)]
pub enum Mode {
    Input,
    Output,
    Alternate,
    Analog,
}

impl Mode {
    /// The two bits that stand for the mode in the mode register.
    pub open spec fn code(self) -> int {
        match self {
            Mode::Input => 0,
            Mode::Output => 1,
            Mode::Alternate => 2,
            Mode::Analog => 3,
        }
    }
}

/// How an output pin drives its line.
#[derive(Clone, Copy, Debug, PartialEq, Eq, Structural)]
pub enum OutputType {
    PushPull,
    OpenDrain,
}

/// The two bits that stand for `pull` in the pull register.
pub open spec fn pull_code(pull: Pull) -> int {
    match pull {
        Pull::Floating => 0,
        Pull::Up => 1,
        Pull::Down => 2,
    }
}

/// How an output follows an input.
#[derive(Clone, Copy, Debug, PartialEq, Eq, Structural)]
pub enum Follow {
    /// The output is at the input's level.
    Same,
    /// The output is at the other level.
    Opposite,
}

/// The two-bit field of pin `n` in a mode or pull register.
pub open spec fn pair(word: u32, n: int) -> int {
    ((word >> ((2 * n) as u32)) & 0x03u32) as int
}

/// The word with the two-bit field of pin `n` replaced by `code`.
pub open spec fn with_pair(word: u32, n: int, code: int) -> u32 {
    (word & !(0x03u32 << ((2 * n) as u32))) | (((code as u32) & 0x03u32) << ((2 * n) as u32))
}

/// The level of pin `n` in the input data word `idr`.
pub open spec fn level_at(idr: u32, n: int) -> Level {
    if bit(idr, n) {
        Level::High
    } else {
        Level::Low
    }
}

/// The bit of the set/reset register that drives pin `n` to `level`: the
/// low half sets, the high half resets.
pub open spec fn drive_bit(n: int, level: Level) -> int {
    match level {
        Level::High => n,
        Level::Low => n + 16,
    }
}

/// `stm32_metapac::gpio::regs::Idr::idr`: the level of pin `n` is bit `n` of
/// the input data word, one for high. The outside function panics for
/// `n >= 16`.
#[verifier::external_body]
fn idr_idr(word: u32, n: usize) -> (r: Level)
    requires
        n < 16,
    ensures
        r == level_at(word, n as int),
{
    match Idr(word).idr(n) {
        vals::Idr::LOW => Level::Low,
        vals::Idr::HIGH => Level::High,
    }
}

/// `stm32_metapac::gpio::regs::Bsrr::set_bs`: the set bit of pin `n` is bit
/// `n` of the word. The outside function panics for `n >= 16`.
#[verifier::external_body]
fn bsrr_set_bs(word: u32, n: usize, val: bool) -> (r: u32)
    requires
        n < 16,
    ensures
        r == with_bit(word, n as int, val),
{
    let mut reg = Bsrr(word);
    reg.set_bs(n, val);
    reg.0
}

/// `stm32_metapac::gpio::regs::Bsrr::set_br`: the reset bit of pin `n` is
/// bit `n + 16` of the word. The outside function panics for `n >= 16`.
#[verifier::external_body]
fn bsrr_set_br(word: u32, n: usize, val: bool) -> (r: u32)
    requires
        n < 16,
    ensures
        r == with_bit(word, n as int + 16, val),
{
    let mut reg = Bsrr(word);
    reg.set_br(n, val);
    reg.0
}

/// `stm32_metapac::gpio::regs::Moder::set_moder`: the two-bit field of pin
/// `n` is replaced by the mode's code, the rest of the word is kept. The
/// outside function panics for `n >= 16`.
#[verifier::external_body]
fn moder_set_moder(word: u32, n: usize, mode: Mode) -> (r: u32)
    requires
        n < 16,
    ensures
        r == with_pair(word, n as int, mode.code()),
{
    let mut reg = Moder(word);
    reg.set_moder(
        n,
        match mode {
            Mode::Input => vals::Moder::INPUT,
            Mode::Output => vals::Moder::OUTPUT,
            Mode::Alternate => vals::Moder::ALTERNATE,
            Mode::Analog => vals::Moder::ANALOG,
        },
    );
    reg.0
}

/// `stm32_metapac::gpio::regs::Pupdr::set_pupdr`: the two-bit field of pin
/// `n` is replaced by the pull's code, the rest of the word is kept. The
/// outside function panics for `n >= 16`.
#[verifier::external_body]
fn pupdr_set_pupdr(word: u32, n: usize, pull: Pull) -> (r: u32)
    requires
        n < 16,
    ensures
        r == with_pair(word, n as int, pull_code(pull)),
{
    let mut reg = Pupdr(word);
    reg.set_pupdr(
        n,
        match pull {
            Pull::Floating => vals::Pupdr::FLOATING,
            Pull::Up => vals::Pupdr::PULL_UP,
            Pull::Down => vals::Pupdr::PULL_DOWN,
        },
    );
    reg.0
}

/// `stm32_metapac::gpio::regs::Otyper::set_ot`: bit `n` of the word is set
/// for open drain and cleared for push-pull, the rest of the word is kept.
/// The outside function panics for `n >= 16`.
#[verifier::external_body]
fn otyper_set_ot(word: u32, n: usize, kind: OutputType) -> (r: u32)
    requires
        n < 16,
    ensures
        r == with_bit(word, n as int, kind == OutputType::OpenDrain),
{
    let mut reg = Otyper(word);
    reg.set_ot(
        n,
        match kind {
            OutputType::PushPull => vals::Ot::PUSH_PULL,
            OutputType::OpenDrain => vals::Ot::OPEN_DRAIN,
        },
    );
    reg.0
}

/// Replacing a two-bit field changes that field and no other.
pub proof fn lemma_with_pair(word: u32, n: int, code: int, m: int)
    requires
        0 <= n < 16,
        0 <= m < 16,
        0 <= code < 4,
    ensures
        pair(with_pair(word, n, code), m) == (if m == n { code } else { pair(word, m) }),
{
    let a = (2 * n) as u32;
    let b = (2 * m) as u32;
    let c = code as u32;
    assert((((word & !(0x03u32 << a)) | ((c & 0x03u32) << a)) >> b) & 0x03u32 == (if b == a {
        c
    } else {
        (word >> b) & 0x03u32
    })) by (bit_vector)
        requires
            a < 32 && a % 2 == 0,
            b < 32 && b % 2 == 0,
            c < 4,
    ;
}

/// The level of pin `pin` in the input data word `idr`.
pub fn read_level(idr: u32, pin: Line) -> (r: Level)
    requires
        pin.wf(),
    ensures
        r == level_at(idr, pin@),
{
    idr_idr(idr, pin.index() as usize)
}

/// The word to write to the set/reset register to drive pin `pin` to
/// `level` and leave every other pin as it is.
pub fn drive_word(pin: Line, level: Level) -> (r: u32)
    requires
        pin.wf(),
    ensures
        bits(r) == set![drive_bit(pin@, level)],
        r == single(drive_bit(pin@, level)),
{
    let r = match level {
        Level::High => bsrr_set_bs(0, pin.index() as usize, true),
        Level::Low => bsrr_set_br(0, pin.index() as usize, true),
    };
    proof {
        let n = drive_bit(pin@, level) as u32;
        assert((0u32 & !(1u32 << n)) | (1u32 << n) == 1u32 << n) by (bit_vector);
        assert forall|j: int| bit(r, j) == (j == drive_bit(pin@, level)) by {
            lemma_single(drive_bit(pin@, level), j);
        }
        assert(bits(r) =~= set![drive_bit(pin@, level)]);
    }
    r
}

/// What a write of `written` to the set/reset register leaves of the output
/// data word `odr`: a pin whose set bit is written goes high, one whose
/// reset bit alone is written goes low, every other pin stays.
pub fn output_after_write(odr: u32, written: u32) -> (r: u32)
    ensures
        forall|n: int|
            0 <= n < 16 ==> #[trigger] level_at(r, n) == (if bit(written, n) {
                Level::High
            } else if bit(written, n + 16) {
                Level::Low
            } else {
                level_at(odr, n)
            }),
{
    let r = (odr & !(written >> 16)) | (written & 0xffff);
    proof {
        assert forall|n: int| 0 <= n < 16 implies #[trigger] level_at(r, n) == (if bit(written, n) {
            Level::High
        } else if bit(written, n + 16) {
            Level::Low
        } else {
            level_at(odr, n)
        }) by {
            let a = n as u32;
            let h = (n + 16) as u32;
            assert((((odr & !(written >> 16)) | (written & 0xffff)) >> a) & 1u32 == 1u32 <==> (if (
            written >> a) & 1u32 == 1u32 {
                true
            } else if (written >> h) & 1u32 == 1u32 {
                false
            } else {
                (odr >> a) & 1u32 == 1u32
            })) by (bit_vector)
                requires
                    a < 16,
                    h == a + 16,
            ;
        }
    }
    r
}

/// The mode word `word` with pin `pin` set to `mode`; the other pins keep
/// their modes.
pub fn mode_word(word: u32, pin: Line, mode: Mode) -> (r: u32)
    requires
        pin.wf(),
    ensures
        forall|m: int|
            0 <= m < 16 ==> #[trigger] pair(r, m) == (if m == pin@ {
                mode.code()
            } else {
                pair(word, m)
            }),
{
    let r = moder_set_moder(word, pin.index() as usize, mode);
    proof {
        assert forall|m: int| 0 <= m < 16 implies #[trigger] pair(r, m) == (if m == pin@ {
            mode.code()
        } else {
            pair(word, m)
        }) by {
            lemma_with_pair(word, pin@, mode.code(), m);
        }
    }
    r
}

/// The pull word `word` with pin `pin` set to `pull`; the other pins keep
/// their pulls.
pub fn pull_word(word: u32, pin: Line, pull: Pull) -> (r: u32)
    requires
        pin.wf(),
    ensures
        forall|m: int|
            0 <= m < 16 ==> #[trigger] pair(r, m) == (if m == pin@ {
                pull_code(pull)
            } else {
                pair(word, m)
            }),
{
    let r = pupdr_set_pupdr(word, pin.index() as usize, pull);
    proof {
        assert forall|m: int| 0 <= m < 16 implies #[trigger] pair(r, m) == (if m == pin@ {
            pull_code(pull)
        } else {
            pair(word, m)
        }) by {
            lemma_with_pair(word, pin@, pull_code(pull), m);
        }
    }
    r
}

/// The output type word `word` with pin `pin` set to `kind`; the other pins
/// keep their types.
pub fn type_word(word: u32, pin: Line, kind: OutputType) -> (r: u32)
    requires
        pin.wf(),
    ensures
        bits(r) == (if kind == OutputType::OpenDrain {
            bits(word).insert(pin@)
        } else {
            bits(word).remove(pin@)
        }),
{
    let r = otyper_set_ot(word, pin.index() as usize, kind);
    proof {
        let val = kind == OutputType::OpenDrain;
        assert forall|j: int| bit(r, j) == (if j == pin@ { val } else { bit(word, j) }) by {
            lemma_with_bit(word, pin@, val, j);
        }
        assert(bits(r) =~= (if val { bits(word).insert(pin@) } else { bits(word).remove(pin@) }));
    }
    r
}

/// The level that an output takes for the level `input` of its input.
pub open spec fn output_for_spec(rule: Follow, input: Level) -> Level {
    match rule {
        Follow::Same => input,
        Follow::Opposite => input.negation(),
    }
}

/// The level that an output takes for the level `input` of its input.
pub fn output_for(rule: Follow, input: Level) -> (r: Level)
    ensures
        r == output_for_spec(rule, input),
{
    match rule {
        Follow::Same => input,
        Follow::Opposite => input.negate(),
    }
}

/// One turn of a polling loop: from the input data word of the button's
/// port, the word to write to the set/reset register of the output's port,
/// so that the output follows the button by `rule`.
pub fn poll(idr: u32, button: Line, led: Line, rule: Follow) -> (r: u32)
    requires
        button.wf(),
        led.wf(),
    ensures
        bits(r) == set![drive_bit(led@, output_for_spec(rule, level_at(idr, button@)))],
{
    drive_word(led, output_for(rule, read_level(idr, button)))
}

} // verus!
