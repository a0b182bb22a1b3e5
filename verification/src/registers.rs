//! The register interface: the routing words of the system-configuration
//! controller and the trigger, pending and mask registers of the
//! external-interrupt block, with their read-modify-write semantics.
use crate::bits::{
    bit, bits, exticr_exti, exticr_set_exti, field, get_bit, lemma_clear_written, lemma_single,
    lemma_with_field, lemma_zero, lines_set_line, set_bit, single, with_field,
};
use crate::line::{Edge, Line, Port, Vector};
use vstd::prelude::*;

verus! {

/// What the registers hold, line by line.
pub struct RegistersView {
    /// The port that each of the sixteen lines is routed to.
    pub route: Seq<int>,
    /// The lines whose rising edges are latched.
    pub rising: Set<int>,
    /// The lines whose falling edges are latched.
    pub falling: Set<int>,
    /// The lines with a latched edge that was not acknowledged yet.
    pub pending: Set<int>,
    /// The lines whose pending edges are escalated to the interrupt
    /// controller.
    pub mask: Set<int>,
}

impl RegistersView {
    /// The state after reset: every line routed to port 0, nothing armed,
    /// pending or unmasked.
    pub open spec fn reset() -> RegistersView {
        RegistersView {
            route: Seq::new(16, |l: int| 0int),
            rising: Set::empty(),
            falling: Set::empty(),
            pending: Set::empty(),
            mask: Set::empty(),
        }
    }

    /// Whether `line` latches edges of direction `edge`.
    pub open spec fn armed_for(self, line: int, edge: Edge) -> bool {
        match edge {
            Edge::Rising => self.rising.contains(line),
            Edge::Falling => self.falling.contains(line),
        }
    }

    /// What the hardware does on an edge on `line`: the pending bit is set
    /// where the edge's direction is armed, whatever the mask says.
    pub open spec fn latch(self, line: int, edge: Edge) -> RegistersView {
        if self.armed_for(line, edge) {
            RegistersView { pending: self.pending.insert(line), ..self }
        } else {
            self
        }
    }

    /// Whether some line of `vector` is pending and unmasked, so that the
    /// block asks the interrupt controller for `vector`.
    pub open spec fn requests(self, vector: Vector) -> bool {
        exists|l: int|
            0 <= l < 16 && Vector::of_line(l) == vector && self.pending.contains(l)
                && #[trigger] self.mask.contains(l)
    }
}

/// The routing word `word` with the field of `line` set to `port`.
pub fn route_word(word: u32, line: Line, port: Port) -> (r: u32)
    requires
        line.wf(),
        port.wf(),
    ensures
        forall|k: int| 0 <= k < 4 ==> #[trigger] field(r, k) == (if k == line@ % 4 { port@ } else { field(word, k) }),
        r == with_field(word, line@ % 4, port@ as u8),
{
    let k = line.slot();
    let val = port.index();
    let r = exticr_set_exti(word, k as usize, val);
    proof {
        assert(val & 0x0fu8 == val) by (bit_vector)
            requires
                val < 16,
        ;
        assert forall|m: int| 0 <= m < 4 implies #[trigger] field(r, m) == (if m == line@ % 4 {
            port@
        } else {
            field(word, m)
        }) by {
            lemma_with_field(word, k as int, val, m);
        }
    }
    r
}

/// The word to write to the pending register to acknowledge `line` and no
/// other line: the register is write-one-to-clear.
pub fn acknowledge_word(line: Line) -> (r: u32)
    requires
        line.wf(),
    ensures
        bits(r) == set![line@],
        r == single(line@),
{
    let r = lines_set_line(0, line.index() as usize, true);
    proof {
        let n = line@ as u32;
        assert((0u32 & !(1u32 << n)) | (1u32 << n) == 1u32 << n) by (bit_vector);
        assert forall|j: int| bit(r, j) == (j == line@) by {
            lemma_single(line@, j);
        }
        assert(bits(r) =~= set![line@]);
    }
    r
}

/// What a write of `written` leaves of the pending register `pending`: the
/// bits written as one are cleared, the others are kept.
pub fn pending_after_write(pending: u32, written: u32) -> (r: u32)
    ensures
        bits(r) == bits(pending).difference(bits(written)),
{
    let r = pending & !written;
    proof {
        assert forall|j: int| bit(r, j) == (bit(pending, j) && !bit(written, j)) by {
            lemma_clear_written(pending, written, j);
        }
        assert(bits(r) =~= bits(pending).difference(bits(written)));
    }
    r
}

/// The configuration and external-interrupt registers of one device.
#[derive(Clone, Copy, Debug)]
pub struct Registers {
    exticr: [u32; 4],
    rtsr: u32,
    ftsr: u32,
    pr: u32,
    imr: u32,
}

impl Registers {
    /// What the registers hold, line by line.
    pub closed spec fn view(&self) -> RegistersView {
        RegistersView {
            route: Seq::new(16, |l: int| field(self.exticr@[l / 4], l % 4)),
            rising: bits(self.rtsr),
            falling: bits(self.ftsr),
            pending: bits(self.pr),
            mask: bits(self.imr),
        }
    }

    /// The registers after reset.
    pub fn new() -> (r: Registers)
        ensures
            r@ == RegistersView::reset(),
    {
        let r = Registers { exticr: [0u32; 4], rtsr: 0, ftsr: 0, pr: 0, imr: 0 };
        proof {
            assert(0u32 >> 0u32 & 0x0fu32 == 0 && 0u32 >> 4u32 & 0x0fu32 == 0 && 0u32 >> 8u32
                & 0x0fu32 == 0 && 0u32 >> 12u32 & 0x0fu32 == 0) by (bit_vector);
            assert forall|j: int| !bit(0u32, j) by {
                lemma_zero(j);
            }
            assert(r@.route =~= RegistersView::reset().route);
            assert(bits(0u32) =~= Set::<int>::empty());
        }
        r
    }

    /// The registers that hold the given words: the four routing words, then
    /// rising trigger, falling trigger, pending and mask.
    pub fn from_words(exticr: [u32; 4], rtsr: u32, ftsr: u32, pr: u32, imr: u32) -> (r: Registers)
        ensures
            r@.rising == bits(rtsr),
            r@.falling == bits(ftsr),
            r@.pending == bits(pr),
            r@.mask == bits(imr),
            r@.route == Seq::new(16, |l: int| field(exticr@[l / 4], l % 4)),
    {
        Registers { exticr, rtsr, ftsr, pr, imr }
    }

    /// Routes `line` to pin `line` of `port`. The other lines keep their
    /// ports.
    pub fn route(&mut self, line: Line, port: Port)
        requires
            line.wf(),
            port.wf(),
        ensures
            final(self)@ == (RegistersView { route: old(self)@.route.update(line@, port@), ..old(self)@ }),
    {
        let g = line.group() as usize;
        let word = self.exticr[g];
        let routed = route_word(word, line, port);
        self.exticr[g] = routed;
        proof {
            assert forall|l: int| 0 <= l < 16 implies #[trigger] self@.route[l] == old(self)@.route.update(
                line@,
                port@,
            )[l] by {
                if l / 4 == g as int {
                    assert(field(routed, l % 4) == (if l % 4 == line@ % 4 {
                        port@
                    } else {
                        field(word, l % 4)
                    }));
                }
            }
            assert(self@.route =~= old(self)@.route.update(line@, port@));
        }
    }

    /// The port that `line` is routed to.
    pub fn routed_port(&self, line: Line) -> (r: u8)
        requires
            line.wf(),
        ensures
            r == self@.route[line@],
    {
        let g = line.group() as usize;
        exticr_exti(self.exticr[g], line.slot() as usize)
    }

    /// Arms or disarms the latching of rising edges on `line`.
    pub fn set_rising(&mut self, line: Line, enabled: bool)
        requires
            line.wf(),
        ensures
            final(self)@ == (RegistersView {
                rising: if enabled {
                    old(self)@.rising.insert(line@)
                } else {
                    old(self)@.rising.remove(line@)
                },
                ..old(self)@
            }),
    {
        self.rtsr = set_bit(self.rtsr, line.index(), enabled);
    }

    /// Arms or disarms the latching of falling edges on `line`.
    pub fn set_falling(&mut self, line: Line, enabled: bool)
        requires
            line.wf(),
        ensures
            final(self)@ == (RegistersView {
                falling: if enabled {
                    old(self)@.falling.insert(line@)
                } else {
                    old(self)@.falling.remove(line@)
                },
                ..old(self)@
            }),
    {
        self.ftsr = set_bit(self.ftsr, line.index(), enabled);
    }

    /// Opens or closes the line-level gate of `line`.
    pub fn set_mask(&mut self, line: Line, enabled: bool)
        requires
            line.wf(),
        ensures
            final(self)@ == (RegistersView {
                mask: if enabled {
                    old(self)@.mask.insert(line@)
                } else {
                    old(self)@.mask.remove(line@)
                },
                ..old(self)@
            }),
    {
        self.imr = set_bit(self.imr, line.index(), enabled);
    }

    /// Whether rising edges on `line` are latched.
    pub fn rising(&self, line: Line) -> (r: bool)
        requires
            line.wf(),
        ensures
            r == self@.rising.contains(line@),
    {
        get_bit(self.rtsr, line.index())
    }

    /// Whether falling edges on `line` are latched.
    pub fn falling(&self, line: Line) -> (r: bool)
        requires
            line.wf(),
        ensures
            r == self@.falling.contains(line@),
    {
        get_bit(self.ftsr, line.index())
    }

    /// Whether the line-level gate of `line` is open.
    pub fn mask(&self, line: Line) -> (r: bool)
        requires
            line.wf(),
        ensures
            r == self@.mask.contains(line@),
    {
        get_bit(self.imr, line.index())
    }

    /// Whether an edge on `line` was latched and not acknowledged yet.
    pub fn pending(&self, line: Line) -> (r: bool)
        requires
            line.wf(),
        ensures
            r == self@.pending.contains(line@),
    {
        get_bit(self.pr, line.index())
    }

    /// A write of `written` to the pending register: every line written as
    /// one is acknowledged, every other line is left as it is.
    pub fn write_pending(&mut self, written: u32)
        ensures
            final(self)@ == (RegistersView {
                pending: old(self)@.pending.difference(bits(written)),
                ..old(self)@
            }),
    {
        self.pr = pending_after_write(self.pr, written);
    }

    /// Acknowledges `line`: its pending bit is cleared, and no other.
    pub fn clear_pending(&mut self, line: Line)
        requires
            line.wf(),
        ensures
            final(self)@ == (RegistersView { pending: old(self)@.pending.remove(line@), ..old(self)@ }),
            forall|other: int| other != line@ ==> final(self)@.pending.contains(other) == old(self)@.pending.contains(other),
    {
        let word = acknowledge_word(line);
        self.write_pending(word);
        proof {
            assert(old(self)@.pending.difference(set![line@]) =~= old(self)@.pending.remove(line@));
        }
    }

    /// What the hardware does on an edge on `line`: the pending bit is set
    /// where the edge's direction is armed, whatever the mask says. Returns
    /// whether the edge was latched.
    pub fn latch(&mut self, line: Line, edge: Edge) -> (latched: bool)
        requires
            line.wf(),
        ensures
            latched == old(self)@.armed_for(line@, edge),
            final(self)@ == old(self)@.latch(line@, edge),
    {
        let armed = match edge {
            Edge::Rising => self.rising(line),
            Edge::Falling => self.falling(line),
        };
        if armed {
            self.pr = set_bit(self.pr, line.index(), true);
        }
        armed
    }

    /// Whether some line of `vector` is pending and unmasked.
    pub fn requests(&self, vector: Vector) -> (r: bool)
        ensures
            r == self@.requests(vector),
    {
        let mut found = false;
        let mut i: u8 = 0;
        while i < 16
            invariant
                i <= 16,
                found == (exists|l: int|
                    0 <= l < i && Vector::of_line(l) == vector && self@.pending.contains(l)
                        && #[trigger] self@.mask.contains(l)),
            decreases 16 - i,
        {
            let line = Line::new(i).unwrap();
            if line.vector() == vector && self.pending(line) && self.mask(line) {
                found = true;
            }
            i = i + 1;
        }
        found
    }

    /// The pending register's word.
    pub fn pending_word(&self) -> (r: u32)
        ensures
            bits(r) == self@.pending,
    {
        self.pr
    }

    /// The rising trigger register's word.
    pub fn rising_word(&self) -> (r: u32)
        ensures
            bits(r) == self@.rising,
    {
        self.rtsr
    }

    /// The falling trigger register's word.
    pub fn falling_word(&self) -> (r: u32)
        ensures
            bits(r) == self@.falling,
    {
        self.ftsr
    }

    /// The routing word of the lines `4 * group` to `4 * group + 3`.
    pub fn routing_word(&self, group: u8) -> (r: u32)
        requires
            group < 4,
        ensures
            forall|k: int| 0 <= k < 4 ==> #[trigger] field(r, k) == self@.route[4 * group + k],
    {
        let r = self.exticr[group as usize];
        proof {
            assert forall|k: int| 0 <= k < 4 implies #[trigger] field(r, k) == self@.route[4 * group
                + k] by {
                assert((4 * group + k) / 4 == group as int);
                assert((4 * group + k) % 4 == k);
            }
        }
        r
    }

    /// The mask register's word.
    pub fn mask_word(&self) -> (r: u32)
        ensures
            bits(r) == self@.mask,
    {
        self.imr
    }
}

} // verus!
