//! The edge-triggered input controller: one input line, one output pin, the
//! registers and the interrupt controller between them, and the routine that
//! serves the line's interrupt.
//!
//! Two gates stand between a latched edge and the routine: the line's mask
//! bit in the registers and the vector's enable flag in the interrupt
//! controller. The routine runs only where both are open.
use crate::bits::{bits, get_bit, single};
use crate::line::{Edge, InputLine, Level, Pull, Vector};
use crate::nvic::{Nvic, NvicView};
use crate::registers::{acknowledge_word, Registers, RegistersView};
use vstd::prelude::*;

verus! {

/// The level that the output pin is constructed with.
pub open spec fn initial_output() -> Level {
    Level::Low
}

/// The pull configuration that the input pin is constructed with.
pub open spec fn initial_pull() -> Pull {
    Pull::Up
}

/// Where the served line stands between an edge and its service.
#[derive(Clone, Copy, Debug, PartialEq, Eq, Structural)]
pub enum LineState {
    /// No edge is pending.
    Idle,
    /// An edge is pending and one of the two gates is closed: the edge is
    /// recorded and its delivery is held back.
    PendingMasked,
    /// An edge is pending and both gates are open: the service routine runs
    /// at the hardware's next turn.
    Servicing,
}

/// The whole state of the controller.
#[verifier::ext_equal]
pub struct State {
    /// The input that is served.
    pub config: InputLine,
    pub regs: RegistersView,
    pub nvic: NvicView,
    /// The output pin's handle, once constructed: the level that it drives.
    pub led: Option<Level>,
    /// The input pin's handle, once constructed: its pull configuration.
    pub button: Option<Pull>,
    /// The level that is present on the input pin.
    pub level: Level,
}

impl State {
    /// The served line.
    pub open spec fn line(self) -> int {
        self.config.line@
    }

    /// The vector that the served line is escalated to.
    pub open spec fn vector(self) -> Vector {
        Vector::of_line(self.line())
    }

    /// Both pin handles are constructed.
    pub open spec fn initialized(self) -> bool {
        self.led.is_some() && self.button.is_some()
    }

    /// The served line is valid, and its vector is enabled only where both
    /// pin handles are constructed.
    pub open spec fn wf(self) -> bool {
        self.config.wf() && (self.nvic.enabled.contains(self.vector()) ==> self.initialized())
    }

    /// Both gates are open for the served line.
    pub open spec fn open_gates(self) -> bool {
        self.regs.mask.contains(self.line()) && self.nvic.enabled.contains(self.vector())
    }

    /// An edge on the served line is latched and not acknowledged yet.
    pub open spec fn pending(self) -> bool {
        self.regs.pending.contains(self.line())
    }

    /// Where the served line stands.
    pub open spec fn line_state(self) -> LineState {
        if !self.pending() {
            LineState::Idle
        } else if self.open_gates() {
            LineState::Servicing
        } else {
            LineState::PendingMasked
        }
    }

    /// The state after reset, with `level` on the input pin.
    pub open spec fn reset(config: InputLine, level: Level) -> State {
        State {
            config,
            regs: RegistersView::reset(),
            nvic: NvicView::reset(),
            led: None,
            button: None,
            level,
        }
    }

    /// The state after the initialisation: both handles constructed, then the
    /// vector cleared of a stale request and enabled.
    pub open spec fn setup(self) -> State {
        State {
            led: Some(initial_output()),
            button: Some(initial_pull()),
            nvic: NvicView {
                enabled: self.nvic.enabled.insert(self.vector()),
                pending: self.nvic.pending.remove(self.vector()),
            },
            ..self
        }
    }

    /// The state after the line was armed: routed to its port, its triggers
    /// set as configured, a stale pending bit acknowledged, its mask bit
    /// set.
    pub open spec fn enable(self) -> State {
        let l = self.line();
        State {
            regs: RegistersView {
                route: self.regs.route.update(l, self.config.port@),
                rising: if self.config.trigger.rising_spec() {
                    self.regs.rising.insert(l)
                } else {
                    self.regs.rising.remove(l)
                },
                falling: if self.config.trigger.falling_spec() {
                    self.regs.falling.insert(l)
                } else {
                    self.regs.falling.remove(l)
                },
                pending: self.regs.pending.remove(l),
                mask: self.regs.mask.insert(l),
            },
            ..self
        }
    }

    /// The state after the level on the input pin became `level`: where the
    /// level changed, the edge is latched if its direction is armed.
    pub open spec fn sense(self, level: Level) -> State {
        let regs = match Edge::between_spec(self.level, level) {
            Some(edge) => self.regs.latch(self.line(), edge),
            None => self.regs,
        };
        State { regs, level, ..self }
    }

    /// The state after the registers' request reached the interrupt
    /// controller.
    pub open spec fn raise(self) -> State {
        if self.regs.requests(self.vector()) {
            State {
                nvic: NvicView { pending: self.nvic.pending.insert(self.vector()), ..self.nvic },
                ..self
            }
        } else {
            self
        }
    }

    /// Whether the processor enters the service routine.
    pub open spec fn delivers(self) -> bool {
        self.raise().nvic.takes(self.vector())
    }

    /// The state after one run of the service routine.
    pub open spec fn service(self) -> State {
        if self.pending() {
            State {
                led: Some(self.level.negation()),
                regs: RegistersView { pending: self.regs.pending.remove(self.line()), ..self.regs },
                nvic: NvicView { pending: self.nvic.pending.remove(self.vector()), ..self.nvic },
                ..self
            }
        } else {
            self
        }
    }

    /// The state after the hardware had its turn: a request reaches the
    /// interrupt controller, and where the vector is enabled the processor
    /// enters the service routine, which clears the vector's pending flag.
    pub open spec fn dispatch(self) -> State {
        let raised = self.raise();
        if raised.nvic.takes(self.vector()) {
            (State {
                nvic: NvicView { pending: raised.nvic.pending.remove(self.vector()), ..raised.nvic },
                ..raised
            }).service()
        } else {
            raised
        }
    }

    /// The state after the level on the input pin became `level` and the
    /// hardware had its turn.
    pub open spec fn edge(self, level: Level) -> State {
        self.sense(level).dispatch()
    }

    /// How often the service routine is entered while the input pin takes
    /// the levels of `levels` in turn.
    pub open spec fn entries(self, levels: Seq<Level>) -> nat
        decreases levels.len(),
    {
        if levels.len() == 0 {
            0
        } else {
            let before = self.run(levels.drop_last());
            let entered: nat = if before.sense(levels.last()).delivers() {
                1
            } else {
                0
            };
            self.entries(levels.drop_last()) + entered
        }
    }

    /// The state after the input pin took the levels of `levels` in turn.
    pub open spec fn run(self, levels: Seq<Level>) -> State
        decreases levels.len(),
    {
        if levels.len() == 0 {
            self
        } else {
            self.run(levels.drop_last()).edge(levels.last())
        }
    }
}

/// What the service routine does for one entry.
#[derive(Clone, Copy, Debug, PartialEq, Eq, Structural)]
pub struct Response {
    /// The level to drive the output pin to.
    pub drive: Level,
    /// The word to write to the pending register.
    pub acknowledge: u32,
    /// The vector to clear of a pending request.
    pub unpend: Vector,
}

/// The service routine's decision, from the pending register's word and the
/// level read from the input pin: nothing where `line` is not pending;
/// otherwise drive the output to the other level, acknowledge `line` alone
/// and clear the vector's pending flag. The line's mask bit plays no part in
/// it: the output follows every pending edge.
pub fn respond(pending: u32, input: InputLine, level: Level) -> (r: Option<Response>)
    requires
        input.wf(),
    ensures
        r.is_some() == bits(pending).contains(input.line@),
        r matches Some(response) ==> response.drive == level.negation() && response.acknowledge
            == single(input.line@) && bits(response.acknowledge) == set![input.line@]
            && response.unpend == Vector::of_line(input.line@),
{
    if get_bit(pending, input.line.index()) {
        Some(
            Response {
                drive: level.negate(),
                acknowledge: acknowledge_word(input.line),
                unpend: input.vector(),
            },
        )
    } else {
        None
    }
}

/// The controller: registers, interrupt controller, the two pin handles and
/// the level on the input pin. There is one owner of the pin handles at a
/// time, so a controller is moved, never copied.
#[derive(Debug)]
pub struct Controller {
    config: InputLine,
    regs: Registers,
    nvic: Nvic,
    led: Option<Level>,
    button: Option<Pull>,
    level: Level,
}

impl Controller {
    /// The controller's state.
    pub closed spec fn view(&self) -> State {
        State {
            config: self.config,
            regs: self.regs@,
            nvic: self.nvic@,
            led: self.led,
            button: self.button,
            level: self.level,
        }
    }

    /// The controller after reset, for the input `config` and with `level`
    /// on the input pin: no handle constructed, nothing armed or enabled.
    pub fn new(config: InputLine, level: Level) -> (r: Controller)
        requires
            config.wf(),
        ensures
            r@ == State::reset(config, level),
            r@.wf(),
    {
        Controller {
            config,
            regs: Registers::new(),
            nvic: Nvic::new(),
            led: None,
            button: None,
            level,
        }
    }

    /// The initialisation, which runs with all interrupts disabled: the
    /// output pin is constructed at its initial level and the input pin with
    /// its pull, both are stored, and only then the vector is cleared of a
    /// stale request and enabled.
    pub fn setup(&mut self)
        requires
            old(self)@.wf(),
        ensures
            final(self)@ == old(self)@.setup(),
            final(self)@.wf(),
            final(self)@.initialized(),
    {
        self.led = Some(Level::Low);
        self.button = Some(Pull::Up);
        let vector = self.config.vector();
        self.nvic.unpend(vector);
        self.unmask_vector();
        proof {
            assert(self@.nvic =~= old(self)@.setup().nvic);
        }
    }

    /// Arms the line: routes it to its port, sets its triggers as
    /// configured, acknowledges a stale pending bit and sets its mask bit.
    pub fn enable_button(&mut self)
        requires
            old(self)@.wf(),
        ensures
            final(self)@ == old(self)@.enable(),
            final(self)@.wf(),
    {
        let line = self.config.line;
        self.regs.route(line, self.config.port);
        self.regs.set_rising(line, self.config.trigger.rising());
        self.regs.set_falling(line, self.config.trigger.falling());
        self.regs.clear_pending(line);
        self.regs.set_mask(line, true);
    }

    /// Opens or closes the line-level gate of the served line.
    pub fn set_line_mask(&mut self, enabled: bool)
        requires
            old(self)@.wf(),
        ensures
            final(self)@ == (State {
                regs: RegistersView {
                    mask: if enabled {
                        old(self)@.regs.mask.insert(old(self)@.line())
                    } else {
                        old(self)@.regs.mask.remove(old(self)@.line())
                    },
                    ..old(self)@.regs
                },
                ..old(self)@
            }),
            final(self)@.wf(),
    {
        self.regs.set_mask(self.config.line, enabled);
    }

    /// Closes the vector-level gate.
    pub fn mask_vector(&mut self)
        requires
            old(self)@.wf(),
        ensures
            final(self)@ == (State {
                nvic: NvicView {
                    enabled: old(self)@.nvic.enabled.remove(old(self)@.vector()),
                    ..old(self)@.nvic
                },
                ..old(self)@
            }),
            final(self)@.wf(),
    {
        let vector = self.config.vector();
        self.nvic.mask(vector);
    }

    /// Opens the vector-level gate. Both handles must be constructed by
    /// then: the routine that the vector leads to uses them.
    pub fn unmask_vector(&mut self)
        requires
            old(self)@.wf(),
            old(self)@.initialized(),
        ensures
            final(self)@ == (State {
                nvic: NvicView {
                    enabled: old(self)@.nvic.enabled.insert(old(self)@.vector()),
                    ..old(self)@.nvic
                },
                ..old(self)@
            }),
            final(self)@.wf(),
    {
        let vector = self.config.vector();
        self.nvic.unmask(vector);
    }

    /// The service routine. Where the line is not pending it does nothing.
    /// Otherwise it drives the output to the opposite of the level read from
    /// the input pin, acknowledges the line and no other, and clears the
    /// vector's pending flag.
    pub fn service(&mut self)
        requires
            old(self)@.wf(),
            old(self)@.initialized(),
        ensures
            final(self)@ == old(self)@.service(),
            final(self)@.wf(),
    {
        match respond(self.regs.pending_word(), self.config, self.level) {
            Some(response) => {
                self.led = Some(response.drive);
                self.regs.write_pending(response.acknowledge);
                self.nvic.unpend(response.unpend);
                proof {
                    assert(old(self)@.regs.pending.difference(set![old(self)@.line()])
                        =~= old(self)@.regs.pending.remove(old(self)@.line()));
                }
            },
            None => {},
        }
    }

    /// The hardware's turn for a level `level` on the input pin: where the
    /// level changed, the edge is latched if its direction is armed,
    /// whatever the masks say.
    pub fn sense(&mut self, level: Level) -> (latched: bool)
        requires
            old(self)@.wf(),
        ensures
            final(self)@ == old(self)@.sense(level),
            final(self)@.wf(),
            latched == (Edge::between_spec(old(self)@.level, level) matches Some(edge)
                && old(self)@.regs.armed_for(old(self)@.line(), edge)),
    {
        let latched = match Edge::between(self.level, level) {
            Some(edge) => self.regs.latch(self.config.line, edge),
            None => false,
        };
        self.level = level;
        latched
    }

    /// The hardware's turn for what is pending: a request of the registers
    /// reaches the interrupt controller, and where the vector is enabled the
    /// service routine runs. Returns whether it ran.
    pub fn dispatch(&mut self) -> (ran: bool)
        requires
            old(self)@.wf(),
        ensures
            ran == old(self)@.delivers(),
            final(self)@ == old(self)@.dispatch(),
            final(self)@.wf(),
            ran ==> old(self)@.initialized(),
    {
        let vector = self.config.vector();
        if self.regs.requests(vector) {
            self.nvic.pend(vector);
        }
        if self.nvic.takes(vector) {
            self.nvic.unpend(vector);
            self.service();
            true
        } else {
            false
        }
    }

    /// A level `level` on the input pin, followed by the hardware's turn.
    /// Returns whether the service routine ran.
    pub fn edge(&mut self, level: Level) -> (ran: bool)
        requires
            old(self)@.wf(),
        ensures
            ran == old(self)@.sense(level).delivers(),
            final(self)@ == old(self)@.edge(level),
            final(self)@.wf(),
    {
        self.sense(level);
        self.dispatch()
    }

    /// The levels of `levels` on the input pin, in turn. Returns how often
    /// the service routine ran.
    pub fn run(&mut self, levels: &Vec<Level>) -> (count: usize)
        requires
            old(self)@.wf(),
        ensures
            final(self)@ == old(self)@.run(levels@),
            final(self)@.wf(),
            count == old(self)@.entries(levels@),
    {
        let mut count: usize = 0;
        let mut i: usize = 0;
        while i < levels.len()
            invariant
                i <= levels.len(),
                count <= i,
                count == old(self)@.entries(levels@.take(i as int)),
                self@.wf(),
                self@ == old(self)@.run(levels@.take(i as int)),
            decreases levels.len() - i,
        {
            proof {
                assert(levels@.take(i + 1).drop_last() =~= levels@.take(i as int));
            }
            if self.edge(levels[i]) {
                count = count + 1;
            }
            i = i + 1;
        }
        proof {
            assert(levels@.take(i as int) =~= levels@);
        }
        count
    }

    /// The input that is served.
    pub fn config(&self) -> (r: InputLine)
        ensures
            r == self@.config,
    {
        self.config
    }

    /// The level that the output pin drives, once it is constructed.
    pub fn output(&self) -> (r: Option<Level>)
        ensures
            r == self@.led,
    {
        self.led
    }

    /// The pull of the input pin, once it is constructed.
    pub fn pull(&self) -> (r: Option<Pull>)
        ensures
            r == self@.button,
    {
        self.button
    }

    /// The level on the input pin.
    pub fn level(&self) -> (r: Level)
        ensures
            r == self@.level,
    {
        self.level
    }

    /// Whether both pin handles are constructed.
    pub fn is_initialized(&self) -> (r: bool)
        ensures
            r == self@.initialized(),
    {
        self.led.is_some() && self.button.is_some()
    }

    /// Whether an edge on the served line is latched and not acknowledged.
    pub fn is_pending(&self) -> (r: bool)
        requires
            self@.wf(),
        ensures
            r == self@.pending(),
    {
        self.regs.pending(self.config.line)
    }

    /// Whether both gates are open for the served line.
    pub fn is_armed(&self) -> (r: bool)
        requires
            self@.wf(),
        ensures
            r == self@.open_gates(),
    {
        self.regs.mask(self.config.line) && self.nvic.is_enabled(self.config.vector())
    }

    /// Where the served line stands between an edge and its service.
    pub fn line_state(&self) -> (r: LineState)
        requires
            self@.wf(),
        ensures
            r == self@.line_state(),
    {
        if !self.is_pending() {
            LineState::Idle
        } else if self.is_armed() {
            LineState::Servicing
        } else {
            LineState::PendingMasked
        }
    }

    /// The registers.
    pub fn registers(&self) -> (r: &Registers)
        ensures
            r@ == self@.regs,
    {
        &self.regs
    }

    /// The interrupt controller.
    pub fn nvic(&self) -> (r: &Nvic)
        ensures
            r@ == self@.nvic,
    {
        &self.nvic
    }
}

} // verus!
