//! The vocabulary of the design: levels, edges, trigger modes, line and port
//! indices, the interrupt vectors, and the description of one input line.
use vstd::prelude::*;

verus! {

/// Number of external-interrupt lines that a pin can be routed to.
pub const LINES: u8 = 16;

/// Number of lines whose routing fields share one configuration word.
pub const LINES_PER_GROUP: u8 = 4;

/// A logic level on a digital pin.
#[derive(Clone, Copy, Debug, PartialEq, Eq, Structural)]
pub enum Level {
    Low,
    High,
}

impl Level {
    /// The other level.
    pub open spec fn negation(self) -> Level {
        match self {
            Level::Low => Level::High,
            Level::High => Level::Low,
        }
    }

    /// The other level.
    pub fn negate(self) -> (r: Level)
        ensures
            r == self.negation(),
    {
        match self {
            Level::Low => Level::High,
            Level::High => Level::Low,
        }
    }

    pub fn is_low(self) -> (r: bool)
        ensures
            r == (self == Level::Low),
    {
        match self {
            Level::Low => true,
            Level::High => false,
        }
    }

    pub fn is_high(self) -> (r: bool)
        ensures
            r == (self == Level::High),
    {
        match self {
            Level::Low => false,
            Level::High => true,
        }
    }
}

/// The direction of a level transition.
#[derive(Clone, Copy, Debug, PartialEq, Eq, Structural)]
pub enum Edge {
    Rising,
    Falling,
}

impl Edge {
    /// The edge that leads from `from` to `to`; none where the level stays.
    pub open spec fn between_spec(from: Level, to: Level) -> Option<Edge> {
        match (from, to) {
            (Level::Low, Level::High) => Some(Edge::Rising),
            (Level::High, Level::Low) => Some(Edge::Falling),
            _ => None,
        }
    }

    /// The edge that leads from `from` to `to`; none where the level stays.
    pub fn between(from: Level, to: Level) -> (r: Option<Edge>)
        ensures
            r == Edge::between_spec(from, to),
    {
        match (from, to) {
            (Level::Low, Level::High) => Some(Edge::Rising),
            (Level::High, Level::Low) => Some(Edge::Falling),
            _ => None,
        }
    }
}

/// Which edges of a line are latched.
#[derive(Clone, Copy, Debug, PartialEq, Eq, Structural)]
pub enum Trigger {
    Rising,
    Falling,
    Both,
}

impl Trigger {
    /// Whether this mode selects rising edges.
    pub open spec fn rising_spec(self) -> bool {
        self != Trigger::Falling
    }

    /// Whether this mode selects falling edges.
    pub open spec fn falling_spec(self) -> bool {
        self != Trigger::Rising
    }

    /// Whether this mode selects rising edges.
    pub fn rising(self) -> (r: bool)
        ensures
            r == self.rising_spec(),
    {
        match self {
            Trigger::Falling => false,
            _ => true,
        }
    }

    /// Whether this mode selects falling edges.
    pub fn falling(self) -> (r: bool)
        ensures
            r == self.falling_spec(),
    {
        match self {
            Trigger::Rising => false,
            _ => true,
        }
    }
}

/// The pull resistor of an input pin.
#[derive(Clone, Copy, Debug, PartialEq, Eq, Structural)]
pub enum Pull {
    Floating,
    Up,
    Down,
}

/// The index of an external-interrupt line, 0 to 15.
#[derive(Clone, Copy, Debug, PartialEq, Eq, Structural)]
pub struct Line {
    index: u8,
}

impl Line {
    /// The line's index.
    pub closed spec fn view(&self) -> int {
        self.index as int
    }

    /// The index is one of the sixteen lines.
    pub open spec fn wf(&self) -> bool {
        0 <= self@ < 16
    }

    /// The line of index `index`, where there is one.
    pub fn new(index: u8) -> (r: Option<Line>)
        ensures
            r.is_some() == (index < 16),
            r matches Some(line) ==> line@ == index && line.wf(),
    {
        if index < LINES {
            Some(Line { index })
        } else {
            None
        }
    }

    /// The line's index.
    pub fn index(self) -> (r: u8)
        ensures
            r == self@,
    {
        self.index
    }

    /// The routing word that holds this line's field: four lines per word.
    pub fn group(self) -> (r: u8)
        requires
            self.wf(),
        ensures
            r == self@ / 4,
            r < 4,
    {
        self.index / LINES_PER_GROUP
    }

    /// The place of this line's field in its routing word.
    pub fn slot(self) -> (r: u8)
        requires
            self.wf(),
        ensures
            r == self@ % 4,
    {
        self.index % LINES_PER_GROUP
    }

    /// The vector that this line is escalated to.
    pub fn vector(self) -> (r: Vector)
        requires
            self.wf(),
        ensures
            r == Vector::of_line(self@),
    {
        if self.index == 0 {
            Vector::Exti0
        } else if self.index == 1 {
            Vector::Exti1
        } else if self.index == 2 {
            Vector::Exti2
        } else if self.index == 3 {
            Vector::Exti3
        } else if self.index == 4 {
            Vector::Exti4
        } else if self.index < 10 {
            Vector::Exti9To5
        } else {
            Vector::Exti15To10
        }
    }
}

/// The index of a GPIO port, as a routing field holds it: 0 to 15.
#[derive(Clone, Copy, Debug, PartialEq, Eq, Structural)]
pub struct Port {
    index: u8,
}

impl Port {
    /// The port's index.
    pub closed spec fn view(&self) -> int {
        self.index as int
    }

    /// The index fits the four bits of a routing field.
    pub open spec fn wf(&self) -> bool {
        0 <= self@ < 16
    }

    /// The port of index `index`, where a routing field can hold it.
    pub fn new(index: u8) -> (r: Option<Port>)
        ensures
            r.is_some() == (index < 16),
            r matches Some(port) ==> port@ == index && port.wf(),
    {
        if index < 16 {
            Some(Port { index })
        } else {
            None
        }
    }

    /// The port's index.
    pub fn index(self) -> (r: u8)
        ensures
            r == self@,
    {
        self.index
    }
}

/// A hardware interrupt vector. Lines 0 to 4 have a vector each; lines 5 to 9
/// share one, and so do lines 10 to 15.
#[derive(Clone, Copy, Debug, PartialEq, Eq, Structural)]
pub enum Vector {
    Exti0,
    Exti1,
    Exti2,
    Exti3,
    Exti4,
    Exti9To5,
    Exti15To10,
}

impl Vector {
    /// The vector that serves line `line`.
    pub open spec fn of_line(line: int) -> Vector {
        if line == 0 {
            Vector::Exti0
        } else if line == 1 {
            Vector::Exti1
        } else if line == 2 {
            Vector::Exti2
        } else if line == 3 {
            Vector::Exti3
        } else if line == 4 {
            Vector::Exti4
        } else if line < 10 {
            Vector::Exti9To5
        } else {
            Vector::Exti15To10
        }
    }

    /// The vector's place among the seven, from 0.
    pub open spec fn ordinal(self) -> int {
        match self {
            Vector::Exti0 => 0,
            Vector::Exti1 => 1,
            Vector::Exti2 => 2,
            Vector::Exti3 => 3,
            Vector::Exti4 => 4,
            Vector::Exti9To5 => 5,
            Vector::Exti15To10 => 6,
        }
    }

    /// The vector's place among the seven, from 0.
    pub fn slot(self) -> (r: u8)
        ensures
            r == self.ordinal(),
    {
        match self {
            Vector::Exti0 => 0,
            Vector::Exti1 => 1,
            Vector::Exti2 => 2,
            Vector::Exti3 => 3,
            Vector::Exti4 => 4,
            Vector::Exti9To5 => 5,
            Vector::Exti15To10 => 6,
        }
    }
}

/// One digital input: the pin it is on, the line that the pin is routed to,
/// and the edges that are latched. The line's index is the pin's index.
#[derive(Clone, Copy, Debug, PartialEq, Eq, Structural)]
pub struct InputLine {
    pub port: Port,
    pub line: Line,
    pub trigger: Trigger,
}

impl InputLine {
    pub open spec fn wf(&self) -> bool {
        self.port.wf() && self.line.wf()
    }

    /// The input on pin `pin` of port `port`, where both indices are valid.
    pub fn new(port: u8, pin: u8, trigger: Trigger) -> (r: Option<InputLine>)
        ensures
            r.is_some() == (port < 16 && pin < 16),
            r matches Some(input) ==> input.wf() && input.port@ == port && input.line@ == pin
                && input.trigger == trigger,
    {
        match (Port::new(port), Line::new(pin)) {
            (Some(port), Some(line)) => Some(InputLine { port, line, trigger }),
            _ => None,
        }
    }

    /// The index of the pin within its port, which is the line's index.
    pub fn pin(&self) -> (r: u8)
        ensures
            r == self.line@,
    {
        self.line.index()
    }

    /// The vector whose handler serves this input.
    pub fn vector(&self) -> (r: Vector)
        requires
            self.wf(),
        ensures
            r == Vector::of_line(self.line@),
    {
        self.line.vector()
    }
}

} // verus!
