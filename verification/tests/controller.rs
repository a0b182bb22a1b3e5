use edge_input::controller::{respond, Controller, LineState, Response};
use edge_input::line::{InputLine, Level, Pull, Trigger, Vector};

fn button(trigger: Trigger) -> InputLine {
    InputLine::new(2, 13, trigger).unwrap()
}

fn armed(trigger: Trigger, level: Level) -> Controller {
    let mut c = Controller::new(button(trigger), level);
    c.setup();
    c.enable_button();
    c
}

#[test]
fn reset_state_has_nothing_constructed_or_armed() {
    let c = Controller::new(button(Trigger::Both), Level::High);
    assert_eq!(c.output(), None);
    assert_eq!(c.pull(), None);
    assert_eq!(c.level(), Level::High);
    assert!(!c.is_initialized());
    assert!(!c.is_pending());
    assert!(!c.is_armed());
    assert_eq!(c.registers().pending_word(), 0);
    assert_eq!(c.registers().mask_word(), 0);
    assert_eq!(c.registers().rising_word(), 0);
    assert_eq!(c.registers().falling_word(), 0);
    assert!(!c.nvic().is_enabled(Vector::Exti15To10));
    assert!(!c.nvic().is_pending(Vector::Exti15To10));
}

#[test]
fn setup_constructs_handles_then_enables_vector() {
    let mut c = Controller::new(button(Trigger::Both), Level::High);
    c.setup();
    assert_eq!(c.output(), Some(Level::Low));
    assert_eq!(c.pull(), Some(Pull::Up));
    assert!(c.is_initialized());
    assert!(c.nvic().is_enabled(Vector::Exti15To10));
    assert!(!c.nvic().is_enabled(Vector::Exti9To5));
    assert!(!c.nvic().is_pending(Vector::Exti15To10));
    assert!(!c.is_armed());
}

#[test]
fn enable_button_programs_the_registers() {
    let c = armed(Trigger::Both, Level::High);
    assert_eq!(c.registers().routing_word(3), 0x0000_0020);
    assert_eq!(c.registers().routing_word(0), 0);
    assert_eq!(c.registers().routed_port(c.config().line), 2);
    assert_eq!(c.registers().rising_word(), 0x2000);
    assert_eq!(c.registers().falling_word(), 0x2000);
    assert_eq!(c.registers().mask_word(), 0x2000);
    assert_eq!(c.registers().pending_word(), 0);
    assert!(c.is_armed());
}

#[test]
fn enable_button_sets_only_the_configured_triggers() {
    let rising = armed(Trigger::Rising, Level::Low);
    assert_eq!(rising.registers().rising_word(), 0x2000);
    assert_eq!(rising.registers().falling_word(), 0);
    let falling = armed(Trigger::Falling, Level::Low);
    assert_eq!(falling.registers().rising_word(), 0);
    assert_eq!(falling.registers().falling_word(), 0x2000);
}

#[test]
fn falling_edge_on_pc13_turns_the_output_high() {
    let mut c = armed(Trigger::Both, Level::High);
    assert_eq!(c.config().pin(), 13);
    assert_eq!(c.config().line.index(), 13);
    assert_eq!(c.config().vector(), Vector::Exti15To10);
    assert_eq!(c.output(), Some(Level::Low));

    assert!(c.sense(Level::Low));
    assert!(c.is_pending());
    assert_eq!(c.registers().pending_word(), 1 << 13);
    assert_eq!(c.output(), Some(Level::Low));

    assert!(c.dispatch());
    assert_eq!(c.level(), Level::Low);
    assert_eq!(c.output(), Some(Level::High));
    assert!(!c.is_pending());
    assert_eq!(c.registers().pending_word(), 0);
    assert!(!c.nvic().is_pending(Vector::Exti15To10));
    assert!(c.nvic().is_enabled(Vector::Exti15To10));
}

#[test]
fn edge_waits_while_the_vector_is_masked() {
    let mut c = armed(Trigger::Both, Level::High);
    c.mask_vector();
    assert!(!c.is_armed());

    assert!(!c.edge(Level::Low));
    assert!(c.is_pending());
    assert_eq!(c.output(), Some(Level::Low));
    assert!(!c.dispatch());
    assert!(c.is_pending());
    assert_eq!(c.output(), Some(Level::Low));

    c.unmask_vector();
    assert!(c.dispatch());
    assert_eq!(c.output(), Some(Level::High));
    assert!(!c.is_pending());
}

#[test]
fn edge_waits_while_the_line_is_masked() {
    let mut c = armed(Trigger::Both, Level::High);
    c.set_line_mask(false);
    assert!(!c.edge(Level::Low));
    assert!(c.is_pending());
    assert!(!c.nvic().is_pending(Vector::Exti15To10));
    assert_eq!(c.output(), Some(Level::Low));

    c.set_line_mask(true);
    assert!(c.dispatch());
    assert_eq!(c.output(), Some(Level::High));
    assert!(!c.is_pending());
}

#[test]
fn output_is_the_negation_of_the_input_after_each_serviced_edge() {
    let mut c = armed(Trigger::Both, Level::High);
    let levels = [Level::Low, Level::High, Level::Low, Level::Low, Level::High];
    let ran = [true, true, true, false, true];
    for i in 0..levels.len() {
        assert_eq!(c.edge(levels[i]), ran[i]);
        assert_eq!(c.output(), Some(levels[i].negate()));
        assert!(!c.is_pending());
    }
}

#[test]
fn run_counts_the_serviced_edges() {
    let mut c = armed(Trigger::Both, Level::High);
    let levels = vec![Level::Low, Level::High, Level::High, Level::Low];
    assert_eq!(c.run(&levels), 3);
    assert_eq!(c.level(), Level::Low);
    assert_eq!(c.output(), Some(Level::High));

    let mut d = armed(Trigger::Both, Level::High);
    assert_eq!(d.run(&Vec::new()), 0);
    assert_eq!(d.output(), Some(Level::Low));
}

#[test]
fn only_armed_directions_are_latched() {
    let mut c = armed(Trigger::Falling, Level::Low);
    assert!(!c.sense(Level::High));
    assert!(!c.is_pending());
    assert!(!c.dispatch());
    assert_eq!(c.output(), Some(Level::Low));
    assert!(c.edge(Level::Low));
    assert_eq!(c.output(), Some(Level::High));

    let mut r = armed(Trigger::Rising, Level::High);
    assert!(!r.edge(Level::Low));
    assert_eq!(r.output(), Some(Level::Low));
    assert!(r.edge(Level::High));
    assert_eq!(r.output(), Some(Level::Low));
}

#[test]
fn unchanged_level_is_no_edge() {
    let mut c = armed(Trigger::Both, Level::High);
    assert!(!c.sense(Level::High));
    assert!(!c.is_pending());
    assert!(!c.edge(Level::High));
    assert_eq!(c.output(), Some(Level::Low));
}

#[test]
fn second_service_has_no_effect() {
    let mut c = armed(Trigger::Both, Level::High);
    c.sense(Level::Low);
    c.service();
    assert_eq!(c.output(), Some(Level::High));
    assert!(!c.is_pending());
    let pending = c.registers().pending_word();
    let mask = c.registers().mask_word();
    let enabled = c.nvic().is_enabled(Vector::Exti15To10);
    let raised = c.nvic().is_pending(Vector::Exti15To10);

    c.service();
    assert_eq!(c.output(), Some(Level::High));
    assert_eq!(c.registers().pending_word(), pending);
    assert_eq!(c.registers().mask_word(), mask);
    assert_eq!(c.nvic().is_enabled(Vector::Exti15To10), enabled);
    assert_eq!(c.nvic().is_pending(Vector::Exti15To10), raised);
}

#[test]
fn service_without_pending_leaves_the_output() {
    let mut c = armed(Trigger::Both, Level::Low);
    c.service();
    assert_eq!(c.output(), Some(Level::Low));
    assert_eq!(c.registers().pending_word(), 0);
}

#[test]
fn nothing_is_serviced_before_setup() {
    let mut c = Controller::new(button(Trigger::Both), Level::High);
    c.enable_button();
    assert!(!c.edge(Level::Low));
    assert_eq!(c.output(), None);
    assert!(c.is_pending());

    c.setup();
    assert_eq!(c.output(), Some(Level::Low));
    assert!(c.dispatch());
    assert_eq!(c.output(), Some(Level::High));
}

#[test]
fn respond_acknowledges_the_line_alone() {
    let input = button(Trigger::Both);
    assert_eq!(
        respond(0x0000_a000, input, Level::Low),
        Some(Response { drive: Level::High, acknowledge: 0x2000, unpend: Vector::Exti15To10 })
    );
    assert_eq!(
        respond(0xffff_ffff, input, Level::High),
        Some(Response { drive: Level::Low, acknowledge: 0x2000, unpend: Vector::Exti15To10 })
    );
    assert_eq!(respond(0, input, Level::Low), None);
    assert_eq!(respond(0xffff_dfff, input, Level::Low), None);
}

#[test]
fn respond_is_independent_of_the_line_mask() {
    let input = InputLine::new(0, 3, Trigger::Rising).unwrap();
    let r = respond(0b1000, input, Level::High).unwrap();
    assert_eq!(r.drive, Level::Low);
    assert_eq!(r.acknowledge, 0b1000);
    assert_eq!(r.unpend, Vector::Exti3);
}

#[test]
fn line_state_tells_idle_held_back_and_due() {
    let mut c = armed(Trigger::Both, Level::High);
    assert_eq!(c.line_state(), LineState::Idle);
    c.sense(Level::Low);
    assert_eq!(c.line_state(), LineState::Servicing);
    c.dispatch();
    assert_eq!(c.line_state(), LineState::Idle);

    c.mask_vector();
    c.edge(Level::High);
    assert_eq!(c.line_state(), LineState::PendingMasked);
    c.unmask_vector();
    c.set_line_mask(false);
    assert_eq!(c.line_state(), LineState::PendingMasked);
    c.set_line_mask(true);
    assert_eq!(c.line_state(), LineState::Servicing);
    assert!(c.dispatch());
    assert_eq!(c.line_state(), LineState::Idle);
    assert_eq!(c.output(), Some(Level::Low));
}

#[test]
fn run_counts_nothing_while_a_gate_is_closed() {
    let mut c = armed(Trigger::Both, Level::High);
    c.mask_vector();
    let levels = vec![Level::Low, Level::High, Level::Low];
    assert_eq!(c.run(&levels), 0);
    assert!(c.is_pending());
    assert_eq!(c.output(), Some(Level::Low));
    c.unmask_vector();
    assert_eq!(c.run(&vec![Level::Low]), 1);
    assert_eq!(c.output(), Some(Level::High));
}
