use edge_input::bits::{get_bit, set_bit};
use edge_input::line::{Edge, InputLine, Level, Line, Port, Trigger, Vector};
use edge_input::nvic::Nvic;
use edge_input::registers::{acknowledge_word, pending_after_write, route_word, Registers};

fn line(n: u8) -> Line {
    Line::new(n).unwrap()
}

#[test]
fn line_and_port_indices_are_checked() {
    assert!(Line::new(0).is_some());
    assert!(Line::new(15).is_some());
    assert!(Line::new(16).is_none());
    assert!(Line::new(255).is_none());
    assert!(Port::new(15).is_some());
    assert!(Port::new(16).is_none());
    assert_eq!(Line::new(13).unwrap().index(), 13);
    assert_eq!(Port::new(2).unwrap().index(), 2);
    assert!(InputLine::new(2, 13, Trigger::Both).is_some());
    assert!(InputLine::new(16, 13, Trigger::Both).is_none());
    assert!(InputLine::new(2, 16, Trigger::Both).is_none());
    let input = InputLine::new(2, 13, Trigger::Falling).unwrap();
    assert_eq!(input.port.index(), 2);
    assert_eq!(input.pin(), 13);
    assert_eq!(input.trigger, Trigger::Falling);
}

#[test]
fn line_group_and_slot() {
    assert_eq!(line(13).group(), 3);
    assert_eq!(line(13).slot(), 1);
    assert_eq!(line(0).group(), 0);
    assert_eq!(line(0).slot(), 0);
    assert_eq!(line(7).group(), 1);
    assert_eq!(line(7).slot(), 3);
    assert_eq!(line(15).group(), 3);
    assert_eq!(line(15).slot(), 3);
}

#[test]
fn lines_map_to_vectors() {
    let expected = [
        Vector::Exti0,
        Vector::Exti1,
        Vector::Exti2,
        Vector::Exti3,
        Vector::Exti4,
        Vector::Exti9To5,
        Vector::Exti9To5,
        Vector::Exti9To5,
        Vector::Exti9To5,
        Vector::Exti9To5,
        Vector::Exti15To10,
        Vector::Exti15To10,
        Vector::Exti15To10,
        Vector::Exti15To10,
        Vector::Exti15To10,
        Vector::Exti15To10,
    ];
    for n in 0..16u8 {
        assert_eq!(line(n).vector(), expected[n as usize]);
    }
    assert_eq!(Vector::Exti0.slot(), 0);
    assert_eq!(Vector::Exti9To5.slot(), 5);
    assert_eq!(Vector::Exti15To10.slot(), 6);
}

#[test]
fn level_edge_and_trigger() {
    assert_eq!(Level::Low.negate(), Level::High);
    assert_eq!(Level::High.negate(), Level::Low);
    assert!(Level::Low.is_low());
    assert!(!Level::Low.is_high());
    assert!(Level::High.is_high());
    assert_eq!(Edge::between(Level::Low, Level::High), Some(Edge::Rising));
    assert_eq!(Edge::between(Level::High, Level::Low), Some(Edge::Falling));
    assert_eq!(Edge::between(Level::Low, Level::Low), None);
    assert_eq!(Edge::between(Level::High, Level::High), None);
    assert!(Trigger::Rising.rising() && !Trigger::Rising.falling());
    assert!(!Trigger::Falling.rising() && Trigger::Falling.falling());
    assert!(Trigger::Both.rising() && Trigger::Both.falling());
}

#[test]
fn bits_are_read_and_replaced() {
    assert!(get_bit(0x2000, 13));
    assert!(!get_bit(0x2000, 12));
    assert!(get_bit(0x8000_0000, 31));
    assert!(!get_bit(0, 0));
    assert_eq!(set_bit(0, 13, true), 0x2000);
    assert_eq!(set_bit(0xffff_ffff, 13, false), 0xffff_dfff);
    assert_eq!(set_bit(0x2000, 13, true), 0x2000);
    assert_eq!(set_bit(0, 13, false), 0);
    assert_eq!(set_bit(1, 31, true), 0x8000_0001);
}

#[test]
fn route_word_replaces_one_field() {
    let port_c = Port::new(2).unwrap();
    assert_eq!(route_word(0, line(13), port_c), 0x0020);
    assert_eq!(route_word(0xffff, line(13), port_c), 0xff2f);
    assert_eq!(route_word(0x1234, line(12), Port::new(7).unwrap()), 0x1237);
    assert_eq!(route_word(0, line(3), Port::new(15).unwrap()), 0xf000);
    assert_eq!(route_word(0x00a0, line(5), Port::new(0).unwrap()), 0);
}

#[test]
fn routing_keeps_the_other_lines() {
    let mut regs = Registers::new();
    regs.route(line(13), Port::new(2).unwrap());
    regs.route(line(12), Port::new(1).unwrap());
    regs.route(line(0), Port::new(7).unwrap());
    assert_eq!(regs.routing_word(3), 0x0021);
    assert_eq!(regs.routing_word(0), 0x0007);
    assert_eq!(regs.routing_word(1), 0);
    assert_eq!(regs.routed_port(line(13)), 2);
    assert_eq!(regs.routed_port(line(12)), 1);
    assert_eq!(regs.routed_port(line(14)), 0);
    assert_eq!(regs.routed_port(line(0)), 7);
    regs.route(line(13), Port::new(5).unwrap());
    assert_eq!(regs.routed_port(line(13)), 5);
    assert_eq!(regs.routed_port(line(12)), 1);
}

#[test]
fn triggers_and_mask_are_set_per_line() {
    let mut regs = Registers::new();
    regs.set_rising(line(13), true);
    regs.set_falling(line(4), true);
    regs.set_mask(line(13), true);
    regs.set_mask(line(0), true);
    assert_eq!(regs.rising_word(), 0x2000);
    assert_eq!(regs.falling_word(), 0x0010);
    assert_eq!(regs.mask_word(), 0x2001);
    assert!(regs.rising(line(13)));
    assert!(!regs.falling(line(13)));
    assert!(regs.falling(line(4)));
    assert!(regs.mask(line(0)));
    assert!(!regs.mask(line(1)));
    regs.set_mask(line(13), false);
    regs.set_rising(line(13), false);
    assert_eq!(regs.mask_word(), 0x0001);
    assert_eq!(regs.rising_word(), 0);
}

#[test]
fn acknowledge_word_is_one_bit() {
    assert_eq!(acknowledge_word(line(13)), 0x2000);
    assert_eq!(acknowledge_word(line(0)), 1);
    assert_eq!(acknowledge_word(line(15)), 0x8000);
}

#[test]
fn pending_is_write_one_to_clear() {
    assert_eq!(pending_after_write(0b1010, 0b0010), 0b1000);
    assert_eq!(pending_after_write(0b1010, 0b0101), 0b1010);
    assert_eq!(pending_after_write(0xffff, 0), 0xffff);
    assert_eq!(pending_after_write(0xffff, 0xffff_ffff), 0);
}

#[test]
fn clearing_one_pending_bit_leaves_the_others() {
    let mut regs = Registers::from_words([0; 4], 0, 0, 0xffff, 0);
    regs.clear_pending(line(13));
    assert_eq!(regs.pending_word(), 0xdfff);
    assert!(!regs.pending(line(13)));
    assert!(regs.pending(line(12)));
    assert!(regs.pending(line(14)));
    regs.clear_pending(line(13));
    assert_eq!(regs.pending_word(), 0xdfff);
    regs.write_pending(0x0003);
    assert_eq!(regs.pending_word(), 0xdffc);
}

#[test]
fn edges_are_latched_where_armed_whatever_the_mask() {
    let mut regs = Registers::new();
    regs.set_falling(line(13), true);
    assert!(!regs.mask(line(13)));
    assert!(!regs.latch(line(13), Edge::Rising));
    assert_eq!(regs.pending_word(), 0);
    assert!(regs.latch(line(13), Edge::Falling));
    assert_eq!(regs.pending_word(), 0x2000);
    assert!(regs.pending(line(13)));
    assert!(!regs.latch(line(12), Edge::Falling));
    assert_eq!(regs.pending_word(), 0x2000);
}

#[test]
fn a_vector_is_requested_by_a_pending_unmasked_line_of_its_group() {
    let regs = Registers::from_words([0; 4], 0, 0, 0x2000, 0x2000);
    assert!(regs.requests(Vector::Exti15To10));
    assert!(!regs.requests(Vector::Exti9To5));
    let masked = Registers::from_words([0; 4], 0, 0, 0x2000, 0x1000);
    assert!(!masked.requests(Vector::Exti15To10));
    let low = Registers::from_words([0; 4], 0, 0, 0x0021, 0x0021);
    assert!(low.requests(Vector::Exti0));
    assert!(low.requests(Vector::Exti9To5));
    assert!(!low.requests(Vector::Exti1));
    assert!(!Registers::new().requests(Vector::Exti0));
}

#[test]
fn from_words_holds_the_words() {
    let regs = Registers::from_words([1, 2, 3, 0x20], 0x10, 0x20, 0x40, 0x80);
    assert_eq!(regs.rising_word(), 0x10);
    assert_eq!(regs.falling_word(), 0x20);
    assert_eq!(regs.pending_word(), 0x40);
    assert_eq!(regs.mask_word(), 0x80);
    assert_eq!(regs.routing_word(3), 0x20);
    assert_eq!(regs.routed_port(line(13)), 2);
    assert_eq!(regs.routed_port(line(0)), 1);
}

#[test]
fn interrupt_controller_flags_are_per_vector() {
    let mut nvic = Nvic::new();
    assert!(!nvic.is_enabled(Vector::Exti15To10));
    assert!(!nvic.is_pending(Vector::Exti15To10));
    nvic.pend(Vector::Exti15To10);
    assert!(nvic.is_pending(Vector::Exti15To10));
    assert!(!nvic.is_pending(Vector::Exti9To5));
    assert!(!nvic.takes(Vector::Exti15To10));
    nvic.unmask(Vector::Exti15To10);
    assert!(nvic.is_enabled(Vector::Exti15To10));
    assert!(!nvic.is_enabled(Vector::Exti0));
    assert!(nvic.takes(Vector::Exti15To10));
    nvic.unpend(Vector::Exti15To10);
    assert!(!nvic.takes(Vector::Exti15To10));
    assert!(nvic.is_enabled(Vector::Exti15To10));
    nvic.pend(Vector::Exti15To10);
    nvic.mask(Vector::Exti15To10);
    assert!(!nvic.takes(Vector::Exti15To10));
    assert!(nvic.is_pending(Vector::Exti15To10));
}
