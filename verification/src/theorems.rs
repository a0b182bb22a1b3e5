//! What holds of the controller in every state and along every sequence of
//! input levels.
use crate::bits::{bit, lemma_clear_written, lemma_single, single};
use crate::controller::{LineState, State};
use crate::line::{Edge, InputLine, Level, Line, Port};
use crate::nvic::NvicView;
use vstd::prelude::*;

verus! {

/// The service routine is entered only where both pin handles are
/// constructed: the vector's gate is never open before that.
pub proof fn lemma_entry_needs_handles(s: State)
    requires
        s.wf(),
        s.delivers(),
    ensures
        s.initialized(),
{
}

/// After reset no level on the input pin leads into the service routine,
/// and the line stays unserved until the initialisation has run.
pub proof fn lemma_reset_is_closed(config: InputLine, level: Level, next: Level)
    requires
        config.wf(),
    ensures
        State::reset(config, level).wf(),
        !State::reset(config, level).initialized(),
        !State::reset(config, level).sense(next).delivers(),
        State::reset(config, level).edge(next).led.is_none(),
{
}

/// Every step keeps the state well formed, so that the vector's gate is
/// open only after both handles were constructed, in whatever order the
/// steps come.
pub proof fn lemma_steps_keep_wf(s: State, level: Level)
    requires
        s.wf(),
    ensures
        s.setup().wf(),
        s.setup().initialized(),
        s.enable().wf(),
        s.sense(level).wf(),
        s.raise().wf(),
        s.dispatch().wf(),
        s.edge(level).wf(),
        s.initialized() ==> s.service().wf(),
{
}

/// Level toggle for one edge: where the service routine runs
/// for a pending line, it leaves the output at the opposite of the level on
/// the input pin, and the line and the vector no longer pending.
pub proof fn lemma_serviced_edge_toggles(s: State, level: Level)
    requires
        s.wf(),
        s.sense(level).delivers(),
        s.sense(level).pending(),
    ensures
        s.edge(level).led == Some(level.negation()),
        !s.edge(level).pending(),
        !s.edge(level).nvic.pending.contains(s.vector()),
{
}

/// With both gates open, every edge whose direction is armed enters the
/// service routine and toggles the output.
pub proof fn lemma_armed_edge_is_serviced(s: State, level: Level, edge: Edge)
    requires
        s.wf(),
        s.open_gates(),
        Edge::between_spec(s.level, level) == Some(edge),
        s.regs.armed_for(s.line(), edge),
    ensures
        s.sense(level).pending(),
        s.sense(level).delivers(),
        s.edge(level).led == Some(level.negation()),
{
    let t = s.sense(level);
    assert(t.regs.pending.contains(t.line()) && t.regs.mask.contains(t.line()));
    assert(t.regs.requests(t.vector()));
}

/// An edge leaves the configuration, the triggers and both gates as they
/// were: an armed line stays armed.
pub proof fn lemma_edge_keeps_gates(s: State, level: Level)
    ensures
        s.edge(level).config == s.config,
        s.edge(level).regs.rising == s.regs.rising,
        s.edge(level).regs.falling == s.regs.falling,
        s.edge(level).regs.mask == s.regs.mask,
        s.edge(level).regs.route == s.regs.route,
        s.edge(level).nvic.enabled == s.nvic.enabled,
        s.edge(level).button == s.button,
        s.edge(level).level == level,
{
}

/// A sequence of levels leaves the configuration, the triggers and both
/// gates as they were, and the state well formed.
pub proof fn lemma_run_keeps_gates(s: State, levels: Seq<Level>)
    requires
        s.wf(),
    ensures
        s.run(levels).wf(),
        s.run(levels).config == s.config,
        s.run(levels).regs.rising == s.regs.rising,
        s.run(levels).regs.falling == s.regs.falling,
        s.run(levels).regs.mask == s.regs.mask,
        s.run(levels).nvic.enabled == s.nvic.enabled,
        s.run(levels).open_gates() == s.open_gates(),
    decreases levels.len(),
{
    if levels.len() > 0 {
        lemma_run_keeps_gates(s, levels.drop_last());
        let before = s.run(levels.drop_last());
        lemma_edge_keeps_gates(before, levels.last());
        lemma_steps_keep_wf(before, levels.last());
    }
}

/// Level toggle along a sequence: with both gates open, after
/// each level of `levels` that finds the line pending, the output is at the
/// opposite of that level.
pub proof fn lemma_run_toggles(s: State, levels: Seq<Level>, i: int)
    requires
        s.wf(),
        s.open_gates(),
        0 <= i < levels.len(),
        s.run(levels.take(i)).sense(levels[i]).pending(),
    ensures
        s.run(levels.take(i + 1)).led == Some(levels[i].negation()),
        !s.run(levels.take(i + 1)).pending(),
{
    let before = s.run(levels.take(i));
    lemma_run_keeps_gates(s, levels.take(i));
    assert(levels.take(i + 1).drop_last() =~= levels.take(i));
    assert(levels.take(i + 1).last() == levels[i]);
    let t = before.sense(levels[i]);
    assert(t.regs.pending.contains(t.line()) && t.regs.mask.contains(t.line()));
    assert(t.regs.requests(t.vector()));
    lemma_serviced_edge_toggles(before, levels[i]);
}

/// With both gates open, both directions armed and nothing pending, the
/// output follows the input along every sequence of levels: it is at the
/// opposite of the level on the input pin as soon as that level has changed
/// once, and until then the output and the level are as they were.
pub proof fn lemma_output_tracks_input(s: State, levels: Seq<Level>)
    requires
        s.wf(),
        s.open_gates(),
        s.regs.rising.contains(s.line()),
        s.regs.falling.contains(s.line()),
        !s.pending(),
    ensures
        !s.run(levels).pending(),
        s.run(levels).led == Some(s.run(levels).level.negation()) || (s.run(levels).led == s.led
            && s.run(levels).level == s.level),
        s.led == Some(s.level.negation()) ==> s.run(levels).led == Some(
            s.run(levels).level.negation(),
        ),
    decreases levels.len(),
{
    if levels.len() > 0 {
        let before = s.run(levels.drop_last());
        let level = levels.last();
        lemma_output_tracks_input(s, levels.drop_last());
        lemma_run_keeps_gates(s, levels.drop_last());
        match Edge::between_spec(before.level, level) {
            Some(edge) => {
                lemma_armed_edge_is_serviced(before, level, edge);
                lemma_serviced_edge_toggles(before, level);
            },
            None => {
                assert(before.sense(level).regs == before.regs);
                assert(before.level == level);
                lemma_quiet_dispatch(before.sense(level));
            },
        }
    }
}

/// Where the served line is not pending, the hardware's turn leaves the
/// output and the line's pending bit as they are.
pub proof fn lemma_quiet_dispatch(s: State)
    requires
        !s.pending(),
    ensures
        s.dispatch().led == s.led,
        !s.dispatch().pending(),
        s.dispatch().level == s.level,
{
}

/// After the hardware's turn the served line is idle wherever both gates are
/// open, and an edge that found a gate closed is held back, not dropped.
pub proof fn lemma_dispatch_line_state(s: State)
    requires
        s.wf(),
    ensures
        s.line_state() == LineState::Idle ==> s.dispatch().line_state() == LineState::Idle,
        s.line_state() == LineState::Servicing ==> s.delivers() && s.dispatch().line_state()
            == LineState::Idle,
        s.line_state() == LineState::PendingMasked && !s.delivers() ==> s.dispatch().line_state()
            == LineState::PendingMasked && s.dispatch().led == s.led,
{
    if s.line_state() == LineState::Servicing {
        assert(s.regs.pending.contains(s.line()) && s.regs.mask.contains(s.line()));
        assert(s.regs.requests(s.vector()));
    }
}

/// A line is routed to one port at a time: routing it again replaces the
/// port, and the other lines keep theirs.
pub proof fn lemma_route_single_port(route: Seq<int>, line: Line, first: Port, second: Port, other: int)
    requires
        route.len() == 16,
        line.wf(),
        0 <= other < 16,
    ensures
        route.update(line@, first@).update(line@, second@) == route.update(line@, second@),
        route.update(line@, first@)[line@] == first@,
        other != line@ ==> route.update(line@, first@)[other] == route[other],
{
    assert(route.update(line@, first@).update(line@, second@) =~= route.update(line@, second@));
}

/// The service routine has no effect where the line is not pending, and so
/// none the second time where it runs twice for one edge.
pub proof fn lemma_service_idempotent(s: State)
    ensures
        !s.pending() ==> s.service() == s,
        !s.service().pending(),
        s.service().service() == s.service(),
{
}

/// The service routine leaves every other line's pending bit, and all the
/// other registers, as they are.
pub proof fn lemma_service_isolated(s: State, other: int)
    requires
        other != s.line(),
    ensures
        s.service().regs.pending.contains(other) == s.regs.pending.contains(other),
        s.service().regs.mask == s.regs.mask,
        s.service().regs.rising == s.regs.rising,
        s.service().regs.falling == s.regs.falling,
        s.service().regs.route == s.regs.route,
{
}

/// The acknowledging write is a bit mask: written to a pending register
/// that holds `pending`, the word for `line` clears bit `line` and leaves
/// every other bit as it is.
pub proof fn lemma_acknowledge_isolated(pending: u32, line: Line, other: int)
    requires
        line.wf(),
    ensures
        bit(pending & !single(line@), other) == (other != line@ && bit(pending, other)),
{
    lemma_clear_written(pending, single(line@), other);
    lemma_single(line@, other);
}

/// While the vector's gate is closed an edge is latched but not served: the
/// service routine does not run, the output stays, and the pending bit
/// stays set.
pub proof fn lemma_masked_edge_waits(s: State, level: Level)
    requires
        s.wf(),
        !s.nvic.enabled.contains(s.vector()),
    ensures
        !s.sense(level).delivers(),
        s.edge(level).led == s.led,
        s.edge(level).pending() == s.sense(level).pending(),
        s.edge(level).regs == s.sense(level).regs,
{
}

/// A latched edge outlasts a masked vector: as soon as the vector is
/// unmasked, a line that is pending and unmasked is served.
pub proof fn lemma_pending_survives_mask(s: State)
    requires
        s.wf(),
        s.initialized(),
        s.pending(),
        s.regs.mask.contains(s.line()),
    ensures
        ({
            let opened = State {
                nvic: NvicView { enabled: s.nvic.enabled.insert(s.vector()), ..s.nvic },
                ..s
            };
            opened.delivers() && opened.dispatch().led == Some(s.level.negation())
                && !opened.dispatch().pending()
        }),
{
    let opened = State {
        nvic: NvicView { enabled: s.nvic.enabled.insert(s.vector()), ..s.nvic },
        ..s
    };
    assert(opened.regs.pending.contains(opened.line()) && opened.regs.mask.contains(opened.line()));
    assert(opened.regs.requests(opened.vector()));
}

} // verus!
