//! What holds of every collector, whatever is opened on it and in whatever
//! order the calls arrive.

use crate::collector::ticket_before;
use crate::collector::CloseFn;
use crate::collector::CollectorState;
use crate::machine::opens;
use crate::machine::Call;
use crate::view::Rendered;
use leptos::prelude::AnyView;
use vstd::prelude::*;

verus! {

/// The ticket that lies `steps` tickets after `ticket`.
pub open spec fn ticket_advanced(ticket: u64, steps: nat) -> u64 {
    ((ticket + steps) % 0x1_0000_0000_0000_0000) as u64
}

/// A collector is mounted closed and well formed.
pub proof fn mounted_is_closed()
    ensures
        CollectorState::mounted().wf(),
        !CollectorState::mounted().is_open(),
        CollectorState::mounted().dialog() is None,
{
}

/// The callback that the next `open` will hand out belongs to no modal yet:
/// invoked before that `open`, it changes nothing.
pub proof fn next_close_is_not_yet_current(state: CollectorState)
    requires
        state.wf(),
    ensures
        !state.is_current(state.next_close()),
        state.called(state.next_close()) == state,
{
}

/// A run of calls without an `open` leaves the slot as it was or empty.
pub proof fn calls_without_open_keep_renderer(state: CollectorState, calls: Seq<Call>)
    requires
        opens(calls) == 0,
    ensures
        state.after_all(calls).slot is None || state.after_all(calls).slot == state.slot,
    decreases calls.len(),
{
    if calls.len() > 0 {
        calls_without_open_keep_renderer(state, calls.drop_last());
    }
}

/// Until a later `open`, the callback of an `open` does what a handle's
/// `close` does: from every state reached by closes and Escape keys, before
/// a render pass or after it, both end with slot and cell empty.
pub proof fn callback_agrees_with_close(state: CollectorState, node: AnyView, calls: Seq<Call>)
    requires
        opens(calls) == 0,
    ensures
        !state.opened(node).after_all(calls).is_replaced(state.next_close()),
        state.opened(node).after_all(calls).called(state.next_close()) == state.opened(
            node,
        ).after_all(calls).closed(),
        state.opened(node).after_all(calls).rendered().called(state.next_close())
            == state.opened(node).after_all(calls).closed(),
        state.opened(node).after_all(calls).called(state.next_close()).cache is None,
{
    calls_without_open_keep_renderer(state.opened(node), calls);
}

/// Every call keeps a collector well formed.
pub proof fn call_keeps_well_formed(state: CollectorState, call: Call)
    requires
        state.wf(),
    ensures
        state.after(call).wf(),
{
}

/// A run of calls keeps a collector well formed and issues one ticket for each
/// `open` in it.
pub proof fn calls_issue_tickets(state: CollectorState, calls: Seq<Call>)
    requires
        state.wf(),
    ensures
        state.after_all(calls).wf(),
        state.after_all(calls).issued == ticket_advanced(state.issued, opens(calls)),
    decreases calls.len(),
{
    if calls.len() > 0 {
        calls_issue_tickets(state, calls.drop_last());
    }
}

/// After any run of `open`, `close` and Escape, the slot is occupied exactly
/// if the machine, started in the phase of the state before the run and fed
/// the same calls, ends in `Open`.
pub proof fn occupancy_follows_machine(state: CollectorState, calls: Seq<Call>)
    ensures
        state.after_all(calls).phase() == state.phase().run(calls),
    decreases calls.len(),
{
    if calls.len() > 0 {
        occupancy_follows_machine(state, calls.drop_last());
    }
}

/// A close on a closed collector changes nothing, whichever way it comes, and
/// so does a second close after a first.
pub proof fn close_is_idempotent(state: CollectorState, close: CloseFn)
    ensures
        state.closed().closed() == state.closed(),
        state.escaped() == state.closed(),
        state.closed().escaped() == state.closed(),
        state.closed().called(close) == state.closed(),
        state.wf() && !state.is_open() ==> state.closed() == state,
        state.wf() && !state.is_open() ==> state.called(close) == state,
{
}

/// An `open` right after an `open` leaves one renderer in the slot, and what
/// it yields is the node of the second call; nothing of the first is left.
pub proof fn reopen_replaces(state: CollectorState, first: AnyView, second: AnyView)
    ensures
        state.opened(first).opened(second).is_open(),
        state.opened(first).opened(second).cache == Some(second),
        state.opened(first).opened(second).dialog() == Some(Rendered::Node(second)),
        state.opened(first).opened(second).rendered().dialog() == Some(Rendered::Neutral),
        state.opened(first).opened(second).closed() == state.opened(first).closed().opened(
            second,
        ).closed(),
{
}

/// The close callback of an `open` does nothing once the next `open` has
/// replaced its modal: the later modal stays open, with its node.
pub proof fn stale_close_keeps_replacement(state: CollectorState, first: AnyView, second: AnyView)
    ensures
        state.opened(first).opened(second).is_replaced(state.next_close()),
        state.opened(first).opened(second).called(state.next_close()) == state.opened(
            first,
        ).opened(second),
        state.opened(first).opened(second).called(state.next_close()).is_open(),
{
}

/// The close callback of an `open` does nothing after any run of calls that
/// holds a later `open`, as long as the tickets have not come round to its own.
pub proof fn stale_close_is_inert(state: CollectorState, node: AnyView, calls: Seq<Call>)
    requires
        opens(calls) % 0x1_0000_0000_0000_0000 != 0,
    ensures
        state.opened(node).after_all(calls).called(state.next_close()) == state.opened(
            node,
        ).after_all(calls),
{
    let begun = state.opened(node);
    calls_issue_tickets(begun, calls);
    let now = begun.after_all(calls);
    assert(now.issued == ticket_advanced(begun.issued, opens(calls)));
    assert(ticket_before(now.issued) != state.issued);
}

/// The callback of the modal that is open closes it.
pub proof fn fresh_close_closes(state: CollectorState, node: AnyView)
    ensures
        state.opened(node).called(state.next_close()) == state.opened(node).closed(),
        !state.opened(node).called(state.next_close()).is_open(),
{
}

/// After a close, by a handle, by the Escape key or by a callback that was
/// not replaced, a render pass shows no backdrop and no dialog container,
/// `aria-modal` reads `false`, and a renderer yields the neutral node.
pub proof fn close_hides_overlay(state: CollectorState, close: CloseFn)
    ensures
        !state.closed().backdrop(),
        state.closed().dialog() is None,
        state.closed().aria_modal() == "false"@,
        state.closed().rendered() == state.closed(),
        !state.escaped().backdrop(),
        state.escaped().dialog() is None,
        state.escaped().aria_modal() == "false"@,
        state.escaped().rendered() == state.escaped(),
        !state.is_replaced(close) ==> !state.called(close).backdrop(),
        !state.is_replaced(close) ==> state.called(close).dialog() is None,
        !state.is_replaced(close) ==> state.called(close).aria_modal() == "false"@,
        state.closed().yields() == Rendered::Neutral,
        state.escaped().yields() == Rendered::Neutral,
        !state.is_replaced(close) ==> state.called(close).yields() == Rendered::Neutral,
{
}

/// The Escape key changes nothing where no modal is open.
pub proof fn escape_when_closed_changes_nothing(state: CollectorState)
    requires
        state.wf(),
        !state.is_open(),
    ensures
        state.escaped() == state,
        state.key_released("Escape"@) == state,
{
}

/// The first render pass after an `open` shows the node that was built for
/// it; a second pass without another `open` shows the neutral node, and the
/// modal is still open.
pub proof fn node_is_shown_once(state: CollectorState, node: AnyView)
    ensures
        state.opened(node).backdrop(),
        state.opened(node).aria_modal() == "true"@,
        state.opened(node).dialog() == Some(Rendered::Node(node)),
        state.opened(node).rendered().dialog() == Some(Rendered::Neutral),
        state.opened(node).rendered().rendered().dialog() == Some(Rendered::Neutral),
        state.opened(node).rendered().is_open(),
{
}

} // verus!
