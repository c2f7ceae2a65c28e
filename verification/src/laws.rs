//! What holds of every session and of every document, proved from the
//! definitions that the contracts of the library use.

use crate::app::Session;
use crate::detail::{first_value, is_named};
use crate::event::Event;
use crate::handler::{binding, Command};
use crate::har::{Har, Header};
use crate::locator::parsed_url;
use crate::summary::{summary_of, TableItem};
use crate::tabs::TabBarState;
use vstd::prelude::*;

verus! {

impl Session {
    /// The state after the selection moved by each of `deltas` in turn.
    pub open spec fn after_moves(self, deltas: Seq<int>) -> Session
        decreases deltas.len(),
    {
        if deltas.len() == 0 {
            self
        } else {
            self.after_moves(deltas.drop_last()).moved_by(deltas.last())
        }
    }
}

/// Moving the selection, by any amounts and any number of times, keeps it on
/// a row of a document that has rows: after each move the index is at most
/// the last index.
pub proof fn lemma_moves_stay_in_range(start: Session, deltas: Seq<int>, steps: int)
    requires
        start.entries >= 1,
        start.wf(),
        0 <= steps <= deltas.len(),
    ensures
        0 <= start.after_moves(deltas.take(steps)).index <= start.entries - 1,
        start.after_moves(deltas.take(steps)).entries == start.entries,
    decreases steps,
{
    let moves = deltas.take(steps);
    if steps > 0 {
        assert(moves.drop_last() =~= deltas.take(steps - 1));
        lemma_moves_stay_in_range(start, deltas, steps - 1);
    }
}

/// Whatever events a session handles, its index stays valid, the document
/// keeps its length, and a session that has stopped stays stopped.
pub proof fn lemma_events_keep_session_valid(start: Session, events: Seq<Event>)
    requires
        start.wf(),
    ensures
        start.after_events(events).wf(),
        start.after_events(events).entries == start.entries,
        !start.running ==> !start.after_events(events).running,
    decreases events.len(),
{
    if events.len() > 0 {
        lemma_events_keep_session_valid(start, events.drop_last());
    }
}

/// A running session stops on the keys that are bound to leaving, and on
/// nothing else.
pub proof fn lemma_only_quit_stops(state: Session, event: Event)
    requires
        state.running,
    ensures
        !state.after_event(event).running <==> (event matches Event::Key(key_event) && binding(
            key_event,
        ) == Some(Command::Quit)),
{
}

/// An event that is no key press, or a key press that is bound to nothing,
/// leaves the state as it is.
pub proof fn lemma_unbound_events_change_nothing(state: Session, event: Event)
    requires
        event matches Event::Key(key_event) ==> binding(key_event) is None,
    ensures
        state.after_event(event) == state,
{
}

/// Moving to the first row selects row 0. Moving to the last row selects the
/// row before the number of rows, where the document has rows; in an empty
/// document it leaves the index at 0 and nothing selected.
pub proof fn lemma_first_and_last(state: Session)
    ensures
        state.moved_to_first().index == 0,
        state.entries >= 1 ==> state.moved_to_last().index == state.entries - 1,
        state.entries == 0 ==> state.moved_to_last().index == 0
            && state.moved_to_last().selection() is None,
        state.moved_to_first().wf(),
        state.moved_to_last().wf(),
{
}

/// Choosing a tab never moves the selection, and moving the selection never
/// changes the tab.
pub proof fn lemma_tab_and_selection_are_independent(
    state: Session,
    tab: TabBarState,
    delta: int,
)
    ensures
        state.with_tab(tab).index == state.index,
        state.with_tab(tab).tab == tab,
        state.moved_by(delta).tab == state.tab,
        state.moved_to_first().tab == state.tab,
        state.moved_to_last().tab == state.tab,
{
}

/// In a document with a single row every move leaves the selection on it.
pub proof fn lemma_single_row_is_fixed(state: Session, delta: int)
    requires
        state.entries == 1,
    ensures
        state.moved_by(delta).index == 0,
{
}

/// The summary list is a function of the document: two projections of one
/// document are equal, row for row.
pub proof fn lemma_summaries_are_determined(har: Har, first: Vec<TableItem>, second: Vec<TableItem>)
    requires
        first.deep_view() == har.summaries(),
        second.deep_view() == har.summaries(),
    ensures
        first.len() == second.len(),
        first.len() == har.log.entries.len(),
        forall|i: int|
            0 <= i < first.len() ==> (#[trigger] first[i]).deep_view() == second[i].deep_view(),
{
    assert(first.deep_view().len() == first.len());
    assert(second.deep_view().len() == second.len());
    assert forall|i: int| 0 <= i < first.len() implies (#[trigger] first[i]).deep_view()
        == second[i].deep_view() by {
        assert(first.deep_view()[i] == first[i].deep_view());
        assert(second.deep_view()[i] == second[i].deep_view());
    }
}

/// A request URL that cannot be parsed leaves the domain and the path of its
/// own row empty. The other fields of that row, and every other row, are
/// what they are for any transaction.
pub proof fn lemma_unparsable_url_blanks_its_row_only(har: Har, at: int)
    requires
        0 <= at < har.log.entries.len(),
    ensures
        parsed_url(har.log.entries[at].request.url@) is None ==> {
            &&& har.summaries()[at].domain == Seq::<char>::empty()
            &&& har.summaries()[at].file_name == Seq::<char>::empty()
        },
        har.summaries()[at].status == har.log.entries[at].response.status as u16,
        har.summaries()[at].method == har.log.entries[at].request.method@,
        har.summaries()[at].size == har.log.entries[at].response.content.size,
        har.summaries().len() == har.log.entries.len(),
        forall|other: int|
            0 <= other < har.log.entries.len() ==> #[trigger] har.summaries()[other] == summary_of(
                har.log.entries[other],
            ),
{
}

/// A row of the summary list depends on its own transaction alone: two
/// documents that hold the same transaction at `at` have the same row there.
pub proof fn lemma_row_depends_on_its_entry(first: Har, second: Har, at: int)
    requires
        0 <= at < first.log.entries.len(),
        0 <= at < second.log.entries.len(),
        first.log.entries[at] == second.log.entries[at],
    ensures
        first.summaries()[at] == second.summaries()[at],
{
}

/// There are no details for an index that is not in the document.
pub proof fn lemma_no_detail_outside_document(har: Har, index: int)
    requires
        index < 0 || index >= har.log.entries.len(),
    ensures
        har.header_info_at(index) is None,
        har.cookie_info_at(index) is None,
{
}

/// The header lookup returns the value of the first header of the wanted
/// name, and nothing exactly where no header has that name.
pub proof fn lemma_first_value_is_first_match(headers: Seq<Header>, name: Seq<char>)
    ensures
        match first_value(headers, name) {
            Some(value) => exists|at: int|
                0 <= at < headers.len() && is_named(#[trigger] headers[at], name) && value
                    == headers[at].value@ && forall|before: int|
                    0 <= before < at ==> !is_named(#[trigger] headers[before], name),
            None => forall|at: int| 0 <= at < headers.len() ==> !is_named(#[trigger] headers[at], name),
        },
    decreases headers.len(),
{
    if headers.len() > 0 && !is_named(headers[0], name) {
        let rest = headers.drop_first();
        lemma_first_value_is_first_match(rest, name);
        match first_value(rest, name) {
            Some(value) => {
                let at = choose|at: int|
                    0 <= at < rest.len() && is_named(#[trigger] rest[at], name) && value
                        == rest[at].value@ && forall|before: int|
                        0 <= before < at ==> !is_named(#[trigger] rest[before], name);
                assert(headers[at + 1] == rest[at]);
                assert forall|before: int| 0 <= before < at + 1 implies !is_named(
                    #[trigger] headers[before],
                    name,
                ) by {
                    if before > 0 {
                        assert(headers[before] == rest[before - 1]);
                    }
                }
            },
            None => {
                assert forall|at: int| 0 <= at < headers.len() implies !is_named(
                    #[trigger] headers[at],
                    name,
                ) by {
                    if at > 0 {
                        assert(headers[at] == rest[at - 1]);
                    }
                }
            },
        }
    } else if headers.len() > 0 {
        assert(is_named(headers[0], name));
    }
}

} // verus!
