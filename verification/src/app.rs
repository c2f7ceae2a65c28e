//! The state of a viewing session: which transaction is selected, which tab
//! of the detail panel is shown, and whether the session goes on.

use crate::har::Har;
use crate::tabs::TabBarState;
use vstd::prelude::*;

verus! {

/// The state of a session as the selection rules see it.
pub ghost struct Session {
    /// Whether the session goes on.
    pub running: bool,
    /// Index of the selected transaction.
    pub index: nat,
    /// The tab shown in the detail panel.
    pub tab: TabBarState,
    /// Number of transactions in the document.
    pub entries: nat,
}

impl Session {
    /// The largest index that may be selected. For an empty document this
    /// is 0, where the index rests while nothing can be selected.
    pub open spec fn last_index(self) -> nat {
        if self.entries == 0 {
            0
        } else {
            (self.entries - 1) as nat
        }
    }

    /// The index points into the document, or rests at 0 while the document
    /// is empty.
    pub open spec fn wf(self) -> bool {
        self.index <= self.last_index()
    }

    /// The selected transaction, if the document has one at the index.
    pub open spec fn selection(self) -> Option<nat> {
        if self.index < self.entries {
            Some(self.index)
        } else {
            None
        }
    }

    /// `target` brought into the range of selectable indices.
    pub open spec fn clamped(self, target: int) -> nat {
        if target < 0 {
            0
        } else if target > self.last_index() {
            self.last_index()
        } else {
            target as nat
        }
    }

    /// The state after the selection moved by `delta` rows.
    pub open spec fn moved_by(self, delta: int) -> Session {
        Session { index: self.clamped(self.index + delta), ..self }
    }

    /// The state after the selection moved to the first row.
    pub open spec fn moved_to_first(self) -> Session {
        Session { index: 0, ..self }
    }

    /// The state after the selection moved to the last row.
    pub open spec fn moved_to_last(self) -> Session {
        Session { index: self.last_index(), ..self }
    }

    /// The state after `tab` was chosen.
    pub open spec fn with_tab(self, tab: TabBarState) -> Session {
        Session { tab, ..self }
    }

    /// The state after the user asked to leave.
    pub open spec fn stopped(self) -> Session {
        Session { running: false, ..self }
    }
}

/// A viewing session over one document.
///
/// The document never changes while the session lasts, and the index always
/// points into it, or rests at 0 while the document is empty.
#[derive(Debug)]
pub struct App {
    running: bool,
    index: usize,
    har: Har,
    tabbar_state: TabBarState,
}

impl View for App {
    type V = Session;

    closed spec fn view(&self) -> Session {
        Session {
            running: self.running,
            index: self.index as nat,
            tab: self.tabbar_state,
            entries: self.har.log.entries.len() as nat,
        }
    }
}

impl App {
    /// Holds of every session: the index is a row of the document.
    #[verifier::type_invariant]
    pub open spec fn index_in_range(&self) -> bool {
        self@.wf()
    }

    /// The document that the session shows.
    pub closed spec fn document(&self) -> Har {
        self.har
    }

    /// Starts a session on `har`: running, on the first row, with the
    /// headers tab.
    pub fn init(har: Har) -> (app: App)
        ensures
            app.document() == har,
            app@ == (Session {
                running: true,
                index: 0,
                tab: TabBarState::Headers,
                entries: har.log.entries.len() as nat,
            }),
            app@.wf(),
    {
        App { running: true, index: 0, tabbar_state: TabBarState::Headers, har }
    }

    /// A tick of the clock leaves the state as it is.
    pub fn tick(&self) {
    }

    /// Whether the session goes on.
    pub fn running(&self) -> (running: bool)
        ensures
            running == self@.running,
    {
        self.running
    }

    /// The document that the session shows.
    pub fn har(&self) -> (har: &Har)
        ensures
            *har == self.document(),
            har.log.entries.len() == self@.entries,
    {
        &self.har
    }

    /// The tab shown in the detail panel.
    pub fn tabbar_state(&self) -> (tab: TabBarState)
        ensures
            tab == self@.tab,
    {
        self.tabbar_state
    }

    /// Index of the selected row. It is always a row of the document, or 0
    /// while the document is empty.
    pub fn get_index(&self) -> (index: usize)
        ensures
            index == self@.index,
            self@.wf(),
    {
        proof {
            use_type_invariant(self);
        }
        self.index
    }

    /// Number of transactions in the document.
    pub fn max_index(&self) -> (count: usize)
        ensures
            count == self@.entries,
    {
        self.har.log.entries.len()
    }

    /// Index of the selected transaction, or `None` while the document is
    /// empty and nothing can be selected.
    pub fn selected(&self) -> (selection: Option<usize>)
        ensures
            self@.wf(),
            match selection {
                Some(index) => self@.selection() == Some(index as nat),
                None => self@.selection() is None && self@.entries == 0,
            },
    {
        proof {
            use_type_invariant(self);
        }
        if self.index < self.har.log.entries.len() {
            Some(self.index)
        } else {
            None
        }
    }

    /// Moves the selection by `delta` rows, stopping at the first and at the
    /// last row.
    pub fn update_index(&mut self, delta: i32)
        ensures
            final(self)@ == old(self)@.moved_by(delta as int),
            final(self)@.wf(),
            final(self).document() == old(self).document(),
    {
        proof {
            use_type_invariant(&*self);
        }
        let last: usize = self.last_row();
        if delta >= 0 {
            let forward: usize = delta as usize;
            if forward >= last - self.index {
                self.index = last;
            } else {
                self.index = self.index + forward;
            }
        } else {
            let back: i64 = -(delta as i64);
            let back: usize = back as usize;
            if back >= self.index {
                self.index = 0;
            } else {
                self.index = self.index - back;
            }
        }
    }

    /// Moves the selection to the first row.
    pub fn update_index_first(&mut self)
        ensures
            final(self)@ == old(self)@.moved_to_first(),
            final(self)@.wf(),
            final(self).document() == old(self).document(),
    {
        self.index = 0;
    }

    /// Moves the selection to the last row. An empty document has no last
    /// row: there the index rests at 0.
    pub fn update_index_last(&mut self)
        ensures
            final(self)@ == old(self)@.moved_to_last(),
            final(self)@.wf(),
            final(self).document() == old(self).document(),
    {
        self.index = self.last_row();
    }

    /// Shows `state` in the detail panel.
    pub fn set_tabbar_state(&mut self, state: &TabBarState)
        ensures
            final(self)@ == old(self)@.with_tab(*state),
            final(self)@.wf(),
            final(self).document() == old(self).document(),
    {
        proof {
            use_type_invariant(&*self);
        }
        self.tabbar_state = *state;
    }

    /// Ends the session: the loop that drives it stops before its next turn.
    pub fn quit(&mut self)
        ensures
            final(self)@ == old(self)@.stopped(),
            final(self)@.wf(),
            final(self).document() == old(self).document(),
    {
        proof {
            use_type_invariant(&*self);
        }
        self.running = false;
    }

    /// The largest index that may be selected.
    fn last_row(&self) -> (last: usize)
        ensures
            last == self@.last_index(),
    {
        let count = self.har.log.entries.len();
        if count == 0 {
            0
        } else {
            count - 1
        }
    }
}

} // verus!
