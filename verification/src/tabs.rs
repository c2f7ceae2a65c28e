//! The tabs of the detail panel.

use vstd::prelude::*;
use vstd::string::*;

verus! {

/// The tab of the detail panel that is shown for the selected transaction.
#[derive(Debug, Clone, Copy, PartialEq, Eq, Structural)]
pub enum TabBarState {
    Headers,
    Cookies,
    Request,
    Response,
}

/// The tabs of the detail panel, from the left.
pub const TABBAR_ITEMS: [TabBarState; 4] = [
    TabBarState::Headers,
    TabBarState::Cookies,
    TabBarState::Request,
    TabBarState::Response,
];

/// The parts of a transaction that a detail panel can show.
#[derive(Debug)]
pub enum TabItem {
    Headers,
    Cookie,
    Request,
    Response,
    Timing,
    Encryption,
}

impl TabBarState {
    /// The title of a tab: the key that selects it, and its name.
    pub open spec fn title(self) -> Seq<char> {
        match self {
            TabBarState::Headers => " [1] Headers "@,
            TabBarState::Cookies => " [2] Cookies "@,
            TabBarState::Request => " [3] Request "@,
            TabBarState::Response => " [4] Response "@,
        }
    }

    /// Position of a tab in the tab bar, counted from the left.
    pub open spec fn position(self) -> nat {
        match self {
            TabBarState::Headers => 0,
            TabBarState::Cookies => 1,
            TabBarState::Request => 2,
            TabBarState::Response => 3,
        }
    }

    /// The tab at `position` of the tab bar, if there is one.
    pub open spec fn at(position: nat) -> Option<TabBarState> {
        if position == 0 {
            Some(TabBarState::Headers)
        } else if position == 1 {
            Some(TabBarState::Cookies)
        } else if position == 2 {
            Some(TabBarState::Request)
        } else if position == 3 {
            Some(TabBarState::Response)
        } else {
            None
        }
    }

    /// The tab at position `index` of the tab bar, or `None` where the tab
    /// bar has no such position. The receiver is not looked at.
    pub fn from_index(&self, index: usize) -> (tab: Option<TabBarState>)
        ensures
            tab == TabBarState::at(index as nat),
    {
        match index {
            0 => Some(TabBarState::Headers),
            1 => Some(TabBarState::Cookies),
            2 => Some(TabBarState::Request),
            3 => Some(TabBarState::Response),
            _ => None,
        }
    }

    /// Position of this tab in the tab bar.
    pub fn to_index(&self) -> (index: usize)
        ensures
            index == self.position(),
    {
        match self {
            TabBarState::Headers => 0,
            TabBarState::Cookies => 1,
            TabBarState::Request => 2,
            TabBarState::Response => 3,
        }
    }

    /// The title of this tab in the tab bar.
    pub fn to_string(&self) -> (title: String)
        ensures
            title@ == self.title(),
    {
        match self {
            TabBarState::Headers => String::from_str(" [1] Headers "),
            TabBarState::Cookies => String::from_str(" [2] Cookies "),
            TabBarState::Request => String::from_str(" [3] Request "),
            TabBarState::Response => String::from_str(" [4] Response "),
        }
    }
}

/// A tab is found again at its own position, and positions past the four
/// tabs hold none.
pub proof fn lemma_position_round_trip(tab: TabBarState, position: nat)
    ensures
        TabBarState::at(tab.position()) == Some(tab),
        TabBarState::at(position) is Some <==> position < 4,
        TabBarState::at(position) matches Some(found) ==> found.position() == position,
{
}

/// The list of tabs holds each tab at its own position.
pub proof fn lemma_tabbar_items_in_order(position: nat)
    requires
        position < 4,
    ensures
        TabBarState::at(position) == Some(TABBAR_ITEMS[position as int]),
{
}

} // verus!
