use vstd::prelude::*;

use crate::text::{decimal, decimal_string, two_digit_string, two_digits};
use crate::workspace::{
    lemma_sort_by_id_is_stable_sort, lemma_with_id_members, sort_by_id, sort_workspaces_by_id, sorted_by_id, with_id, Workspace,
};

verus! {

/// The battery icon the widget shows.
#[derive(Clone, Copy, Debug, PartialEq, Eq)]
pub enum BatteryIcon {
    Warning,
    Low,
    Medium,
    Full,
}

/// The theme color the battery icon is drawn in.
#[derive(Clone, Copy, Debug, PartialEq, Eq)]
pub enum BatteryColor {
    Red,
    RedLight,
    Green,
    GreenLight,
}

/// How full the icon is: 0 for the warning icon up to 3 for the full one.
pub open spec fn icon_rank(icon: BatteryIcon) -> int {
    match icon {
        BatteryIcon::Warning => 0,
        BatteryIcon::Low => 1,
        BatteryIcon::Medium => 2,
        BatteryIcon::Full => 3,
    }
}

/// The icon and color for a charge of `percent` percent, or for no readable
/// battery when `percent` is `None`.
pub open spec fn battery_look(percent: Option<u8>) -> (BatteryIcon, BatteryColor) {
    match percent {
        None => (BatteryIcon::Warning, BatteryColor::Red),
        Some(p) => if p <= 10 {
            (BatteryIcon::Warning, BatteryColor::RedLight)
        } else if p <= 33 {
            (BatteryIcon::Low, BatteryColor::Red)
        } else if p <= 70 {
            (BatteryIcon::Medium, BatteryColor::Green)
        } else {
            (BatteryIcon::Full, BatteryColor::GreenLight)
        },
    }
}

/// Chooses the battery icon and its color from the charge in percent of the
/// first battery (`None` when there is no battery to read): up to 10 % the
/// warning icon in light red, up to 33 % the low icon in red, up to 70 % the
/// medium icon in green, above that the full icon in light green; without a
/// battery the warning icon in red.
pub fn battery_status(percent: Option<u8>) -> (look: (BatteryIcon, BatteryColor))
    ensures
        look == battery_look(percent),
{
    match percent {
        None => (BatteryIcon::Warning, BatteryColor::Red),
        Some(p) => if p <= 10 {
            (BatteryIcon::Warning, BatteryColor::RedLight)
        } else if p <= 33 {
            (BatteryIcon::Low, BatteryColor::Red)
        } else if p <= 70 {
            (BatteryIcon::Medium, BatteryColor::Green)
        } else {
            (BatteryIcon::Full, BatteryColor::GreenLight)
        },
    }
}

/// More charge never shows an emptier icon.
pub proof fn lemma_battery_icon_monotone(p: u8, q: u8)
    requires
        p <= q,
    ensures
        icon_rank(battery_look(Some(p)).0) <= icon_rank(battery_look(Some(q)).0),
{
}

/// The charge ranges: up to 10 % the warning icon in light red, 11 % to
/// 33 % the low icon in red, 34 % to 70 % the medium icon in green, above
/// 70 % the full icon in light green; without a battery the warning icon in
/// red.
pub proof fn lemma_battery_ranges(p: u8)
    ensures
        p <= 10 ==> battery_look(Some(p)) == (BatteryIcon::Warning, BatteryColor::RedLight),
        11 <= p <= 33 ==> battery_look(Some(p)) == (BatteryIcon::Low, BatteryColor::Red),
        34 <= p <= 70 ==> battery_look(Some(p)) == (BatteryIcon::Medium, BatteryColor::Green),
        71 <= p ==> battery_look(Some(p)) == (BatteryIcon::Full, BatteryColor::GreenLight),
        battery_look(None) == (BatteryIcon::Warning, BatteryColor::Red),
{
}

/// For a readable battery the color follows from the icon: two charges that
/// show the same icon show it in the same color.
pub proof fn lemma_battery_color_follows_icon(p: u8, q: u8)
    ensures
        battery_look(Some(p)).0 == battery_look(Some(q)).0 ==> battery_look(Some(p)).1
            == battery_look(Some(q)).1,
{
}

/// The two lines of the clock: the hour and the minute, two digits each.
pub fn clock_labels(hour: u32, minute: u32) -> (labels: (String, String))
    requires
        hour < 24,
        minute < 60,
    ensures
        labels.0@ == two_digits(hour as nat),
        labels.1@ == two_digits(minute as nat),
{
    (two_digit_string(hour), two_digit_string(minute))
}

/// One entry of the workspace widget.
pub struct WorkspaceLabel {
    /// The id of the workspace, used to focus it on a click.
    pub id: u64,
    /// The text shown: the id in decimal.
    pub text: String,
    /// Whether the entry is highlighted as focused.
    pub focused: bool,
}

/// The workspaces the widget shows, in order: the stored list ordered by id,
/// or nothing when no list is stored.
pub open spec fn shown_workspaces(stored: Option<Vec<Workspace>>) -> Seq<Workspace> {
    match stored {
        Some(list) => sort_by_id(list@),
        None => Seq::empty(),
    }
}

/// The widget shows every stored workspace, and nothing else: as many
/// entries as stored workspaces, ordered by id, with the workspaces of each
/// id in their stored order; nothing when no list is stored.
pub proof fn lemma_shown_workspaces(stored: Option<Vec<Workspace>>)
    ensures
        stored is None ==> shown_workspaces(stored).len() == 0,
        stored matches Some(list) ==> {
            &&& shown_workspaces(stored).len() == list@.len()
            &&& sorted_by_id(shown_workspaces(stored))
            &&& forall|id: u64| #[trigger] with_id(shown_workspaces(stored), id) == with_id(list@, id)
            &&& forall|i: int| 0 <= i < list@.len() ==> shown_workspaces(stored).contains(#[trigger] list@[i])
            &&& forall|i: int| 0 <= i < list@.len() ==> list@.contains(#[trigger] shown_workspaces(stored)[i])
        },
{
    if let Some(list) = stored {
        let shown = shown_workspaces(stored);
        lemma_sort_by_id_is_stable_sort(list@);
        assert forall|i: int| 0 <= i < list@.len() implies shown.contains(#[trigger] list@[i]) by {
            let w = list@[i];
            assert(list@.contains(w));
            lemma_with_id_members(list@, w.id);
            lemma_with_id_members(shown, w.id);
            assert(with_id(shown, w.id) == with_id(list@, w.id));
            assert(with_id(list@, w.id).contains(w));
        }
        assert forall|i: int| 0 <= i < list@.len() implies list@.contains(#[trigger] shown[i]) by {
            let w = shown[i];
            assert(shown.contains(w));
            lemma_with_id_members(list@, w.id);
            lemma_with_id_members(shown, w.id);
            assert(with_id(shown, w.id) == with_id(list@, w.id));
            assert(with_id(shown, w.id).contains(w));
        }
    }
}

/// The entries of the workspace widget for the stored list: one per
/// workspace, ordered by id, each showing its id in decimal and highlighted
/// when focused.
pub fn workspace_labels(stored: Option<Vec<Workspace>>) -> (labels: Vec<WorkspaceLabel>)
    ensures
        labels@.len() == shown_workspaces(stored).len(),
        forall|i: int|
            0 <= i < labels@.len() ==> {
                &&& (#[trigger] labels@[i]).id == shown_workspaces(stored)[i].id
                &&& labels@[i].text@ == decimal(shown_workspaces(stored)[i].id as nat)
                &&& labels@[i].focused == shown_workspaces(stored)[i].is_focused
            },
{
    let mut list = match stored {
        Some(list) => list,
        None => Vec::new(),
    };
    sort_workspaces_by_id(&mut list);
    let ghost shown = list@;
    let mut labels: Vec<WorkspaceLabel> = Vec::new();
    let n = list.len();
    let mut i: usize = 0;
    while i < n
        invariant
            i <= n,
            n == shown.len(),
            list@ == shown,
            labels@.len() == i,
            forall|k: int|
                0 <= k < i ==> {
                    &&& (#[trigger] labels@[k]).id == shown[k].id
                    &&& labels@[k].text@ == decimal(shown[k].id as nat)
                    &&& labels@[k].focused == shown[k].is_focused
                },
        decreases n - i,
    {
        let id = list[i].id;
        let focused = list[i].is_focused;
        labels.push(WorkspaceLabel { id, text: decimal_string(id), focused });
        i = i + 1;
    }
    labels
}

/// The index of the logo shown after a click: the logos alternate.
pub fn next_icon_index(index: usize) -> (next: usize)
    requires
        index < usize::MAX,
    ensures
        next == (index + 1) % 2,
{
    (index + 1) % 2
}

/// Two clicks on the logo bring back the logo shown before them.
pub proof fn lemma_icon_index_two_clicks(index: usize)
    requires
        index < 2,
    ensures
        (((index + 1) % 2) + 1) % 2 == index,
{
}

/// Which of the two logos the sidebar shows; a click shows the other one.
pub struct LogoChoice {
    index: usize,
}

impl LogoChoice {
    #[verifier::type_invariant]
    spec fn in_range(self) -> bool {
        self.index < 2
    }

    /// The index of the logo shown.
    pub closed spec fn shown(self) -> usize {
        self.index
    }

    /// The sidebar starts with the second logo.
    pub fn new() -> (choice: LogoChoice)
        ensures
            choice.shown() == 1,
    {
        LogoChoice { index: 1 }
    }

    /// The index of the logo shown; always 0 or 1, so it picks one of the
    /// two logos.
    pub fn index(&self) -> (index: usize)
        ensures
            index == self.shown(),
            index < 2,
    {
        proof {
            use_type_invariant(self);
        }
        self.index
    }

    /// A click on the logo: the other logo is shown.
    pub fn click(&mut self)
        ensures
            final(self).shown() == (old(self).shown() + 1) % 2,
            final(self).shown() < 2,
    {
        proof {
            use_type_invariant(&*self);
        }
        self.index = next_icon_index(self.index);
    }
}

/// The logical size of an output in pixels.
#[derive(Clone, Copy, Debug, PartialEq, Eq)]
pub struct LogicalSize {
    pub width: u32,
    pub height: u32,
}

/// The size the bar is laid out for: the logical size of the first output
/// niri lists (the outputs in the order the reply is walked), or `None` when
/// there is no output or the first one has no logical size.
pub fn first_output_size(outputs: &Vec<Option<LogicalSize>>) -> (size: Option<LogicalSize>)
    ensures
        size == if outputs@.len() == 0 {
            None
        } else {
            outputs@[0]
        },
{
    if outputs.len() == 0 {
        None
    } else {
        outputs[0]
    }
}

} // verus!
