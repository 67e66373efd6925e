use vstd::prelude::*;

verus! {

/// One workspace as niri reports it.
#[derive(Clone, Debug, PartialEq, Eq)]
pub struct Workspace {
    /// Unique id of the workspace; stays the same while it moves around.
    pub id: u64,
    /// Index of the workspace on its monitor.
    pub idx: u8,
    /// Optional name of the workspace.
    pub name: Option<String>,
    /// Name of the output the workspace is on.
    pub output: Option<String>,
    /// Whether the workspace has an urgent window.
    pub is_urgent: bool,
    /// Whether the workspace is the visible one on its output.
    pub is_active: bool,
    /// Whether the workspace holds the keyboard focus.
    pub is_focused: bool,
    /// Id of the active window on this workspace, if any.
    pub active_window_id: Option<u64>,
}

/// Every workspace comes no later than the ones with a larger id.
pub open spec fn sorted_by_id(s: Seq<Workspace>) -> bool {
    forall|i: int, j: int| 0 <= i < j < s.len() ==> s[i].id <= s[j].id
}

/// `s` with `w` placed after the last element whose id is not larger than
/// `w`'s, searching from the back: one step of a stable insertion.
pub open spec fn insert_by_id(s: Seq<Workspace>, w: Workspace) -> Seq<Workspace>
    decreases s.len(),
{
    if s.len() == 0 || s.last().id <= w.id {
        s.push(w)
    } else {
        insert_by_id(s.drop_last(), w).push(s.last())
    }
}

/// The stable sort of `s` by id: what `sort_by_key(|w| w.id)` produces.
pub open spec fn sort_by_id(s: Seq<Workspace>) -> Seq<Workspace>
    decreases s.len(),
{
    if s.len() == 0 {
        s
    } else {
        insert_by_id(sort_by_id(s.drop_last()), s.last())
    }
}

/// The subsequence of the workspaces of `s` whose id is `id`, in order.
pub open spec fn with_id(s: Seq<Workspace>, id: u64) -> Seq<Workspace>
    decreases s.len(),
{
    if s.len() == 0 {
        Seq::empty()
    } else if s.last().id == id {
        with_id(s.drop_last(), id).push(s.last())
    } else {
        with_id(s.drop_last(), id)
    }
}

/// Inserting at the place found by scanning from the back.
proof fn lemma_insert_at(s: Seq<Workspace>, w: Workspace, j: int)
    requires
        0 <= j <= s.len(),
        forall|k: int| j <= k < s.len() ==> s[k].id > w.id,
        j == 0 || s[j - 1].id <= w.id,
    ensures
        insert_by_id(s, w) =~= s.take(j).push(w) + s.skip(j),
    decreases s.len(),
{
    if s.len() == 0 || s.last().id <= w.id {
        assert(j == s.len());
    } else {
        lemma_insert_at(s.drop_last(), w, j);
        assert(s.drop_last().take(j) =~= s.take(j));
        assert(s.drop_last().skip(j).push(s.last()) =~= s.skip(j));
    }
}

/// Sorts the workspaces by id, keeping workspaces with equal ids in the
/// order they came in.
pub fn sort_workspaces_by_id(workspaces: &mut Vec<Workspace>)
    ensures
        final(workspaces)@ == sort_by_id(old(workspaces)@),
        sorted_by_id(final(workspaces)@),
        forall|id: u64| #[trigger] with_id(final(workspaces)@, id) == with_id(old(workspaces)@, id),
{
    let ghost orig = workspaces@;
    let n = workspaces.len();
    let mut i: usize = 0;
    assert(orig.take(0) =~= Seq::<Workspace>::empty());
    assert(orig.skip(0) =~= orig);
    while i < n
        invariant
            i <= n,
            n == orig.len(),
            workspaces@.len() == n,
            workspaces@ =~= sort_by_id(orig.take(i as int)) + orig.skip(i as int),
        decreases n - i,
    {
        let ghost sorted = sort_by_id(orig.take(i as int));
        proof {
            lemma_sort_len(orig.take(i as int));
        }
        let x = workspaces.remove(i);
        assert(x == orig[i as int]);
        let mut j: usize = i;
        while j > 0 && workspaces[j - 1].id > x.id
            invariant
                j <= i,
                i < n,
                sorted.len() == i,
                workspaces@ =~= sorted + orig.skip(i as int + 1),
                forall|k: int| j <= k < i ==> sorted[k].id > x.id,
            decreases j,
        {
            j = j - 1;
        }
        proof {
            lemma_insert_at(sorted, x, j as int);
            assert(orig.take(i as int + 1).drop_last() =~= orig.take(i as int));
            assert(orig.take(i as int + 1).last() == x);
        }
        workspaces.insert(j, x);
        assert(workspaces@ =~= sort_by_id(orig.take(i as int + 1)) + orig.skip(i as int + 1));
        i = i + 1;
    }
    assert(orig.take(n as int) =~= orig);
    proof {
        lemma_sort_by_id_is_stable_sort(orig);
    }
}

/// Sorting keeps the length.
pub proof fn lemma_sort_len(s: Seq<Workspace>)
    ensures
        sort_by_id(s).len() == s.len(),
    decreases s.len(),
{
    if s.len() > 0 {
        lemma_sort_len(s.drop_last());
        lemma_insert_len(sort_by_id(s.drop_last()), s.last());
    }
}

proof fn lemma_insert_len(s: Seq<Workspace>, w: Workspace)
    ensures
        insert_by_id(s, w).len() == s.len() + 1,
    decreases s.len(),
{
    if s.len() > 0 && s.last().id > w.id {
        lemma_insert_len(s.drop_last(), w);
    }
}


proof fn lemma_insert_sorted(s: Seq<Workspace>, w: Workspace)
    requires
        sorted_by_id(s),
    ensures
        sorted_by_id(insert_by_id(s, w)),
        forall|k: int| 0 <= k < insert_by_id(s, w).len() ==> #[trigger] insert_by_id(s, w)[k] == w
            || s.contains(insert_by_id(s, w)[k]),
    decreases s.len(),
{
    lemma_insert_len(s, w);
    if s.len() == 0 || s.last().id <= w.id {
        assert forall|k: int| 0 <= k < insert_by_id(s, w).len() implies #[trigger] insert_by_id(s, w)[k] == w
            || s.contains(insert_by_id(s, w)[k]) by {
            if k < s.len() {
                assert(s[k] == insert_by_id(s, w)[k]);
            }
        }
    } else {
        let t = s.drop_last();
        lemma_insert_sorted(t, w);
        lemma_insert_len(t, w);
        let r = insert_by_id(t, w);
        assert forall|k: int| 0 <= k < r.len() implies #[trigger] r[k].id <= s.last().id by {
            if r[k] != w {
                let m = choose|m: int| 0 <= m < t.len() && t[m] == r[k];
                assert(t[m] == s[m]);
            }
        }
        assert forall|k: int| 0 <= k < insert_by_id(s, w).len() implies #[trigger] insert_by_id(s, w)[k] == w
            || s.contains(insert_by_id(s, w)[k]) by {
            if k < r.len() {
                assert(insert_by_id(s, w)[k] == r[k]);
                if r[k] != w {
                    let m = choose|m: int| 0 <= m < t.len() && t[m] == r[k];
                    assert(s[m] == t[m]);
                }
            } else {
                assert(insert_by_id(s, w)[k] == s[s.len() - 1]);
            }
        }
    }
}

proof fn lemma_with_id_insert(s: Seq<Workspace>, w: Workspace, id: u64)
    ensures
        with_id(insert_by_id(s, w), id) =~= if w.id == id {
            with_id(s, id).push(w)
        } else {
            with_id(s, id)
        },
    decreases s.len(),
{
    if s.len() == 0 || s.last().id <= w.id {
        assert(s.push(w).drop_last() =~= s);
    } else {
        lemma_with_id_insert(s.drop_last(), w, id);
        let r = insert_by_id(s.drop_last(), w);
        assert(r.push(s.last()).drop_last() =~= r);
    }
}

/// Sorting by id is a stable sort: the result is ordered by id, and for
/// every id the workspaces that carry it appear in the same order as before.
pub proof fn lemma_sort_by_id_is_stable_sort(s: Seq<Workspace>)
    ensures
        sorted_by_id(sort_by_id(s)),
        sort_by_id(s).len() == s.len(),
        forall|id: u64| #[trigger] with_id(sort_by_id(s), id) == with_id(s, id),
    decreases s.len(),
{
    lemma_sort_len(s);
    if s.len() > 0 {
        let t = s.drop_last();
        lemma_sort_by_id_is_stable_sort(t);
        lemma_insert_sorted(sort_by_id(t), s.last());
        assert forall|id: u64| #[trigger] with_id(sort_by_id(s), id) == with_id(s, id) by {
            lemma_with_id_insert(sort_by_id(t), s.last(), id);
        }
    }
}

/// Sorting a list that is already ordered by id leaves it unchanged.
pub proof fn lemma_sort_by_id_of_sorted(s: Seq<Workspace>)
    requires
        sorted_by_id(s),
    ensures
        sort_by_id(s) == s,
    decreases s.len(),
{
    if s.len() > 0 {
        lemma_sort_by_id_of_sorted(s.drop_last());
        assert(s.drop_last().push(s.last()) =~= s);
    }
}

/// Sorting twice is sorting once.
pub proof fn lemma_sort_by_id_idempotent(s: Seq<Workspace>)
    ensures
        sort_by_id(sort_by_id(s)) == sort_by_id(s),
{
    lemma_sort_by_id_is_stable_sort(s);
    lemma_sort_by_id_of_sorted(sort_by_id(s));
}


/// `w` with its focus flag set exactly when its id is `id`.
pub open spec fn with_focus(w: Workspace, id: u64) -> Workspace {
    Workspace { is_focused: w.id == id, ..w }
}

/// Every workspace of `s`, focused exactly when its id is `id`.
pub open spec fn focus_on(s: Seq<Workspace>, id: u64) -> Seq<Workspace> {
    Seq::new(s.len(), |i: int| with_focus(s[i], id))
}

/// The workspace list after niri reports that workspace `id` took the focus:
/// ordered by id, with only the workspaces of that id focused.
pub open spec fn activated(s: Seq<Workspace>, id: u64) -> Seq<Workspace> {
    focus_on(sort_by_id(s), id)
}

/// Marks the workspaces whose id is `id` as focused and all others as not.
pub fn set_focus(workspaces: &mut Vec<Workspace>, id: u64)
    ensures
        final(workspaces)@ == focus_on(old(workspaces)@, id),
{
    let ghost orig = workspaces@;
    let n = workspaces.len();
    let mut i: usize = 0;
    while i < n
        invariant
            i <= n,
            n == orig.len(),
            workspaces@.len() == n,
            forall|k: int| 0 <= k < i ==> workspaces@[k] == with_focus(orig[k], id),
            forall|k: int| i <= k < n ==> workspaces@[k] == orig[k],
        decreases n - i,
    {
        let w = workspaces.remove(i);
        let focused = w.id == id;
        workspaces.insert(i, Workspace { is_focused: focused, ..w });
        i = i + 1;
    }
    assert(workspaces@ =~= focus_on(orig, id));
}

/// Orders the workspaces by id and moves the focus to workspace `id`.
pub fn activate_workspace(workspaces: Vec<Workspace>, id: u64) -> (result: Vec<Workspace>)
    ensures
        result@ == activated(workspaces@, id),
{
    let mut workspaces = workspaces;
    sort_workspaces_by_id(&mut workspaces);
    set_focus(&mut workspaces, id);
    workspaces
}

/// Moving the focus keeps every workspace in its place and changes nothing
/// but focus flags.
proof fn lemma_focus_keeps_sorted(s: Seq<Workspace>, id: u64)
    requires
        sorted_by_id(s),
    ensures
        sorted_by_id(focus_on(s, id)),
{
}

/// Reporting the same activation twice leaves the list as after the first.
pub proof fn lemma_activation_idempotent(s: Seq<Workspace>, id: u64)
    ensures
        activated(activated(s, id), id) == activated(s, id),
{
    lemma_sort_by_id_is_stable_sort(s);
    let a = activated(s, id);
    lemma_focus_keeps_sorted(sort_by_id(s), id);
    lemma_sort_by_id_of_sorted(a);
    assert(focus_on(a, id) =~= a);
}

/// After an activation, a workspace is focused exactly when it carries the
/// activated id, and the list is ordered by id.
pub proof fn lemma_activation_focus(s: Seq<Workspace>, id: u64)
    ensures
        sorted_by_id(activated(s, id)),
        activated(s, id).len() == s.len(),
        forall|i: int| 0 <= i < s.len() ==> (#[trigger] activated(s, id)[i]).is_focused
            == (activated(s, id)[i].id == id),
{
    lemma_sort_by_id_is_stable_sort(s);
    lemma_focus_keeps_sorted(sort_by_id(s), id);
}

/// An activation changes nothing but focus flags: each workspace of the
/// result is the workspace at the same place of the list sorted by id, with
/// the same id, index, name, output, urgency, activity and active window.
pub proof fn lemma_activation_keeps_fields(s: Seq<Workspace>, id: u64)
    ensures
        forall|i: int|
            0 <= i < s.len() ==> {
                let a = #[trigger] activated(s, id)[i];
                let t = sort_by_id(s)[i];
                &&& a.id == t.id
                &&& a.idx == t.idx
                &&& a.name == t.name
                &&& a.output == t.output
                &&& a.is_urgent == t.is_urgent
                &&& a.is_active == t.is_active
                &&& a.active_window_id == t.active_window_id
            },
{
    lemma_sort_len(s);
}

/// At most one workspace of `s` has the id `id`.
pub open spec fn id_at_most_once(s: Seq<Workspace>, id: u64) -> bool {
    forall|i: int, j: int| 0 <= i < j < s.len() ==> !(s[i].id == id && s[j].id == id)
}

proof fn lemma_with_id_empty(s: Seq<Workspace>, id: u64)
    requires
        forall|i: int| 0 <= i < s.len() ==> s[i].id != id,
    ensures
        with_id(s, id).len() == 0,
    decreases s.len(),
{
    if s.len() > 0 {
        lemma_with_id_empty(s.drop_last(), id);
    }
}

proof fn lemma_with_id_at_least_one(s: Seq<Workspace>, i: int)
    requires
        0 <= i < s.len(),
    ensures
        with_id(s, s[i].id).len() >= 1,
    decreases s.len(),
{
    if i < s.len() - 1 {
        lemma_with_id_at_least_one(s.drop_last(), i);
    }
}

proof fn lemma_with_id_at_least_two(s: Seq<Workspace>, i: int, j: int)
    requires
        0 <= i < j < s.len(),
        s[i].id == s[j].id,
    ensures
        with_id(s, s[i].id).len() >= 2,
    decreases s.len(),
{
    if j < s.len() - 1 {
        lemma_with_id_at_least_two(s.drop_last(), i, j);
    } else {
        lemma_with_id_at_least_one(s.drop_last(), i);
    }
}

proof fn lemma_once_with_id(s: Seq<Workspace>, id: u64)
    requires
        id_at_most_once(s, id),
    ensures
        with_id(s, id).len() <= 1,
    decreases s.len(),
{
    if s.len() > 0 {
        lemma_once_with_id(s.drop_last(), id);
        if s.last().id == id {
            lemma_with_id_empty(s.drop_last(), id);
        }
    }
}

/// When at most one workspace has the activated id, at most one is focused
/// after the activation, and exactly one when a workspace has that id.
pub proof fn lemma_activation_single_focus(s: Seq<Workspace>, id: u64)
    requires
        id_at_most_once(s, id),
    ensures
        forall|i: int, j: int|
            0 <= i < j < s.len() ==> !((#[trigger] activated(s, id)[i]).is_focused
                && (#[trigger] activated(s, id)[j]).is_focused),
        (exists|k: int| 0 <= k < s.len() && s[k].id == id) ==> exists|k: int|
            0 <= k < s.len() && (#[trigger] activated(s, id)[k]).is_focused,
{
    lemma_sort_by_id_is_stable_sort(s);
    let t = sort_by_id(s);
    assert forall|i: int, j: int|
        0 <= i < j < s.len() implies !((#[trigger] activated(s, id)[i]).is_focused
            && (#[trigger] activated(s, id)[j]).is_focused) by {
        if t[i].id == id && t[j].id == id {
            lemma_with_id_at_least_two(t, i, j);
            lemma_once_with_id(s, id);
            assert(with_id(t, id) == with_id(s, id));
        }
    }
    if exists|k: int| 0 <= k < s.len() && s[k].id == id {
        let k = choose|k: int| 0 <= k < s.len() && s[k].id == id;
        lemma_with_id_at_least_one(s, k);
        assert(with_id(t, id) == with_id(s, id));
        if forall|m: int| 0 <= m < t.len() ==> t[m].id != id {
            lemma_with_id_empty(t, id);
        }
        let m = choose|m: int| 0 <= m < t.len() && t[m].id == id;
        assert(activated(s, id)[m].is_focused);
    }
}


fn duplicate_text(text: &Option<String>) -> (copy: Option<String>)
    ensures
        copy == *text,
{
    match text {
        Some(s) => Some(s.clone()),
        None => None,
    }
}

impl Workspace {
    /// A copy of the workspace, equal to it in every field.
    pub fn duplicate(&self) -> (copy: Workspace)
        ensures
            copy == *self,
    {
        Workspace {
            id: self.id,
            idx: self.idx,
            name: duplicate_text(&self.name),
            output: duplicate_text(&self.output),
            is_urgent: self.is_urgent,
            is_active: self.is_active,
            is_focused: self.is_focused,
            active_window_id: self.active_window_id,
        }
    }
}

/// A copy of the list, equal to it workspace by workspace.
pub fn duplicate_workspaces(list: &Vec<Workspace>) -> (copy: Vec<Workspace>)
    ensures
        copy@ == list@,
{
    let mut copy: Vec<Workspace> = Vec::new();
    let n = list.len();
    let mut i: usize = 0;
    while i < n
        invariant
            i <= n,
            n == list@.len(),
            copy@ =~= list@.take(i as int),
        decreases n - i,
    {
        copy.push(list[i].duplicate());
        i = i + 1;
        assert(copy@ =~= list@.take(i as int));
    }
    assert(list@.take(n as int) =~= list@);
    copy
}


/// `with_id(s, id)` holds exactly the workspaces of `s` whose id is `id`.
pub proof fn lemma_with_id_members(s: Seq<Workspace>, id: u64)
    ensures
        forall|w: Workspace| #[trigger] with_id(s, id).contains(w) <==> (s.contains(w) && w.id == id),
    decreases s.len(),
{
    if s.len() > 0 {
        let t = s.drop_last();
        lemma_with_id_members(t, id);
        assert forall|w: Workspace| #[trigger] with_id(s, id).contains(w) <==> (s.contains(w) && w.id
            == id) by {
            if s.contains(w) && w.id == id {
                let k = choose|k: int| 0 <= k < s.len() && s[k] == w;
                if k < t.len() {
                    assert(t[k] == w);
                    assert(t.contains(w));
                    let r = with_id(t, id);
                    assert(r.contains(w));
                    let j = choose|j: int| 0 <= j < r.len() && r[j] == w;
                    assert(with_id(s, id)[j] == w);
                } else {
                    assert(with_id(s, id).last() == w);
                }
            }
            if with_id(s, id).contains(w) {
                let r = with_id(s, id);
                let k = choose|k: int| 0 <= k < r.len() && r[k] == w;
                if s.last().id == id && k == r.len() - 1 {
                    assert(s[s.len() - 1] == w);
                } else {
                    assert(k < with_id(t, id).len());
                    assert(with_id(t, id)[k] == w);
                    assert(with_id(t, id).contains(w));
                    let m = choose|m: int| 0 <= m < t.len() && t[m] == w;
                    assert(s[m] == w);
                }
            }
        }
    }
}

} // verus!
