//! Workspace display state and its diff-aware update: comparing a fresh
//! `(ids, active)` reading against the shown state picks the cheapest
//! update path — a restyle of the active marker, a full rebuild of the
//! controls, or nothing at all.

use vstd::prelude::*;

verus! {

/// A sequence of workspace ids in ascending order.
pub open spec fn sorted(s: Seq<i32>) -> bool {
    forall|i: int, j: int| 0 <= i < j < s.len() ==> s[i] <= s[j]
}

/// Inserting into a sequence adds exactly one occurrence to its multiset.
proof fn lemma_insert_multiset(s: Seq<i32>, p: int, x: i32)
    requires
        0 <= p <= s.len(),
    ensures
        s.insert(p, x).to_multiset() =~= s.to_multiset().insert(x),
{
    broadcast use vstd::seq_lib::group_to_multiset_ensures;

    assert(s.insert(p, x) =~= s.take(p).push(x) + s.skip(p));
    assert(s =~= s.take(p) + s.skip(p));
    vstd::seq_lib::lemma_multiset_commutative(s.take(p).push(x), s.skip(p));
    vstd::seq_lib::lemma_multiset_commutative(s.take(p), s.skip(p));
}

/// Sorts workspace ids ascending, keeping exactly the given ids.
pub fn sort_ids(ids: &Vec<i32>) -> (r: Vec<i32>)
    ensures
        sorted(r@),
        r@.to_multiset() == ids@.to_multiset(),
        r@.len() == ids@.len(),
{
    broadcast use vstd::seq_lib::group_to_multiset_ensures;

    let mut out: Vec<i32> = Vec::new();
    let mut i: usize = 0;
    while i < ids.len()
        invariant
            i <= ids@.len(),
            sorted(out@),
            out@.to_multiset() == ids@.subrange(0, i as int).to_multiset(),
            out@.len() == i,
        decreases ids@.len() - i,
    {
        broadcast use vstd::seq_lib::group_to_multiset_ensures;

        let x = ids[i];
        let mut p: usize = 0;
        while p < out.len() && out[p] <= x
            invariant
                p <= out@.len(),
                forall|k: int| 0 <= k < p ==> out@[k] <= x,
            decreases out@.len() - p,
        {
            p += 1;
        }
        let ghost old_out = out@;
        out.insert(p, x);
        proof {
            assert(sorted(out@)) by {
                assert forall|a: int, b: int| 0 <= a < b < out@.len() implies out@[a]
                    <= out@[b] by {
                    assert(out@ == old_out.insert(p as int, x));
                }
            }
            lemma_insert_multiset(old_out, p as int, x);
            assert(ids@.subrange(0, i + 1) =~= ids@.subrange(0, i as int).push(ids@[i as int]));
            assert(out@.to_multiset() =~= ids@.subrange(0, i + 1).to_multiset());
        }
        i += 1;
    }
    proof {
        assert(ids@.subrange(0, ids@.len() as int) =~= ids@);
    }
    out
}

/// Whether an id vector holds the given id.
fn contains_id(v: &Vec<i32>, x: i32) -> (r: bool)
    ensures
        r == v@.contains(x),
{
    let mut i: usize = 0;
    while i < v.len()
        invariant
            i <= v@.len(),
            forall|k: int| 0 <= k < i ==> v@[k] != x,
        decreases v@.len() - i,
    {
        if v[i] == x {
            return true;
        }
        i += 1;
    }
    proof {
        assert(forall|k: int| 0 <= k < v@.len() ==> v@[k] != x);
    }
    false
}

/// Turns a raw workspace reading into what the display works with: the
/// ids sorted ascending (the unique-integer ids need no tie-break), and
/// the active id. A missing active answer defaults to the first
/// workspace; and whenever the list is non-empty, the active id is forced
/// to be a member of it (a stale or defaulted id is replaced by the
/// lowest id), so the sample invariant holds of what the display gets.
pub fn prepare_workspace_info(ids: &Vec<i32>, active: Option<i32>) -> (r: (Vec<i32>, i32))
    ensures
        sorted(r.0@),
        r.0@.to_multiset() == ids@.to_multiset(),
        r.0@.len() == ids@.len(),
        r.0@.len() > 0 ==> r.0@.contains(r.1),
        ({
            let requested = match active {
                Some(a) => a,
                None => 1i32,
            };
            if r.0@.len() == 0 || r.0@.contains(requested) {
                r.1 == requested
            } else {
                r.1 == r.0@[0]
            }
        }),
{
    let sorted_ids = sort_ids(ids);
    let requested: i32 = match active {
        Some(a) => a,
        None => 1,
    };
    let current: i32 = if sorted_ids.len() == 0 || contains_id(&sorted_ids, requested) {
        requested
    } else {
        sorted_ids[0]
    };
    proof {
        if sorted_ids@.len() > 0 && !sorted_ids@.contains(requested) {
            assert(sorted_ids@.contains(sorted_ids@[0]));
        }
    }
    (sorted_ids, current)
}

/// Which update path one fresh reading takes against the shown state.
#[derive(Debug, Clone, Copy, PartialEq, Eq, Structural)]
pub enum WorkspaceAction {
    NoChange,
    RestyleActive,
    Rebuild,
}

/// The path a diff picks: unchanged ids with a changed active id restyle
/// the marker only; changed ids force one full rebuild; an identical
/// reading does nothing.
pub open spec fn spec_diff_action(
    old_ids: Seq<i32>,
    old_cur: i32,
    new_ids: Seq<i32>,
    new_cur: i32,
) -> WorkspaceAction {
    if old_ids == new_ids && old_cur != new_cur {
        WorkspaceAction::RestyleActive
    } else if old_ids == new_ids {
        WorkspaceAction::NoChange
    } else {
        WorkspaceAction::Rebuild
    }
}

/// The workspace pane: the state last applied, the controls as displayed
/// (one button per id, the active one marked), an error placeholder flag,
/// and a count of full rebuilds performed.
pub struct WorkspacePane {
    workspaces: Vec<i32>,
    current_workspace: i32,
    buttons: Vec<i32>,
    marked_active: i32,
    error_shown: bool,
    rebuild_count: u64,
}

impl WorkspacePane {
    /// The ids last applied.
    pub closed spec fn ids(&self) -> Seq<i32> {
        self.workspaces@
    }

    /// The active id last applied.
    pub closed spec fn current(&self) -> i32 {
        self.current_workspace
    }

    /// The ids of the buttons as displayed, in order.
    pub closed spec fn shown(&self) -> Seq<i32> {
        self.buttons@
    }

    /// The id whose button carries the active marker.
    pub closed spec fn marked(&self) -> i32 {
        self.marked_active
    }

    /// Whether the error placeholder is displayed.
    pub closed spec fn error(&self) -> bool {
        self.error_shown
    }

    /// How many full rebuilds have run.
    pub closed spec fn rebuilds(&self) -> int {
        self.rebuild_count as int
    }

    /// A fresh pane: nothing shown yet, the first workspace active.
    pub fn new() -> (r: Self)
        ensures
            r.ids() == Seq::<i32>::empty(),
            r.current() == 1i32,
            r.shown() == Seq::<i32>::empty(),
            !r.error(),
            r.rebuilds() == 0,
    {
        WorkspacePane {
            workspaces: Vec::new(),
            current_workspace: 1,
            buttons: Vec::new(),
            marked_active: 1,
            error_shown: false,
            rebuild_count: 0,
        }
    }

    /// How many full rebuilds have run, for observation.
    pub fn rebuild_count(&self) -> (r: u64)
        ensures
            r == self.rebuilds(),
    {
        self.rebuild_count
    }

    /// The ids of the displayed buttons, in order.
    pub fn shown_ids(&self) -> (r: Vec<i32>)
        ensures
            r@ == self.shown(),
    {
        copy_ids(&self.buttons)
    }

    /// The id whose button carries the active marker.
    pub fn marked_id(&self) -> (r: i32)
        ensures
            r == self.marked(),
    {
        self.marked_active
    }

    /// Whether the error placeholder is displayed.
    pub fn error_displayed(&self) -> (r: bool)
        ensures
            r == self.error(),
    {
        self.error_shown
    }

    /// Applies one fresh reading, taking the cheapest path the diff
    /// allows: a restyle moves only the active marker and destroys no
    /// control, a rebuild recreates the buttons from the new ids exactly
    /// once, and an unchanged reading touches nothing. While the error
    /// placeholder is showing, any reading forces a rebuild, so the
    /// placeholder never outlives the next successful query.
    pub fn update_workspaces(&mut self, new_ids: &Vec<i32>, new_current: i32) -> (action:
        WorkspaceAction)
        ensures
            action == (if old(self).error() {
                WorkspaceAction::Rebuild
            } else {
                spec_diff_action(old(self).ids(), old(self).current(), new_ids@, new_current)
            }),
            final(self).ids() == new_ids@,
            final(self).current() == new_current,
            !final(self).error(),
            (match action {
                WorkspaceAction::NoChange => {
                    &&& final(self).shown() == old(self).shown()
                    &&& final(self).marked() == old(self).marked()
                    &&& final(self).rebuilds() == old(self).rebuilds()
                },
                WorkspaceAction::RestyleActive => {
                    &&& final(self).shown() == old(self).shown()
                    &&& final(self).marked() == new_current
                    &&& final(self).rebuilds() == old(self).rebuilds()
                },
                WorkspaceAction::Rebuild => {
                    &&& final(self).shown() == new_ids@
                    &&& final(self).marked() == new_current
                    &&& final(self).rebuilds() == (if old(self).rebuilds() < u64::MAX {
                        old(self).rebuilds() + 1
                    } else {
                        u64::MAX as int
                    })
                },
            }),
    {
        let ids_changed = !ids_eq(&self.workspaces, new_ids);
        let current_changed = self.current_workspace != new_current;
        if self.error_shown {
            self.workspaces = copy_ids(new_ids);
            self.current_workspace = new_current;
            self.buttons = copy_ids(new_ids);
            self.marked_active = new_current;
            self.error_shown = false;
            self.rebuild_count = self.rebuild_count.saturating_add(1);
            return WorkspaceAction::Rebuild;
        }
        if !ids_changed && current_changed {
            self.marked_active = new_current;
            self.current_workspace = new_current;
            self.error_shown = false;
            WorkspaceAction::RestyleActive
        } else if !ids_changed {
            self.error_shown = false;
            WorkspaceAction::NoChange
        } else {
            self.workspaces = copy_ids(new_ids);
            self.current_workspace = new_current;
            self.buttons = copy_ids(new_ids);
            self.marked_active = new_current;
            self.error_shown = false;
            self.rebuild_count = self.rebuild_count.saturating_add(1);
            WorkspaceAction::Rebuild
        }
    }

    /// Replaces the controls with the error placeholder: the partial
    /// state is cleared rather than shown inconsistently.
    pub fn show_error(&mut self)
        ensures
            final(self).shown() == Seq::<i32>::empty(),
            final(self).error(),
            final(self).ids() == old(self).ids(),
            final(self).current() == old(self).current(),
            final(self).rebuilds() == old(self).rebuilds(),
    {
        self.buttons = Vec::new();
        self.error_shown = true;
    }
}

/// Whether two id vectors hold the same ids in the same order.
fn ids_eq(a: &Vec<i32>, b: &Vec<i32>) -> (r: bool)
    ensures
        r == (a@ == b@),
{
    if a.len() != b.len() {
        return false;
    }
    let mut i: usize = 0;
    while i < a.len()
        invariant
            i <= a@.len(),
            a@.len() == b@.len(),
            forall|k: int| 0 <= k < i ==> a@[k] == b@[k],
        decreases a@.len() - i,
    {
        if a[i] != b[i] {
            return false;
        }
        i += 1;
    }
    proof {
        assert(a@ =~= b@);
    }
    true
}

/// Copies an id vector.
fn copy_ids(v: &Vec<i32>) -> (r: Vec<i32>)
    ensures
        r@ == v@,
{
    let mut out: Vec<i32> = Vec::new();
    let mut i: usize = 0;
    while i < v.len()
        invariant
            i <= v@.len(),
            out@ == v@.subrange(0, i as int),
        decreases v@.len() - i,
    {
        out.push(v[i]);
        assert(out@ =~= v@.subrange(0, i + 1));
        i += 1;
    }
    proof {
        assert(out@ =~= v@);
    }
    out
}

/// A reading with unchanged ids and a changed active id takes the restyle
/// path: the diff never picks a rebuild for it, so the rebuild counter
/// stays where it was and no control is destroyed or recreated.
pub proof fn lemma_active_change_restyles(
    old_ids: Seq<i32>,
    old_cur: i32,
    new_ids: Seq<i32>,
    new_cur: i32,
)
    requires
        old_ids == new_ids,
        old_cur != new_cur,
    ensures
        spec_diff_action(old_ids, old_cur, new_ids, new_cur) == WorkspaceAction::RestyleActive,
{
}

/// A reading with changed ids takes the rebuild path, whatever the active
/// id did: exactly one full rebuild runs and the displayed buttons become
/// exactly the new ids with the new active id marked.
pub proof fn lemma_ids_change_rebuilds(
    old_ids: Seq<i32>,
    old_cur: i32,
    new_ids: Seq<i32>,
    new_cur: i32,
)
    requires
        old_ids != new_ids,
    ensures
        spec_diff_action(old_ids, old_cur, new_ids, new_cur) == WorkspaceAction::Rebuild,
{
}

} // verus!
