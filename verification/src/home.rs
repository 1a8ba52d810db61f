//! The single owner of all mutable application state: the unit registry
//! with its filtered view, the UI mode state machine, the action menu and
//! the single-occupancy task slot.

use vstd::prelude::*;
use vstd::string::StringExecFns;
use crate::action::Action;
use crate::action::DispatchOutcome;
use crate::action::Effect;
use crate::action::KeyOutcome;
use crate::action::ServiceActionKind;
use crate::event::KeyCode;
use crate::event::KeyEvent;
use crate::units::Scope;
use crate::units::UnitId;
use crate::units::UnitWithStatus;

verus! {

/// Which UI surface is active; exactly one at a time.
#[derive(Debug, Clone, Copy, PartialEq, Eq, Structural)]
pub enum Mode {
    Search,
    ServiceList,
    Help,
    ActionMenu,
    Processing,
    Error,
}

/// One entry of the action menu, bound to the action it emits.
#[derive(Debug)]
pub struct MenuItem {
    pub name: String,
    pub action: Action,
}

impl MenuItem {
    pub fn new(name: &str, action: Action) -> (r: MenuItem)
        ensures
            r.name@ == name@,
            r.action == action,
    {
        MenuItem { name: String::from_str(name), action }
    }
}

/// The index a cursor moves to on "next", wrapping at the end.
pub open spec fn spec_next_index(state: Option<usize>, len: nat) -> Option<usize> {
    if len == 0 {
        None
    } else {
        match state {
            Some(i) => if i + 1 >= len {
                Some(0usize)
            } else {
                Some((i + 1) as usize)
            },
            None => Some(0usize),
        }
    }
}

/// The index a cursor moves to on "previous", wrapping at the start.
pub open spec fn spec_previous_index(state: Option<usize>, len: nat) -> Option<usize> {
    if len == 0 {
        None
    } else {
        match state {
            Some(i) => if i == 0 {
                Some((len - 1) as usize)
            } else {
                Some((i - 1) as usize)
            },
            None => Some(0usize),
        }
    }
}

/// An ordered list paired with a selection cursor. The cursor, if set,
/// always indexes a valid element; an empty list carries no cursor.
#[derive(Debug)]
pub struct StatefulList<T> {
    pub state: Option<usize>,
    pub items: Vec<T>,
}

impl<T> StatefulList<T> {
    /// Cursor validity: the one internal invariant of the list.
    pub open spec fn inv(&self) -> bool {
        &&& match self.state {
            Some(i) => i < self.items@.len(),
            None => true,
        }
        &&& (self.items@.len() == 0 ==> self.state is None)
    }

    pub fn with_items(items: Vec<T>) -> (r: StatefulList<T>)
        ensures
            r.items == items,
            r.state is None,
            r.inv(),
    {
        StatefulList { state: None, items }
    }

    /// The element under the cursor, if any.
    pub fn selected(&self) -> (r: Option<&T>)
        requires
            self.inv(),
        ensures
            match self.state {
                Some(i) => r matches Some(x) && *x == self.items@[i as int],
                None => r is None,
            },
    {
        if self.items.is_empty() {
            return None;
        }
        match self.state {
            Some(i) => Some(&self.items[i]),
            None => None,
        }
    }

    /// Advance the cursor, wrapping past the end to the start.
    pub fn next(&mut self)
        requires
            old(self).inv(),
        ensures
            final(self).inv(),
            final(self).items == old(self).items,
            final(self).state == spec_next_index(old(self).state, old(self).items@.len()),
    {
        if self.items.is_empty() {
            self.state = None;
            return;
        }
        let i: usize = match self.state {
            Some(i) => if i >= self.items.len() - 1 {
                0
            } else {
                i + 1
            },
            None => 0,
        };
        self.state = Some(i);
    }

    /// Move the cursor back, wrapping past the start to the end.
    pub fn previous(&mut self)
        requires
            old(self).inv(),
        ensures
            final(self).inv(),
            final(self).items == old(self).items,
            final(self).state == spec_previous_index(old(self).state, old(self).items@.len()),
    {
        if self.items.is_empty() {
            self.state = None;
            return;
        }
        let i: usize = match self.state {
            Some(i) => if i == 0 {
                self.items.len() - 1
            } else {
                i - 1
            },
            None => 0,
        };
        self.state = Some(i);
    }

    /// Place the cursor at `index`.
    pub fn select(&mut self, index: Option<usize>)
        requires
            old(self).inv(),
            index matches Some(i) ==> i < old(self).items@.len(),
        ensures
            final(self).inv(),
            final(self).items == old(self).items,
            final(self).state == index,
    {
        self.state = index;
    }

    /// Clear the cursor.
    pub fn unselect(&mut self)
        requires
            old(self).inv(),
        ensures
            final(self).inv(),
            final(self).items == old(self).items,
            final(self).state is None,
    {
        self.state = None;
    }
}

/// The identity of a unit snapshot.
pub open spec fn id_of(u: UnitWithStatus) -> UnitId {
    UnitId { name: u.name, scope: u.scope }
}

/// Whether the snapshot `u` is for the unit identified by `id`.
pub open spec fn id_matches(u: UnitWithStatus, id: UnitId) -> bool {
    u.name@ == id.name@ && u.scope == id.scope
}

/// Whether two snapshots are for the same unit.
pub open spec fn same_unit_id(a: UnitWithStatus, b: UnitWithStatus) -> bool {
    a.name@ == b.name@ && a.scope == b.scope
}

/// Some snapshot in `s` is for the unit identified by `id`.
pub open spec fn has_id(s: Seq<UnitWithStatus>, id: UnitId) -> bool {
    exists|i: int| 0 <= i < s.len() && id_matches(#[trigger] s[i], id)
}

/// The first index of `s` holding the unit identified by `id`.
pub open spec fn first_id_idx(s: Seq<UnitWithStatus>, id: UnitId) -> int
    decreases s.len(),
{
    if s.len() == 0 {
        0
    } else if id_matches(s[0], id) {
        0
    } else {
        1 + first_id_idx(s.drop_first(), id)
    }
}

/// No two snapshots in `s` are for the same unit.
pub open spec fn units_unique(s: Seq<UnitWithStatus>) -> bool {
    forall|i: int, j: int|
        0 <= i < j < s.len() ==> !same_unit_id(#[trigger] s[i], #[trigger] s[j])
}

/// The units whose short name matches `search` case-insensitively, in order.
pub open spec fn search_filter(units: Seq<UnitWithStatus>, search: Seq<char>) -> Seq<
    UnitWithStatus,
> {
    units.filter(|u: UnitWithStatus| u.spec_matches_search(search))
}

/// `orig` refreshed from the snapshot `fresh`, keeping the fields a periodic
/// snapshot cannot carry: the cached file path and the enablement state.
pub open spec fn merged(orig: UnitWithStatus, fresh: UnitWithStatus) -> UnitWithStatus {
    UnitWithStatus {
        description: fresh.description,
        load_state: fresh.load_state,
        activation_state: fresh.activation_state,
        sub_state: fresh.sub_state,
        ..orig
    }
}

/// One merge step: refresh the existing snapshot in place, or append.
pub open spec fn upsert_merge(s: Seq<UnitWithStatus>, u: UnitWithStatus) -> Seq<UnitWithStatus> {
    if has_id(s, id_of(u)) {
        let i = first_id_idx(s, id_of(u));
        s.update(i, merged(s[i], u))
    } else {
        s.push(u)
    }
}

/// One replace step: overwrite the existing snapshot wholesale, or append.
pub open spec fn upsert_replace(s: Seq<UnitWithStatus>, u: UnitWithStatus) -> Seq<UnitWithStatus> {
    if has_id(s, id_of(u)) {
        s.update(first_id_idx(s, id_of(u)), u)
    } else {
        s.push(u)
    }
}

/// The registry after merging every incoming snapshot, left to right.
pub open spec fn merge_from(s: Seq<UnitWithStatus>, inc: Seq<UnitWithStatus>) -> Seq<
    UnitWithStatus,
>
    decreases inc.len(),
{
    if inc.len() == 0 {
        s
    } else {
        merge_from(upsert_merge(s, inc[0]), inc.drop_first())
    }
}

/// The registry after replacing with every incoming snapshot, left to right.
pub open spec fn replace_from(s: Seq<UnitWithStatus>, inc: Seq<UnitWithStatus>) -> Seq<
    UnitWithStatus,
>
    decreases inc.len(),
{
    if inc.len() == 0 {
        s
    } else {
        replace_from(upsert_replace(s, inc[0]), inc.drop_first())
    }
}

/// The unit snapshot under the cursor, if a valid cursor is set.
pub open spec fn selected_unit(l: StatefulList<UnitWithStatus>) -> Option<UnitWithStatus> {
    match l.state {
        Some(i) => if i < l.items@.len() {
            Some(l.items@[i as int])
        } else {
            None
        },
        None => None,
    }
}

/// The selected unit's identity, if a valid cursor is set.
pub open spec fn selected_id(l: StatefulList<UnitWithStatus>) -> Option<UnitId> {
    match l.state {
        Some(i) => if i < l.items@.len() {
            Some(id_of(l.items@[i as int]))
        } else {
            None
        },
        None => None,
    }
}

proof fn lemma_first_id_idx_props(s: Seq<UnitWithStatus>, id: UnitId)
    requires
        has_id(s, id),
    ensures
        0 <= first_id_idx(s, id) < s.len(),
        id_matches(s[first_id_idx(s, id)], id),
    decreases s.len(),
{
    if s.len() == 0 {
    } else if id_matches(s[0], id) {
    } else {
        assert(has_id(s.drop_first(), id)) by {
            let w = choose|i: int| 0 <= i < s.len() && id_matches(#[trigger] s[i], id);
            assert(w != 0);
            assert(s.drop_first()[w - 1] == s[w]);
        }
        lemma_first_id_idx_props(s.drop_first(), id);
        assert(s[1 + first_id_idx(s.drop_first(), id)] == s.drop_first()[first_id_idx(
            s.drop_first(),
            id,
        )]);
    }
}

proof fn lemma_upsert_merge_unique(s: Seq<UnitWithStatus>, u: UnitWithStatus)
    requires
        units_unique(s),
    ensures
        units_unique(upsert_merge(s, u)),
        units_unique(upsert_replace(s, u)),
{
    if has_id(s, id_of(u)) {
        lemma_first_id_idx_props(s, id_of(u));
        let i = first_id_idx(s, id_of(u));
        let t = s.update(i, merged(s[i], u));
        assert forall|k: int| 0 <= k < s.len() implies same_unit_id(#[trigger] t[k], s[k]) by {
            if k != i {
                assert(t[k] == s[k]);
            }
        }
        let t2 = s.update(i, u);
        assert forall|k: int| 0 <= k < s.len() implies same_unit_id(#[trigger] t2[k], s[k]) by {
            if k == i {
                assert(id_matches(s[i], id_of(u)));
            } else {
                assert(t2[k] == s[k]);
            }
        }
    } else {
        let t = s.push(u);
        assert forall|i: int, j: int|
            0 <= i < j < t.len() implies !same_unit_id(#[trigger] t[i], #[trigger] t[j]) by {
            if j == s.len() {
                assert(!id_matches(s[i], id_of(u)));
            }
        }
    }
}

/// Unit identities, cached file paths and enablement states at existing
/// positions survive from `pre` to `post`.
pub open spec fn preserves_paths(pre: Seq<UnitWithStatus>, post: Seq<UnitWithStatus>) -> bool {
    &&& pre.len() <= post.len()
    &&& forall|i: int|
        0 <= i < pre.len() ==> {
            &&& (#[trigger] post[i]).name == pre[i].name
            &&& post[i].scope == pre[i].scope
            &&& post[i].file_path == pre[i].file_path
            &&& post[i].enablement_state == pre[i].enablement_state
        }
}

/// Path preservation composes: what survives each of two merges survives
/// their succession, so it survives any sequence of merges.
pub proof fn lemma_preserves_paths_trans(
    a: Seq<UnitWithStatus>,
    b: Seq<UnitWithStatus>,
    c: Seq<UnitWithStatus>,
)
    requires
        preserves_paths(a, b),
        preserves_paths(b, c),
    ensures
        preserves_paths(a, c),
{
}

/// A merge never clears a unit's resolved file path (nor its identity or
/// enablement state): every unit present before the merge keeps them,
/// whatever the incoming snapshots hold.
pub proof fn lemma_merge_preserves_file_path(s: Seq<UnitWithStatus>, inc: Seq<UnitWithStatus>)
    ensures
        preserves_paths(s, merge_from(s, inc)),
    decreases inc.len(),
{
    if inc.len() == 0 {
    } else {
        let t = upsert_merge(s, inc[0]);
        assert(preserves_paths(s, t)) by {
            if has_id(s, id_of(inc[0])) {
                lemma_first_id_idx_props(s, id_of(inc[0]));
            }
        }
        lemma_merge_preserves_file_path(t, inc.drop_first());
        lemma_preserves_paths_trans(s, t, merge_from(t, inc.drop_first()));
    }
}

proof fn lemma_merge_from_unique(s: Seq<UnitWithStatus>, inc: Seq<UnitWithStatus>)
    requires
        units_unique(s),
    ensures
        units_unique(merge_from(s, inc)),
        units_unique(replace_from(s, inc)),
    decreases inc.len(),
{
    if inc.len() == 0 {
    } else {
        lemma_upsert_merge_unique(s, inc[0]);
        lemma_merge_from_unique(upsert_merge(s, inc[0]), inc.drop_first());
        lemma_merge_from_unique(upsert_replace(s, inc[0]), inc.drop_first());
    }
}

proof fn lemma_first_id_idx(s: Seq<UnitWithStatus>, id: UnitId, i: int)
    requires
        0 <= i < s.len(),
        id_matches(s[i], id),
        forall|k: int| 0 <= k < i ==> !id_matches(#[trigger] s[k], id),
    ensures
        has_id(s, id),
        first_id_idx(s, id) == i,
    decreases i,
{
    if i == 0 {
    } else {
        assert(!id_matches(s[0], id));
        assert(s.drop_first()[i - 1] == s[i]);
        assert(forall|k: int|
            0 <= k < i - 1 ==> #[trigger] s.drop_first()[k] == s[k + 1]);
        lemma_first_id_idx(s.drop_first(), id, i - 1);
    }
}

proof fn lemma_filter_one(u: UnitWithStatus, pred: spec_fn(UnitWithStatus) -> bool)
    ensures
        seq![u].filter(pred) == if pred(u) {
            seq![u]
        } else {
            Seq::<UnitWithStatus>::empty()
        },
{
    reveal(Seq::filter);
    assert(seq![u].drop_last() =~= Seq::<UnitWithStatus>::empty());
    assert(Seq::<UnitWithStatus>::empty().filter(pred) =~= Seq::<UnitWithStatus>::empty());
    if pred(u) {
        assert(seq![u].filter(pred) =~= seq![u]);
    } else {
        assert(seq![u].filter(pred) =~= Seq::<UnitWithStatus>::empty());
    }
}

/// The first position in `items` holding the unit identified by `id`.
fn position_of_id(items: &Vec<UnitWithStatus>, id: &UnitId) -> (r: Option<usize>)
    ensures
        match r {
            Some(i) => i < items@.len() && has_id(items@, *id) && first_id_idx(items@, *id)
                == i as int,
            None => !has_id(items@, *id),
        },
{
    let mut i: usize = 0;
    while i < items.len()
        invariant
            0 <= i <= items@.len(),
            forall|k: int| 0 <= k < i ==> !id_matches(#[trigger] items@[k], *id),
        decreases items@.len() - i,
    {
        if items[i].same_id(id) {
            proof {
                lemma_first_id_idx(items@, *id, i as int);
            }
            return Some(i);
        }
        i = i + 1;
    }
    None
}

/// All mutable application state, owned by the dispatcher alone. Background
/// work communicates with it exclusively through [`Action`]s; what the
/// outside must do on its behalf comes back as [`Effect`]s.
#[derive(Debug)]
pub struct Home {
    /// Which namespaces are listed.
    pub scope: Scope,
    /// Unit name patterns the listing is limited to, if any.
    pub limit_units: Vec<String>,
    /// Whether the diagnostic logger pane is shown.
    pub show_logger: bool,
    /// The authoritative set of known units, in canonical order; shrinks
    /// only on a wholesale replace, never on a merge.
    pub all_units: Vec<UnitWithStatus>,
    /// The filtered view of `all_units`, with the selection cursor.
    pub filtered_units: StatefulList<UnitWithStatus>,
    /// Log lines of the selected unit.
    pub logs: Vec<String>,
    /// How far the log pane is scrolled.
    pub logs_scroll_offset: u16,
    /// The active UI mode.
    pub mode: Mode,
    /// The mode the help screen interrupted, one level deep.
    pub previous_mode: Option<Mode>,
    /// The current search string.
    pub input: String,
    /// The entries of the action menu.
    pub menu_items: StatefulList<MenuItem>,
    /// The cancellation handle of the running background action, if any.
    pub cancel_token: Option<u64>,
    /// The next fresh cancellation handle.
    pub next_token: u64,
    /// Animation counter for the processing spinner.
    pub spinner_tick: u8,
    /// The message the error modal shows.
    pub error_message: String,
}

impl Home {
    /// The internal invariant: cursors are valid, the filtered view agrees
    /// with the registry and the search string, menu entries carry only
    /// menu-shaped actions, no unit occurs twice, and the task slot only
    /// holds handles that were issued.
    pub open spec fn inv(&self) -> bool {
        &&& self.filtered_units.inv()
        &&& self.menu_items.inv()
        &&& units_unique(self.all_units@)
        &&& self.filtered_units.items@ == search_filter(self.all_units@, self.input@)
        &&& forall|i: int|
            0 <= i < self.menu_items.items@.len() ==> (#[trigger] self.menu_items.items@[i]).action.is_menu_action()
        &&& match self.cancel_token {
            Some(t) => t < self.next_token,
            None => true,
        }
    }

    /// A fresh, empty application state in the initial mode.
    pub fn new(scope: Scope, limit_units: Vec<String>) -> (r: Home)
        ensures
            r.inv(),
            r.scope == scope,
            r.limit_units == limit_units,
            !r.show_logger,
            r.all_units@ =~= Seq::<UnitWithStatus>::empty(),
            r.filtered_units.items@ =~= Seq::<UnitWithStatus>::empty(),
            r.filtered_units.state is None,
            r.logs@ =~= Seq::<String>::empty(),
            r.logs_scroll_offset == 0,
            r.mode == Mode::Search,
            r.previous_mode is None,
            r.input@ =~= Seq::<char>::empty(),
            r.menu_items.items@ =~= Seq::<MenuItem>::empty(),
            r.menu_items.state is None,
            r.cancel_token is None,
            r.next_token == 0,
            r.spinner_tick == 0,
            r.error_message@ =~= Seq::<char>::empty(),
    {
        let r = Home {
            scope,
            limit_units,
            show_logger: false,
            all_units: Vec::new(),
            filtered_units: StatefulList::with_items(Vec::new()),
            logs: Vec::new(),
            logs_scroll_offset: 0,
            mode: Mode::Search,
            previous_mode: None,
            input: String::new(),
            menu_items: StatefulList::with_items(Vec::new()),
            cancel_token: None,
            next_token: 0,
            spinner_tick: 0,
            error_message: String::new(),
        };
        proof {
            reveal(Seq::filter);
        }
        r
    }

    /// The identity of the unit under the cursor.
    pub fn selected_service(&self) -> (r: Option<UnitId>)
        requires
            self.filtered_units.inv(),
        ensures
            r == selected_id(self.filtered_units),
    {
        match self.filtered_units.selected() {
            Some(u) => Some(u.id()),
            None => None,
        }
    }

    /// How the log pane reacts to a selection that starts afresh: cleared
    /// logs, reset scroll, and a log request for the first match, if any.
    pub open spec fn fresh_selection(flt: Seq<UnitWithStatus>, post: Home, req: Option<UnitId>) -> bool {
        if flt.len() > 0 {
            &&& post.filtered_units.state == Some(0usize)
            &&& post.logs@ == Seq::<String>::empty()
            &&& post.logs_scroll_offset == 0
            &&& req == Some(id_of(flt[0]))
        } else {
            &&& post.filtered_units.state is None
            &&& post.logs@ == Seq::<String>::empty()
            &&& post.logs_scroll_offset == 0
            &&& req is None
        }
    }

    /// How recomputing the filtered view changes the state: the view is the
    /// filter of the registry, the previous selection is kept by identity
    /// when still present, and otherwise the first match (or nothing) is
    /// selected and a log refresh is requested.
    pub open spec fn refresh_rel(pre: Home, post: Home, req: Option<UnitId>) -> bool {
        let flt = search_filter(pre.all_units@, pre.input@);
        &&& post == (Home {
            filtered_units: post.filtered_units,
            logs: post.logs,
            logs_scroll_offset: post.logs_scroll_offset,
            ..pre
        })
        &&& post.filtered_units.items@ == flt
        &&& match selected_id(pre.filtered_units) {
            Some(pid) => if has_id(flt, pid) {
                &&& post.filtered_units.state == Some(first_id_idx(flt, pid) as usize)
                &&& post.logs == pre.logs
                &&& post.logs_scroll_offset == pre.logs_scroll_offset
                &&& req is None
            } else {
                Home::fresh_selection(flt, post, req)
            },
            None => Home::fresh_selection(flt, post, req),
        }
    }

    /// Recompute the filtered view from the registry and the search string,
    /// keeping the selection by unit identity where possible.
    fn refresh_filtered_units(&mut self) -> (r: Option<UnitId>)
        requires
            old(self).filtered_units.inv(),
        ensures
            final(self).filtered_units.inv(),
            Home::refresh_rel(*old(self), *final(self), r),
    {
        let previously_selected = self.selected_service();
        self.recompute_filtered();
        match previously_selected {
            Some(pid) => {
                match position_of_id(&self.filtered_units.items, &pid) {
                    Some(idx) => {
                        self.filtered_units.select(Some(idx));
                        None
                    },
                    None => self.select_first_or_clear(),
                }
            },
            None => self.select_first_or_clear(),
        }
    }

    /// Rebuild the filtered view as the filter of the registry by the
    /// current search string, with no cursor yet.
    fn recompute_filtered(&mut self)
        ensures
            *final(self) == (Home { filtered_units: final(self).filtered_units, ..*old(self) }),
            final(self).filtered_units.items@ == search_filter(old(self).all_units@, old(self).input@),
            final(self).filtered_units.state is None,
            final(self).filtered_units.inv(),
    {
        let ghost all = self.all_units@;
        let ghost search = self.input@;
        let ghost pred = |u: UnitWithStatus| u.spec_matches_search(search);
        let mut matching: Vec<UnitWithStatus> = Vec::new();
        proof {
            assert(all.take(0).filter(pred) =~= Seq::<UnitWithStatus>::empty()) by {
                reveal(Seq::filter);
                assert(all.take(0) =~= Seq::<UnitWithStatus>::empty());
            }
        }
        let n = self.all_units.len();
        let mut i: usize = 0;
        while i < n
            invariant
                n == all.len(),
                0 <= i <= n,
                *self == (Home { filtered_units: self.filtered_units, ..*old(self) }),
                all == self.all_units@,
                search == self.input@,
                pred == (|u: UnitWithStatus| u.spec_matches_search(search)),
                matching@ == all.take(i as int).filter(pred),
            decreases n - i,
        {
            let keep = self.all_units[i].matches_search(self.input.as_str());
            proof {
                let prefix = all.take(i as int);
                let cur = all.take(i + 1);
                assert(cur =~= prefix + seq![all[i as int]]);
                Seq::<UnitWithStatus>::filter_distributes_over_add(prefix, seq![all[i as int]], pred);
                lemma_filter_one(all[i as int], pred);
            }
            if keep {
                let u = self.all_units[i].duplicate();
                matching.push(u);
            }
            assert(matching@ == all.take(i + 1).filter(pred));
            i = i + 1;
        }
        assert(all.take(n as int) =~= all);
        self.filtered_units = StatefulList::with_items(matching);
    }

    /// Select the first filtered unit (requesting its logs) or clear the
    /// selection; either way the log pane starts over.
    fn select_first_or_clear(&mut self) -> (r: Option<UnitId>)
        requires
            old(self).filtered_units.inv(),
        ensures
            final(self).filtered_units.inv(),
            *final(self) == (Home {
                filtered_units: final(self).filtered_units,
                logs: final(self).logs,
                logs_scroll_offset: final(self).logs_scroll_offset,
                ..*old(self)
            }),
            final(self).filtered_units.items == old(self).filtered_units.items,
            Home::fresh_selection(old(self).filtered_units.items@, *final(self), r),
    {
        self.logs = Vec::new();
        self.logs_scroll_offset = 0;
        if self.filtered_units.items.len() > 0 {
            self.filtered_units.select(Some(0));
            let first = &self.filtered_units.items[0];
            Some(first.id())
        } else {
            self.filtered_units.unselect();
            None
        }
    }

    /// How a cursor move changes the state: only the cursor, the log pane
    /// and its scroll move; the result is the log request for the newly
    /// selected unit.
    pub open spec fn moved_rel(
        pre: Home,
        post: Home,
        req: Option<UnitId>,
        new_state: Option<usize>,
    ) -> bool {
        &&& post == (Home {
            filtered_units: post.filtered_units,
            logs: post.logs,
            logs_scroll_offset: post.logs_scroll_offset,
            ..pre
        })
        &&& post.filtered_units.items == pre.filtered_units.items
        &&& post.filtered_units.state == new_state
        &&& post.logs@ == Seq::<String>::empty()
        &&& post.logs_scroll_offset == 0
        &&& req == selected_id(post.filtered_units)
    }

    /// Select the next unit, wrapping, and start its log pane afresh.
    pub fn next(&mut self) -> (r: Option<UnitId>)
        requires
            old(self).inv(),
        ensures
            final(self).inv(),
            Home::moved_rel(
                *old(self),
                *final(self),
                r,
                spec_next_index(
                    old(self).filtered_units.state,
                    old(self).filtered_units.items@.len(),
                ),
            ),
    {
        self.logs = Vec::new();
        self.filtered_units.next();
        self.logs_scroll_offset = 0;
        self.get_logs()
    }

    /// Select the previous unit, wrapping, and start its log pane afresh.
    pub fn previous(&mut self) -> (r: Option<UnitId>)
        requires
            old(self).inv(),
        ensures
            final(self).inv(),
            Home::moved_rel(
                *old(self),
                *final(self),
                r,
                spec_previous_index(
                    old(self).filtered_units.state,
                    old(self).filtered_units.items@.len(),
                ),
            ),
    {
        self.logs = Vec::new();
        self.filtered_units.previous();
        self.logs_scroll_offset = 0;
        self.get_logs()
    }

    /// Place the cursor, optionally starting the log pane afresh.
    pub fn select(&mut self, index: Option<usize>, refresh_logs: bool) -> (r: Option<UnitId>)
        requires
            old(self).inv(),
            index matches Some(i) ==> i < old(self).filtered_units.items@.len(),
        ensures
            final(self).inv(),
            if refresh_logs {
                Home::moved_rel(*old(self), *final(self), r, index)
            } else {
                &&& *final(self) == (Home { filtered_units: final(self).filtered_units, ..*old(self) })
                &&& final(self).filtered_units.items == old(self).filtered_units.items
                &&& final(self).filtered_units.state == index
                &&& r is None
            },
    {
        if refresh_logs {
            self.logs = Vec::new();
            self.filtered_units.select(index);
            self.logs_scroll_offset = 0;
            self.get_logs()
        } else {
            self.filtered_units.select(index);
            None
        }
    }

    /// Clear the selection and the log pane.
    pub fn unselect(&mut self)
        requires
            old(self).inv(),
        ensures
            final(self).inv(),
            *final(self) == (Home {
                filtered_units: final(self).filtered_units,
                logs: final(self).logs,
                ..*old(self)
            }),
            final(self).filtered_units.items == old(self).filtered_units.items,
            final(self).filtered_units.state is None,
            final(self).logs@ == Seq::<String>::empty(),
    {
        self.logs = Vec::new();
        self.filtered_units.unselect();
    }

    /// The log request for the current selection; with nothing selected the
    /// log pane is cleared instead.
    pub fn get_logs(&mut self) -> (r: Option<UnitId>)
        requires
            old(self).inv(),
        ensures
            final(self).inv(),
            *final(self) == (Home { logs: final(self).logs, ..*old(self) }),
            r == selected_id(old(self).filtered_units),
            match selected_id(old(self).filtered_units) {
                Some(_) => final(self).logs == old(self).logs,
                None => final(self).logs@ == Seq::<String>::empty(),
            },
    {
        let r = self.selected_service();
        if r.is_none() {
            self.logs = Vec::new();
        }
        r
    }

    /// Merge a snapshot into the registry: existing units are refreshed in
    /// place (keeping their cached file path), new ones are appended, and no
    /// unit is ever removed; then the filtered view is recomputed.
    pub fn update_units(&mut self, units: Vec<UnitWithStatus>) -> (r: Option<UnitId>)
        requires
            old(self).inv(),
        ensures
            final(self).inv(),
            final(self).all_units@ == merge_from(old(self).all_units@, units@),
            preserves_paths(old(self).all_units@, final(self).all_units@),
            Home::refresh_rel(
                (Home { all_units: final(self).all_units, ..*old(self) }),
                *final(self),
                r,
            ),
    {
        let ghost orig = self.all_units@;
        let ghost incoming = units@;
        proof {
            assert(incoming.skip(0) =~= incoming);
        }
        let n = units.len();
        let mut idx: usize = 0;
        while idx < n
            invariant
                n == incoming.len(),
                0 <= idx <= n,
                units@ == incoming,
                *self == (Home { all_units: self.all_units, ..*old(self) }),
                units_unique(self.all_units@),
                merge_from(self.all_units@, incoming.skip(idx as int)) == merge_from(
                    orig,
                    incoming,
                ),
            decreases n - idx,
        {
            let ghost cur = self.all_units@;
            let uid = units[idx].id();
            match position_of_id(&self.all_units, &uid) {
                Some(i) => {
                    let mut m = self.all_units[i].duplicate();
                    m.update(units[idx].duplicate());
                    proof {
                        assert(m == merged(cur[i as int], incoming[idx as int]));
                    }
                    self.all_units.set(i, m);
                },
                None => {
                    self.all_units.push(units[idx].duplicate());
                },
            }
            proof {
                assert(uid == id_of(incoming[idx as int]));
                assert(self.all_units@ == upsert_merge(cur, incoming[idx as int]));
                lemma_upsert_merge_unique(cur, incoming[idx as int]);
                assert(incoming.skip(idx as int).drop_first() =~= incoming.skip(idx + 1));
                assert(incoming.skip(idx as int)[0] == incoming[idx as int]);
            }
            idx = idx + 1;
        }
        proof {
            assert(incoming.skip(n as int) =~= Seq::<UnitWithStatus>::empty());
            lemma_merge_preserves_file_path(orig, incoming);
        }
        self.refresh_filtered_units()
    }

    /// Replace the registry wholesale with the given snapshot (the one
    /// operation that may shrink it), then recompute the filtered view and
    /// reset the selection to the first match, or to none.
    pub fn set_units(&mut self, units: Vec<UnitWithStatus>) -> (r: Option<UnitId>)
        requires
            old(self).inv(),
        ensures
            final(self).inv(),
            final(self).all_units@ == replace_from(Seq::<UnitWithStatus>::empty(), units@),
            *final(self) == (Home {
                all_units: final(self).all_units,
                filtered_units: final(self).filtered_units,
                logs: final(self).logs,
                logs_scroll_offset: final(self).logs_scroll_offset,
                ..*old(self)
            }),
            final(self).filtered_units.items@ == search_filter(
                final(self).all_units@,
                old(self).input@,
            ),
            Home::fresh_selection(final(self).filtered_units.items@, *final(self), r),
    {
        let ghost incoming = units@;
        self.all_units.clear();
        proof {
            assert(incoming.skip(0) =~= incoming);
        }
        let n = units.len();
        let mut idx: usize = 0;
        while idx < n
            invariant
                n == incoming.len(),
                0 <= idx <= n,
                units@ == incoming,
                *self == (Home { all_units: self.all_units, ..*old(self) }),
                units_unique(self.all_units@),
                replace_from(self.all_units@, incoming.skip(idx as int)) == replace_from(
                    Seq::<UnitWithStatus>::empty(),
                    incoming,
                ),
            decreases n - idx,
        {
            let ghost cur = self.all_units@;
            let uid = units[idx].id();
            match position_of_id(&self.all_units, &uid) {
                Some(i) => {
                    self.all_units.set(i, units[idx].duplicate());
                },
                None => {
                    self.all_units.push(units[idx].duplicate());
                },
            }
            proof {
                assert(uid == id_of(incoming[idx as int]));
                assert(self.all_units@ == upsert_replace(cur, incoming[idx as int]));
                lemma_upsert_merge_unique(cur, incoming[idx as int]);
                assert(incoming.skip(idx as int).drop_first() =~= incoming.skip(idx + 1));
                assert(incoming.skip(idx as int)[0] == incoming[idx as int]);
            }
            idx = idx + 1;
        }
        proof {
            assert(incoming.skip(n as int) =~= Seq::<UnitWithStatus>::empty());
        }
        self.recompute_filtered();
        self.select_first_or_clear()
    }

    /// The contents the action menu is generated with for a unit.
    pub open spec fn menu_matches(items: Seq<MenuItem>, id: UnitId) -> bool {
        &&& items.len() == 4
        &&& items[0].name@ == "Start"@ && items[0].action == Action::StartService(id)
        &&& items[1].name@ == "Stop"@ && items[1].action == Action::StopService(id)
        &&& items[2].name@ == "Restart"@ && items[2].action == Action::RestartService(id)
        &&& items[3].name@ == "Copy unit file path to clipboard"@ && items[3].action
            == Action::CopyUnitFilePath
    }

    /// The log redirection encoded in an outcome's effect, if any.
    pub open spec fn as_log_request(e: Option<Effect>) -> Option<UnitId> {
        match e {
            Some(Effect::RequestLogs(id)) => Some(id),
            _ => None,
        }
    }

    /// u16 subtraction that stops at zero.
    pub open spec fn spec_sat_sub(a: u16, b: u16) -> u16 {
        if a >= b {
            (a - b) as u16
        } else {
            0u16
        }
    }

    /// u16 addition that stops at the maximum.
    pub open spec fn spec_sat_add(a: u16, b: u16) -> u16 {
        if a + b <= 65535 {
            (a + b) as u16
        } else {
            65535u16
        }
    }

    /// The full transition relation of the dispatcher: for every action,
    /// what the new state is and which follow-up and effect come back.
    /// Actions that are irrelevant in the current state change nothing.
    pub open spec fn dispatch_rel(pre: Home, post: Home, action: Action, out: DispatchOutcome) -> bool {
        match action {
            Action::ToggleShowLogger => {
                &&& post == (Home { show_logger: !pre.show_logger, ..pre })
                &&& out.follow_up == Some(Action::Render)
                &&& out.effect is None
            },
            Action::EnterMode(mode) => {
                if mode == Mode::ActionMenu {
                    match selected_id(pre.filtered_units) {
                        Some(id) => {
                            &&& post == (Home {
                                mode: Mode::ActionMenu,
                                menu_items: post.menu_items,
                                ..pre
                            })
                            &&& Home::menu_matches(post.menu_items.items@, id)
                            &&& post.menu_items.state == Some(0usize)
                            &&& out.follow_up == Some(Action::Render)
                            &&& out.effect is None
                        },
                        None => {
                            &&& post == pre
                            &&& out.follow_up is None
                            &&& out.effect is None
                        },
                    }
                } else {
                    &&& post == (Home { mode: mode, ..pre })
                    &&& out.follow_up == Some(Action::Render)
                    &&& out.effect is None
                }
            },
            Action::EnterError { err } => {
                &&& post == (Home { error_message: err, ..pre })
                &&& out.follow_up == Some(Action::EnterMode(Mode::Error))
                &&& out.effect is None
            },
            Action::ToggleHelp => {
                &&& if pre.mode != Mode::Help {
                    post == (Home { mode: Mode::Help, previous_mode: Some(pre.mode), ..pre })
                } else {
                    post == (Home {
                        mode: match pre.previous_mode {
                            Some(m) => m,
                            None => Mode::Search,
                        },
                        ..pre
                    })
                }
                &&& out.follow_up == Some(Action::Render)
                &&& out.effect is None
            },
            Action::CopyUnitFilePath => {
                match selected_unit(pre.filtered_units) {
                    Some(u) => match u.file_path {
                        Some(Ok(path)) => {
                            &&& post == pre
                            &&& out.follow_up is None
                            &&& out.effect == Some(Effect::CopyToClipboard(path))
                        },
                        _ => {
                            &&& post == pre
                            &&& out.follow_up matches Some(a) && a matches Action::EnterError {
                                err,
                            } && err@ == "No unit file path available"@
                            &&& out.effect is None
                        },
                    },
                    None => {
                        &&& post == pre
                        &&& out.follow_up is None
                        &&& out.effect is None
                    },
                }
            },
            Action::SetUnitFilePath { unit, path } => {
                let mid = if has_id(pre.all_units@, unit) {
                    let i = first_id_idx(pre.all_units@, unit);
                    pre.all_units@.update(
                        i,
                        UnitWithStatus { file_path: Some(path), ..pre.all_units@[i] },
                    )
                } else {
                    pre.all_units@
                };
                &&& post.all_units@ == mid
                &&& Home::refresh_rel(
                    (Home { all_units: post.all_units, ..pre }),
                    post,
                    Home::as_log_request(out.effect),
                )
                &&& (out.effect is None || out.effect matches Some(Effect::RequestLogs(_)))
                &&& out.follow_up is None
            },
            Action::SetLogs { unit, logs } => {
                match selected_id(pre.filtered_units) {
                    Some(sid) => if sid.name@ == unit.name@ && sid.scope == unit.scope {
                        &&& post == (Home { logs: logs, ..pre })
                        &&& out.follow_up is None
                        &&& out.effect is None
                    } else {
                        &&& post == pre
                        &&& out.follow_up is None
                        &&& out.effect is None
                    },
                    None => {
                        &&& post == pre
                        &&& out.follow_up is None
                        &&& out.effect is None
                    },
                }
            },
            Action::AppendLogLine { unit, line } => {
                match selected_id(pre.filtered_units) {
                    Some(sid) => if sid.name@ == unit.name@ && sid.scope == unit.scope {
                        &&& post == (Home { logs: post.logs, ..pre })
                        &&& post.logs@ == pre.logs@.push(line)
                        &&& out.follow_up is None
                        &&& out.effect is None
                    } else {
                        &&& post == pre
                        &&& out.follow_up is None
                        &&& out.effect is None
                    },
                    None => {
                        &&& post == pre
                        &&& out.follow_up is None
                        &&& out.effect is None
                    },
                }
            },
            Action::ScrollUp(o) => {
                &&& post == (Home {
                    logs_scroll_offset: Home::spec_sat_sub(pre.logs_scroll_offset, o),
                    ..pre
                })
                &&& out.follow_up is None
                &&& out.effect is None
            },
            Action::ScrollDown(o) => {
                &&& post == (Home {
                    logs_scroll_offset: Home::spec_sat_add(pre.logs_scroll_offset, o),
                    ..pre
                })
                &&& out.follow_up is None
                &&& out.effect is None
            },
            Action::ScrollToTop => {
                &&& post == (Home { logs_scroll_offset: 0u16, ..pre })
                &&& out.follow_up is None
                &&& out.effect is None
            },
            Action::ScrollToBottom => {
                &&& post == (Home {
                    logs_scroll_offset: if pre.logs@.len() > 65535 {
                        65535u16
                    } else {
                        pre.logs@.len() as u16
                    },
                    ..pre
                })
                &&& out.follow_up is None
                &&& out.effect is None
            },
            Action::StartService(id) => Home::task_started(pre, post, out, id, ServiceActionKind::Start),
            Action::StopService(id) => Home::task_started(pre, post, out, id, ServiceActionKind::Stop),
            Action::RestartService(id) => Home::task_started(
                pre,
                post,
                out,
                id,
                ServiceActionKind::Restart,
            ),
            Action::RefreshServices => {
                &&& post == pre
                &&& out.follow_up is None
                &&& out.effect == Some(Effect::FetchServices)
            },
            Action::SetServices(units) => {
                &&& post.all_units@ == merge_from(pre.all_units@, units@)
                &&& preserves_paths(pre.all_units@, post.all_units@)
                &&& Home::refresh_rel(
                    (Home { all_units: post.all_units, ..pre }),
                    post,
                    Home::as_log_request(out.effect),
                )
                &&& (out.effect is None || out.effect matches Some(Effect::RequestLogs(_)))
                &&& out.follow_up == Some(Action::Render)
            },
            Action::SpinnerTick => {
                &&& post == (Home {
                    spinner_tick: if pre.spinner_tick == 255 {
                        0u8
                    } else {
                        (pre.spinner_tick + 1) as u8
                    },
                    ..pre
                })
                &&& out.follow_up == Some(Action::Render)
                &&& out.effect is None
            },
            Action::CancelTask => {
                &&& post == (Home { cancel_token: None, mode: Mode::ServiceList, ..pre })
                &&& out.follow_up == Some(Action::Render)
                &&& out.effect == match pre.cancel_token {
                    Some(t) => Some(Effect::CancelToken(t)),
                    None => None,
                }
            },
            _ => {
                &&& post == pre
                &&& out.follow_up is None
                &&& out.effect is None
            },
        }
    }

    /// Starting a service action: the task slot is replaced by a fresh
    /// handle (never reusing an issued one), processing mode is requested,
    /// and the operation is handed out under that handle.
    pub open spec fn task_started(
        pre: Home,
        post: Home,
        out: DispatchOutcome,
        id: UnitId,
        kind: ServiceActionKind,
    ) -> bool {
        &&& post == (Home {
            cancel_token: Some(pre.next_token),
            next_token: (pre.next_token + 1) as u64,
            ..pre
        })
        &&& out.follow_up == Some(Action::EnterMode(Mode::Processing))
        &&& out.effect == Some(Effect::StartTask { unit: id, kind, token: pre.next_token })
    }

    /// Replace the search string and recompute the filtered view.
    pub fn set_search(&mut self, text: String) -> (r: Option<UnitId>)
        requires
            old(self).inv(),
        ensures
            final(self).inv(),
            final(self).input == text,
            Home::refresh_rel(
                (Home { input: text, ..*old(self) }),
                *final(self),
                r,
            ),
    {
        self.input = text;
        self.refresh_filtered_units()
    }

    /// Replace the task slot with a fresh cancellation handle and hand the
    /// operation out under it; any previous handle becomes unreachable
    /// without being signalled.
    fn start_task(&mut self, id: UnitId, kind: ServiceActionKind) -> (out: DispatchOutcome)
        requires
            old(self).inv(),
            old(self).next_token < u64::MAX,
        ensures
            final(self).inv(),
            Home::task_started(*old(self), *final(self), out, id, kind),
    {
        let token = self.next_token;
        self.cancel_token = Some(token);
        self.next_token = token + 1;
        DispatchOutcome {
            follow_up: Some(Action::EnterMode(Mode::Processing)),
            effect: Some(Effect::StartTask { unit: id, kind, token }),
        }
    }

    /// Apply one action against the owned state. Total: every action either
    /// mutates the state as [`Home::dispatch_rel`] says or changes nothing.
    pub fn dispatch(&mut self, action: Action) -> (out: DispatchOutcome)
        requires
            old(self).inv(),
            old(self).next_token < u64::MAX,
        ensures
            final(self).inv(),
            Home::dispatch_rel(*old(self), *final(self), action, out),
    {
        match action {
            Action::ToggleShowLogger => {
                self.show_logger = !self.show_logger;
                DispatchOutcome { follow_up: Some(Action::Render), effect: None }
            },
            Action::EnterMode(mode) => {
                if mode == Mode::ActionMenu {
                    match self.selected_service() {
                        Some(sel) => {
                            let mut items: Vec<MenuItem> = Vec::new();
                            items.push(
                                MenuItem::new("Start", Action::StartService(sel.duplicate())),
                            );
                            items.push(
                                MenuItem::new("Stop", Action::StopService(sel.duplicate())),
                            );
                            items.push(
                                MenuItem::new("Restart", Action::RestartService(sel.duplicate())),
                            );
                            items.push(
                                MenuItem::new(
                                    "Copy unit file path to clipboard",
                                    Action::CopyUnitFilePath,
                                ),
                            );
                            self.menu_items = StatefulList::with_items(items);
                            self.menu_items.select(Some(0));
                            self.mode = Mode::ActionMenu;
                            DispatchOutcome { follow_up: Some(Action::Render), effect: None }
                        },
                        None => DispatchOutcome { follow_up: None, effect: None },
                    }
                } else {
                    self.mode = mode;
                    DispatchOutcome { follow_up: Some(Action::Render), effect: None }
                }
            },
            Action::EnterError { err } => {
                self.error_message = err;
                DispatchOutcome {
                    follow_up: Some(Action::EnterMode(Mode::Error)),
                    effect: None,
                }
            },
            Action::ToggleHelp => {
                if self.mode != Mode::Help {
                    self.previous_mode = Some(self.mode);
                    self.mode = Mode::Help;
                } else {
                    self.mode = match self.previous_mode {
                        Some(m) => m,
                        None => Mode::Search,
                    };
                }
                DispatchOutcome { follow_up: Some(Action::Render), effect: None }
            },
            Action::CopyUnitFilePath => {
                match self.filtered_units.selected() {
                    Some(u) => match &u.file_path {
                        Some(Ok(path)) => DispatchOutcome {
                            follow_up: None,
                            effect: Some(Effect::CopyToClipboard(path.clone())),
                        },
                        _ => DispatchOutcome {
                            follow_up: Some(
                                Action::EnterError {
                                    err: String::from_str("No unit file path available"),
                                },
                            ),
                            effect: None,
                        },
                    },
                    None => DispatchOutcome { follow_up: None, effect: None },
                }
            },
            Action::SetUnitFilePath { unit, path } => {
                let ghost cur = self.all_units@;
                match position_of_id(&self.all_units, &unit) {
                    Some(i) => {
                        let mut u = self.all_units[i].duplicate();
                        u.file_path = Some(path);
                        proof {
                            assert(u == (UnitWithStatus {
                                file_path: u.file_path,
                                ..cur[i as int]
                            }));
                            assert forall|k: int|
                                0 <= k < cur.len() implies same_unit_id(
                                #[trigger] cur.update(i as int, u)[k],
                                cur[k],
                            ) by {
                                if k != i {
                                    assert(cur.update(i as int, u)[k] == cur[k]);
                                }
                            }
                        }
                        self.all_units.set(i, u);
                    },
                    None => (),
                }
                let r = self.refresh_filtered_units();
                match r {
                    Some(id) => DispatchOutcome {
                        follow_up: None,
                        effect: Some(Effect::RequestLogs(id)),
                    },
                    None => DispatchOutcome { follow_up: None, effect: None },
                }
            },
            Action::SetLogs { unit, logs } => {
                match self.selected_service() {
                    Some(sid) => {
                        if sid.same(&unit) {
                            self.logs = logs;
                        }
                    },
                    None => (),
                }
                DispatchOutcome { follow_up: None, effect: None }
            },
            Action::AppendLogLine { unit, line } => {
                match self.selected_service() {
                    Some(sid) => {
                        if sid.same(&unit) {
                            self.logs.push(line);
                        }
                    },
                    None => (),
                }
                DispatchOutcome { follow_up: None, effect: None }
            },
            Action::ScrollUp(o) => {
                self.logs_scroll_offset = if self.logs_scroll_offset >= o {
                    self.logs_scroll_offset - o
                } else {
                    0
                };
                DispatchOutcome { follow_up: None, effect: None }
            },
            Action::ScrollDown(o) => {
                self.logs_scroll_offset = if self.logs_scroll_offset <= 65535 - o {
                    self.logs_scroll_offset + o
                } else {
                    65535
                };
                DispatchOutcome { follow_up: None, effect: None }
            },
            Action::ScrollToTop => {
                self.logs_scroll_offset = 0;
                DispatchOutcome { follow_up: None, effect: None }
            },
            Action::ScrollToBottom => {
                let l = self.logs.len();
                self.logs_scroll_offset = if l > 65535 {
                    65535
                } else {
                    l as u16
                };
                DispatchOutcome { follow_up: None, effect: None }
            },
            Action::StartService(id) => self.start_task(id, ServiceActionKind::Start),
            Action::StopService(id) => self.start_task(id, ServiceActionKind::Stop),
            Action::RestartService(id) => self.start_task(id, ServiceActionKind::Restart),
            Action::RefreshServices => DispatchOutcome {
                follow_up: None,
                effect: Some(Effect::FetchServices),
            },
            Action::SetServices(units) => {
                let r = self.update_units(units);
                match r {
                    Some(id) => DispatchOutcome {
                        follow_up: Some(Action::Render),
                        effect: Some(Effect::RequestLogs(id)),
                    },
                    None => DispatchOutcome { follow_up: Some(Action::Render), effect: None },
                }
            },
            Action::SpinnerTick => {
                self.spinner_tick = if self.spinner_tick == 255 {
                    0
                } else {
                    self.spinner_tick + 1
                };
                DispatchOutcome { follow_up: Some(Action::Render), effect: None }
            },
            Action::CancelTask => {
                let effect = match self.cancel_token {
                    Some(t) => Some(Effect::CancelToken(t)),
                    None => None,
                };
                self.cancel_token = None;
                self.mode = Mode::ServiceList;
                DispatchOutcome { follow_up: Some(Action::Render), effect }
            },
            _ => DispatchOutcome { follow_up: None, effect: None },
        }
    }

    /// A key outcome that changed nothing but the actions it emits.
    pub open spec fn key_quiet(pre: Home, post: Home, out: KeyOutcome, acts: Seq<Action>) -> bool {
        &&& post == pre
        &&& out.actions@ == acts
        &&& out.log_request is None
        &&& !out.edit_search
    }

    /// Keys bound under the control modifier.
    pub open spec fn is_ctrl_binding(code: KeyCode) -> bool {
        code == KeyCode::Char('c') || code == KeyCode::Char('q') || code == KeyCode::Char('z')
            || code == KeyCode::Char('f') || code == KeyCode::Char('l') || code == KeyCode::Char(
            'd',
        ) || code == KeyCode::Char('u')
    }

    /// What the control bindings emit.
    pub open spec fn ctrl_actions(code: KeyCode) -> Seq<Action> {
        if code == KeyCode::Char('c') || code == KeyCode::Char('q') {
            seq![Action::Quit]
        } else if code == KeyCode::Char('z') {
            seq![Action::Suspend]
        } else if code == KeyCode::Char('f') {
            seq![Action::EnterMode(Mode::Search)]
        } else if code == KeyCode::Char('l') {
            seq![Action::ToggleShowLogger]
        } else if code == KeyCode::Char('d') {
            seq![Action::ScrollDown(1u16), Action::Render]
        } else {
            seq![Action::ScrollUp(1u16), Action::Render]
        }
    }

    /// Keys that scroll the log pane in any mode.
    pub open spec fn is_scroll_key(code: KeyCode) -> bool {
        code == KeyCode::PageUp || code == KeyCode::PageDown || code == KeyCode::Home || code
            == KeyCode::End
    }

    /// What the scroll keys emit.
    pub open spec fn scroll_actions(code: KeyCode) -> Seq<Action> {
        if code == KeyCode::PageDown {
            seq![Action::ScrollDown(1u16), Action::Render]
        } else if code == KeyCode::PageUp {
            seq![Action::ScrollUp(1u16), Action::Render]
        } else if code == KeyCode::Home {
            seq![Action::ScrollToTop, Action::Render]
        } else {
            seq![Action::ScrollToBottom, Action::Render]
        }
    }

    /// A key that only moved the action-menu cursor.
    pub open spec fn menu_moved(pre: Home, post: Home, out: KeyOutcome, new_state: Option<usize>) -> bool {
        &&& post == (Home { menu_items: post.menu_items, ..pre })
        &&& post.menu_items.items == pre.menu_items.items
        &&& post.menu_items.state == new_state
        &&& out.actions@ == seq![Action::Render]
        &&& out.log_request is None
        &&& !out.edit_search
    }

    /// A key that moved the unit selection.
    pub open spec fn key_moved(pre: Home, post: Home, out: KeyOutcome, new_state: Option<usize>, acts: Seq<Action>) -> bool {
        &&& Home::moved_rel(pre, post, out.log_request, new_state)
        &&& out.actions@ == acts
        &&& !out.edit_search
    }

    /// The key-binding table: for every mode and key, which actions come
    /// back and how the state moves. Pairs not listed change nothing and
    /// emit nothing.
    pub open spec fn key_rel(pre: Home, post: Home, key: KeyEvent, out: KeyOutcome) -> bool {
        let next_sel = spec_next_index(
            pre.filtered_units.state,
            pre.filtered_units.items@.len(),
        );
        let prev_sel = spec_previous_index(
            pre.filtered_units.state,
            pre.filtered_units.items@.len(),
        );
        if key.ctrl && Home::is_ctrl_binding(key.code) {
            Home::key_quiet(pre, post, out, Home::ctrl_actions(key.code))
        } else if key.code == KeyCode::Char('?') || key.code == KeyCode::F(1u8) {
            Home::key_quiet(pre, post, out, seq![Action::ToggleHelp, Action::Render])
        } else if Home::is_scroll_key(key.code) {
            Home::key_quiet(pre, post, out, Home::scroll_actions(key.code))
        } else {
            match pre.mode {
                Mode::ServiceList => {
                    if key.code == KeyCode::Char('q') {
                        Home::key_quiet(pre, post, out, seq![Action::Quit])
                    } else if key.code == KeyCode::Up || key.code == KeyCode::Char('k') {
                        if pre.filtered_units.state == Some(0usize) {
                            Home::key_quiet(
                                pre,
                                post,
                                out,
                                seq![Action::EnterMode(Mode::Search)],
                            )
                        } else {
                            Home::key_moved(pre, post, out, prev_sel, seq![Action::Render])
                        }
                    } else if key.code == KeyCode::Down || key.code == KeyCode::Char('j') {
                        Home::key_moved(pre, post, out, next_sel, seq![Action::Render])
                    } else if key.code == KeyCode::Char('/') {
                        Home::key_quiet(pre, post, out, seq![Action::EnterMode(Mode::Search)])
                    } else if key.code == KeyCode::Enter || key.code == KeyCode::Char(' ') {
                        Home::key_quiet(pre, post, out, seq![Action::EnterMode(Mode::ActionMenu)])
                    } else {
                        Home::key_quiet(pre, post, out, Seq::empty())
                    }
                },
                Mode::Help => {
                    if key.code == KeyCode::Esc || key.code == KeyCode::Enter {
                        Home::key_quiet(pre, post, out, seq![Action::ToggleHelp])
                    } else {
                        Home::key_quiet(pre, post, out, Seq::empty())
                    }
                },
                Mode::Error => {
                    if key.code == KeyCode::Esc || key.code == KeyCode::Enter {
                        Home::key_quiet(pre, post, out, seq![Action::EnterMode(Mode::ServiceList)])
                    } else {
                        Home::key_quiet(pre, post, out, Seq::empty())
                    }
                },
                Mode::Search => {
                    if key.code == KeyCode::Esc {
                        Home::key_quiet(pre, post, out, seq![Action::EnterMode(Mode::ServiceList)])
                    } else if key.code == KeyCode::Enter {
                        Home::key_quiet(pre, post, out, seq![Action::EnterMode(Mode::ActionMenu)])
                    } else if key.code == KeyCode::Down || key.code == KeyCode::Tab {
                        Home::key_moved(
                            pre,
                            post,
                            out,
                            next_sel,
                            seq![Action::EnterMode(Mode::ServiceList)],
                        )
                    } else if key.code == KeyCode::Up {
                        Home::key_moved(
                            pre,
                            post,
                            out,
                            prev_sel,
                            seq![Action::EnterMode(Mode::ServiceList)],
                        )
                    } else {
                        &&& post == pre
                        &&& out.actions@ == seq![Action::Render]
                        &&& out.log_request is None
                        &&& out.edit_search
                    }
                },
                Mode::ActionMenu => {
                    if key.code == KeyCode::Esc {
                        Home::key_quiet(pre, post, out, seq![Action::EnterMode(Mode::ServiceList)])
                    } else if key.code == KeyCode::Down || key.code == KeyCode::Char('j') {
                        Home::menu_moved(
                            pre,
                            post,
                            out,
                            spec_next_index(pre.menu_items.state, pre.menu_items.items@.len()),
                        )
                    } else if key.code == KeyCode::Up || key.code == KeyCode::Char('k') {
                        Home::menu_moved(
                            pre,
                            post,
                            out,
                            spec_previous_index(
                                pre.menu_items.state,
                                pre.menu_items.items@.len(),
                            ),
                        )
                    } else if key.code == KeyCode::Enter || key.code == KeyCode::Char(' ') {
                        match pre.menu_items.state {
                            Some(i) => Home::key_quiet(
                                pre,
                                post,
                                out,
                                seq![pre.menu_items.items@[i as int].action],
                            ),
                            None => Home::key_quiet(
                                pre,
                                post,
                                out,
                                seq![Action::EnterMode(Mode::ServiceList)],
                            ),
                        }
                    } else {
                        Home::key_quiet(pre, post, out, Seq::empty())
                    }
                },
                Mode::Processing => {
                    if key.code == KeyCode::Esc {
                        Home::key_quiet(pre, post, out, seq![Action::CancelTask])
                    } else {
                        Home::key_quiet(pre, post, out, Seq::empty())
                    }
                },
            }
        }
    }

    /// Translate one key press, in the current mode, into actions and
    /// cursor movement, exactly as [`Home::key_rel`] tabulates.
    pub fn handle_key_events(&mut self, key: KeyEvent) -> (out: KeyOutcome)
        requires
            old(self).inv(),
        ensures
            final(self).inv(),
            Home::key_rel(*old(self), *final(self), key, out),
    {
        if key.ctrl {
            if key.code == KeyCode::Char('c') || key.code == KeyCode::Char('q') {
                return key_emit1(Action::Quit);
            }
            if key.code == KeyCode::Char('z') {
                return key_emit1(Action::Suspend);
            }
            if key.code == KeyCode::Char('f') {
                return key_emit1(Action::EnterMode(Mode::Search));
            }
            if key.code == KeyCode::Char('l') {
                return key_emit1(Action::ToggleShowLogger);
            }
            if key.code == KeyCode::Char('d') {
                return key_emit2(Action::ScrollDown(1), Action::Render);
            }
            if key.code == KeyCode::Char('u') {
                return key_emit2(Action::ScrollUp(1), Action::Render);
            }
        }
        if key.code == KeyCode::Char('?') || key.code == KeyCode::F(1) {
            return key_emit2(Action::ToggleHelp, Action::Render);
        }
        if key.code == KeyCode::PageDown {
            return key_emit2(Action::ScrollDown(1), Action::Render);
        }
        if key.code == KeyCode::PageUp {
            return key_emit2(Action::ScrollUp(1), Action::Render);
        }
        if key.code == KeyCode::Home {
            return key_emit2(Action::ScrollToTop, Action::Render);
        }
        if key.code == KeyCode::End {
            return key_emit2(Action::ScrollToBottom, Action::Render);
        }
        match self.mode {
            Mode::ServiceList => {
                if key.code == KeyCode::Char('q') {
                    key_emit1(Action::Quit)
                } else if key.code == KeyCode::Up || key.code == KeyCode::Char('k') {
                    let at_top = match self.filtered_units.state {
                        Some(i) => i == 0,
                        None => false,
                    };
                    if at_top {
                        key_emit1(Action::EnterMode(Mode::Search))
                    } else {
                        let req = self.previous();
                        let mut out = key_emit1(Action::Render);
                        out.log_request = req;
                        out
                    }
                } else if key.code == KeyCode::Down || key.code == KeyCode::Char('j') {
                    let req = self.next();
                    let mut out = key_emit1(Action::Render);
                    out.log_request = req;
                    out
                } else if key.code == KeyCode::Char('/') {
                    key_emit1(Action::EnterMode(Mode::Search))
                } else if key.code == KeyCode::Enter || key.code == KeyCode::Char(' ') {
                    key_emit1(Action::EnterMode(Mode::ActionMenu))
                } else {
                    key_emit0()
                }
            },
            Mode::Help => {
                if key.code == KeyCode::Esc || key.code == KeyCode::Enter {
                    key_emit1(Action::ToggleHelp)
                } else {
                    key_emit0()
                }
            },
            Mode::Error => {
                if key.code == KeyCode::Esc || key.code == KeyCode::Enter {
                    key_emit1(Action::EnterMode(Mode::ServiceList))
                } else {
                    key_emit0()
                }
            },
            Mode::Search => {
                if key.code == KeyCode::Esc {
                    key_emit1(Action::EnterMode(Mode::ServiceList))
                } else if key.code == KeyCode::Enter {
                    key_emit1(Action::EnterMode(Mode::ActionMenu))
                } else if key.code == KeyCode::Down || key.code == KeyCode::Tab {
                    let req = self.next();
                    let mut out = key_emit1(Action::EnterMode(Mode::ServiceList));
                    out.log_request = req;
                    out
                } else if key.code == KeyCode::Up {
                    let req = self.previous();
                    let mut out = key_emit1(Action::EnterMode(Mode::ServiceList));
                    out.log_request = req;
                    out
                } else {
                    let mut out = key_emit1(Action::Render);
                    out.edit_search = true;
                    out
                }
            },
            Mode::ActionMenu => {
                if key.code == KeyCode::Esc {
                    key_emit1(Action::EnterMode(Mode::ServiceList))
                } else if key.code == KeyCode::Down || key.code == KeyCode::Char('j') {
                    self.menu_items.next();
                    key_emit1(Action::Render)
                } else if key.code == KeyCode::Up || key.code == KeyCode::Char('k') {
                    self.menu_items.previous();
                    key_emit1(Action::Render)
                } else if key.code == KeyCode::Enter || key.code == KeyCode::Char(' ') {
                    match self.menu_items.selected() {
                        Some(item) => {
                            let a = item.action.duplicate_menu();
                            key_emit1(a)
                        },
                        None => key_emit1(Action::EnterMode(Mode::ServiceList)),
                    }
                } else {
                    key_emit0()
                }
            },
            Mode::Processing => {
                if key.code == KeyCode::Esc {
                    key_emit1(Action::CancelTask)
                } else {
                    key_emit0()
                }
            },
        }
    }
}

fn key_emit0() -> (out: KeyOutcome)
    ensures
        out.actions@ =~= Seq::<Action>::empty(),
        out.log_request is None,
        !out.edit_search,
{
    KeyOutcome { actions: Vec::new(), log_request: None, edit_search: false }
}

fn key_emit1(a: Action) -> (out: KeyOutcome)
    ensures
        out.actions@ =~= seq![a],
        out.log_request is None,
        !out.edit_search,
{
    let mut actions: Vec<Action> = Vec::new();
    actions.push(a);
    KeyOutcome { actions, log_request: None, edit_search: false }
}

fn key_emit2(a: Action, b: Action) -> (out: KeyOutcome)
    ensures
        out.actions@ =~= seq![a, b],
        out.log_request is None,
        !out.edit_search,
{
    let mut actions: Vec<Action> = Vec::new();
    actions.push(a);
    actions.push(b);
    KeyOutcome { actions, log_request: None, edit_search: false }
}

} // verus!
