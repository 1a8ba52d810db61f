//! The guarantees of the state machine that relate several operations,
//! stated and proved in one place. Single-operation guarantees live in the
//! operations' own contracts; merge-path preservation lives beside the
//! merge in [`crate::home`].

use vstd::prelude::*;
use crate::action::Action;
use crate::action::DispatchOutcome;
use crate::action::Effect;
use crate::action::ServiceActionKind;
use crate::home::Home;
use crate::home::Mode;
use crate::home::search_filter;
use crate::home::spec_next_index;
use crate::home::spec_previous_index;
use crate::units::UnitId;
use crate::units::UnitWithStatus;

verus! {

/// The cursor after `k` consecutive "next" moves over a list of length
/// `len`.
pub open spec fn iterate_next(state: Option<usize>, len: nat, k: nat) -> Option<usize>
    decreases k,
{
    if k == 0 {
        state
    } else {
        spec_next_index(iterate_next(state, len, (k - 1) as nat), len)
    }
}

proof fn lemma_iterate_next_shape(i: usize, len: nat, k: nat)
    requires
        i < len,
        len <= usize::MAX,
        k <= len,
    ensures
        iterate_next(Some(i), len, k) == Some(
            (if i + k < len {
                i + k
            } else {
                i + k - len
            }) as usize,
        ),
    decreases k,
{
    if k == 0 {
    } else {
        lemma_iterate_next_shape(i, len, (k - 1) as nat);
    }
}

/// Repeated "next" cycles: after exactly `len` moves the cursor is back at
/// its start, and at no earlier move — so a full traversal visits every
/// element once and wraps exactly once.
pub proof fn lemma_next_cycles(i: usize, len: nat)
    requires
        i < len,
        len <= usize::MAX,
    ensures
        iterate_next(Some(i), len, len) == Some(i),
        forall|k: nat| 0 < k < len ==> iterate_next(Some(i), len, k) != Some(i),
{
    lemma_iterate_next_shape(i, len, len);
    assert forall|k: nat| 0 < k < len implies iterate_next(Some(i), len, k) != Some(i) by {
        lemma_iterate_next_shape(i, len, k);
    }
}

/// The cursor after `k` consecutive "previous" moves over a list of length
/// `len`.
pub open spec fn iterate_previous(state: Option<usize>, len: nat, k: nat) -> Option<usize>
    decreases k,
{
    if k == 0 {
        state
    } else {
        spec_previous_index(iterate_previous(state, len, (k - 1) as nat), len)
    }
}

proof fn lemma_iterate_previous_shape(i: usize, len: nat, k: nat)
    requires
        i < len,
        len <= usize::MAX,
        k <= len,
    ensures
        iterate_previous(Some(i), len, k) == Some(
            (if i >= k {
                i - k
            } else {
                i + len - k
            }) as usize,
        ),
    decreases k,
{
    if k == 0 {
    } else {
        lemma_iterate_previous_shape(i, len, (k - 1) as nat);
    }
}

/// Repeated "previous" cycles the same way, in the other direction.
pub proof fn lemma_previous_cycles(i: usize, len: nat)
    requires
        i < len,
        len <= usize::MAX,
    ensures
        iterate_previous(Some(i), len, len) == Some(i),
        forall|k: nat| 0 < k < len ==> iterate_previous(Some(i), len, k) != Some(i),
{
    lemma_iterate_previous_shape(i, len, len);
    assert forall|k: nat| 0 < k < len implies iterate_previous(Some(i), len, k) != Some(i) by {
        lemma_iterate_previous_shape(i, len, k);
    }
}

/// The filtered view is exactly the case-insensitive matches: every element
/// of it matches the search string, and every unit of the registry that
/// matches appears in it.
pub proof fn lemma_filter_characterizes(units: Seq<UnitWithStatus>, search: Seq<char>)
    ensures
        forall|i: int|
            0 <= i < search_filter(units, search).len() ==> (#[trigger] search_filter(
                units,
                search,
            )[i]).spec_matches_search(search),
        forall|i: int|
            0 <= i < units.len() && (#[trigger] units[i]).spec_matches_search(search)
                ==> search_filter(units, search).contains(units[i]),
        forall|u: UnitWithStatus|
            !u.spec_matches_search(search) ==> !search_filter(units, search).contains(u),
{
    #[allow(deprecated)]
    units.filter_lemma(|u: UnitWithStatus| u.spec_matches_search(search));
    assert forall|u: UnitWithStatus|
        !u.spec_matches_search(search) implies !search_filter(units, search).contains(u) by {
        if search_filter(units, search).contains(u) {
            let i = choose|i: int|
                0 <= i < search_filter(units, search).len() && search_filter(units, search)[i]
                    == u;
            assert(search_filter(units, search)[i].spec_matches_search(search));
        }
    }
}

/// Starting a second service action while one is running replaces the task
/// slot with a distinct fresh handle; cancelling afterwards signals only
/// that most recent handle, never the replaced one.
pub proof fn lemma_new_action_replaces_slot(
    s0: Home,
    s1: Home,
    s2: Home,
    s3: Home,
    out1: DispatchOutcome,
    out2: DispatchOutcome,
    out3: DispatchOutcome,
    id1: UnitId,
    id2: UnitId,
    k1: ServiceActionKind,
    k2: ServiceActionKind,
)
    requires
        s0.next_token + 2 <= u64::MAX,
        Home::task_started(s0, s1, out1, id1, k1),
        Home::task_started(s1, s2, out2, id2, k2),
        Home::dispatch_rel(s2, s3, Action::CancelTask, out3),
    ensures
        s1.cancel_token == Some(s0.next_token),
        s2.cancel_token == Some(s1.next_token),
        s1.next_token != s0.next_token,
        out3.effect == Some(Effect::CancelToken(s1.next_token)),
        out3.effect != Some(Effect::CancelToken(s0.next_token)),
        s3.cancel_token is None,
        s3.mode == Mode::ServiceList,
{
}

/// Cancelling is a total no-op-safe operation: whatever the state — even
/// with no task running — the mode returns to the service list, the slot is
/// empty afterwards, and a handle is signalled only if one was held.
pub proof fn lemma_cancel_returns_to_list(pre: Home, post: Home, out: DispatchOutcome)
    requires
        Home::dispatch_rel(pre, post, Action::CancelTask, out),
    ensures
        post.mode == Mode::ServiceList,
        post.cancel_token is None,
        pre.cancel_token is None ==> out.effect is None,
{
}

/// Log lines delivered for a unit other than the selected one are dropped:
/// the state does not change at all.
pub proof fn lemma_stale_log_lines_dropped(
    pre: Home,
    post: Home,
    out: DispatchOutcome,
    unit: UnitId,
    line: String,
)
    requires
        Home::dispatch_rel(pre, post, Action::AppendLogLine { unit, line }, out),
        match crate::home::selected_id(pre.filtered_units) {
            Some(sid) => !(sid.name@ == unit.name@ && sid.scope == unit.scope),
            None => true,
        },
    ensures
        post == pre,
{
}

} // verus!
