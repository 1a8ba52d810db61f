//! Canonical ordering of the unit list: case-insensitive by unit name.

use vstd::prelude::*;
use vstd::relations::sorted_by;
use vstd::seq_lib::group_to_multiset_ensures;
use vstd::multiset::lemma_multiset_empty_len;
use vstd::multiset::Multiset;
use vstd::multiset::group_multiset_axioms;
use crate::strings::lex_le;
use crate::strings::lex_le_exec;
use crate::strings::lemma_lex_le_total;
use crate::strings::lemma_lex_le_trans;
use crate::strings::lower_of;
use crate::strings::lowercase;
use crate::units::UnitWithStatus;

verus! {

/// Case-insensitive order on units, by name.
pub open spec fn unit_le(a: UnitWithStatus, b: UnitWithStatus) -> bool {
    lex_le(lower_of(a.name@), lower_of(b.name@))
}

/// [`unit_le`] as a relation value, for [`sorted_by`].
pub open spec fn unit_order() -> spec_fn(UnitWithStatus, UnitWithStatus) -> bool {
    |a: UnitWithStatus, b: UnitWithStatus| unit_le(a, b)
}

fn le_units(a: &UnitWithStatus, b: &UnitWithStatus) -> (r: bool)
    ensures
        r == unit_le(*a, *b),
{
    let la = lowercase(a.name.as_str());
    let lb = lowercase(b.name.as_str());
    lex_le_exec(la.as_str(), lb.as_str())
}

/// The index of a least element under [`unit_le`].
fn min_index(v: &Vec<UnitWithStatus>) -> (m: usize)
    requires
        v@.len() > 0,
    ensures
        m < v@.len(),
        forall|j: int| 0 <= j < v@.len() ==> unit_le(v@[m as int], v@[j]),
{
    let mut m: usize = 0;
    proof {
        lemma_lex_le_total(lower_of(v@[0].name@), lower_of(v@[0].name@));
    }
    let mut j: usize = 1;
    while j < v.len()
        invariant
            0 < j <= v@.len(),
            m < j,
            forall|k: int| 0 <= k < j ==> unit_le(v@[m as int], v@[k]),
        decreases v@.len() - j,
    {
        if !le_units(&v[m], &v[j]) {
            proof {
                lemma_lex_le_total(
                    lower_of(v@[m as int].name@),
                    lower_of(v@[j as int].name@),
                );
                assert forall|k: int| 0 <= k < j + 1 implies unit_le(v@[j as int], v@[k]) by {
                    if k < j {
                        lemma_lex_le_trans(
                            lower_of(v@[j as int].name@),
                            lower_of(v@[m as int].name@),
                            lower_of(v@[k].name@),
                        );
                    } else {
                        lemma_lex_le_total(lower_of(v@[j as int].name@), lower_of(v@[j as int].name@));
                    }
                }
            }
            m = j;
        } else {
            proof {
                lemma_lex_le_total(lower_of(v@[j as int].name@), lower_of(v@[j as int].name@));
            }
        }
        j = j + 1;
    }
    m
}

/// Sorts the units case-insensitively by name: the result holds exactly the
/// given units, in the canonical order.
pub fn sort_units_by_name(units: Vec<UnitWithStatus>) -> (r: Vec<UnitWithStatus>)
    ensures
        r@.to_multiset() == units@.to_multiset(),
        sorted_by(r@, unit_order()),
{
    broadcast use group_to_multiset_ensures, group_multiset_axioms;

    let mut pool = units;
    let mut out: Vec<UnitWithStatus> = Vec::new();
    proof {
        assert(out@.to_multiset().add(pool@.to_multiset()) =~= pool@.to_multiset());
    }
    let ghost all = pool@;
    while pool.len() > 0
        invariant
            out@.to_multiset().add(pool@.to_multiset()) =~= all.to_multiset(),
            sorted_by(out@, unit_order()),
            forall|i: int, j: int|
                0 <= i < out@.len() && 0 <= j < pool@.len() ==> unit_le(
                    #[trigger] out@[i],
                    #[trigger] pool@[j],
                ),
        decreases pool@.len(),
    {
        let ghost pool0 = pool@;
        let ghost out0 = out@;
        let m = min_index(&pool);
        let x = pool.remove(m);
        out.push(x);
        proof {
            assert(pool@ == pool0.remove(m as int));
            assert(out@ == out0.push(x));
            assert(out@.to_multiset().add(pool@.to_multiset()) =~= all.to_multiset()) by {
                vstd::seq_lib::to_multiset_build::<UnitWithStatus>(out0, x);
                vstd::seq_lib::to_multiset_remove::<UnitWithStatus>(pool0, m as int);
                assert(out@.to_multiset() =~= out0.to_multiset().insert(x));
                assert(pool@.to_multiset() =~= pool0.to_multiset().remove(x));
                pool0.to_multiset_ensures();
                assert(pool0.contains(x));
                assert(pool0.to_multiset().count(x) > 0);
            }
            assert(sorted_by(out@, unit_order())) by {
                assert(forall|i: int| 0 <= i < out0.len() ==> unit_le(#[trigger] out0[i], x));
            }
            assert forall|i: int, j: int|
                0 <= i < out@.len() && 0 <= j < pool@.len() implies unit_le(
                #[trigger] out@[i],
                #[trigger] pool@[j],
            ) by {
                let orig_j = if j < m { j } else { j + 1 };
                assert(pool@[j] == pool0[orig_j]);
                if i < out0.len() {
                    assert(unit_le(out0[i], pool0[orig_j]));
                } else {
                    assert(out@[i] == x);
                    assert(unit_le(x, pool0[orig_j]));
                }
            }
        }
    }
    proof {
        broadcast use lemma_multiset_empty_len;

        assert(pool@.to_multiset().len() == 0);
        assert(pool@.to_multiset() =~= Multiset::empty());
        assert(out@.to_multiset() =~= all.to_multiset());
    }
    out
}

} // verus!
