//! The query parameters of the push request: one per key, the last value
//! given for a key winning, in ascending order of keys.
use crate::config::ParamField;
use crate::text::{lemma_lex_order_total, lemma_lex_order_transitive, lex_compare_str, lex_order};
use vstd::prelude::*;

verus! {

/// The parameters as a map from key to value, a later parameter overriding an
/// earlier one with the same key.
pub open spec fn query_map(ps: Seq<ParamField>) -> Map<Seq<char>, Seq<char>>
    decreases ps.len(),
{
    if ps.len() == 0 {
        Map::empty()
    } else {
        query_map(ps.drop_last()).insert(ps.last().key@, ps.last().value@)
    }
}

/// Keys in strictly ascending lexicographic order, so no key twice.
pub open spec fn keys_ascending(qs: Seq<ParamField>) -> bool {
    forall|i: int, j: int| 0 <= i < j < qs.len() ==> lex_order(qs[i].key@, qs[j].key@) < 0
}

/// `qs` lists exactly the entries of `m`, in ascending order of keys.
pub open spec fn lists_map(qs: Seq<ParamField>, m: Map<Seq<char>, Seq<char>>) -> bool {
    &&& keys_ascending(qs)
    &&& forall|i: int|
        0 <= i < qs.len() ==> m.contains_key(#[trigger] qs[i].key@) && m[qs[i].key@] == qs[i].value@
    &&& forall|k: Seq<char>|
        #[trigger] m.contains_key(k) ==> exists|i: int| 0 <= i < qs.len() && qs[i].key@ == k
}

fn param_copy(p: &ParamField) -> (r: ParamField)
    ensures
        r.key@ == p.key@,
        r.value@ == p.value@,
{
    ParamField { key: p.key.clone(), value: p.value.clone() }
}

/// Puts one parameter into the ordered list: its value replaces the value of
/// an entry with the same key, or it is inserted where its key belongs.
fn insert_param(qs: &mut Vec<ParamField>, p: &ParamField, Ghost(m): Ghost<Map<Seq<char>, Seq<char>>>)
    requires
        lists_map(old(qs)@, m),
    ensures
        lists_map(final(qs)@, m.insert(p.key@, p.value@)),
{
    let ghost k = p.key@;
    let ghost v = p.value@;
    let mut j: usize = 0;
    while j < qs.len() && lex_compare_str(qs[j].key.as_str(), p.key.as_str()) < 0
        invariant
            0 <= j <= qs@.len(),
            k == p.key@,
            forall|a: int| 0 <= a < j ==> lex_order(#[trigger] qs@[a].key@, k) < 0,
        decreases qs@.len() - j,
    {
        j = j + 1;
    }
    let ghost old_qs = qs@;
    let ghost m2 = m.insert(k, v);
    if j < qs.len() && lex_compare_str(qs[j].key.as_str(), p.key.as_str()) == 0 {
        proof {
            lemma_lex_order_total(old_qs[j as int].key@, k);
        }
        qs.set(j, param_copy(p));
        proof {
            let nq = qs@;
            assert forall|a: int, b: int| 0 <= a < b < nq.len() implies lex_order(
                nq[a].key@,
                nq[b].key@,
            ) < 0 by {
                assert(nq[a].key@ == old_qs[a].key@);
                assert(nq[b].key@ == old_qs[b].key@);
            }
            assert forall|i: int| 0 <= i < nq.len() implies m2.contains_key(#[trigger] nq[i].key@)
                && m2[nq[i].key@] == nq[i].value@ by {
                if i != j {
                    assert(nq[i] == old_qs[i]);
                    if i < j {
                        lemma_lex_order_total(old_qs[i].key@, k);
                    } else {
                        assert(lex_order(old_qs[j as int].key@, old_qs[i].key@) < 0);
                        lemma_lex_order_total(old_qs[i].key@, k);
                    }
                }
            }
            assert forall|kk: Seq<char>| #[trigger] m2.contains_key(kk) implies exists|i: int|
                0 <= i < nq.len() && nq[i].key@ == kk by {
                if kk == k {
                    assert(nq[j as int].key@ == kk);
                } else {
                    assert(m.contains_key(kk));
                    let i = choose|i: int| 0 <= i < old_qs.len() && old_qs[i].key@ == kk;
                    assert(nq[i].key@ == kk);
                }
            }
        }
    } else {
        proof {
            if j < old_qs.len() {
                lemma_lex_order_total(old_qs[j as int].key@, k);
            }
        }
        qs.insert(j, param_copy(p));
        proof {
            let nq = qs@;
            assert(nq == old_qs.insert(j as int, nq[j as int]));
            assert forall|a: int, b: int| 0 <= a < b < nq.len() implies lex_order(
                nq[a].key@,
                nq[b].key@,
            ) < 0 by {
                if b < j {
                    assert(nq[a] == old_qs[a]);
                    assert(nq[b] == old_qs[b]);
                } else if b == j {
                    assert(nq[a] == old_qs[a]);
                } else if a < j {
                    assert(nq[a] == old_qs[a]);
                    assert(nq[b] == old_qs[b - 1]);
                    lemma_lex_order_total(old_qs[j as int].key@, k);
                    if b - 1 > j {
                        lemma_lex_order_transitive(k, old_qs[j as int].key@, old_qs[b - 1].key@);
                    }
                    lemma_lex_order_transitive(old_qs[a].key@, k, old_qs[b - 1].key@);
                } else if a == j {
                    assert(nq[b] == old_qs[b - 1]);
                    lemma_lex_order_total(old_qs[j as int].key@, k);
                    if b - 1 > j {
                        lemma_lex_order_transitive(k, old_qs[j as int].key@, old_qs[b - 1].key@);
                    }
                } else {
                    assert(nq[a] == old_qs[a - 1]);
                    assert(nq[b] == old_qs[b - 1]);
                }
            }
            assert forall|i: int| 0 <= i < nq.len() implies m2.contains_key(#[trigger] nq[i].key@)
                && m2[nq[i].key@] == nq[i].value@ by {
                if i < j {
                    assert(nq[i] == old_qs[i]);
                    lemma_lex_order_total(old_qs[i].key@, k);
                } else if i > j {
                    assert(nq[i] == old_qs[i - 1]);
                    lemma_lex_order_total(old_qs[j as int].key@, k);
                    if i - 1 > j {
                        lemma_lex_order_transitive(k, old_qs[j as int].key@, old_qs[i - 1].key@);
                    }
                    lemma_lex_order_total(k, old_qs[i - 1].key@);
                }
            }
            assert forall|kk: Seq<char>| #[trigger] m2.contains_key(kk) implies exists|i: int|
                0 <= i < nq.len() && nq[i].key@ == kk by {
                if kk == k {
                    assert(nq[j as int].key@ == kk);
                } else {
                    assert(m.contains_key(kk));
                    let i = choose|i: int| 0 <= i < old_qs.len() && old_qs[i].key@ == kk;
                    if i < j {
                        assert(nq[i].key@ == kk);
                    } else {
                        assert(nq[i + 1].key@ == kk);
                    }
                }
            }
        }
    }
}

/// The query parameters to send: each key once with the value of its last
/// occurrence, keys in ascending order.
pub fn build_query_params(params: &Vec<ParamField>) -> (r: Vec<ParamField>)
    ensures
        lists_map(r@, query_map(params@)),
{
    let mut qs: Vec<ParamField> = Vec::new();
    let mut i: usize = 0;
    proof {
        assert(params@.take(0) =~= Seq::<ParamField>::empty());
    }
    while i < params.len()
        invariant
            0 <= i <= params@.len(),
            lists_map(qs@, query_map(params@.take(i as int))),
        decreases params@.len() - i,
    {
        proof {
            assert(params@.take(i + 1).drop_last() =~= params@.take(i as int));
        }
        insert_param(&mut qs, &params[i], Ghost(query_map(params@.take(i as int))));
        i = i + 1;
    }
    proof {
        assert(params@.take(params@.len() as int) =~= params@);
    }
    qs
}

/// No key is listed twice.
pub proof fn lemma_listed_keys_distinct(qs: Seq<ParamField>)
    requires
        keys_ascending(qs),
    ensures
        forall|i: int, j: int|
            0 <= i < j < qs.len() ==> #[trigger] qs[i].key@ != #[trigger] qs[j].key@,
{
    assert forall|i: int, j: int| 0 <= i < j < qs.len() implies #[trigger] qs[i].key@
        != #[trigger] qs[j].key@ by {
        lemma_lex_order_total(qs[i].key@, qs[j].key@);
    }
}

/// A parameter given later for the same key overrides the earlier one.
pub proof fn lemma_last_value_wins(ps: Seq<ParamField>, p: ParamField)
    ensures
        query_map(ps.push(p)).contains_key(p.key@),
        query_map(ps.push(p))[p.key@] == p.value@,
        forall|k: Seq<char>|
            k != p.key@ ==> (#[trigger] query_map(ps.push(p)).contains_key(k) == query_map(
                ps,
            ).contains_key(k)),
{
    assert(ps.push(p).drop_last() =~= ps);
}

} // verus!
