//! What holds of every composed header sequence.

use vstd::prelude::*;
use crate::headers::{
    collected, composed, field_names, has_field, lemma_position, lemma_position_is, lemma_rank,
    lemma_rank_is, lemma_rank_prefix, listed, merged, picked, position, rank, same_name,
    unlisted, upsert, with_defaults, Fields,
};

verus! {

/// Whether no two fields of `map` have the same name.
pub open spec fn unique_fields(map: Fields) -> bool {
    forall|i: int, j: int|
        0 <= i < j < map.len() ==> !same_name((#[trigger] map[i]).0, (#[trigger] map[j]).0)
}

/// Whether `field` is one of `fields`.
pub open spec fn holds(fields: Fields, field: (Seq<u8>, Seq<u8>)) -> bool {
    exists|k: int| 0 <= k < fields.len() && fields[k] == field
}

/// Two spellings of one name have the same rank.
pub proof fn lemma_rank_same_name(names: Seq<Seq<u8>>, a: Seq<u8>, b: Seq<u8>)
    requires
        same_name(a, b),
    ensures
        rank(names, a) == rank(names, b),
{
    lemma_rank(names, a);
    assert forall|k: int| 0 <= k < rank(names, a) implies !same_name(#[trigger] names[k], b) by {
        assert(!same_name(names[k], a));
    }
    lemma_rank_is(names, b, rank(names, a));
}

/// Two spellings of one name have the same position.
pub proof fn lemma_position_same_name(fields: Fields, a: Seq<u8>, b: Seq<u8>)
    requires
        same_name(a, b),
    ensures
        position(fields, a) == position(fields, b),
{
    lemma_rank_same_name(field_names(fields), a, b);
}

/// The position of a name among the first `n` fields is its position among
/// all of them, or `n` where that is further on.
pub proof fn lemma_position_prefix(fields: Fields, n: int, name: Seq<u8>)
    requires
        0 <= n <= fields.len(),
    ensures
        position(fields.take(n), name) == if position(fields, name) < n {
            position(fields, name)
        } else {
            n
        },
{
    assert(field_names(fields.take(n)) =~= field_names(fields).take(n));
    lemma_rank_prefix(field_names(fields), n, name);
}

/// Where names are unique, each field stands at the position of its name.
pub proof fn lemma_unique_position(map: Fields, q: int)
    requires
        unique_fields(map),
        0 <= q < map.len(),
    ensures
        position(map, map[q].0) == q,
{
    assert forall|k: int| 0 <= k < q implies !same_name((#[trigger] map[k]).0, map[q].0) by {}
    lemma_position_is(map, map[q].0, q);
}

/// What setting a field does to the position of a name.
pub proof fn lemma_upsert(map: Fields, field: (Seq<u8>, Seq<u8>), name: Seq<u8>)
    ensures
        same_name(field.0, name) ==> has_field(upsert(map, field), name) && position(
            upsert(map, field),
            name,
        ) == position(map, name) && upsert(map, field)[position(map, name)] == field,
        !same_name(field.0, name) && has_field(map, name) ==> has_field(upsert(map, field), name)
            && position(upsert(map, field), name) == position(map, name) && upsert(
            map,
            field,
        )[position(map, name)] == map[position(map, name)],
        !same_name(field.0, name) && !has_field(map, name) ==> !has_field(
            upsert(map, field),
            name,
        ),
        unique_fields(map) ==> unique_fields(upsert(map, field)),
        map.len() <= upsert(map, field).len(),
{
    let p = position(map, field.0);
    let u = upsert(map, field);
    lemma_position(map, field.0);
    lemma_position(map, name);
    if same_name(field.0, name) {
        lemma_position_same_name(map, field.0, name);
        assert forall|k: int| 0 <= k < p implies !same_name((#[trigger] u[k]).0, name) by {
            assert(u[k] == map[k]);
        }
        lemma_position_is(u, name, p);
    } else if has_field(map, name) {
        let pn = position(map, name);
        assert forall|k: int| 0 <= k < pn implies !same_name((#[trigger] u[k]).0, name) by {
            if k != p {
                assert(u[k] == map[k]);
            }
        }
        assert(u[pn] == map[pn]);
        lemma_position_is(u, name, pn);
    } else {
        assert forall|k: int| 0 <= k < u.len() implies !same_name((#[trigger] u[k]).0, name) by {
            if k != p {
                assert(u[k] == map[k]);
            }
        }
        lemma_position_is(u, name, u.len() as int);
    }
    if unique_fields(map) {
        assert forall|i: int, j: int| 0 <= i < j < u.len() implies !same_name(
            (#[trigger] u[i]).0,
            (#[trigger] u[j]).0,
        ) by {
            if p < map.len() {
                if i == p {
                    assert(u[j] == map[j]);
                    assert(!same_name(map[p].0, map[j].0));
                } else if j == p {
                    assert(u[i] == map[i]);
                    assert(!same_name(map[i].0, map[p].0));
                } else {
                    assert(u[i] == map[i] && u[j] == map[j]);
                }
            } else {
                assert(u[i] == map[i]);
                if j == p {
                    assert(!same_name(map[i].0, field.0));
                } else {
                    assert(u[j] == map[j]);
                }
            }
        }
    }
}

/// The map built from a request's headers has each name once.
pub proof fn lemma_collected_unique(headers: Fields)
    ensures
        unique_fields(collected(headers)),
    decreases headers.len(),
{
    if headers.len() > 0 {
        lemma_collected_unique(headers.drop_last());
        lemma_upsert(collected(headers.drop_last()), headers.last(), headers.last().0);
    }
}

/// The map built from a request's headers has the names of those headers and
/// no others.
pub proof fn lemma_collected_names(headers: Fields, name: Seq<u8>)
    ensures
        has_field(collected(headers), name) <==> has_field(headers, name),
    decreases headers.len(),
{
    if headers.len() > 0 {
        let prev = headers.drop_last();
        assert(prev =~= headers.take(headers.len() - 1));
        lemma_collected_names(prev, name);
        lemma_upsert(collected(prev), headers.last(), name);
        lemma_position_prefix(headers, headers.len() - 1, name);
        lemma_position(headers, name);
        if same_name(headers.last().0, name) {
            if !has_field(headers, name) {
                assert(!same_name(headers[headers.len() - 1].0, name));
            }
        }
    }
}

/// Of the request's headers of one name, the last one is in the map.
pub proof fn lemma_collected_last_wins(headers: Fields, i: int)
    requires
        0 <= i < headers.len(),
        forall|j: int| i < j < headers.len() ==> !same_name((#[trigger] headers[j]).0, headers[i].0),
    ensures
        has_field(collected(headers), headers[i].0),
        collected(headers)[position(collected(headers), headers[i].0)] == headers[i],
    decreases headers.len(),
{
    let prev = headers.drop_last();
    lemma_upsert(collected(prev), headers.last(), headers[i].0);
    if i < headers.len() - 1 {
        assert(prev[i] == headers[i]);
        assert forall|j: int| i < j < prev.len() implies !same_name(
            (#[trigger] prev[j]).0,
            prev[i].0,
        ) by {
            assert(prev[j] == headers[j]);
        }
        lemma_collected_last_wins(prev, i);
        assert(!same_name(headers[headers.len() - 1].0, headers[i].0));
    }
}

/// Adding defaults keeps the map as it is and appends to it.
pub proof fn lemma_with_defaults_extends(map: Fields, defaults: Fields)
    ensures
        map.len() <= with_defaults(map, defaults).len(),
        with_defaults(map, defaults).take(map.len() as int) == map,
        unique_fields(map) ==> unique_fields(with_defaults(map, defaults)),
    decreases defaults.len(),
{
    let w = with_defaults(map, defaults);
    if defaults.len() == 0 {
        assert(w.take(map.len() as int) =~= map);
    } else {
        let before = with_defaults(map, defaults.drop_last());
        lemma_with_defaults_extends(map, defaults.drop_last());
        assert(w.take(map.len() as int) =~= before.take(map.len() as int));
        if !has_field(before, defaults.last().0) && unique_fields(map) {
            lemma_position(before, defaults.last().0);
            assert forall|i: int, j: int| 0 <= i < j < w.len() implies !same_name(
                (#[trigger] w[i]).0,
                (#[trigger] w[j]).0,
            ) by {
                assert(w[i] == before[i]);
                if j < before.len() {
                    assert(w[j] == before[j]);
                } else {
                    assert(!same_name(before[i].0, defaults.last().0));
                }
            }
        }
    }
}

/// Which names the map has after the defaults were added, and which field a
/// name has that only the defaults supply.
pub proof fn lemma_with_defaults_names(map: Fields, defaults: Fields, name: Seq<u8>)
    ensures
        has_field(with_defaults(map, defaults), name) <==> has_field(map, name) || has_field(
            defaults,
            name,
        ),
        has_field(map, name) ==> position(with_defaults(map, defaults), name) == position(
            map,
            name,
        ) && with_defaults(map, defaults)[position(map, name)] == map[position(map, name)],
        !has_field(map, name) && has_field(defaults, name) ==> with_defaults(
            map,
            defaults,
        )[position(with_defaults(map, defaults), name)] == defaults[position(defaults, name)],
    decreases defaults.len(),
{
    let w = with_defaults(map, defaults);
    if defaults.len() > 0 {
        let shorter = defaults.drop_last();
        let last = defaults.last();
        let before = with_defaults(map, shorter);
        assert(shorter =~= defaults.take(defaults.len() - 1));
        lemma_with_defaults_names(map, shorter, name);
        lemma_position_prefix(defaults, defaults.len() - 1, name);
        lemma_position(defaults, name);
        lemma_position(before, name);
        lemma_position(before, last.0);
        if has_field(before, last.0) {
            if same_name(last.0, name) {
                lemma_position_same_name(before, last.0, name);
            }
            if !has_field(shorter, name) && has_field(defaults, name) {
                assert(same_name(defaults[defaults.len() - 1].0, name));
            }
        } else {
            if same_name(last.0, name) {
                lemma_position_same_name(before, last.0, name);
                assert forall|k: int| 0 <= k < before.len() implies !same_name(
                    (#[trigger] w[k]).0,
                    name,
                ) by {
                    assert(w[k] == before[k]);
                }
                lemma_position_is(w, name, before.len() as int);
                assert(position(defaults, name) == defaults.len() - 1);
            } else if has_field(before, name) {
                let pn = position(before, name);
                assert forall|k: int| 0 <= k < pn implies !same_name((#[trigger] w[k]).0, name) by {
                    assert(w[k] == before[k]);
                }
                assert(w[pn] == before[pn]);
                lemma_position_is(w, name, pn);
                if !has_field(shorter, name) && has_field(defaults, name) {
                    assert(same_name(defaults[defaults.len() - 1].0, name));
                }
            } else {
                assert forall|k: int| 0 <= k < w.len() implies !same_name(
                    (#[trigger] w[k]).0,
                    name,
                ) by {
                    if k < before.len() {
                        assert(w[k] == before[k]);
                    }
                }
                lemma_position_is(w, name, w.len() as int);
                if has_field(defaults, name) {
                    assert(same_name(defaults[defaults.len() - 1].0, name));
                }
            }
        }
    }
}

/// The merged headers have each name once.
pub proof fn lemma_merged_unique(defaults: Fields, caller: Fields)
    ensures
        unique_fields(merged(defaults, caller)),
{
    lemma_collected_unique(caller);
    lemma_with_defaults_extends(collected(caller), defaults);
}

/// The fields that the order picks are fields of the map, each at the place
/// of its name, and they stand by rising rank.
pub proof fn lemma_picked_sorted(map: Fields, order: Seq<Seq<u8>>)
    ensures
        forall|k: int|
            0 <= k < picked(map, order).len() ==> {
                let f = #[trigger] picked(map, order)[k];
                listed(order, f.0) && has_field(map, f.0) && map[position(map, f.0)] == f
            },
        forall|a: int, b: int|
            0 <= a < b < picked(map, order).len() ==> rank(
                order,
                (#[trigger] picked(map, order)[a]).0,
            ) < rank(order, (#[trigger] picked(map, order)[b]).0),
    decreases order.len(),
{
    if order.len() > 0 {
        let shorter = order.drop_last();
        let last = order.last();
        let n = order.len() - 1;
        let before = picked(map, shorter);
        let all = picked(map, order);
        let p = position(map, last);
        assert(shorter =~= order.take(n));
        lemma_picked_sorted(map, shorter);
        lemma_position(map, last);
        assert forall|k: int| 0 <= k < before.len() implies listed(
            order,
            (#[trigger] before[k]).0,
        ) && rank(order, before[k].0) == rank(shorter, before[k].0) by {
            lemma_rank_prefix(order, n, before[k].0);
        }
        if p < map.len() && !listed(shorter, last) {
            let f = map[p];
            lemma_position_same_name(map, f.0, last);
            lemma_rank_same_name(order, f.0, last);
            lemma_rank_prefix(order, n, last);
            lemma_rank(order, last);
            assert(rank(order, f.0) == n);
            assert forall|k: int| 0 <= k < all.len() implies {
                let g = #[trigger] all[k];
                listed(order, g.0) && has_field(map, g.0) && map[position(map, g.0)] == g
            } by {
                if k < before.len() {
                    assert(all[k] == before[k]);
                }
            }
            assert forall|a: int, b: int| 0 <= a < b < all.len() implies rank(
                order,
                (#[trigger] all[a]).0,
            ) < rank(order, (#[trigger] all[b]).0) by {
                assert(all[a] == before[a]);
                if b < before.len() {
                    assert(all[b] == before[b]);
                }
            }
        }
    }
}

/// A listed name that the map has is picked.
pub proof fn lemma_picked_holds(map: Fields, order: Seq<Seq<u8>>, name: Seq<u8>)
    requires
        listed(order, name),
        has_field(map, name),
    ensures
        holds(picked(map, order), map[position(map, name)]),
    decreases order.len(),
{
    let shorter = order.drop_last();
    let last = order.last();
    let n = order.len() - 1;
    let before = picked(map, shorter);
    let all = picked(map, order);
    lemma_rank(order, name);
    assert(shorter =~= order.take(n));
    lemma_rank_prefix(order, n, name);
    if listed(shorter, name) {
        lemma_picked_holds(map, shorter, name);
        let k = choose|k: int| 0 <= k < before.len() && before[k] == map[position(map, name)];
        assert(all[k] == before[k]);
    } else {
        assert(same_name(order[n], name));
        lemma_position_same_name(map, last, name);
        lemma_rank_same_name(shorter, last, name);
        assert(all[before.len() as int] == map[position(map, name)]);
    }
}

/// The fields that the order leaves are fields of the map, none of them
/// listed, and they stand as they stand in the map.
pub proof fn lemma_unlisted_sorted(map: Fields, order: Seq<Seq<u8>>)
    requires
        unique_fields(map),
    ensures
        forall|k: int|
            0 <= k < unlisted(map, order).len() ==> {
                let f = #[trigger] unlisted(map, order)[k];
                !listed(order, f.0) && has_field(map, f.0) && map[position(map, f.0)] == f
            },
        forall|a: int, b: int|
            0 <= a < b < unlisted(map, order).len() ==> position(
                map,
                (#[trigger] unlisted(map, order)[a]).0,
            ) < position(map, (#[trigger] unlisted(map, order)[b]).0),
    decreases map.len(),
{
    if map.len() > 0 {
        let shorter = map.drop_last();
        let n = map.len() - 1;
        let before = unlisted(shorter, order);
        let all = unlisted(map, order);
        assert(shorter =~= map.take(n));
        assert forall|i: int, j: int| 0 <= i < j < shorter.len() implies !same_name(
            (#[trigger] shorter[i]).0,
            (#[trigger] shorter[j]).0,
        ) by {
            assert(shorter[i] == map[i] && shorter[j] == map[j]);
        }
        lemma_unlisted_sorted(shorter, order);
        assert forall|k: int| 0 <= k < before.len() implies {
            let f = #[trigger] before[k];
            position(map, f.0) == position(shorter, f.0) && position(map, f.0) < n && map[position(
                map,
                f.0,
            )] == f
        } by {
            let f = before[k];
            lemma_position_prefix(map, n, f.0);
            lemma_position(shorter, f.0);
            assert(shorter[position(shorter, f.0)] == map[position(shorter, f.0)]);
        }
        lemma_unique_position(map, n);
        assert forall|k: int| 0 <= k < all.len() implies {
            let f = #[trigger] all[k];
            !listed(order, f.0) && has_field(map, f.0) && map[position(map, f.0)] == f
        } by {
            if k < before.len() {
                assert(all[k] == before[k]);
            }
        }
        assert forall|a: int, b: int| 0 <= a < b < all.len() implies position(
            map,
            (#[trigger] all[a]).0,
        ) < position(map, (#[trigger] all[b]).0) by {
            assert(all[a] == before[a]);
            if b < before.len() {
                assert(all[b] == before[b]);
            }
        }
    }
}

/// A field of the map whose name is not listed is among those left.
pub proof fn lemma_unlisted_holds(map: Fields, order: Seq<Seq<u8>>, q: int)
    requires
        0 <= q < map.len(),
        !listed(order, map[q].0),
    ensures
        holds(unlisted(map, order), map[q]),
    decreases map.len(),
{
    let shorter = map.drop_last();
    let before = unlisted(shorter, order);
    let all = unlisted(map, order);
    if q < map.len() - 1 {
        assert(shorter[q] == map[q]);
        lemma_unlisted_holds(shorter, order, q);
        let k = choose|k: int| 0 <= k < before.len() && before[k] == map[q];
        assert(all[k] == before[k]);
    } else {
        assert(all[before.len() as int] == map[q]);
    }
}

/// Every field of the merged headers is sent, and nothing else is.
pub proof fn lemma_composed_same_fields(
    defaults: Fields,
    order: Seq<Seq<u8>>,
    caller: Fields,
    field: (Seq<u8>, Seq<u8>),
)
    ensures
        holds(composed(defaults, order, caller), field) <==> holds(
            merged(defaults, caller),
            field,
        ),
{
    let map = merged(defaults, caller);
    let first = picked(map, order);
    let rest = unlisted(map, order);
    let out = composed(defaults, order, caller);
    lemma_merged_unique(defaults, caller);
    lemma_picked_sorted(map, order);
    lemma_unlisted_sorted(map, order);
    if holds(out, field) {
        let k = choose|k: int| 0 <= k < out.len() && out[k] == field;
        if k < first.len() {
            assert(out[k] == first[k]);
        } else {
            assert(out[k] == rest[k - first.len()]);
        }
        lemma_position(map, field.0);
        assert(map[position(map, field.0)] == field);
    }
    if holds(map, field) {
        let q = choose|q: int| 0 <= q < map.len() && map[q] == field;
        lemma_unique_position(map, q);
        if listed(order, field.0) {
            lemma_picked_holds(map, order, field.0);
            let k = choose|k: int| 0 <= k < first.len() && first[k] == map[q];
            assert(out[k] == field);
        } else {
            lemma_unlisted_holds(map, order, q);
            let k = choose|k: int| 0 <= k < rest.len() && rest[k] == map[q];
            assert(out[first.len() + k] == field);
        }
    }
}

/// No name is sent twice.
pub proof fn lemma_composed_unique(defaults: Fields, order: Seq<Seq<u8>>, caller: Fields)
    ensures
        unique_fields(composed(defaults, order, caller)),
{
    let map = merged(defaults, caller);
    let first = picked(map, order);
    let rest = unlisted(map, order);
    let out = composed(defaults, order, caller);
    lemma_merged_unique(defaults, caller);
    lemma_picked_sorted(map, order);
    lemma_unlisted_sorted(map, order);
    assert forall|i: int, j: int| 0 <= i < j < out.len() implies !same_name(
        (#[trigger] out[i]).0,
        (#[trigger] out[j]).0,
    ) by {
        if same_name(out[i].0, out[j].0) {
            lemma_rank_same_name(order, out[i].0, out[j].0);
            lemma_position_same_name(map, out[i].0, out[j].0);
            if j < first.len() {
                assert(out[i] == first[i] && out[j] == first[j]);
            } else if i < first.len() {
                assert(out[i] == first[i] && out[j] == rest[j - first.len()]);
            } else {
                assert(out[i] == rest[i - first.len()] && out[j] == rest[j - first.len()]);
            }
        }
    }
}

/// A header that the request supplies overrides the default of that name:
/// the request's last header of a name is sent, and no other field of that
/// name is.
pub proof fn lemma_caller_overrides_default(
    defaults: Fields,
    order: Seq<Seq<u8>>,
    caller: Fields,
    i: int,
)
    requires
        0 <= i < caller.len(),
        forall|j: int| i < j < caller.len() ==> !same_name((#[trigger] caller[j]).0, caller[i].0),
    ensures
        holds(composed(defaults, order, caller), caller[i]),
        forall|k: int|
            0 <= k < composed(defaults, order, caller).len() && same_name(
                (#[trigger] composed(defaults, order, caller)[k]).0,
                caller[i].0,
            ) ==> composed(defaults, order, caller)[k] == caller[i],
{
    let map = merged(defaults, caller);
    let out = composed(defaults, order, caller);
    let name = caller[i].0;
    lemma_collected_last_wins(caller, i);
    lemma_with_defaults_names(collected(caller), defaults, name);
    let p = position(map, name);
    lemma_position(map, name);
    lemma_position(collected(caller), name);
    assert(map[p] == caller[i]);
    lemma_composed_same_fields(defaults, order, caller, caller[i]);
    lemma_merged_unique(defaults, caller);
    assert forall|k: int| 0 <= k < out.len() && same_name((#[trigger] out[k]).0, name) implies out[k]
        == caller[i] by {
        lemma_composed_same_fields(defaults, order, caller, out[k]);
        let q = choose|q: int| 0 <= q < map.len() && map[q] == out[k];
        lemma_unique_position(map, q);
        lemma_position_same_name(map, out[k].0, name);
    }
}

/// A default whose name the request does not supply is sent as the template
/// has it: the first default of that name, and no other field of that name.
pub proof fn lemma_default_sent_when_not_supplied(
    defaults: Fields,
    order: Seq<Seq<u8>>,
    caller: Fields,
    d: int,
)
    requires
        0 <= d < defaults.len(),
        forall|j: int| 0 <= j < d ==> !same_name((#[trigger] defaults[j]).0, defaults[d].0),
        forall|j: int| 0 <= j < caller.len() ==> !same_name((#[trigger] caller[j]).0, defaults[d].0),
    ensures
        holds(composed(defaults, order, caller), defaults[d]),
        forall|k: int|
            0 <= k < composed(defaults, order, caller).len() && same_name(
                (#[trigger] composed(defaults, order, caller)[k]).0,
                defaults[d].0,
            ) ==> composed(defaults, order, caller)[k] == defaults[d],
{
    let map = merged(defaults, caller);
    let out = composed(defaults, order, caller);
    let name = defaults[d].0;
    lemma_position_is(defaults, name, d);
    lemma_position_is(caller, name, caller.len() as int);
    lemma_collected_names(caller, name);
    lemma_with_defaults_names(collected(caller), defaults, name);
    let p = position(map, name);
    lemma_position(map, name);
    assert(map[p] == defaults[d]);
    lemma_composed_same_fields(defaults, order, caller, defaults[d]);
    lemma_merged_unique(defaults, caller);
    assert forall|k: int| 0 <= k < out.len() && same_name((#[trigger] out[k]).0, name) implies out[k]
        == defaults[d] by {
        lemma_composed_same_fields(defaults, order, caller, out[k]);
        let q = choose|q: int| 0 <= q < map.len() && map[q] == out[k];
        lemma_unique_position(map, q);
        lemma_position_same_name(map, out[k].0, name);
    }
}

/// The names that the order lists come first, in the order in which it lists
/// them: whatever stands before a listed name is listed too, and earlier.
pub proof fn lemma_listed_names_come_first(
    defaults: Fields,
    order: Seq<Seq<u8>>,
    caller: Fields,
    a: int,
    b: int,
)
    requires
        0 <= a < b < composed(defaults, order, caller).len(),
        listed(order, composed(defaults, order, caller)[b].0),
    ensures
        listed(order, composed(defaults, order, caller)[a].0),
        rank(order, composed(defaults, order, caller)[a].0) < rank(
            order,
            composed(defaults, order, caller)[b].0,
        ),
{
    let map = merged(defaults, caller);
    let first = picked(map, order);
    let rest = unlisted(map, order);
    let out = composed(defaults, order, caller);
    lemma_merged_unique(defaults, caller);
    lemma_picked_sorted(map, order);
    lemma_unlisted_sorted(map, order);
    if b >= first.len() {
        assert(out[b] == rest[b - first.len()]);
    } else {
        assert(out[a] == first[a] && out[b] == first[b]);
    }
}

/// The headers that the order does not list follow in the order of
/// insertion: as they stand in the merged headers.
pub proof fn lemma_other_names_keep_insertion_order(
    defaults: Fields,
    order: Seq<Seq<u8>>,
    caller: Fields,
    a: int,
    b: int,
)
    requires
        0 <= a < b < composed(defaults, order, caller).len(),
        !listed(order, composed(defaults, order, caller)[a].0),
    ensures
        !listed(order, composed(defaults, order, caller)[b].0),
        position(merged(defaults, caller), composed(defaults, order, caller)[a].0) < position(
            merged(defaults, caller),
            composed(defaults, order, caller)[b].0,
        ),
{
    let map = merged(defaults, caller);
    let first = picked(map, order);
    let rest = unlisted(map, order);
    let out = composed(defaults, order, caller);
    lemma_merged_unique(defaults, caller);
    lemma_picked_sorted(map, order);
    lemma_unlisted_sorted(map, order);
    if a < first.len() {
        assert(out[a] == first[a]);
    } else {
        assert(out[a] == rest[a - first.len()] && out[b] == rest[b - first.len()]);
    }
}

/// The map built from a request's headers keeps the names in the order in
/// which the request first had them.
pub proof fn lemma_collected_order(headers: Fields, first: Seq<u8>, second: Seq<u8>)
    requires
        has_field(headers, first),
        has_field(headers, second),
        position(headers, first) < position(headers, second),
    ensures
        position(collected(headers), first) < position(collected(headers), second),
        has_field(collected(headers), second),
    decreases headers.len(),
{
    let n = headers.len() - 1;
    let prev = headers.drop_last();
    let last = headers.last();
    let map = collected(prev);
    assert(prev =~= headers.take(n));
    lemma_position(headers, first);
    lemma_position(headers, second);
    lemma_position_prefix(headers, n, first);
    lemma_position_prefix(headers, n, second);
    lemma_collected_names(prev, first);
    lemma_collected_names(prev, second);
    lemma_collected_names(headers, second);
    lemma_upsert(map, last, first);
    lemma_upsert(map, last, second);
    lemma_position(map, first);
    lemma_position(map, second);
    if has_field(prev, second) {
        lemma_collected_order(prev, first, second);
    } else {
        assert(same_name(headers[n].0, second));
        lemma_position_same_name(map, last.0, second);
        assert(!same_name(last.0, first)) by {
            if same_name(last.0, first) {
                lemma_position_same_name(headers, first, second);
            }
        }
    }
}

/// Adding defaults keeps the names that only the defaults supply in the
/// order in which the defaults first have them.
pub proof fn lemma_with_defaults_order(
    map: Fields,
    defaults: Fields,
    first: Seq<u8>,
    second: Seq<u8>,
)
    requires
        !has_field(map, first),
        !has_field(map, second),
        has_field(defaults, first),
        has_field(defaults, second),
        position(defaults, first) < position(defaults, second),
    ensures
        position(with_defaults(map, defaults), first) < position(
            with_defaults(map, defaults),
            second,
        ),
        has_field(with_defaults(map, defaults), second),
    decreases defaults.len(),
{
    let n = defaults.len() - 1;
    let shorter = defaults.drop_last();
    let last = defaults.last();
    let before = with_defaults(map, shorter);
    let all = with_defaults(map, defaults);
    assert(shorter =~= defaults.take(n));
    lemma_position(defaults, first);
    lemma_position(defaults, second);
    lemma_position_prefix(defaults, n, first);
    lemma_position_prefix(defaults, n, second);
    lemma_with_defaults_names(map, shorter, first);
    lemma_with_defaults_names(map, shorter, second);
    lemma_with_defaults_names(map, defaults, second);
    lemma_position(before, first);
    lemma_position(before, second);
    lemma_position(all, first);
    lemma_position(all, second);
    assert(all.take(before.len() as int) =~= before);
    lemma_position_prefix(all, before.len() as int, first);
    lemma_position_prefix(all, before.len() as int, second);
    if has_field(shorter, second) {
        lemma_with_defaults_order(map, shorter, first, second);
    }
}

/// Among the headers that the order does not list, those of the request keep
/// the order in which the request first had their names.
pub proof fn lemma_caller_order_is_kept(
    defaults: Fields,
    order: Seq<Seq<u8>>,
    caller: Fields,
    a: int,
    b: int,
)
    requires
        0 <= a < b < composed(defaults, order, caller).len(),
        !listed(order, composed(defaults, order, caller)[a].0),
        has_field(caller, composed(defaults, order, caller)[a].0),
        has_field(caller, composed(defaults, order, caller)[b].0),
    ensures
        position(caller, composed(defaults, order, caller)[a].0) < position(
            caller,
            composed(defaults, order, caller)[b].0,
        ),
{
    let out = composed(defaults, order, caller);
    let map = collected(caller);
    let first = out[a].0;
    let second = out[b].0;
    lemma_other_names_keep_insertion_order(defaults, order, caller, a, b);
    lemma_collected_names(caller, first);
    lemma_collected_names(caller, second);
    lemma_with_defaults_names(map, defaults, first);
    lemma_with_defaults_names(map, defaults, second);
    lemma_position(caller, first);
    lemma_position(caller, second);
    if position(caller, second) < position(caller, first) {
        lemma_collected_order(caller, second, first);
    } else if position(caller, second) == position(caller, first) {
        lemma_position_same_name(map, first, second);
    }
}

/// Among the headers that the order does not list, those of the request
/// stand before the defaults that the request did not supply, and these
/// defaults keep the order of the template.
pub proof fn lemma_defaults_follow_in_template_order(
    defaults: Fields,
    order: Seq<Seq<u8>>,
    caller: Fields,
    a: int,
    b: int,
)
    requires
        0 <= a < composed(defaults, order, caller).len(),
        0 <= b < composed(defaults, order, caller).len(),
        a != b,
        !listed(order, composed(defaults, order, caller)[a].0),
        !listed(order, composed(defaults, order, caller)[b].0),
        !has_field(caller, composed(defaults, order, caller)[b].0),
    ensures
        has_field(defaults, composed(defaults, order, caller)[b].0),
        has_field(caller, composed(defaults, order, caller)[a].0) ==> a < b,
        !has_field(caller, composed(defaults, order, caller)[a].0) && position(
            defaults,
            composed(defaults, order, caller)[a].0,
        ) < position(defaults, composed(defaults, order, caller)[b].0) ==> a < b,
{
    let out = composed(defaults, order, caller);
    let map = collected(caller);
    let all = merged(defaults, caller);
    let first = out[a].0;
    let second = out[b].0;
    lemma_merged_unique(defaults, caller);
    lemma_picked_sorted(all, order);
    lemma_unlisted_sorted(all, order);
    let head = picked(all, order);
    let rest = unlisted(all, order);
    assert(a >= head.len() && b >= head.len()) by {
        if a < head.len() {
            assert(out[a] == head[a]);
        }
        if b < head.len() {
            assert(out[b] == head[b]);
        }
    }
    assert(out[a] == rest[a - head.len()] && out[b] == rest[b - head.len()]);
    lemma_collected_names(caller, first);
    lemma_collected_names(caller, second);
    lemma_with_defaults_names(map, defaults, first);
    lemma_with_defaults_names(map, defaults, second);
    lemma_with_defaults_extends(map, defaults);
    lemma_position(all, first);
    lemma_position(all, second);
    lemma_position(map, first);
    if b < a {
        lemma_other_names_keep_insertion_order(defaults, order, caller, b, a);
        if has_field(caller, first) {
            assert(all.take(map.len() as int) =~= map);
            lemma_position_prefix(all, map.len() as int, second);
            lemma_position(map, second);
        } else if position(defaults, first) < position(defaults, second) {
            lemma_with_defaults_order(map, defaults, first, second);
        }
    }
}

/// Defaults whose names the map has all add nothing.
pub proof fn lemma_with_defaults_present(map: Fields, defaults: Fields)
    requires
        forall|k: int| 0 <= k < defaults.len() ==> has_field(map, (#[trigger] defaults[k]).0),
    ensures
        with_defaults(map, defaults) == map,
    decreases defaults.len(),
{
    if defaults.len() > 0 {
        let shorter = defaults.drop_last();
        assert forall|k: int| 0 <= k < shorter.len() implies has_field(
            map,
            (#[trigger] shorter[k]).0,
        ) by {
            assert(shorter[k] == defaults[k]);
        }
        lemma_with_defaults_present(map, shorter);
        assert(has_field(map, defaults[defaults.len() - 1].0));
    }
}

/// Adding the same defaults a second time changes nothing: no field is
/// added, none is replaced, and the length stays.
pub proof fn lemma_with_defaults_twice(map: Fields, defaults: Fields)
    ensures
        with_defaults(with_defaults(map, defaults), defaults) == with_defaults(map, defaults),
{
    let once = with_defaults(map, defaults);
    assert forall|k: int| 0 <= k < defaults.len() implies has_field(
        once,
        (#[trigger] defaults[k]).0,
    ) by {
        let name = defaults[k].0;
        lemma_with_defaults_names(map, defaults, name);
        lemma_position(defaults, name);
        if position(defaults, name) > k {
            assert(!same_name(defaults[k].0, name));
        }
    }
    lemma_with_defaults_present(once, defaults);
}

/// Defaults with one field for each name, added to nothing, are the map: as
/// many fields, in the order of the template, one value for each name.
pub proof fn lemma_with_defaults_alone(defaults: Fields)
    requires
        unique_fields(defaults),
    ensures
        with_defaults(Seq::empty(), defaults) == defaults,
    decreases defaults.len(),
{
    if defaults.len() == 0 {
        assert(defaults =~= Seq::empty());
    } else {
        let shorter = defaults.drop_last();
        let last = defaults.last();
        assert forall|i: int, j: int| 0 <= i < j < shorter.len() implies !same_name(
            (#[trigger] shorter[i]).0,
            (#[trigger] shorter[j]).0,
        ) by {
            assert(shorter[i] == defaults[i] && shorter[j] == defaults[j]);
        }
        lemma_with_defaults_alone(shorter);
        lemma_position(shorter, last.0);
        if has_field(shorter, last.0) {
            let p = position(shorter, last.0);
            assert(shorter[p] == defaults[p]);
            assert(!same_name(defaults[p].0, defaults[defaults.len() - 1].0));
        }
        assert(shorter.push(last) =~= defaults);
    }
}

/// How many of the defaults have a name that neither the map nor a default
/// before them has.
pub open spec fn missing(map: Fields, defaults: Fields) -> nat
    decreases defaults.len(),
{
    if defaults.len() == 0 {
        0
    } else if has_field(map, defaults.last().0) || has_field(
        defaults.drop_last(),
        defaults.last().0,
    ) {
        missing(map, defaults.drop_last())
    } else {
        missing(map, defaults.drop_last()) + 1
    }
}

/// Adding defaults makes the map longer by the number of names it lacked.
pub proof fn lemma_with_defaults_len(map: Fields, defaults: Fields)
    ensures
        with_defaults(map, defaults).len() == map.len() + missing(map, defaults),
    decreases defaults.len(),
{
    if defaults.len() > 0 {
        lemma_with_defaults_len(map, defaults.drop_last());
        lemma_with_defaults_names(map, defaults.drop_last(), defaults.last().0);
    }
}

/// In the order of insertion the request's headers stand before every
/// default, each name where the request first had it.
pub proof fn lemma_merged_starts_with_caller(defaults: Fields, caller: Fields)
    ensures
        collected(caller).len() <= merged(defaults, caller).len(),
        merged(defaults, caller).take(collected(caller).len() as int) == collected(caller),
{
    lemma_with_defaults_extends(collected(caller), defaults);
}

} // verus!
