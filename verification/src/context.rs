//! Encryption contexts: the list of pairs that the C++ side holds and the
//! string map that the keyring takes and gives back.
use crate::bridge::EncryptionContextItem;
use std::collections::HashMap;
use vstd::prelude::*;

verus! {

/// The map that a list of pairs makes when each pair is entered in turn: a
/// later pair replaces an earlier one with the same key.
pub open spec fn context_of(items: Seq<EncryptionContextItem>) -> Map<Seq<char>, Seq<char>>
    decreases items.len(),
{
    if items.len() == 0 {
        Map::empty()
    } else {
        context_of(items.drop_last()).insert(items.last().key@, items.last().value@)
    }
}

/// No key occurs twice in the list.
pub open spec fn keys_distinct(items: Seq<EncryptionContextItem>) -> bool {
    forall|i: int, j: int|
        0 <= i < j < items.len() ==> #[trigger] items[i].key@ != #[trigger] items[j].key@
}

/// The list holds each entry of the map once, and nothing else.
pub open spec fn lists_context(items: Seq<EncryptionContextItem>, map: Map<Seq<char>, Seq<char>>) -> bool {
    &&& keys_distinct(items)
    &&& forall|i: int|
        0 <= i < items.len() ==> map.contains_key(#[trigger] items[i].key@) && map[items[i].key@]
            == items[i].value@
    &&& forall|k: Seq<char>|
        map.contains_key(k) ==> exists|i: int| 0 <= i < items.len() && #[trigger] items[i].key@ == k
}

/// `HashMap::insert` on a map of strings: afterwards the map holds `value`
/// under `key` and every other entry as before. (vstd's own contract of
/// `insert` speaks only of key types in its key model, which `String` is not.)
#[verifier::external_body]
fn context_insert(map: &mut HashMap<String, String>, key: String, value: String)
    ensures
        final(map).deep_view() == old(map).deep_view().insert(key@, value@),
        final(map).len() == if old(map).deep_view().contains_key(key@) {
            old(map).len() as int
        } else {
            old(map).len() + 1
        },
{
    map.insert(key, value);
}

/// The context with no entries.
pub open spec fn empty_context() -> Map<Seq<char>, Seq<char>> {
    Map::empty()
}

/// `HashMap::new` for a map of strings: empty, with no entries.
#[verifier::external_body]
fn context_new() -> (map: HashMap<String, String>)
    ensures
        map.deep_view() == empty_context(),
        map.len() == 0,
{
    HashMap::new()
}

/// `HashMap::iter` on a map of strings, collected: every entry once, in the
/// map's own order, which this contract leaves open.
#[verifier::external_body]
fn context_entries(map: &HashMap<String, String>) -> (entries: Vec<(&String, &String)>)
    ensures
        entries.len() == map.len(),
        forall|i: int, j: int|
            0 <= i < j < entries.len() ==> #[trigger] entries[i].0@ != #[trigger] entries[j].0@,
        forall|i: int|
            0 <= i < entries.len() ==> map.deep_view().contains_key(#[trigger] entries[i].0@)
                && map.deep_view()[entries[i].0@] == entries[i].1@,
        forall|k: Seq<char>|
            map.deep_view().contains_key(k) ==> exists|i: int|
                0 <= i < entries.len() && #[trigger] entries[i].0@ == k,
{
    map.iter().collect()
}

/// Lists the entries of a map of strings, each once, in the map's order.
pub fn list_from_map(x: &HashMap<String, String>) -> (items: Vec<EncryptionContextItem>)
    ensures
        items.len() == x.len(),
        lists_context(items@, x.deep_view()),
{
    let entries = context_entries(x);
    let mut items: Vec<EncryptionContextItem> = Vec::new();
    let mut i: usize = 0;
    while i < entries.len()
        invariant
            i <= entries.len(),
            items@.len() == i,
            forall|j: int| 0 <= j < i ==> #[trigger] items@[j].key@ == entries@[j].0@,
            forall|j: int| 0 <= j < i ==> #[trigger] items@[j].value@ == entries@[j].1@,
        decreases entries.len() - i,
    {
        let (k, v) = entries[i];
        items.push(EncryptionContextItem { key: k.clone(), value: v.clone() });
        i = i + 1;
    }
    assert forall|k: Seq<char>| x.deep_view().contains_key(k) implies exists|j: int|
        0 <= j < items@.len() && #[trigger] items@[j].key@ == k by {
        let j = choose|j: int| 0 <= j < entries.len() && #[trigger] entries@[j].0@ == k;
        assert(items@[j].key@ == k);
    }
    assert forall|a: int, b: int| 0 <= a < b < items@.len() implies #[trigger] items@[a].key@
        != #[trigger] items@[b].key@ by {
        assert(entries@[a].0@ != entries@[b].0@);
    }
    items
}

/// Enters the pairs of a list into a new map of strings, in order; a later
/// pair replaces an earlier one with the same key. The map has one entry
/// per distinct key, so as many as the list has pairs exactly when no key
/// repeats.
pub fn map_from_list(x: &[EncryptionContextItem]) -> (map: HashMap<String, String>)
    ensures
        map.deep_view() == context_of(x@),
        map.len() == context_of(x@).dom().len(),
        map.len() <= x@.len(),
        map.len() == x@.len() <==> keys_distinct(x@),
{
    let mut map: HashMap<String, String> = context_new();
    assert(context_of(x@.take(0)) =~= Map::<Seq<char>, Seq<char>>::empty());
    let mut i: usize = 0;
    while i < x.len()
        invariant
            i <= x.len(),
            map.deep_view() == context_of(x@.take(i as int)),
            map.len() == context_of(x@.take(i as int)).dom().len(),
        decreases x.len() - i,
    {
        proof {
            lemma_context_of_keys(x@.take(i as int));
        }
        context_insert(&mut map, x[i].key.clone(), x[i].value.clone());
        assert(x@.take(i + 1).drop_last() =~= x@.take(i as int));
        i = i + 1;
    }
    assert(x@.take(x.len() as int) =~= x@);
    proof {
        lemma_context_of_keys(x@);
    }
    map
}

/// The keys of the map a list makes are the keys of the list; there are
/// finitely many, no more than the list has pairs, and as many exactly when
/// no key repeats.
proof fn lemma_context_of_keys(items: Seq<EncryptionContextItem>)
    ensures
        context_of(items).dom().finite(),
        forall|k: Seq<char>|
            #[trigger] context_of(items).contains_key(k) <==> exists|i: int|
                0 <= i < items.len() && items[i].key@ == k,
        context_of(items).dom().len() <= items.len(),
        context_of(items).dom().len() == items.len() <==> keys_distinct(items),
    decreases items.len(),
{
    if items.len() == 0 {
        assert(context_of(items).dom() =~= Set::<Seq<char>>::empty());
    } else {
        let prefix = items.drop_last();
        let n = items.len() - 1;
        let last = items[n];
        lemma_context_of_keys(prefix);
        assert(context_of(items).dom() == context_of(prefix).dom().insert(last.key@));
        assert forall|k: Seq<char>| #[trigger] context_of(items).contains_key(k) <==> exists|i: int|
            0 <= i < items.len() && items[i].key@ == k by {
            if context_of(items).contains_key(k) {
                if k == last.key@ {
                    assert(items[n].key@ == k);
                } else {
                    assert(context_of(prefix).contains_key(k));
                    let j = choose|j: int| 0 <= j < prefix.len() && prefix[j].key@ == k;
                    assert(items[j] == prefix[j]);
                }
            }
            if exists|i: int| 0 <= i < items.len() && items[i].key@ == k {
                let i = choose|i: int| 0 <= i < items.len() && items[i].key@ == k;
                if i < n {
                    assert(prefix[i] == items[i]);
                    assert(context_of(prefix).contains_key(k));
                }
            }
        }
        if context_of(prefix).contains_key(last.key@) {
            let j = choose|j: int| 0 <= j < prefix.len() && prefix[j].key@ == last.key@;
            assert(items[j] == prefix[j]);
            assert(items[j].key@ == items[n].key@);
            assert(!keys_distinct(items));
        } else {
            assert(keys_distinct(items) <==> keys_distinct(prefix)) by {
                if keys_distinct(prefix) {
                    assert forall|a: int, b: int| 0 <= a < b < items.len() implies #[trigger] items[a].key@
                        != #[trigger] items[b].key@ by {
                        assert(items[a] == prefix[a]);
                        if b == n {
                            if items[a].key@ == last.key@ {
                                assert(prefix[a].key@ == last.key@);
                                assert(context_of(prefix).contains_key(last.key@));
                            }
                        } else {
                            assert(items[b] == prefix[b]);
                        }
                    }
                }
                if keys_distinct(items) {
                    assert forall|a: int, b: int| 0 <= a < b < prefix.len() implies #[trigger] prefix[a].key@
                        != #[trigger] prefix[b].key@ by {
                        assert(items[a] == prefix[a]);
                        assert(items[b] == prefix[b]);
                    }
                }
            }
        }
    }
}

/// With distinct keys, entering a list's pairs gives the map that holds each
/// pair of the list.
proof fn lemma_context_of_distinct(items: Seq<EncryptionContextItem>)
    requires
        keys_distinct(items),
    ensures
        forall|i: int|
            0 <= i < items.len() ==> context_of(items).contains_key(#[trigger] items[i].key@)
                && context_of(items)[items[i].key@] == items[i].value@,
        forall|k: Seq<char>|
            context_of(items).contains_key(k) ==> exists|i: int|
                0 <= i < items.len() && #[trigger] items[i].key@ == k,
    decreases items.len(),
{
    if items.len() > 0 {
        let prefix = items.drop_last();
        assert(keys_distinct(prefix)) by {
            assert forall|i: int, j: int| 0 <= i < j < prefix.len() implies #[trigger] prefix[i].key@
                != #[trigger] prefix[j].key@ by {
                assert(prefix[i] == items[i] && prefix[j] == items[j]);
            }
        }
        lemma_context_of_distinct(prefix);
        let last = items.len() - 1;
        assert forall|i: int| 0 <= i < items.len() implies context_of(items).contains_key(
            #[trigger] items[i].key@,
        ) && context_of(items)[items[i].key@] == items[i].value@ by {
            if i < last {
                assert(prefix[i] == items[i]);
                assert(items[i].key@ != items[last].key@);
            }
        }
        assert forall|k: Seq<char>| context_of(items).contains_key(k) implies exists|i: int|
            0 <= i < items.len() && #[trigger] items[i].key@ == k by {
            if k != items[last].key@ {
                assert(context_of(prefix).contains_key(k));
                let i = choose|i: int| 0 <= i < prefix.len() && #[trigger] prefix[i].key@ == k;
                assert(items[i] == prefix[i]);
            } else {
                assert(items[last].key@ == k);
            }
        }
    }
}

/// Listing a map and entering the list again gives back the same map.
pub proof fn lemma_list_then_map_round_trip(
    map: Map<Seq<char>, Seq<char>>,
    items: Seq<EncryptionContextItem>,
)
    requires
        lists_context(items, map),
    ensures
        context_of(items) == map,
{
    lemma_context_of_distinct(items);
    assert forall|k: Seq<char>| #[trigger] context_of(items).contains_key(k) <==> map.contains_key(k) by {
        if map.contains_key(k) {
            let i = choose|i: int| 0 <= i < items.len() && #[trigger] items[i].key@ == k;
        }
        if context_of(items).contains_key(k) {
            let i = choose|i: int| 0 <= i < items.len() && #[trigger] items[i].key@ == k;
        }
    }
    assert forall|k: Seq<char>| #[trigger] context_of(items).contains_key(k) implies context_of(items)[k]
        == map[k] by {
        let i = choose|i: int| 0 <= i < items.len() && #[trigger] items[i].key@ == k;
    }
    assert(context_of(items) =~= map);
}

/// The pairs of a list, each as its key and its value.
pub open spec fn context_pairs(items: Seq<EncryptionContextItem>) -> Seq<(Seq<char>, Seq<char>)> {
    items.map_values(|item: EncryptionContextItem| (item.key@, item.value@))
}

/// The pairs of a list whose keys are distinct occur once each.
proof fn lemma_context_pairs_no_duplicates(items: Seq<EncryptionContextItem>)
    requires
        keys_distinct(items),
    ensures
        context_pairs(items).no_duplicates(),
{
    let pairs = context_pairs(items);
    assert forall|a: int, b: int| 0 <= a < pairs.len() && 0 <= b < pairs.len() && a != b implies pairs[a]
        != pairs[b] by {
        if a < b {
            assert(items[a].key@ != items[b].key@);
        } else {
            assert(items[b].key@ != items[a].key@);
        }
    }
}

/// Entering a list whose keys are distinct and listing the map again gives
/// back the same pairs, in some order: the two lists hold the same multiset
/// of key/value pairs.
pub proof fn lemma_map_then_list_permutation(
    list: Seq<EncryptionContextItem>,
    items: Seq<EncryptionContextItem>,
)
    requires
        keys_distinct(list),
        lists_context(items, context_of(list)),
    ensures
        context_pairs(items).to_multiset() == context_pairs(list).to_multiset(),
        items.len() == list.len(),
{
    broadcast use vstd::seq_lib::to_multiset_contains, vstd::seq_lib::to_multiset_len;

    lemma_context_of_distinct(list);
    let p = context_pairs(items);
    let q = context_pairs(list);
    lemma_context_pairs_no_duplicates(list);
    lemma_context_pairs_no_duplicates(items);
    p.lemma_multiset_has_no_duplicates();
    q.lemma_multiset_has_no_duplicates();
    assert forall|x: (Seq<char>, Seq<char>)| p.contains(x) <==> q.contains(x) by {
        if p.contains(x) {
            let i = choose|i: int| 0 <= i < p.len() && p[i] == x;
            let k = items[i].key@;
            assert(context_of(list).contains_key(k));
            let j = choose|j: int| 0 <= j < list.len() && #[trigger] list[j].key@ == k;
            assert(q[j] == x);
        }
        if q.contains(x) {
            let j = choose|j: int| 0 <= j < q.len() && q[j] == x;
            let k = list[j].key@;
            assert(context_of(list).contains_key(list[j].key@));
            let i = choose|i: int| 0 <= i < items.len() && #[trigger] items[i].key@ == k;
            assert(p[i] == x);
        }
    }
    assert forall|x: (Seq<char>, Seq<char>)| p.to_multiset().count(x) == q.to_multiset().count(x) by {
        if p.contains(x) {
            assert(p.to_multiset().contains(x));
            assert(q.to_multiset().contains(x));
        }
    }
    assert(p.to_multiset() =~= q.to_multiset());
    assert(p.to_multiset().len() == q.to_multiset().len());
    assert(items.len() == p.len() && list.len() == q.len());
}

} // verus!
