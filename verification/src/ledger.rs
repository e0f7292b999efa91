//! The ledgers of tokens that have left and of tokens that have arrived, as
//! maps from a class and a token to a channel, and the bulk operations on them.

use vstd::prelude::*;
use crate::state::TokenKey;
use crate::store::Store;

verus! {

/// A ledger in which each of the tokens is entered for a channel.
pub open spec fn with_entries(
    ledger: Map<TokenKey, String>,
    class_id: Seq<char>,
    token_ids: Seq<Seq<char>>,
    channel: String,
) -> Map<TokenKey, String>
    decreases token_ids.len(),
{
    if token_ids.len() == 0 {
        ledger
    } else {
        with_entries(ledger, class_id, token_ids.drop_last(), channel).insert(
            (class_id, token_ids.last()),
            channel,
        )
    }
}

/// A ledger from which the entry of each of the keys is removed.
pub open spec fn without_entries<V>(ledger: Map<TokenKey, V>, keys: Seq<TokenKey>) -> Map<
    TokenKey,
    V,
>
    decreases keys.len(),
{
    if keys.len() == 0 {
        ledger
    } else {
        without_entries(ledger, keys.drop_last()).remove(keys.last())
    }
}

/// Removes the entry of each of the keys from a ledger.
pub fn remove_entries<V>(ledger: &mut Store<(String, String), V>, keys: &Vec<(String, String)>)
    ensures
        final(ledger)@ == without_entries(old(ledger)@, keys.deep_view()),
{
    let ghost all = keys.deep_view();
    let mut i: usize = 0;
    assert(all.take(0) =~= Seq::<TokenKey>::empty());
    while i < keys.len()
        invariant
            i <= keys.len(),
            all == keys.deep_view(),
            ledger@ == without_entries(old(ledger)@, all.take(i as int)),
        decreases keys.len() - i,
    {
        proof {
            let next = all.take(i + 1);
            assert(next.drop_last() =~= all.take(i as int));
            assert(next.last() == keys[i as int].deep_view());
        }
        ledger.remove(&keys[i]);
        i = i + 1;
    }
    assert(all.take(i as int) =~= all);
}

/// The ledger keys of tokens of one class.
pub open spec fn class_token_keys(class_id: Seq<char>, token_ids: Seq<Seq<char>>) -> Seq<TokenKey> {
    Seq::new(token_ids.len(), |i: int| (class_id, token_ids[i]))
}

/// Enters each of the tokens into a ledger for a channel.
pub fn add_entries(
    ledger: &mut Store<(String, String), String>,
    class_id: &String,
    token_ids: &Vec<String>,
    channel: &String,
)
    ensures
        final(ledger)@ == with_entries(old(ledger)@, class_id@, token_ids.deep_view(), *channel),
{
    let ghost ids = token_ids.deep_view();
    let mut i: usize = 0;
    assert(ids.take(0) =~= Seq::<Seq<char>>::empty());
    while i < token_ids.len()
        invariant
            i <= token_ids.len(),
            ids == token_ids.deep_view(),
            ledger@ == with_entries(old(ledger)@, class_id@, ids.take(i as int), *channel),
        decreases token_ids.len() - i,
    {
        proof {
            let next = ids.take(i + 1);
            assert(next.drop_last() =~= ids.take(i as int));
            assert(next.last() == token_ids[i as int]@);
        }
        ledger.save((class_id.clone(), token_ids[i].clone()), channel.clone());
        i = i + 1;
    }
    assert(ids.take(i as int) =~= ids);
}

/// The keys of tokens of one class, for a ledger.
pub fn token_keys(class_id: &String, token_ids: &Vec<String>) -> (keys: Vec<(String, String)>)
    ensures
        keys.deep_view() == class_token_keys(class_id@, token_ids.deep_view()),
{
    let mut keys: Vec<(String, String)> = Vec::new();
    let mut i: usize = 0;
    while i < token_ids.len()
        invariant
            i <= token_ids.len(),
            keys.len() == i,
            forall|j: int|
                0 <= j < i ==> (#[trigger] keys[j]).deep_view() == (class_id@, token_ids[j]@),
        decreases token_ids.len() - i,
    {
        keys.push((class_id.clone(), token_ids[i].clone()));
        i = i + 1;
    }
    assert(keys.deep_view() =~= class_token_keys(class_id@, token_ids.deep_view()));
    keys
}

/// What a ledger holds once tokens are entered: the channel for each of the
/// tokens, and for every other key what it held before.
pub proof fn lemma_with_entries(
    ledger: Map<TokenKey, String>,
    class_id: Seq<char>,
    token_ids: Seq<Seq<char>>,
    channel: String,
    key: TokenKey,
)
    ensures
        ({
            let after = with_entries(ledger, class_id, token_ids, channel);
            if key.0 == class_id && token_ids.contains(key.1) {
                after.contains_key(key) && after[key] == channel
            } else {
                after.contains_key(key) == ledger.contains_key(key) && (after.contains_key(key)
                    ==> after[key] == ledger[key])
            }
        }),
    decreases token_ids.len(),
{
    if token_ids.len() > 0 {
        let front = token_ids.drop_last();
        lemma_with_entries(ledger, class_id, front, channel, key);
        if token_ids.contains(key.1) && key.1 != token_ids.last() {
            let at = choose|i: int| 0 <= i < token_ids.len() && token_ids[i] == key.1;
            assert(front[at] == key.1);
        }
        if front.contains(key.1) {
            let at = choose|i: int| 0 <= i < front.len() && front[i] == key.1;
            assert(token_ids[at] == key.1);
        }
        assert(token_ids[token_ids.len() - 1] == token_ids.last());
    }
}

/// What a ledger holds once entries are removed: nothing for each of the keys,
/// and for every other key what it held before.
pub proof fn lemma_without_entries<V>(ledger: Map<TokenKey, V>, keys: Seq<TokenKey>, key: TokenKey)
    ensures
        ({
            let after = without_entries(ledger, keys);
            if keys.contains(key) {
                !after.contains_key(key)
            } else {
                after.contains_key(key) == ledger.contains_key(key) && (after.contains_key(key)
                    ==> after[key] == ledger[key])
            }
        }),
    decreases keys.len(),
{
    if keys.len() > 0 {
        let front = keys.drop_last();
        lemma_without_entries(ledger, front, key);
        if keys.contains(key) && key != keys.last() {
            let at = choose|i: int| 0 <= i < keys.len() && keys[i] == key;
            assert(front[at] == key);
        }
        if front.contains(key) {
            let at = choose|i: int| 0 <= i < front.len() && front[i] == key;
            assert(keys[at] == key);
        }
        assert(keys[keys.len() - 1] == keys.last());
    }
}

} // verus!
