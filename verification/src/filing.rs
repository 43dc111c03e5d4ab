//! Records kept in a sequence and found by their keys.

use vstd::prelude::*;
use crate::state::Wallet;

verus! {

/// Whether some entry of `entries` has the key `k`.
pub open spec fn holds<T, K>(entries: Seq<T>, key: spec_fn(T) -> K, k: K) -> bool {
    exists|i: int| 0 <= i < entries.len() && key(#[trigger] entries[i]) == k
}

/// The place of an entry with the key `k`, where there is one.
pub open spec fn place<T, K>(entries: Seq<T>, key: spec_fn(T) -> K, k: K) -> int {
    choose|i: int| 0 <= i < entries.len() && key(#[trigger] entries[i]) == k
}

/// Whether no two entries share a key.
pub open spec fn distinct<T, K>(entries: Seq<T>, key: spec_fn(T) -> K) -> bool {
    forall|i: int, j: int|
        0 <= i < j < entries.len() ==> key(#[trigger] entries[i]) != key(#[trigger] entries[j])
}

/// The map from each key to the value of the entry that has it.
pub open spec fn filed<T, K, V>(entries: Seq<T>, key: spec_fn(T) -> K, value: spec_fn(T) -> V) -> Map<
    K,
    V,
> {
    Map::new(|k: K| holds(entries, key, k), |k: K| value(entries[place(entries, key, k)]))
}

/// Each entry is filed under its key.
pub proof fn lemma_filed_at<T, K, V>(
    entries: Seq<T>,
    key: spec_fn(T) -> K,
    value: spec_fn(T) -> V,
    i: int,
)
    requires
        distinct(entries, key),
        0 <= i < entries.len(),
    ensures
        holds(entries, key, key(entries[i])),
        place(entries, key, key(entries[i])) == i,
        filed(entries, key, value).contains_key(key(entries[i])),
        filed(entries, key, value)[key(entries[i])] == value(entries[i]),
{
}

/// An added entry with a new key is filed under it, and nothing else
/// changes.
pub proof fn lemma_filed_push<T, K, V>(
    entries: Seq<T>,
    key: spec_fn(T) -> K,
    value: spec_fn(T) -> V,
    entry: T,
)
    requires
        distinct(entries, key),
        !holds(entries, key, key(entry)),
    ensures
        distinct(entries.push(entry), key),
        filed(entries.push(entry), key, value) == filed(entries, key, value).insert(
            key(entry),
            value(entry),
        ),
{
    let longer = entries.push(entry);
    let before = filed(entries, key, value);
    let after = filed(longer, key, value);
    assert forall|k: K| after.contains_key(k) <==> before.insert(
        key(entry),
        value(entry),
    ).contains_key(k) by {
        if holds(entries, key, k) {
            let i = place(entries, key, k);
            assert(longer[i] == entries[i]);
        }
        if k == key(entry) {
            assert(longer[entries.len() as int] == entry);
        }
    }
    assert forall|k: K| after.contains_key(k) implies after[k] == before.insert(
        key(entry),
        value(entry),
    )[k] by {
        let i = place(longer, key, k);
        lemma_filed_at(longer, key, value, i);
        if i < entries.len() {
            lemma_filed_at(entries, key, value, i);
        }
    }
}

/// An entry replaced by one with the same key is filed anew under it, and
/// nothing else changes.
pub proof fn lemma_filed_update<T, K, V>(
    entries: Seq<T>,
    key: spec_fn(T) -> K,
    value: spec_fn(T) -> V,
    i: int,
    entry: T,
)
    requires
        distinct(entries, key),
        0 <= i < entries.len(),
        key(entry) == key(entries[i]),
    ensures
        distinct(entries.update(i, entry), key),
        filed(entries.update(i, entry), key, value) == filed(entries, key, value).insert(
            key(entry),
            value(entry),
        ),
{
    let changed = entries.update(i, entry);
    let before = filed(entries, key, value);
    let after = filed(changed, key, value);
    assert forall|k: K| after.contains_key(k) <==> before.insert(
        key(entry),
        value(entry),
    ).contains_key(k) by {
        if holds(changed, key, k) {
            let j = place(changed, key, k);
            assert(key(entries[j]) == k);
        }
        if holds(entries, key, k) {
            let j = place(entries, key, k);
            assert(key(changed[j]) == k);
        }
        if k == key(entry) {
            assert(key(changed[i]) == k);
        }
    }
    assert forall|k: K| after.contains_key(k) implies after[k] == before.insert(
        key(entry),
        value(entry),
    )[k] by {
        let j = place(changed, key, k);
        lemma_filed_at(changed, key, value, j);
        if j != i {
            lemma_filed_at(entries, key, value, j);
        }
    }
}

/// The funds of all the wallets together.
pub open spec fn total(wallets: Seq<Wallet>) -> nat
    decreases wallets.len(),
{
    if wallets.len() == 0 {
        0
    } else {
        total(wallets.drop_last()) + wallets.last().lamports as nat
    }
}

/// No wallet holds more than all of them together.
pub proof fn lemma_total_bounds(wallets: Seq<Wallet>, i: int)
    requires
        0 <= i < wallets.len(),
    ensures
        wallets[i].lamports <= total(wallets),
    decreases wallets.len(),
{
    if i < wallets.len() - 1 {
        lemma_total_bounds(wallets.drop_last(), i);
    }
}

/// A replaced wallet changes the total by the difference of its funds.
pub proof fn lemma_total_update(wallets: Seq<Wallet>, i: int, wallet: Wallet)
    requires
        0 <= i < wallets.len(),
    ensures
        total(wallets.update(i, wallet)) == total(wallets) - wallets[i].lamports + wallet.lamports,
    decreases wallets.len(),
{
    let changed = wallets.update(i, wallet);
    if i < wallets.len() - 1 {
        lemma_total_update(wallets.drop_last(), i, wallet);
        assert(changed.drop_last() =~= wallets.drop_last().update(i, wallet));
    } else {
        assert(changed.drop_last() =~= wallets.drop_last());
    }
}

/// An added wallet adds its funds to the total.
pub proof fn lemma_total_push(wallets: Seq<Wallet>, wallet: Wallet)
    ensures
        total(wallets.push(wallet)) == total(wallets) + wallet.lamports,
{
    assert(wallets.push(wallet).drop_last() =~= wallets);
}

} // verus!
