use vstd::prelude::*;
use crate::pubkey::Pubkey;

verus! {

// Arrays of addresses in which the all-zero address marks an unused slot.

/// Number of used (non-zero) slots.
pub open spec fn count_set(s: Seq<Pubkey>) -> nat
    decreases s.len(),
{
    if s.len() == 0 {
        0
    } else {
        count_set(s.drop_last()) + if s.last().is_default() { 0nat } else { 1nat }
    }
}

/// Every slot is unused.
pub open spec fn all_unset(s: Seq<Pubkey>) -> bool {
    forall|i: int| 0 <= i < s.len() ==> #[trigger] s[i].is_default()
}

/// Some slot is unused.
pub open spec fn has_unset(s: Seq<Pubkey>) -> bool {
    exists|j: int| 0 <= j < s.len() && #[trigger] s[j].is_default()
}

/// `j` is the lowest unused slot.
pub open spec fn is_first_unset(s: Seq<Pubkey>, j: int) -> bool {
    &&& 0 <= j < s.len()
    &&& s[j].is_default()
    &&& forall|i: int| 0 <= i < j ==> !(#[trigger] s[i].is_default())
}

/// The lowest unused slot (meaningful when `has_unset(s)`).
pub open spec fn first_unset(s: Seq<Pubkey>) -> int {
    choose|j: int| is_first_unset(s, j)
}

/// Puts `k` into the lowest unused slot; a full array is left as it is.
pub open spec fn place_key(dst: Seq<Pubkey>, k: Pubkey) -> Seq<Pubkey> {
    if has_unset(dst) {
        dst.update(first_unset(dst), k)
    } else {
        dst
    }
}

/// Places every used key of `src`, in order, into the lowest unused slots of `dst`.
pub open spec fn append_keys(src: Seq<Pubkey>, dst: Seq<Pubkey>) -> Seq<Pubkey>
    decreases src.len(),
{
    if src.len() == 0 {
        dst
    } else {
        let d = append_keys(src.drop_last(), dst);
        if src.last().is_default() {
            d
        } else {
            place_key(d, src.last())
        }
    }
}

/// Every slot holding `key` is cleared.
pub open spec fn remove_key(s: Seq<Pubkey>, key: Pubkey) -> Seq<Pubkey> {
    Seq::new(s.len(), |i: int| if s[i] == key { Pubkey::spec_default() } else { s[i] })
}

/// `j` is the lowest slot holding `key`.
pub open spec fn is_first_index(s: Seq<Pubkey>, key: Pubkey, j: int) -> bool {
    &&& 0 <= j < s.len()
    &&& s[j] == key
    &&& forall|i: int| 0 <= i < j ==> #[trigger] s[i] != key
}

/// Position of the first slot holding `key`, or `u32::MAX` when there is none.
pub open spec fn find_key(s: Seq<Pubkey>, key: Pubkey) -> u32 {
    if s.contains(key) {
        (choose|j: int| is_first_index(s, key, j)) as u32
    } else {
        u32::MAX
    }
}

pub proof fn lemma_first_unset_below(s: Seq<Pubkey>, j: int)
    requires
        0 <= j < s.len(),
        s[j].is_default(),
    ensures
        exists|k: int| #[trigger] is_first_unset(s, k) && k <= j,
    decreases j,
{
    if forall|i: int| 0 <= i < j ==> !(#[trigger] s[i].is_default()) {
        assert(is_first_unset(s, j));
    } else {
        let i = choose|i: int| 0 <= i < j && #[trigger] s[i].is_default();
        lemma_first_unset_below(s, i);
    }
}

/// The lowest unused slot exists whenever some slot is unused, and it is unique.
pub proof fn lemma_first_unset(s: Seq<Pubkey>)
    requires
        has_unset(s),
    ensures
        is_first_unset(s, first_unset(s)),
        forall|j: int| #[trigger] is_first_unset(s, j) ==> j == first_unset(s),
{
    let j = choose|j: int| 0 <= j < s.len() && #[trigger] s[j].is_default();
    lemma_first_unset_below(s, j);
    let f = first_unset(s);
    assert forall|k: int| #[trigger] is_first_unset(s, k) implies k == f by {
        if k < f {
            assert(!s[k].is_default());
        } else if f < k {
            assert(!s[f].is_default());
        }
    }
}

pub proof fn lemma_first_index_below(s: Seq<Pubkey>, key: Pubkey, j: int)
    requires
        0 <= j < s.len(),
        s[j] == key,
    ensures
        exists|k: int| #[trigger] is_first_index(s, key, k) && k <= j,
    decreases j,
{
    if forall|i: int| 0 <= i < j ==> #[trigger] s[i] != key {
        assert(is_first_index(s, key, j));
    } else {
        let i = choose|i: int| 0 <= i < j && #[trigger] s[i] == key;
        lemma_first_index_below(s, key, i);
    }
}

/// When `key` occurs, the position that `find_key` reports is its first occurrence.
pub proof fn lemma_find_key(s: Seq<Pubkey>, key: Pubkey)
    requires
        s.contains(key),
    ensures
        exists|j: int| #[trigger] is_first_index(s, key, j) && find_key(s, key) == j as u32,
        forall|j: int| #[trigger] is_first_index(s, key, j) ==> find_key(s, key) == j as u32,
{
    let j = choose|j: int| 0 <= j < s.len() && s[j] == key;
    lemma_first_index_below(s, key, j);
    let f = choose|j: int| is_first_index(s, key, j);
    assert(is_first_index(s, key, f));
    assert forall|k: int| #[trigger] is_first_index(s, key, k) implies k == f by {
        if k < f {
            assert(s[k] == key);
        } else if f < k {
            assert(s[f] == key);
        }
    }
}

pub proof fn lemma_count_le_len(s: Seq<Pubkey>)
    ensures
        count_set(s) <= s.len(),
    decreases s.len(),
{
    if s.len() > 0 {
        lemma_count_le_len(s.drop_last());
    }
}

/// No slot is used exactly when the count of used slots is zero.
pub proof fn lemma_count_zero(s: Seq<Pubkey>)
    ensures
        (count_set(s) == 0) <==> all_unset(s),
    decreases s.len(),
{
    if s.len() > 0 {
        let t = s.drop_last();
        lemma_count_zero(t);
        if all_unset(s) {
            assert forall|i: int| 0 <= i < t.len() implies #[trigger] t[i].is_default() by {
                assert(t[i] == s[i]);
            }
        }
        if count_set(s) == 0 {
            assert forall|i: int| 0 <= i < s.len() implies #[trigger] s[i].is_default() by {
                if i < t.len() {
                    assert(t[i] == s[i]);
                }
            }
        }
    }
}

/// Every slot is used exactly when the count of used slots is the length.
pub proof fn lemma_count_full(s: Seq<Pubkey>)
    ensures
        (count_set(s) == s.len()) <==> !has_unset(s),
    decreases s.len(),
{
    if s.len() > 0 {
        let t = s.drop_last();
        lemma_count_full(t);
        lemma_count_le_len(t);
        if has_unset(s) {
            let j = choose|j: int| 0 <= j < s.len() && #[trigger] s[j].is_default();
            if j < t.len() {
                assert(t[j] == s[j]);
                assert(has_unset(t));
            }
        }
        if has_unset(t) {
            let j = choose|j: int| 0 <= j < t.len() && #[trigger] t[j].is_default();
            assert(s[j] == t[j]);
        }
    }
}

/// Changing one slot changes the count by the change in that slot's use.
pub proof fn lemma_count_update(s: Seq<Pubkey>, j: int, k: Pubkey)
    requires
        0 <= j < s.len(),
    ensures
        count_set(s.update(j, k)) + (if s[j].is_default() { 0int } else { 1int })
            == count_set(s) + (if k.is_default() { 0int } else { 1int }),
    decreases s.len(),
{
    let u = s.update(j, k);
    if j == s.len() - 1 {
        assert(u.drop_last() =~= s.drop_last());
    } else {
        lemma_count_update(s.drop_last(), j, k);
        assert(u.drop_last() =~= s.drop_last().update(j, k));
    }
}

pub proof fn lemma_place_key(dst: Seq<Pubkey>, k: Pubkey)
    requires
        !k.is_default(),
    ensures
        place_key(dst, k).len() == dst.len(),
        count_set(place_key(dst, k)) == if has_unset(dst) { count_set(dst) + 1 } else { count_set(dst) },
        forall|i: int| 0 <= i < dst.len() && !dst[i].is_default() ==> #[trigger] place_key(dst, k)[i] == dst[i],
{
    if has_unset(dst) {
        lemma_first_unset(dst);
        lemma_count_update(dst, first_unset(dst), k);
    }
}

/// Placing keys loses none while there is room: the used count becomes the
/// smaller of the capacity and the two used counts together, every used slot
/// of `dst` keeps its key, and the length does not change.
pub proof fn lemma_append_keys(src: Seq<Pubkey>, dst: Seq<Pubkey>)
    ensures
        append_keys(src, dst).len() == dst.len(),
        count_set(append_keys(src, dst)) == if count_set(dst) + count_set(src) <= dst.len() {
            count_set(dst) + count_set(src)
        } else {
            dst.len()
        },
        forall|i: int| 0 <= i < dst.len() && !dst[i].is_default()
            ==> #[trigger] append_keys(src, dst)[i] == dst[i],
    decreases src.len(),
{
    lemma_count_le_len(dst);
    if src.len() > 0 {
        let t = src.drop_last();
        lemma_append_keys(t, dst);
        let d = append_keys(t, dst);
        if !src.last().is_default() {
            lemma_place_key(d, src.last());
            lemma_count_full(d);
            assert forall|i: int| 0 <= i < dst.len() && !dst[i].is_default()
                implies #[trigger] append_keys(src, dst)[i] == dst[i] by {
                assert(d[i] == dst[i]);
            }
        }
    }
}


/// A prefix holds no more used slots than the whole array.
pub proof fn lemma_count_prefix_le(s: Seq<Pubkey>, n: int)
    requires
        0 <= n <= s.len(),
    ensures
        count_set(s.take(n)) <= count_set(s),
    decreases s.len() - n,
{
    if n < s.len() {
        lemma_count_prefix_le(s, n + 1);
        assert(s.take(n + 1).drop_last() =~= s.take(n));
    } else {
        assert(s.take(n) =~= s);
    }
}


/// Removing a key clears every slot that held it and touches no other slot;
/// afterwards a non-zero key is no longer found.
pub proof fn lemma_remove_key(s: Seq<Pubkey>, key: Pubkey)
    ensures
        remove_key(s, key).len() == s.len(),
        forall|i: int| 0 <= i < s.len() && s[i] != key ==> #[trigger] remove_key(s, key)[i] == s[i],
        !key.is_default() ==> !remove_key(s, key).contains(key),
        !key.is_default() ==> find_key(remove_key(s, key), key) == u32::MAX,
{
    let r = remove_key(s, key);
    if !key.is_default() && r.contains(key) {
        let j = choose|j: int| 0 <= j < r.len() && r[j] == key;
        assert(r[j] == key);
    }
}

/// Removing a key that occurs leaves strictly fewer used slots: every
/// settlement brings a burnt root closer to having no children.
pub proof fn lemma_remove_key_count(s: Seq<Pubkey>, key: Pubkey)
    requires
        s.contains(key),
        !key.is_default(),
    ensures
        count_set(remove_key(s, key)) < count_set(s),
    decreases s.len(),
{
    let r = remove_key(s, key);
    let t = s.drop_last();
    assert(r.drop_last() =~= remove_key(t, key));
    lemma_remove_key_count_le(t, key);
    if t.contains(key) {
        lemma_remove_key_count(t, key);
    } else {
        assert(s.last() == key) by {
            let j = choose|j: int| 0 <= j < s.len() && s[j] == key;
            if j < t.len() {
                assert(t[j] == key);
            }
        }
    }
}

proof fn lemma_remove_key_count_le(s: Seq<Pubkey>, key: Pubkey)
    ensures
        count_set(remove_key(s, key)) <= count_set(s),
    decreases s.len(),
{
    if s.len() > 0 {
        let t = s.drop_last();
        assert(remove_key(s, key).drop_last() =~= remove_key(t, key));
        lemma_remove_key_count_le(t, key);
    }
}

/// A non-zero key placed while some slot is free ends up in the array.
pub proof fn lemma_place_key_contains(dst: Seq<Pubkey>, k: Pubkey)
    requires
        has_unset(dst),
    ensures
        place_key(dst, k).contains(k),
{
    lemma_first_unset(dst);
    assert(place_key(dst, k)[first_unset(dst)] == k);
}

/// `s` with every key of `ks` removed, one after the other.
pub open spec fn remove_keys(s: Seq<Pubkey>, ks: Seq<Pubkey>) -> Seq<Pubkey>
    decreases ks.len(),
{
    if ks.len() == 0 {
        s
    } else {
        remove_key(remove_keys(s, ks.drop_last()), ks.last())
    }
}

/// After removing the keys `ks`, a slot is cleared exactly when its key is one of them.
pub proof fn lemma_remove_keys(s: Seq<Pubkey>, ks: Seq<Pubkey>)
    ensures
        remove_keys(s, ks).len() == s.len(),
        forall|j: int| 0 <= j < s.len() ==> #[trigger] remove_keys(s, ks)[j]
            == if ks.contains(s[j]) { Pubkey::spec_default() } else { s[j] },
    decreases ks.len(),
{
    if ks.len() > 0 {
        let t = ks.drop_last();
        lemma_remove_keys(s, t);
        assert forall|j: int| 0 <= j < s.len() implies #[trigger] remove_keys(s, ks)[j]
            == if ks.contains(s[j]) { Pubkey::spec_default() } else { s[j] } by {
            if t.contains(s[j]) {
                let i = choose|i: int| 0 <= i < t.len() && t[i] == s[j];
                assert(ks[i] == s[j]);
            }
            if ks.contains(s[j]) && !t.contains(s[j]) {
                let i = choose|i: int| 0 <= i < ks.len() && ks[i] == s[j];
                if i < t.len() {
                    assert(t[i] == s[j]);
                }
            }
            if !ks.contains(s[j]) {
                assert(ks.last() != s[j]) by {
                    assert(ks[ks.len() - 1] == ks.last());
                }
                if t.contains(s[j]) {
                    let i = choose|i: int| 0 <= i < t.len() && t[i] == s[j];
                    assert(ks[i] == s[j]);
                }
            }
        }
    }
}

/// Removing, one at a time, distinct keys that are exactly the used keys of
/// `s` leaves a used slot after every removal but the last, and none after
/// the last: the array empties at the last key and not before.
pub proof fn lemma_remove_keys_empties_last(s: Seq<Pubkey>, ks: Seq<Pubkey>, i: int)
    requires
        0 <= i < ks.len(),
        forall|a: int, b: int| 0 <= a < b < ks.len() ==> ks[a] != ks[b],
        forall|a: int| 0 <= a < ks.len() ==> !(#[trigger] ks[a]).is_default() && s.contains(ks[a]),
        forall|j: int| 0 <= j < s.len() && !(#[trigger] s[j]).is_default() ==> ks.contains(s[j]),
    ensures
        all_unset(remove_keys(s, ks.take(i + 1))) <==> i == ks.len() - 1,
{
    let done = ks.take(i + 1);
    lemma_remove_keys(s, done);
    let r = remove_keys(s, done);
    if i == ks.len() - 1 {
        assert(done =~= ks);
        assert forall|j: int| 0 <= j < r.len() implies #[trigger] r[j].is_default() by {
            if !s[j].is_default() {
                assert(ks.contains(s[j]));
            }
        }
    } else {
        let next = ks[i + 1];
        let j = choose|j: int| 0 <= j < s.len() && s[j] == next;
        if done.contains(next) {
            let a = choose|a: int| 0 <= a < done.len() && done[a] == next;
            assert(ks[a] == ks[i + 1]);
        }
        assert(!r[j].is_default());
    }
}

/// Placing keys brings in no key other than those placed: every key of the
/// result was already in `dst` or is a key of `src`.
pub proof fn lemma_append_keys_from(src: Seq<Pubkey>, dst: Seq<Pubkey>, k: Pubkey)
    ensures
        append_keys(src, dst).contains(k) ==> dst.contains(k) || src.contains(k),
    decreases src.len(),
{
    if src.len() > 0 {
        let t = src.drop_last();
        lemma_append_keys_from(t, dst, k);
        lemma_append_keys(t, dst);
        let d = append_keys(t, dst);
        let r = append_keys(src, dst);
        if r.contains(k) {
            let j = choose|j: int| 0 <= j < r.len() && r[j] == k;
            if k != src.last() {
                if !src.last().is_default() && has_unset(d) {
                    lemma_first_unset(d);
                }
                assert(d[j] == k);
                assert(d.contains(k));
                if t.contains(k) {
                    let i = choose|i: int| 0 <= i < t.len() && t[i] == k;
                    assert(src[i] == k);
                }
            } else {
                assert(src[src.len() - 1] == k);
            }
        }
    }
}

/// Placing keys where there is room for all of them loses none: every used
/// key of `src` ends up in the result.
pub proof fn lemma_append_keys_contains(src: Seq<Pubkey>, dst: Seq<Pubkey>)
    requires
        count_set(dst) + count_set(src) <= dst.len(),
    ensures
        forall|i: int| 0 <= i < src.len() && !(#[trigger] src[i]).is_default()
            ==> append_keys(src, dst).contains(src[i]),
    decreases src.len(),
{
    if src.len() > 0 {
        let t = src.drop_last();
        let k = src.last();
        lemma_append_keys_contains(t, dst);
        lemma_append_keys(t, dst);
        let d = append_keys(t, dst);
        let r = append_keys(src, dst);
        if !k.is_default() {
            lemma_count_full(d);
            lemma_place_key(d, k);
            lemma_place_key_contains(d, k);
        }
        assert forall|i: int| 0 <= i < src.len() && !(#[trigger] src[i]).is_default()
            implies r.contains(src[i]) by {
            if i < t.len() {
                assert(t[i] == src[i]);
                assert(d.contains(src[i]));
                let j = choose|j: int| 0 <= j < d.len() && d[j] == src[i];
                if !k.is_default() {
                    assert(r[j] == d[j]);
                }
            }
        }
    }
}

} // verus!
