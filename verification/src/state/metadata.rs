use vstd::prelude::*;
use crate::pubkey::Pubkey;
use crate::state::keys::{all_unset, has_unset, place_key, append_keys, count_set, find_key, is_first_index, is_first_unset, lemma_count_prefix_le, lemma_find_key, lemma_first_unset, remove_key};

verus! {

/// Deepest level at which an NFT may still receive children.
pub const TREE_LEVEL_HEIGHT_LIMIT: u8 = 3;

/// Binds a child asset to its parent NFT; `parent` and `child` are mints,
/// `root` is the address of the root's binding record.
#[derive(Clone, Copy, Debug, PartialEq, Eq)]
pub struct ChildrenMetadataV2 {
    pub child: Pubkey,
    pub parent: Pubkey,
    pub root: Pubkey,
    pub is_mutable: bool,
    pub is_burnt: bool,
    pub is_mutated: bool,
    pub child_type: ChildType,
    pub bump: u8,
}

/// The first-generation binding record, one per parent.
#[derive(Clone, Copy, Debug, PartialEq, Eq)]
pub struct ChildrenMetadata {
    pub reversible: bool,
    pub bump: u8,
    pub child: Pubkey,
    pub child_type: ChildType,
}

/// Kind of asset bound to a parent.
#[derive(Clone, Copy, Debug, PartialEq, Eq, Structural)]
pub enum ChildType {
    SOL,
    SPL,
    NFT,
}

/// Work list of a transfer crank: the children still to be re-rooted.
#[derive(Clone, Copy, Debug, PartialEq, Eq)]
pub struct CrankMetadata {
    pub tranfered_nft: Pubkey,
    pub old_children_root_meta_data: Pubkey,
    pub closed_children_meta_data: Pubkey,
    pub not_processed_children: [Pubkey; 8],
}

impl CrankMetadata {
    /// Some child is still waiting to be processed.
    pub fn has_children(&self) -> (r: bool)
        ensures
            r == !all_unset(self.not_processed_children@),
    {
        !pubkey_array_all_empty(&self.not_processed_children)
    }
}

/// Per-NFT record: its height in the tree and its immediate children (mints).
#[derive(Clone, Copy, Debug, PartialEq, Eq)]
pub struct ParentMetadata {
    pub bump: u8,
    pub is_burnt: bool,
    pub height: u8,
    pub self_mint: Pubkey,
    pub immediate_children: [Pubkey; 3],
}

impl ParentMetadata {
    /// The NFT has at least one immediate child.
    pub fn has_children(&self) -> (r: bool)
        ensures
            r == !all_unset(self.immediate_children@),
    {
        !pubkey_array_all_empty(&self.immediate_children)
    }
}

/// Holds the SOL injected into an NFT.
#[derive(Clone, Copy, Debug, PartialEq, Eq)]
pub struct SolAccount {
    pub bump: u8,
    pub reserve_buffer: [Pubkey; 12],
}

/// Progress of re-rooting one new root: how many of its branches are done.
#[derive(Clone, Copy, Debug, PartialEq, Eq)]
pub struct NewRootInfo {
    pub branch_finished: u32,
    pub root: Pubkey,
}

/// Marker record of a branch being re-rooted.
#[derive(Clone, Copy, Debug, PartialEq, Eq)]
pub struct BranchInfo {}

/// Owner of a root NFT at the moment it was burnt.
#[derive(Clone, Copy, Debug, PartialEq, Eq)]
pub struct RootOwner {
    pub owner: Pubkey,
}

/// Errors of the tree instructions.
#[derive(Clone, Copy, Debug, PartialEq, Eq, Structural)]
pub enum ErrorCode {
    InvalidMetadataBump,
    InvalidAuthority,
    InvalidExtractAttempt,
    InvalidBurnType,
    InvalidTransferCrankProcess,
    InvalidTransferCrankEnd,
    InvalidTransferCrank,
    /// Every child slot of the parent is taken.
    ImmediateChildrenFull,
}

/// Places every used key of `src`, in order, into the lowest unused slot of
/// `dst`; a key for which no slot is left is dropped.
pub fn pubkey_array_append(src: &[Pubkey], dst: &mut [Pubkey])
    ensures
        final(dst)@ == append_keys(src@, old(dst)@),
{
    let ghost dst0 = old(dst)@;
    let mut i: usize = 0;
    while i < src.len()
        invariant
            i <= src@.len(),
            dst@ == append_keys(src@.take(i as int), dst0),
        decreases src@.len() - i,
    {
        let ghost before = dst@;
        assert(src@.take(i + 1).drop_last() =~= src@.take(i as int));
        if !src[i].is_default_key() {
            let mut j: usize = 0;
            while j < dst.len() && !dst[j].is_default_key()
                invariant
                    i < src@.len(),
                    j <= dst@.len(),
                    dst@ == before,
                    forall|k: int| 0 <= k < j ==> !(#[trigger] dst@[k].is_default()),
                decreases dst@.len() - j,
            {
                j = j + 1;
            }
            if j < dst.len() {
                proof {
                    assert(is_first_unset(before, j as int));
                    lemma_first_unset(before);
                }
                dst[j] = src[i];
            } else {
                assert(!has_unset(before));
            }
        }
        i = i + 1;
    }
    assert(src@.take(src@.len() as int) =~= src@);
}

/// Every slot is unused.
pub fn pubkey_array_all_empty(arr: &[Pubkey]) -> (r: bool)
    ensures
        r == all_unset(arr@),
{
    let mut i: usize = 0;
    while i < arr.len()
        invariant
            i <= arr@.len(),
            forall|k: int| 0 <= k < i ==> #[trigger] arr@[k].is_default(),
        decreases arr@.len() - i,
    {
        if !arr[i].is_default_key() {
            return false;
        }
        i = i + 1;
    }
    true
}

/// Every slot is used.
pub(crate) fn pubkey_array_all_full(arr: &[Pubkey]) -> (r: bool)
    ensures
        r == !has_unset(arr@),
{
    let mut i: usize = 0;
    while i < arr.len()
        invariant
            i <= arr@.len(),
            forall|k: int| 0 <= k < i ==> !(#[trigger] arr@[k].is_default()),
        decreases arr@.len() - i,
    {
        if arr[i].is_default_key() {
            assert(arr@[i as int].is_default());
            return false;
        }
        i = i + 1;
    }
    true
}

/// Position of the first slot holding `key`, or `u32::MAX` when there is none.
pub fn pubkey_array_find(arr: &[Pubkey], key: Pubkey) -> (r: u32)
    ensures
        r == find_key(arr@, key),
{
    let mut i: usize = 0;
    while i < arr.len()
        invariant
            i <= arr@.len(),
            forall|k: int| 0 <= k < i ==> #[trigger] arr@[k] != key,
        decreases arr@.len() - i,
    {
        if arr[i].key_eq(&key) {
            proof {
                assert(is_first_index(arr@, key, i as int));
                lemma_find_key(arr@, key);
            }
            return i as u32;
        }
        i = i + 1;
    }
    u32::MAX
}

/// Clears every slot that holds `key`.
pub fn pubkey_array_remove(arr: &mut [Pubkey], key: Pubkey)
    ensures
        final(arr)@ == remove_key(old(arr)@, key),
{
    let ghost a0 = old(arr)@;
    let mut i: usize = 0;
    while i < arr.len()
        invariant
            i <= arr@.len(),
            arr@.len() == a0.len(),
            forall|k: int| 0 <= k < i ==> #[trigger] arr@[k] == remove_key(a0, key)[k],
            forall|k: int| i <= k < arr@.len() ==> #[trigger] arr@[k] == a0[k],
        decreases arr@.len() - i,
    {
        if arr[i].key_eq(&key) {
            arr[i] = Pubkey::default_key();
        }
        i = i + 1;
    }
    assert(arr@ =~= remove_key(a0, key));
}

/// Number of used slots.
pub fn pubkey_array_len(arr: &[Pubkey]) -> (r: u32)
    requires
        count_set(arr@) <= u32::MAX,
    ensures
        r == count_set(arr@),
{
    let mut cnt: u32 = 0;
    let mut i: usize = 0;
    while i < arr.len()
        invariant
            i <= arr@.len(),
            cnt == count_set(arr@.take(i as int)),
            count_set(arr@) <= u32::MAX,
        decreases arr@.len() - i,
    {
        assert(arr@.take(i + 1).drop_last() =~= arr@.take(i as int));
        proof {
            lemma_count_prefix_le(arr@, i as int + 1);
        }
        if !arr[i].is_default_key() {
            cnt = cnt + 1;
        }
        i = i + 1;
    }
    assert(arr@.take(arr@.len() as int) =~= arr@);
    cnt
}

/// Puts `k` into the lowest unused slot; a full array is left as it is.
pub(crate) fn pubkey_array_place(dst: &mut [Pubkey], k: Pubkey)
    ensures
        final(dst)@ == place_key(old(dst)@, k),
{
    let ghost before = dst@;
    let mut j: usize = 0;
    while j < dst.len() && !dst[j].is_default_key()
        invariant
            j <= dst@.len(),
            dst@ == before,
            forall|i: int| 0 <= i < j ==> !(#[trigger] dst@[i].is_default()),
        decreases dst@.len() - j,
    {
        j = j + 1;
    }
    if j < dst.len() {
        proof {
            assert(is_first_unset(before, j as int));
            lemma_first_unset(before);
        }
        dst[j] = k;
    } else {
        assert(!has_unset(before));
    }
}

/// Some slot holds `key`.
pub(crate) fn pubkey_array_contains(arr: &[Pubkey], key: Pubkey) -> (r: bool)
    ensures
        r == arr@.contains(key),
{
    let mut i: usize = 0;
    while i < arr.len()
        invariant
            i <= arr@.len(),
            forall|k: int| 0 <= k < i ==> #[trigger] arr@[k] != key,
        decreases arr@.len() - i,
    {
        if arr[i].key_eq(&key) {
            assert(arr@[i as int] == key);
            return true;
        }
        i = i + 1;
    }
    false
}

} // verus!
