use synft::pubkey::Pubkey;
use synft::state::metadata::{
    pubkey_array_all_empty, pubkey_array_append, pubkey_array_find, pubkey_array_len, pubkey_array_remove,
    CrankMetadata, ParentMetadata,
};

fn key(n: u8) -> Pubkey {
    Pubkey::new_from_array([n; 32])
}

fn zero() -> Pubkey {
    Pubkey::default_key()
}

#[test]
fn default_key_is_all_zero() {
    assert_eq!(Pubkey::default_key().to_bytes(), [0u8; 32]);
    assert!(zero().is_default_key());
    assert!(!key(1).is_default_key());
}

#[test]
fn key_eq_compares_every_byte() {
    let mut b = [7u8; 32];
    b[31] = 8;
    assert!(key(7).key_eq(&key(7)));
    assert!(!key(7).key_eq(&Pubkey::new_from_array(b)));
    assert!(key(7) == key(7));
    assert!(key(7) != key(9));
}

#[test]
fn append_fills_lowest_free_slots_in_order() {
    let src = [key(1), zero(), key(2)];
    let mut dst = [key(9), zero(), zero(), key(8), zero()];
    pubkey_array_append(&src, &mut dst);
    assert_eq!(dst, [key(9), key(1), key(2), key(8), zero()]);
}

#[test]
fn append_drops_keys_without_room() {
    let src = [key(1), key(2), key(3)];
    let mut dst = [zero(), key(9)];
    pubkey_array_append(&src, &mut dst);
    assert_eq!(dst, [key(1), key(9)]);
    assert_eq!(pubkey_array_len(&dst), 2);
}

#[test]
fn append_count_is_capped_by_capacity() {
    let src = [key(1), key(2), zero()];
    let mut dst = [zero(), key(5), zero(), zero()];
    let before = pubkey_array_len(&dst) + pubkey_array_len(&src);
    pubkey_array_append(&src, &mut dst);
    assert_eq!(pubkey_array_len(&dst), before.min(4));
    assert_eq!(dst[1], key(5));
}

#[test]
fn all_empty_agrees_with_len() {
    let empty = [zero(), zero(), zero()];
    let one = [zero(), key(4), zero()];
    assert!(pubkey_array_all_empty(&empty));
    assert_eq!(pubkey_array_len(&empty), 0);
    assert!(!pubkey_array_all_empty(&one));
    assert_eq!(pubkey_array_len(&one), 1);
    assert!(pubkey_array_all_empty(&[]));
}

#[test]
fn find_reports_first_occurrence_or_max() {
    let arr = [key(3), key(5), key(5), zero()];
    assert_eq!(pubkey_array_find(&arr, key(5)), 1);
    assert_eq!(pubkey_array_find(&arr, key(3)), 0);
    assert_eq!(pubkey_array_find(&arr, zero()), 3);
    assert_eq!(pubkey_array_find(&arr, key(6)), u32::MAX);
}

#[test]
fn remove_clears_every_occurrence() {
    let mut arr = [key(5), key(2), key(5)];
    pubkey_array_remove(&mut arr, key(5));
    assert_eq!(arr, [zero(), key(2), zero()]);
    assert_eq!(pubkey_array_find(&arr, key(5)), u32::MAX);
    assert_eq!(pubkey_array_len(&arr), 1);
}

#[test]
fn has_children_of_records() {
    let parent = ParentMetadata {
        bump: 1,
        is_burnt: false,
        height: 1,
        self_mint: key(1),
        immediate_children: [zero(), zero(), key(4)],
    };
    assert!(parent.has_children());
    let leaf = ParentMetadata { immediate_children: [zero(); 3], ..parent };
    assert!(!leaf.has_children());
    let crank = CrankMetadata {
        tranfered_nft: key(1),
        old_children_root_meta_data: key(2),
        closed_children_meta_data: key(3),
        not_processed_children: [zero(); 8],
    };
    assert!(!crank.has_children());
    let mut busy = crank;
    busy.not_processed_children[7] = key(6);
    assert!(busy.has_children());
}
