use kvfs::{find_free_space, toggle_bitmap, BITS_PER_WORD, KMAP_WORDS};

#[test]
fn empty_bitmap_hands_out_slot_zero() {
    let bm = [0u32; KMAP_WORDS];
    assert_eq!(find_free_space(&bm), Some(0));
}

#[test]
fn first_free_slot_skips_full_words() {
    let mut bm = [0u32; KMAP_WORDS];
    bm[0] = u32::MAX;
    bm[1] = 0b111;
    assert_eq!(find_free_space(&bm), Some(BITS_PER_WORD + 3));
}

#[test]
fn full_bitmap_reports_exhaustion() {
    let bm = [u32::MAX; KMAP_WORDS];
    assert_eq!(find_free_space(&bm), None);
}

#[test]
fn toggle_claims_and_releases_one_slot() {
    let mut bm = [0u32; KMAP_WORDS];
    let idx = find_free_space(&bm).unwrap();
    toggle_bitmap(&mut bm, idx);
    assert_eq!(find_free_space(&bm), Some(1));
    toggle_bitmap(&mut bm, idx);
    assert_eq!(find_free_space(&bm), Some(0));
}

#[test]
fn repeated_claim_release_is_stable() {
    let mut bm = [0u32; KMAP_WORDS];
    let mut claimed = Vec::new();
    for _ in 0..40 {
        let idx = find_free_space(&bm).unwrap();
        toggle_bitmap(&mut bm, idx);
        claimed.push(idx);
    }
    assert_eq!(claimed, (0..40).collect::<Vec<_>>());
    for idx in claimed.drain(..) {
        toggle_bitmap(&mut bm, idx);
    }
    assert_eq!(find_free_space(&bm), Some(0));
}
