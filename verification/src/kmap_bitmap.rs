use vstd::prelude::*;

verus! {

/// Number of 32-bit words in the temporary-mapping bitmap.
pub const KMAP_WORDS: usize = 32;

/// Bits per bitmap word.
pub const BITS_PER_WORD: usize = 32;

/// Whether slot `idx` of the bitmap is taken.
pub open spec fn slot_taken(bm: Seq<u32>, idx: int) -> bool {
    (bm[idx / 32] >> ((idx % 32) as u32)) & 1 == 1
}

/// Find the first free slot of the temporary-mapping bitmap, scanning
/// word by word and bit by bit, or report that every slot is taken.
pub fn find_free_space(bm: &[u32; KMAP_WORDS]) -> (r: Option<usize>)
    ensures
        match r {
            Some(idx) => idx < KMAP_WORDS * BITS_PER_WORD && !slot_taken(bm@, idx as int)
                && forall|j: int| 0 <= j < idx ==> slot_taken(bm@, j),
            None => forall|j: int| 0 <= j < KMAP_WORDS * BITS_PER_WORD ==> slot_taken(bm@, j),
        },
{
    let mut i: usize = 0;
    while i < KMAP_WORDS
        invariant
            i <= KMAP_WORDS,
            forall|j: int| 0 <= j < i * BITS_PER_WORD ==> slot_taken(bm@, j),
        decreases KMAP_WORDS - i,
    {
        let x = bm[i];
        if x != u32::MAX {
            let mut bit: usize = 0;
            while bit < BITS_PER_WORD && (x >> (bit as u32)) & 1 == 1
                invariant
                    bit <= BITS_PER_WORD,
                    x == bm@[i as int],
                    forall|b: int| 0 <= b < bit ==> #[trigger] ((x >> (b as u32)) & 1) == 1,
                decreases BITS_PER_WORD - bit,
            {
                bit += 1;
            }
            if bit < BITS_PER_WORD {
                let idx = i * BITS_PER_WORD + bit;
                proof {
                    assert(idx as int / 32 == i && idx as int % 32 == bit) by (nonlinear_arith)
                        requires
                            idx == i * 32 + bit,
                            0 <= bit < 32,
                            0 <= i,
                    ;
                    assert forall|j: int| 0 <= j < idx implies slot_taken(bm@, j) by {
                        if j >= i * BITS_PER_WORD {
                            let b = j - i * BITS_PER_WORD;
                            assert(j / 32 == i && j % 32 == b) by (nonlinear_arith)
                                requires
                                    j == i * 32 + b,
                                    0 <= b < 32,
                                    0 <= i,
                            ;
                            assert((x >> (b as u32)) & 1 == 1);
                        }
                    }
                }
                return Some(idx);
            }
            proof {
                assert forall|j: int|
                    i * BITS_PER_WORD <= j < (i + 1) * BITS_PER_WORD implies slot_taken(
                    bm@,
                    j,
                ) by {
                    let b = j - i * BITS_PER_WORD;
                    assert(j / 32 == i && j % 32 == b) by (nonlinear_arith)
                        requires
                            j == i * 32 + b,
                            0 <= b < 32,
                            0 <= i,
                    ;
                    assert((x >> (b as u32)) & 1 == 1);
                }
            }
        } else {
            proof {
                assert forall|j: int|
                    i * BITS_PER_WORD <= j < (i + 1) * BITS_PER_WORD implies slot_taken(
                    bm@,
                    j,
                ) by {
                    let b = j - i * BITS_PER_WORD;
                    assert(j / 32 == i && j % 32 == b) by (nonlinear_arith)
                        requires
                            j == i * 32 + b,
                            0 <= b < 32,
                            0 <= i,
                    ;
                    let bu = b as u32;
                    assert((0xffffffffu32 >> bu) & 1 == 1) by (bit_vector)
                        requires
                            bu < 32,
                    ;
                }
            }
        }
        i += 1;
    }
    None
}

/// Flip one slot of the bitmap: a free slot becomes taken and a taken one
/// becomes free, and no other slot changes.
pub fn toggle_bitmap(bm: &mut [u32; KMAP_WORDS], idx: usize)
    requires
        idx < KMAP_WORDS * BITS_PER_WORD,
    ensures
        slot_taken(final(bm)@, idx as int) == !slot_taken(old(bm)@, idx as int),
        forall|j: int|
            0 <= j < KMAP_WORDS * BITS_PER_WORD && j != idx ==> slot_taken(final(bm)@, j)
                == slot_taken(old(bm)@, j),
{
    let idx_h = idx / 32;
    let idx_l = idx % 32;
    let w = bm[idx_h];
    let updated = w ^ (1u32 << (idx_l as u32));
    bm[idx_h] = updated;
    proof {
        let l = (idx % 32) as u32;
        assert((((w ^ (1u32 << l)) >> l) & 1 == 1) == !((w >> l) & 1 == 1)) by (bit_vector)
            requires
                l < 32,
        ;
        assert forall|j: int|
            0 <= j < KMAP_WORDS * BITS_PER_WORD && j != idx implies slot_taken(final(bm)@, j)
            == slot_taken(old(bm)@, j) by {
            if j / 32 == idx as int / 32 {
                let bj = (j % 32) as u32;
                assert(bj != l) by (nonlinear_arith)
                    requires
                        j != idx,
                        0 <= j,
                        0 <= idx,
                        j / 32 == idx as int / 32,
                        bj == (j % 32) as u32,
                        l == (idx % 32) as u32,
                ;
                assert((((w ^ (1u32 << l)) >> bj) & 1) == ((w >> bj) & 1)) by (bit_vector)
                    requires
                        l < 32,
                        bj < 32,
                        bj != l,
                ;
            }
        }
    }
}

} // verus!
