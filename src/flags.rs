use vstd::prelude::*;

verus! {

/// Flag bit of a record that is not the primary alignment of its read.
pub const SECONDARY: u16 = 256;

/// Flag bit of a record that failed quality control.
pub const QC_FAIL: u16 = 512;

/// Flag bit of a PCR or optical duplicate.
pub const DUPLICATE: u16 = 1024;

/// Flag bit of a record without a mapping.
pub const UNMAPPED: u16 = 4;

/// A record counts as evidence iff none of secondary, duplicate, unmapped and qc-fail is set.
pub open spec fn valid_flags(flags: u16) -> bool {
    flags & SECONDARY == 0 && flags & DUPLICATE == 0 && flags & UNMAPPED == 0 && flags
        & QC_FAIL == 0
}

/// The positions, in order, of the records with valid flags.
pub open spec fn valid_indices(flags: Seq<u16>) -> Seq<int>
    decreases flags.len(),
{
    if flags.len() == 0 {
        Seq::empty()
    } else {
        let earlier = valid_indices(flags.drop_last());
        if valid_flags(flags.last()) {
            earlier.push(flags.len() - 1)
        } else {
            earlier
        }
    }
}

/// Whether a record with the flag word `flags` counts as evidence.
pub fn is_valid_record(flags: u16) -> (r: bool)
    ensures
        r == valid_flags(flags),
{
    !(flags & SECONDARY != 0 || flags & DUPLICATE != 0 || flags & UNMAPPED != 0 || flags
        & QC_FAIL != 0)
}

/// The positions, in store order, of the records whose flag words are valid.
pub fn valid_positions(flags: &Vec<u16>) -> (r: Vec<usize>)
    ensures
        r@.map_values(|k: usize| k as int) == valid_indices(flags@),
{
    let mut r: Vec<usize> = Vec::new();
    let mut i: usize = 0;
    while i < flags.len()
        invariant
            i <= flags@.len(),
            r@.map_values(|k: usize| k as int) == valid_indices(flags@.subrange(0, i as int)),
        decreases flags@.len() - i,
    {
        let ghost before = flags@.subrange(0, i as int);
        let ghost after = flags@.subrange(0, i + 1);
        assert(after.drop_last() =~= before);
        if is_valid_record(flags[i]) {
            r.push(i);
            assert(r@.map_values(|k: usize| k as int) =~= valid_indices(after));
        } else {
            assert(r@.map_values(|k: usize| k as int) =~= valid_indices(after));
        }
        i += 1;
    }
    assert(flags@.subrange(0, flags@.len() as int) =~= flags@);
    r
}

/// The filter keeps exactly the records whose flags are valid, each once, in store order.
pub proof fn lemma_valid_filter(flags: Seq<u16>)
    ensures
        forall|i: int|
            0 <= i < flags.len() ==> (valid_indices(flags).contains(i) <==> valid_flags(
                flags[i],
            )),
        forall|j: int, k: int|
            0 <= j < k < valid_indices(flags).len() ==> valid_indices(flags)[j] < valid_indices(
                flags,
            )[k],
        forall|j: int|
            0 <= j < valid_indices(flags).len() ==> valid_indices(flags)[j] < flags.len(),
    decreases flags.len(),
{
    if flags.len() > 0 {
        let rest = flags.drop_last();
        lemma_valid_filter(rest);
        let earlier = valid_indices(rest);
        let n = flags.len() - 1;
        assert forall|i: int|
            0 <= i < flags.len() implies (valid_indices(flags).contains(i)
                <==> valid_flags(flags[i])) by {
            if i < flags.len() - 1 {
                assert(rest[i] == flags[i]);
                if valid_flags(flags.last()) {
                    if valid_indices(flags).contains(i) {
                        let w = choose|w: int|
                            0 <= w < valid_indices(flags).len() && valid_indices(flags)[w]
                                == i;
                        if w < earlier.len() {
                            assert(earlier[w] == i);
                        }
                    }
                    if earlier.contains(i) {
                        let w = choose|w: int| 0 <= w < earlier.len() && earlier[w] == i;
                        assert(valid_indices(flags)[w] == i);
                    }
                }
            } else {
                if !valid_flags(flags.last()) {
                    if earlier.contains(n) {
                        let w = choose|w: int| 0 <= w < earlier.len() && earlier[w] == n;
                    }
                } else {
                    assert(valid_indices(flags)[earlier.len() as int] == n);
                }
            }
        }
    }
}

} // verus!
