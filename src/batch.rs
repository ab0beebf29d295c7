//! Batches of discovered devices, kept in ascending address order.
use vstd::prelude::*;
use crate::address::{address_le, lemma_text_le_total, lemma_text_le_trans, text_le};
use crate::models::BleDevice;

verus! {

/// Each device's address orders before or equal to every later one's.
pub open spec fn sorted_by_address(s: Seq<BleDevice>) -> bool {
    forall|i: int, j: int| 0 <= i < j < s.len() ==> text_le(s[i].address@, s[j].address@)
}

/// Inserts `dev` after every device whose address orders before or equal to
/// its own, so that the batch stays sorted and equal addresses keep their
/// arrival order.
pub fn insert_sorted(batch: &mut Vec<BleDevice>, dev: BleDevice)
    requires
        sorted_by_address(old(batch)@),
    ensures
        sorted_by_address(final(batch)@),
        final(batch)@.to_multiset() == old(batch)@.to_multiset().insert(dev),
{
    let mut j: usize = 0;
    while j < batch.len() && address_le(&batch[j].address, &dev.address)
        invariant
            j <= batch@.len(),
            batch@ == old(batch)@,
            sorted_by_address(batch@),
            forall|i: int| 0 <= i < j ==> text_le(#[trigger] batch@[i].address@, dev.address@),
        decreases batch@.len() - j,
    {
        j = j + 1;
    }
    let ghost before = batch@;
    let ghost key = dev.address@;
    proof {
        if j < before.len() {
            lemma_text_le_total(before[j as int].address@, key);
            assert forall|m: int| j <= m < before.len() implies text_le(
                key,
                #[trigger] before[m].address@,
            ) by {
                if m > j {
                    lemma_text_le_trans(key, before[j as int].address@, before[m].address@);
                }
            }
        }
    }
    batch.insert(j, dev);
    proof {
        let s = batch@;
        assert(s =~= before.insert(j as int, dev));
        before.insert_ensures(j as int, dev);
        assert forall|a: int, b: int| 0 <= a < b < s.len() implies text_le(
            s[a].address@,
            s[b].address@,
        ) by {
            if b < j {
            } else if b == j {
            } else if a < j {
                lemma_text_le_trans(s[a].address@, key, s[b].address@);
                assert(s[b] == before[b - 1]);
            } else if a == j {
                assert(s[b] == before[b - 1]);
            } else {
                assert(s[a] == before[a - 1]);
                assert(s[b] == before[b - 1]);
            }
        }
        let pre = before.subrange(0, j as int);
        let post = before.subrange(j as int, before.len() as int);
        assert(before =~= pre + post);
        assert(s =~= pre.push(dev) + post);
        vstd::seq_lib::lemma_multiset_commutative(pre.push(dev), post);
        vstd::seq_lib::lemma_multiset_commutative(pre, post);
        pre.to_multiset_ensures();
        assert(s.to_multiset() =~= before.to_multiset().insert(dev));
    }
}

} // verus!
