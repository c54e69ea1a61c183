//! Inventory: a mapping from SKU to available quantity, mutated only by
//! reservation, with saturating (never negative) stock decrements.

use crate::format::{dec_digits, push_decimal};
use crate::logger::{log_line, Logger};
use vstd::prelude::*;

verus! {

/// Saturating subtraction over integers: `max(stock - quantity, 0)`.
pub open spec fn sat_sub(stock: int, quantity: int) -> int {
    if stock - quantity >= 0 {
        stock - quantity
    } else {
        0
    }
}

/// The debug line a reservation emits:
/// `Reserved {quantity} of {sku}, remaining: {remaining}`.
pub open spec fn reserve_message(quantity: nat, sku: Seq<char>, remaining: nat) -> Seq<char> {
    "Reserved "@ + dec_digits(quantity) + " of "@ + sku + ", remaining: "@ + dec_digits(remaining)
}

/// A reservation never leaves negative stock; reserving more than the
/// available stock clamps it to exactly zero.
pub proof fn lemma_reserve_never_negative(stock: int, quantity: int)
    requires
        0 <= stock,
        0 <= quantity,
    ensures
        sat_sub(stock, quantity) >= 0,
        quantity > stock ==> sat_sub(stock, quantity) == 0,
{
}

/// Successive reservations accumulate: reserving `q1` and then `q2` leaves
/// the same stock as reserving `q1 + q2` at once.
pub proof fn lemma_reservations_accumulate(stock: int, q1: int, q2: int)
    requires
        0 <= q1,
        0 <= q2,
    ensures
        sat_sub(sat_sub(stock, q1), q2) == sat_sub(stock, q1 + q2),
{
}

/// Owns the SKU-to-quantity mapping. An absent SKU has stock zero.
pub struct InventoryService {
    entries: Vec<(String, u32)>,
}

impl InventoryService {
    /// Well-formed: each SKU appears at most once.
    pub closed spec fn wf(self) -> bool {
        forall|i: int, j: int|
            0 <= i < j < self.entries@.len() ==> (#[trigger] self.entries@[i]).0@ != (
            #[trigger] self.entries@[j]).0@
    }

    /// Whether some entry carries this SKU.
    pub closed spec fn has_sku(self, sku: Seq<char>) -> bool {
        exists|i: int| 0 <= i < self.entries@.len() && (#[trigger] self.entries@[i]).0@ == sku
    }

    /// The available stock of a SKU; an unknown SKU has stock zero.
    pub closed spec fn spec_stock(self, sku: Seq<char>) -> u32 {
        if self.has_sku(sku) {
            self.entries@[choose|i: int|
                0 <= i < self.entries@.len() && (#[trigger] self.entries@[i]).0@ == sku].1
        } else {
            0
        }
    }

    /// The whole stock as a total map from SKU to available quantity.
    pub open spec fn stock_map(self) -> Map<Seq<char>, u32> {
        Map::total(|sku: Seq<char>| self.spec_stock(sku))
    }

    /// In a well-formed inventory, the entry at index `k` gives the stock of
    /// its own SKU.
    proof fn lemma_stock_at(self, k: int)
        requires
            self.wf(),
            0 <= k < self.entries@.len(),
        ensures
            self.spec_stock(self.entries@[k].0@) == self.entries@[k].1,
    {
        let sku = self.entries@[k].0@;
        assert(self.has_sku(sku));
        let w = choose|i: int|
            0 <= i < self.entries@.len() && (#[trigger] self.entries@[i]).0@ == sku;
        if w < k {
            assert(self.entries@[w].0@ != self.entries@[k].0@);
        } else if k < w {
            assert(self.entries@[k].0@ != self.entries@[w].0@);
        }
    }

    /// An inventory seeded with the sample stock levels.
    pub fn new() -> (r: InventoryService)
        ensures
            r.wf(),
            r.spec_stock("SKU-100"@) == 10,
            r.spec_stock("SKU-101"@) == 5,
            r.spec_stock("SKU-102"@) == 2,
            forall|sku: Seq<char>|
                sku != "SKU-100"@ && sku != "SKU-101"@ && sku != "SKU-102"@
                    ==> r.spec_stock(sku) == 0,
    {
        proof {
            reveal_strlit("SKU-100");
            reveal_strlit("SKU-101");
            reveal_strlit("SKU-102");
        }
        let mut entries: Vec<(String, u32)> = Vec::new();
        entries.push((String::from_str("SKU-100"), 10));
        entries.push((String::from_str("SKU-101"), 5));
        entries.push((String::from_str("SKU-102"), 2));
        let r = InventoryService { entries };
        proof {
            assert(r.entries@[0].0@ == "SKU-100"@);
            assert(r.entries@[1].0@ == "SKU-101"@);
            assert(r.entries@[2].0@ == "SKU-102"@);
            assert("SKU-100"@[6] != "SKU-101"@[6]);
            assert("SKU-100"@[6] != "SKU-102"@[6]);
            assert("SKU-101"@[6] != "SKU-102"@[6]);
            assert(r.wf());
            r.lemma_stock_at(0);
            r.lemma_stock_at(1);
            r.lemma_stock_at(2);
            assert forall|sku: Seq<char>|
                sku != "SKU-100"@ && sku != "SKU-101"@ && sku != "SKU-102"@ implies r.spec_stock(
                sku,
            ) == 0 by {
                assert(!r.has_sku(sku));
            }
        }
        r
    }

    /// Returns the mapped quantity, or zero for an unknown SKU. Never fails.
    pub fn get_stock(&self, sku: &String) -> (r: u32)
        requires
            self.wf(),
        ensures
            r == self.spec_stock(sku@),
    {
        let n = self.entries.len();
        let mut i: usize = 0;
        while i < n
            invariant
                n == self.entries@.len(),
                0 <= i <= n,
                self.wf(),
                forall|j: int| 0 <= j < i ==> (#[trigger] self.entries@[j]).0@ != sku@,
            decreases n - i,
        {
            if self.entries[i].0 == *sku {
                proof {
                    self.lemma_stock_at(i as int);
                }
                return self.entries[i].1;
            }
            i += 1;
        }
        proof {
            assert(!self.has_sku(sku@));
        }
        0
    }

    /// Reads the current stock, sets the new stock to `max(current - quantity, 0)`
    /// (over-reservation clamps to zero rather than failing), and emits a debug
    /// line with the reserved amount and remaining stock. Always succeeds; the
    /// stock of every other SKU is untouched.
    pub fn reserve(&mut self, sku: &String, quantity: u32, logger: &mut Logger)
        requires
            old(self).wf(),
        ensures
            final(self).wf(),
            final(self).spec_stock(sku@) as int == sat_sub(
                old(self).spec_stock(sku@) as int,
                quantity as int,
            ),
            forall|k: Seq<char>| k != sku@ ==> final(self).spec_stock(k) == old(self).spec_stock(k),
            final(logger).lines() == old(logger).lines().push(
                log_line(
                    "DEBUG"@,
                    reserve_message(
                        quantity as nat,
                        sku@,
                        sat_sub(old(self).spec_stock(sku@) as int, quantity as int) as nat,
                    ),
                ),
            ),
    {
        let current = self.get_stock(sku);
        let remaining = if current >= quantity {
            current - quantity
        } else {
            0
        };
        self.store(sku, remaining);
        let mut msg = String::new();
        msg.append("Reserved ");
        push_decimal(&mut msg, quantity as u64);
        msg.append(" of ");
        msg.append(sku.as_str());
        msg.append(", remaining: ");
        push_decimal(&mut msg, remaining as u64);
        proof {
            assert(msg@ =~= reserve_message(quantity as nat, sku@, remaining as nat));
        }
        logger.debug(msg.as_str());
    }

    /// Sets the stock of `sku` to `value`, leaving every other SKU unchanged.
    fn store(&mut self, sku: &String, value: u32)
        requires
            old(self).wf(),
        ensures
            final(self).wf(),
            final(self).spec_stock(sku@) == value,
            forall|k: Seq<char>| k != sku@ ==> final(self).spec_stock(k) == old(self).spec_stock(k),
    {
        let n = self.entries.len();
        let mut i: usize = 0;
        while i < n
            invariant
                n == self.entries@.len(),
                0 <= i <= n,
                self.wf(),
                self == old(self),
                forall|j: int| 0 <= j < i ==> (#[trigger] self.entries@[j]).0@ != sku@,
            decreases n - i,
        {
            if self.entries[i].0 == *sku {
                self.entries[i].1 = value;
                proof {
                    Self::lemma_update_entry(*old(self), *self, i as int, sku@, value);
                }
                return ;
            }
            i += 1;
        }
        self.entries.push((sku.clone(), value));
        proof {
            Self::lemma_push_entry(*old(self), *self, sku@, value);
        }
    }

    /// After overwriting the value at an index whose key is `sku`, the stock
    /// of `sku` is the new value and every other stock is unchanged.
    proof fn lemma_update_entry(pre: Self, post: Self, i: int, sku: Seq<char>, value: u32)
        requires
            pre.wf(),
            0 <= i < pre.entries@.len(),
            pre.entries@[i].0@ == sku,
            post.entries@.len() == pre.entries@.len(),
            forall|j: int|
                0 <= j < pre.entries@.len() && j != i ==> #[trigger] post.entries@[j]
                    == pre.entries@[j],
            post.entries@[i].0 == pre.entries@[i].0,
            post.entries@[i].1 == value,
        ensures
            post.wf(),
            post.spec_stock(sku) == value,
            forall|k: Seq<char>| k != sku ==> post.spec_stock(k) == pre.spec_stock(k),
    {
        assert forall|a: int, b: int| 0 <= a < b < post.entries@.len() implies (
        #[trigger] post.entries@[a]).0@ != (#[trigger] post.entries@[b]).0@ by {
            assert(pre.entries@[a].0@ != pre.entries@[b].0@);
        }
        assert(post.entries@[i].0@ == sku);
        post.lemma_stock_at(i);
        assert forall|k: Seq<char>| k != sku implies post.spec_stock(k) == pre.spec_stock(k) by {
            Self::lemma_same_keys_same_stock(pre, post, k);
        }
    }

    /// After pushing an entry with a key absent before, the stock of that key
    /// is the pushed value and every other stock is unchanged.
    proof fn lemma_push_entry(pre: Self, post: Self, sku: Seq<char>, value: u32)
        requires
            pre.wf(),
            forall|j: int| 0 <= j < pre.entries@.len() ==> (#[trigger] pre.entries@[j]).0@ != sku,
            post.entries@.len() == pre.entries@.len() + 1,
            forall|j: int|
                0 <= j < pre.entries@.len() ==> #[trigger] post.entries@[j] == pre.entries@[j],
            post.entries@[pre.entries@.len() as int].0@ == sku,
            post.entries@[pre.entries@.len() as int].1 == value,
        ensures
            post.wf(),
            post.spec_stock(sku) == value,
            forall|k: Seq<char>| k != sku ==> post.spec_stock(k) == pre.spec_stock(k),
    {
        let m = pre.entries@.len() as int;
        assert forall|a: int, b: int| 0 <= a < b < post.entries@.len() implies (
        #[trigger] post.entries@[a]).0@ != (#[trigger] post.entries@[b]).0@ by {
            if b < m {
                assert(pre.entries@[a].0@ != pre.entries@[b].0@);
            } else {
                assert(post.entries@[b].0@ == sku);
                assert(pre.entries@[a].0@ != sku);
            }
        }
        assert(post.entries@[m].0@ == sku);
        post.lemma_stock_at(m);
        assert forall|k: Seq<char>| k != sku implies post.spec_stock(k) == pre.spec_stock(k) by {
            Self::lemma_same_keys_same_stock(pre, post, k);
        }
    }

    /// Two well-formed inventories whose entries agree on every index holding
    /// key `k` (and on which indices those are) give `k` the same stock.
    proof fn lemma_same_keys_same_stock(pre: Self, post: Self, k: Seq<char>)
        requires
            pre.wf(),
            post.wf(),
            forall|j: int|
                0 <= j < pre.entries@.len() && (#[trigger] pre.entries@[j]).0@ == k ==> 0 <= j
                    < post.entries@.len() && post.entries@[j] == pre.entries@[j],
            forall|j: int|
                0 <= j < post.entries@.len() && (#[trigger] post.entries@[j]).0@ == k ==> 0 <= j
                    < pre.entries@.len() && post.entries@[j] == pre.entries@[j],
        ensures
            post.spec_stock(k) == pre.spec_stock(k),
    {
        if pre.has_sku(k) {
            let w = choose|i: int|
                0 <= i < pre.entries@.len() && (#[trigger] pre.entries@[i]).0@ == k;
            assert(post.entries@[w].0@ == k);
            assert(post.has_sku(k));
            pre.lemma_stock_at(w);
            let w2 = choose|i: int|
                0 <= i < post.entries@.len() && (#[trigger] post.entries@[i]).0@ == k;
            post.lemma_stock_at(w2);
            assert(pre.entries@[w2].0@ == k);
            if w < w2 {
                assert(pre.entries@[w].0@ != pre.entries@[w2].0@);
            } else if w2 < w {
                assert(pre.entries@[w2].0@ != pre.entries@[w].0@);
            }
        } else {
            if post.has_sku(k) {
                let w2 = choose|i: int|
                    0 <= i < post.entries@.len() && (#[trigger] post.entries@[i]).0@ == k;
                assert(pre.entries@[w2].0@ == k);
                assert(pre.has_sku(k));
            }
        }
    }
}

} // verus!
