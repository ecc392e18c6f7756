//! A coffee-bean inventory: a counted stock that withdrawals may only
//! decrease, and never below zero — a withdrawal larger than the stock is
//! refused and changes nothing.

use vstd::prelude::*;

verus! {

/// The stock a fresh inventory starts with.
pub const INITIAL_BEANS: u32 = 1000;

/// A bean inventory. The count never goes below zero: an oversized
/// withdrawal leaves it untouched.
pub struct CoffeeInventory {
    pub beans_count: u32,
}

impl CoffeeInventory {
    pub fn new() -> (inv: CoffeeInventory)
        ensures
            inv.beans_count == INITIAL_BEANS,
    {
        CoffeeInventory { beans_count: INITIAL_BEANS }
    }

    /// Withdraw `amount` beans. Succeeds exactly when the stock covers the
    /// amount; otherwise the stock is left as it was.
    pub fn use_beans(&mut self, amount: u32)
        ensures
            old(self).beans_count >= amount ==> final(self).beans_count == old(self).beans_count
                - amount,
            old(self).beans_count < amount ==> final(self).beans_count == old(self).beans_count,
    {
        if self.beans_count >= amount {
            self.beans_count = self.beans_count - amount;
        }
    }

    pub fn get_stock(&self) -> (stock: u32)
        ensures
            stock == self.beans_count,
    {
        self.beans_count
    }
}

/// An explicitly constructed inventory context: a fresh, full inventory.
/// A host that wants a single process-wide instance constructs it once and
/// passes it around (or guards it behind its own lock).
pub fn get_inventory() -> (inv: CoffeeInventory)
    ensures
        inv.beans_count == INITIAL_BEANS,
{
    CoffeeInventory::new()
}

} // verus!
