use vstd::prelude::*;

verus! {

/// A row of the inventory table: the stock on hand of one product.
#[derive(Clone, Copy, Debug, PartialEq, Eq, Structural)]
pub struct Inventory {
    pub inventory_id: i32,
    pub product_id: i32,
    pub quantity: i32,
}

/// The fields of an inventory row to insert; the store assigns its id.
#[derive(Clone, Copy, Debug, PartialEq, Eq, Structural)]
pub struct NewInventory {
    pub product_id: i32,
    pub quantity: i32,
}

/// A partial update of an inventory row: only the fields present are applied.
#[derive(Clone, Copy, Debug, PartialEq, Eq, Structural)]
pub struct InventoryForm {
    pub product_id: Option<i32>,
    pub quantity: Option<i32>,
}

impl InventoryForm {
    /// The row `inv` with each field present in this form replaced.
    pub open spec fn applied(self, inv: Inventory) -> Inventory {
        Inventory {
            inventory_id: inv.inventory_id,
            product_id: match self.product_id {
                Some(p) => p,
                None => inv.product_id,
            },
            quantity: match self.quantity {
                Some(q) => q,
                None => inv.quantity,
            },
        }
    }

    /// Applies this form to the row `inv`.
    pub fn apply_to(&self, inv: Inventory) -> (r: Inventory)
        ensures
            r == self.applied(inv),
    {
        Inventory {
            inventory_id: inv.inventory_id,
            product_id: match self.product_id {
                Some(p) => p,
                None => inv.product_id,
            },
            quantity: match self.quantity {
                Some(q) => q,
                None => inv.quantity,
            },
        }
    }
}

} // verus!
