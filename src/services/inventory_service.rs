use vstd::prelude::*;

use crate::models::inventory_model::{Inventory, InventoryForm};
use crate::models::product_model::{Product, ProductForm};
use crate::outcome::{affected_outcome, RepoError};
use crate::services::product_service::product_update_plan;

verus! {

/// The inventory rows that belong to the product with id `pid`, in their order.
pub open spec fn rows_of(rows: Seq<Inventory>, pid: i32) -> Seq<Inventory>
    decreases rows.len(),
{
    if rows.len() == 0 {
        Seq::empty()
    } else {
        let rest = rows_of(rows.drop_last(), pid);
        if rows.last().product_id == pid {
            rest.push(rows.last())
        } else {
            rest
        }
    }
}

/// The inventory entry of the product with id `pid`: none where it owns no
/// row, else its row.
pub open spec fn inventory_entry(rows: Seq<Inventory>, pid: i32) -> Option<Inventory> {
    if rows_of(rows, pid).len() == 0 {
        None
    } else {
        Some(rows_of(rows, pid)[0])
    }
}

/// Every listed product owns at most one inventory row.
pub open spec fn one_row_at_most(products: Seq<Product>, rows: Seq<Inventory>) -> bool {
    forall|i: int|
        0 <= i < products.len() ==> #[trigger] rows_of(rows, products[i].product_id).len() <= 1
}

/// The error for a product that owns more than one inventory row.
pub open spec fn violation(rows: Seq<Inventory>, pid: i32) -> RepoError {
    RepoError::IntegrityViolation { product_id: pid, rows: rows_of(rows, pid).len() as usize }
}

/// The row to write back for an update of an inventory row: the current row
/// with the form applied, or `NotFound` where no row had the key.
pub open spec fn inventory_update_plan(current: Option<Inventory>, form: InventoryForm) -> Result<
    Inventory,
    RepoError,
> {
    match current {
        Some(inv) => Ok(form.applied(inv)),
        None => Err(RepoError::NotFound),
    }
}

/// Decides an update of an inventory row from the row the key matched, if any.
pub fn plan_inventory_update(current: Option<Inventory>, form: InventoryForm) -> (r: Result<
    Inventory,
    RepoError,
>)
    ensures
        r == inventory_update_plan(current, form),
{
    match current {
        Some(inv) => Ok(form.apply_to(inv)),
        None => Err(RepoError::NotFound),
    }
}

/// The ids of the products, in their order: the key set of the one batched
/// query for their inventory rows.
pub fn product_ids(products: &Vec<Product>) -> (r: Vec<i32>)
    ensures
        r@.len() == products@.len(),
        forall|i: int| 0 <= i < products@.len() ==> r@[i] == #[trigger] products@[i].product_id,
{
    let mut ids: Vec<i32> = Vec::new();
    let mut i: usize = 0;
    while i < products.len()
        invariant
            i <= products@.len(),
            ids@.len() == i,
            forall|k: int| 0 <= k < i ==> ids@[k] == #[trigger] products@[k].product_id,
        decreases products@.len() - i,
    {
        ids.push(products[i].product_id);
        i += 1;
    }
    ids
}

/// The inventory entry of one product, from rows that may hold other
/// products' rows too; more than one row of the product is an integrity
/// violation.
pub fn single_inventory(rows: &Vec<Inventory>, product_id: i32) -> (r: Result<
    Option<Inventory>,
    RepoError,
>)
    ensures
        rows_of(rows@, product_id).len() <= 1 ==> r == Ok::<Option<Inventory>, RepoError>(
            inventory_entry(rows@, product_id),
        ),
        rows_of(rows@, product_id).len() > 1 ==> r == Err::<Option<Inventory>, RepoError>(
            violation(rows@, product_id),
        ),
{
    let mut count: usize = 0;
    let mut first: Option<Inventory> = None;
    let mut j: usize = 0;
    while j < rows.len()
        invariant
            j <= rows@.len(),
            count == rows_of(rows@.subrange(0, j as int), product_id).len(),
            count <= j,
            first == inventory_entry(rows@.subrange(0, j as int), product_id),
        decreases rows@.len() - j,
    {
        assert(rows@.subrange(0, j + 1).drop_last() =~= rows@.subrange(0, j as int));
        let row = rows[j];
        if row.product_id == product_id {
            if count == 0 {
                first = Some(row);
            }
            count += 1;
        }
        j += 1;
    }
    assert(rows@.subrange(0, j as int) =~= rows@);
    if count > 1 {
        Err(RepoError::IntegrityViolation { product_id, rows: count })
    } else {
        Ok(first)
    }
}

/// Pairs each product with its inventory entry, in the order of the
/// products, from the inventory rows fetched for them in one batch. Where a
/// product owns more than one row the whole listing fails, naming the first
/// such product.
pub fn compose_inventory(products: Vec<Product>, rows: &Vec<Inventory>) -> (r: Result<
    Vec<(Product, Option<Inventory>)>,
    RepoError,
>)
    ensures
        r is Ok <==> one_row_at_most(products@, rows@),
        r is Ok ==> r->Ok_0@.len() == products@.len() && forall|i: int|
            0 <= i < products@.len() ==> #[trigger] r->Ok_0@[i] == (
                products@[i],
                inventory_entry(rows@, products@[i].product_id),
            ),
        r is Err ==> exists|k: int|
            0 <= k < products@.len() && rows_of(rows@, products@[k].product_id).len() > 1 && (
            forall|i: int|
                0 <= i < k ==> #[trigger] rows_of(rows@, products@[i].product_id).len() <= 1)
                && r->Err_0 == violation(rows@, products@[k].product_id),
{
    let ghost orig = products@;
    let n: usize = products.len();
    let mut slots: Vec<Option<Inventory>> = Vec::new();
    let mut i: usize = 0;
    while i < n
        invariant
            n == products@.len(),
            products@ == orig,
            i <= n,
            slots@.len() == i,
            forall|k: int|
                0 <= k < i ==> #[trigger] rows_of(rows@, orig[k].product_id).len() <= 1
                    && slots@[k] == inventory_entry(rows@, orig[k].product_id),
        decreases n - i,
    {
        match single_inventory(rows, products[i].product_id) {
            Ok(entry) => slots.push(entry),
            Err(e) => {
                assert(rows_of(rows@, orig[i as int].product_id).len() > 1);
                return Err(e);
            },
        }
        i += 1;
    }
    let mut products = products;
    let mut rev: Vec<(Product, Option<Inventory>)> = Vec::new();
    while products.len() > 0
        invariant
            n == orig.len(),
            slots@.len() == n,
            products@.len() <= n,
            products@ == orig.subrange(0, products@.len() as int),
            rev@.len() + products@.len() == n,
            forall|k: int|
                0 <= k < rev@.len() ==> #[trigger] rev@[k] == (orig[n - 1 - k], slots@[n - 1 - k]),
        decreases products@.len(),
    {
        let m: usize = products.len() - 1;
        match products.pop() {
            Some(p) => {
                let s = slots[m];
                rev.push((p, s));
            },
            None => {},
        }
    }
    let ghost rev0 = rev@;
    let mut out: Vec<(Product, Option<Inventory>)> = Vec::new();
    while rev.len() > 0
        invariant
            rev0.len() == n,
            rev@.len() <= n,
            rev@ == rev0.subrange(0, rev@.len() as int),
            out@.len() + rev@.len() == n,
            forall|k: int| 0 <= k < out@.len() ==> #[trigger] out@[k] == rev0[n - 1 - k],
        decreases rev@.len(),
    {
        match rev.pop() {
            Some(pair) => out.push(pair),
            None => {},
        }
    }
    assert forall|k: int| 0 <= k < n implies #[trigger] out@[k] == (
        orig[k],
        inventory_entry(rows@, orig[k].product_id),
    ) by {
        assert(rev0[n - 1 - k] == (orig[n - 1 - (n - 1 - k)], slots@[n - 1 - (n - 1 - k)]));
    }
    Ok(out)
}

/// A row of product `pid` counts once in the rows of that product.
proof fn lemma_row_counted(rows: Seq<Inventory>, pid: i32, a: int)
    requires
        0 <= a < rows.len(),
        rows[a].product_id == pid,
    ensures
        rows_of(rows, pid).len() >= 1,
    decreases rows.len(),
{
    if a < rows.len() - 1 {
        lemma_row_counted(rows.drop_last(), pid, a);
    }
}

/// Two rows of product `pid` count twice in the rows of that product.
proof fn lemma_two_rows_counted(rows: Seq<Inventory>, pid: i32, a: int, b: int)
    requires
        0 <= a < b < rows.len(),
        rows[a].product_id == pid,
        rows[b].product_id == pid,
    ensures
        rows_of(rows, pid).len() >= 2,
    decreases rows.len(),
{
    if b == rows.len() - 1 {
        lemma_row_counted(rows.drop_last(), pid, a);
    } else {
        lemma_two_rows_counted(rows.drop_last(), pid, a, b);
    }
}

/// The rows of product `pid` are rows of the input that carry `pid`.
proof fn lemma_rows_of_belong(rows: Seq<Inventory>, pid: i32)
    ensures
        forall|k: int|
            0 <= k < rows_of(rows, pid).len() ==> #[trigger] rows_of(rows, pid)[k].product_id == pid
                && rows.contains(rows_of(rows, pid)[k]),
    decreases rows.len(),
{
    if rows.len() > 0 {
        let rest = rows.drop_last();
        lemma_rows_of_belong(rest, pid);
        assert forall|k: int| 0 <= k < rows_of(rows, pid).len() implies #[trigger] rows_of(
            rows,
            pid,
        )[k].product_id == pid && rows.contains(rows_of(rows, pid)[k]) by {
            if k < rows_of(rest, pid).len() {
                let x = rows_of(rest, pid)[k];
                assert(rows_of(rows, pid)[k] == x);
                assert(rows_of(rest, pid)[k].product_id == pid);
                assert(rest.contains(x));
                let w = choose|w: int| 0 <= w < rest.len() && rest[w] == x;
                assert(rows[w] == x);
            } else {
                assert(rows_of(rows, pid)[k] == rows.last());
                assert(rows[rows.len() - 1] == rows.last());
            }
        }
    }
}

/// Two inventory rows of one listed product break the one-row rule that a
/// composed listing needs, so the composition fails rather than pick a row;
/// and the entry a listing gives a product is at most one row, a row of that
/// product.
pub proof fn lemma_inventory_cardinality(
    products: Seq<Product>,
    rows: Seq<Inventory>,
    i: int,
    a: int,
    b: int,
)
    requires
        0 <= i < products.len(),
        0 <= a < b < rows.len(),
        rows[a].product_id == products[i].product_id,
        rows[b].product_id == products[i].product_id,
    ensures
        !one_row_at_most(products, rows),
        forall|k: int|
            0 <= k < products.len() ==> match #[trigger] inventory_entry(
                rows,
                products[k].product_id,
            ) {
                Some(x) => x.product_id == products[k].product_id && rows.contains(x),
                None => true,
            },
{
    lemma_two_rows_counted(rows, products[i].product_id, a, b);
    assert forall|k: int| 0 <= k < products.len() implies match #[trigger] inventory_entry(
        rows,
        products[k].product_id,
    ) {
        Some(x) => x.product_id == products[k].product_id && rows.contains(x),
        None => true,
    } by {
        let pid = products[k].product_id;
        lemma_rows_of_belong(rows, pid);
        if rows_of(rows, pid).len() > 0 {
            assert(rows_of(rows, pid)[0].product_id == pid);
        }
    }
}

/// An update or a removal of a key that matches no row is `NotFound`, and
/// yields no row to write, so the table stays as it was.
pub proof fn lemma_missing_key_not_found(product_form: ProductForm, inventory_form: InventoryForm)
    ensures
        product_update_plan(None, product_form) == Err::<Product, RepoError>(RepoError::NotFound),
        inventory_update_plan(None, inventory_form) == Err::<Inventory, RepoError>(
            RepoError::NotFound,
        ),
        affected_outcome(0) == Err::<(), RepoError>(RepoError::NotFound),
{
}

} // verus!
