use vstd::prelude::*;

use crate::models::product_model::{Product, ProductForm};
use crate::outcome::RepoError;

verus! {

/// The row to write back for an update of a product: the current row with the
/// form applied, or `NotFound` where no row had the key.
pub open spec fn product_update_plan(current: Option<Product>, form: ProductForm) -> Result<
    Product,
    RepoError,
> {
    match current {
        Some(p) => Ok(form.applied(p)),
        None => Err(RepoError::NotFound),
    }
}

/// Decides an update of a product from the row the key matched, if any.
pub fn plan_product_update(current: Option<Product>, form: ProductForm) -> (r: Result<
    Product,
    RepoError,
>)
    ensures
        r == product_update_plan(current, form),
{
    match current {
        Some(p) => Ok(form.apply_to(p)),
        None => Err(RepoError::NotFound),
    }
}

/// The outcome of a lookup by name from every row with that name: none is
/// absent, one is the product, more is an ambiguity error.
pub fn single_product_named(rows: Vec<Product>) -> (r: Result<Option<Product>, RepoError>)
    ensures
        rows@.len() == 0 ==> r == Ok::<Option<Product>, RepoError>(None),
        rows@.len() == 1 ==> r == Ok::<Option<Product>, RepoError>(Some(rows@[0])),
        rows@.len() > 1 ==> r == Err::<Option<Product>, RepoError>(
            RepoError::AmbiguousName { rows: rows@.len() as usize },
        ),
{
    let mut rows = rows;
    let n: usize = rows.len();
    if n == 0 {
        Ok(None)
    } else if n == 1 {
        Ok(rows.pop())
    } else {
        Err(RepoError::AmbiguousName { rows: n })
    }
}

/// Updating an existing product with a form that carries only a name changes
/// the name, and keeps the id, the description, the category and the price.
pub proof fn lemma_rename_keeps_other_fields(p: Product, name: String)
    ensures
        ({
            let form = ProductForm {
                product_name: Some(name),
                product_desc: None,
                product_category: None,
                product_price: None,
            };
            product_update_plan(Some(p), form) == Ok::<Product, RepoError>(
                Product {
                    product_id: p.product_id,
                    product_name: name,
                    product_desc: p.product_desc,
                    product_category: p.product_category,
                    product_price: p.product_price,
                },
            )
        }),
{
}

} // verus!
