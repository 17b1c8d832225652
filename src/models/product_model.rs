use vstd::prelude::*;

verus! {

/// A product's price, held as the bit pattern of the single-precision
/// floating-point value that the store keeps.
#[derive(Clone, Copy, Debug, PartialEq, Eq, Structural)]
pub struct Price {
    pub bits: u32,
}

/// A row of the products table.
#[derive(Debug, PartialEq)]
pub struct Product {
    pub product_id: i32,
    pub product_name: String,
    pub product_desc: Option<String>,
    pub product_category: String,
    pub product_price: Price,
}

/// The fields of a product to insert; the store assigns its id.
#[derive(Debug, PartialEq)]
pub struct NewProduct {
    pub product_name: String,
    pub product_desc: Option<String>,
    pub product_category: String,
    pub product_price: Price,
}

/// A partial update of a product: only the fields present are applied.
#[derive(Debug, PartialEq)]
pub struct ProductForm {
    pub product_name: Option<String>,
    pub product_desc: Option<String>,
    pub product_category: Option<String>,
    pub product_price: Option<Price>,
}

impl ProductForm {
    /// The product `p` with each field present in this form replaced.
    pub open spec fn applied(self, p: Product) -> Product {
        Product {
            product_id: p.product_id,
            product_name: match self.product_name {
                Some(n) => n,
                None => p.product_name,
            },
            product_desc: match self.product_desc {
                Some(d) => Some(d),
                None => p.product_desc,
            },
            product_category: match self.product_category {
                Some(c) => c,
                None => p.product_category,
            },
            product_price: match self.product_price {
                Some(x) => x,
                None => p.product_price,
            },
        }
    }

    /// Applies this form to the product `p`.
    pub fn apply_to(self, p: Product) -> (r: Product)
        ensures
            r == self.applied(p),
    {
        let Product { product_id, product_name, product_desc, product_category, product_price } =
            p;
        Product {
            product_id,
            product_name: match self.product_name {
                Some(n) => n,
                None => product_name,
            },
            product_desc: match self.product_desc {
                Some(d) => Some(d),
                None => product_desc,
            },
            product_category: match self.product_category {
                Some(c) => c,
                None => product_category,
            },
            product_price: match self.product_price {
                Some(x) => x,
                None => product_price,
            },
        }
    }
}

} // verus!
