//! Storefront product-catalog sort orders.

use vstd::prelude::*;

verus! {

#[derive(Clone, Copy, PartialEq, Eq, Structural, Debug)]
pub enum ProductSortOrder {
    NameAsc,
    NameDesc,
    PriceAsc,
    PriceDesc,
    Newest,
}

pub open spec fn sort_label(s: ProductSortOrder) -> Seq<char> {
    match s {
        ProductSortOrder::NameAsc => "Name (A-Z)"@,
        ProductSortOrder::NameDesc => "Name (Z-A)"@,
        ProductSortOrder::PriceAsc => "Price (Low to High)"@,
        ProductSortOrder::PriceDesc => "Price (High to Low)"@,
        ProductSortOrder::Newest => "Newest First"@,
    }
}

impl ProductSortOrder {
    /// Human-readable label of the sort order.
    pub fn label(&self) -> (r: &'static str)
        ensures
            r@ == sort_label(*self),
    {
        match self {
            ProductSortOrder::NameAsc => "Name (A-Z)",
            ProductSortOrder::NameDesc => "Name (Z-A)",
            ProductSortOrder::PriceAsc => "Price (Low to High)",
            ProductSortOrder::PriceDesc => "Price (High to Low)",
            ProductSortOrder::Newest => "Newest First",
        }
    }
}

} // verus!
