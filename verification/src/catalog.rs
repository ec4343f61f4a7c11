//! The external product catalog: where to ask, and what an answer means.
//!
//! The catalog is a best-effort source. Whatever goes wrong in asking it
//! (no connection, an unreadable body) reaches this module as "no answer"
//! and means the same as an answer that does not know the barcode.

use vstd::prelude::*;
use vstd::string::*;
use crate::models::{Product, ProductView};

verus! {

/// Mathematical value of a [`CatalogProduct`].
pub struct CatalogProductView {
    pub product_name: Option<Seq<char>>,
}

/// The product object of a catalog answer.
#[derive(Debug)]
pub struct CatalogProduct {
    pub product_name: Option<String>,
}

impl View for CatalogProduct {
    type V = CatalogProductView;

    open spec fn view(&self) -> CatalogProductView {
        CatalogProductView {
            product_name: match self.product_name {
                Some(name) => Some(name@),
                None => None,
            },
        }
    }
}

/// Mathematical value of a [`CatalogResponse`].
pub struct CatalogResponseView {
    pub status: i32,
    pub product: Option<CatalogProductView>,
}

/// An answer of the catalog: a status, `1` for a known barcode, and the
/// product object, which may be missing.
#[derive(Debug)]
pub struct CatalogResponse {
    pub status: i32,
    pub product: Option<CatalogProduct>,
}

impl View for CatalogResponse {
    type V = CatalogResponseView;

    open spec fn view(&self) -> CatalogResponseView {
        CatalogResponseView {
            status: self.status,
            product: match self.product {
                Some(p) => Some(p@),
                None => None,
            },
        }
    }
}

/// The value of an optional record.
pub open spec fn option_view<T: View>(o: Option<T>) -> Option<T::V> {
    match o {
        Some(x) => Some(x@),
        None => None,
    }
}

/// The address at which the catalog answers for `barcode`.
pub open spec fn catalog_address(barcode: Seq<char>) -> Seq<char> {
    "https://world.openfoodfacts.org/api/v0/product/"@ + barcode + ".json"@
}

/// The name given to a product that the catalog knows without a name.
pub open spec fn unnamed_product() -> Seq<char> {
    "Unknown Product"@
}

/// Whether the catalog knows the barcode it was asked for.
pub open spec fn catalog_knows(answer: Option<CatalogResponseView>) -> bool {
    answer matches Some(r) && r.status == 1 && r.product is Some
}

/// The product that a catalog answer stands for, if any. The catalog has no
/// prices: the price is zero. The record is stamped with `now`.
pub open spec fn external_product(
    barcode: Seq<char>,
    answer: Option<CatalogResponseView>,
    now: i64,
) -> Option<ProductView> {
    if catalog_knows(answer) {
        Some(
            ProductView {
                barcode,
                name: match answer->Some_0.product->Some_0.product_name {
                    Some(name) => name,
                    None => unnamed_product(),
                },
                price_bits: 0,
                last_updated: now,
            },
        )
    } else {
        None
    }
}

/// Builds the address at which to ask the catalog for `barcode`.
pub fn catalog_url(barcode: &str) -> (url: String)
    ensures
        url@ == catalog_address(barcode@),
{
    let head = String::from_str("https://world.openfoodfacts.org/api/v0/product/");
    head.concat(barcode).concat(".json")
}

/// Maps what came back from the catalog to a product. `answer` is `None`
/// where the catalog could not be reached or its answer could not be read.
/// A product comes out exactly where the answer has status `1` and carries a
/// product object; every other outcome is "unknown", never an error.
pub fn lookup_external_product(barcode: &str, answer: Option<CatalogResponse>, now: i64) -> (found:
    Option<Product>)
    ensures
        option_view(found) == external_product(barcode@, option_view(answer), now),
        found is Some <==> catalog_knows(option_view(answer)),
{
    match answer {
        Some(response) => {
            if response.status == 1 {
                match response.product {
                    Some(p) => {
                        let name = match p.product_name {
                            Some(name) => name,
                            None => "Unknown Product".to_owned(),
                        };
                        Some(
                            Product {
                                barcode: barcode.to_owned(),
                                name,
                                price_bits: 0,
                                last_updated: now,
                            },
                        )
                    },
                    None => None,
                }
            } else {
                None
            }
        },
        None => None,
    }
}

} // verus!
