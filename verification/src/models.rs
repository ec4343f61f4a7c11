//! The records that the backend stores and exchanges.

use vstd::prelude::*;

verus! {

/// The identity under which the single payment QR record is stored.
pub open spec fn payment_qr_id() -> Seq<char> {
    "store_qr"@
}

/// Mathematical value of a [`Product`].
pub struct ProductView {
    pub barcode: Seq<char>,
    pub name: Seq<char>,
    pub price_bits: u64,
    pub last_updated: i64,
}

/// A product, identified by its barcode.
///
/// The price is kept as the bit pattern of its IEEE 754 binary64 value, so
/// that it is carried without loss; the pattern `0` is the price zero.
#[derive(Debug)]
pub struct Product {
    pub barcode: String,
    pub name: String,
    pub price_bits: u64,
    pub last_updated: i64,
}

impl View for Product {
    type V = ProductView;

    open spec fn view(&self) -> ProductView {
        ProductView {
            barcode: self.barcode@,
            name: self.name@,
            price_bits: self.price_bits,
            last_updated: self.last_updated,
        }
    }
}

impl Clone for Product {
    fn clone(&self) -> (r: Self)
        ensures
            r@ == self@,
    {
        Product {
            barcode: self.barcode.clone(),
            name: self.name.clone(),
            price_bits: self.price_bits,
            last_updated: self.last_updated,
        }
    }
}

/// Mathematical value of a [`PaymentQrCode`].
pub struct PaymentQrView {
    pub id: Seq<char>,
    pub data: Seq<char>,
    pub last_updated: i64,
}

/// The payment QR image shown at checkout; `data` is an opaque encoded image.
#[derive(Debug)]
pub struct PaymentQrCode {
    pub id: String,
    pub data: String,
    pub last_updated: i64,
}

impl View for PaymentQrCode {
    type V = PaymentQrView;

    open spec fn view(&self) -> PaymentQrView {
        PaymentQrView { id: self.id@, data: self.data@, last_updated: self.last_updated }
    }
}

impl Clone for PaymentQrCode {
    fn clone(&self) -> (r: Self)
        ensures
            r@ == self@,
    {
        PaymentQrCode {
            id: self.id.clone(),
            data: self.data.clone(),
            last_updated: self.last_updated,
        }
    }
}

/// Mathematical value of a [`ProductPayload`].
pub struct ProductPayloadView {
    pub barcode: Seq<char>,
    pub name: Seq<char>,
    pub price_bits: u64,
}

/// What a client supplies to add a product: no timestamp, the server sets it.
#[derive(Debug)]
pub struct ProductPayload {
    pub barcode: String,
    pub name: String,
    pub price_bits: u64,
}

impl View for ProductPayload {
    type V = ProductPayloadView;

    open spec fn view(&self) -> ProductPayloadView {
        ProductPayloadView {
            barcode: self.barcode@,
            name: self.name@,
            price_bits: self.price_bits,
        }
    }
}

} // verus!
