//! The request handlers as decisions: what each request does to the store
//! and which reply it gets, given the outcomes of the store and of the
//! catalog.
//!
//! A handler that has to wait for the outside is split at each wait. The
//! caller performs what a step asks for and hands the outcome to the next.

use vstd::prelude::*;
use crate::catalog::{
    catalog_address, catalog_knows, catalog_url, external_product, option_view,
    CatalogResponseView,
};
use crate::db::{
    lemma_payment_qr_write, payment_qr_row, payment_qr_write, plan_view, product_row, run_all,
    upsert_payment_qr, upsert_product, Statement, StatementView, StorageError, StoreModel,
};
use crate::models::{
    payment_qr_id, PaymentQrCode, PaymentQrView, Product, ProductPayload, ProductPayloadView,
    ProductView,
};

verus! {

/// Mathematical value of a [`Reply`].
pub enum ReplyView {
    Product(ProductView),
    PaymentQr(PaymentQrView),
    NotFound(Seq<char>),
    InternalServerError,
}

/// What a request is answered with.
#[derive(Debug)]
pub enum Reply {
    /// Success, with a product as the body.
    Product(Product),
    /// Success, with the payment QR record as the body.
    PaymentQr(PaymentQrCode),
    /// Nothing is known under the name asked for; the text is the body.
    NotFound(String),
    /// The store failed.
    InternalServerError,
}

impl View for Reply {
    type V = ReplyView;

    open spec fn view(&self) -> ReplyView {
        match self {
            Reply::Product(p) => ReplyView::Product(p@),
            Reply::PaymentQr(qr) => ReplyView::PaymentQr(qr@),
            Reply::NotFound(text) => ReplyView::NotFound(text@),
            Reply::InternalServerError => ReplyView::InternalServerError,
        }
    }
}

impl ReplyView {
    /// The status code of the reply.
    pub open spec fn status(self) -> u16 {
        match self {
            ReplyView::Product(_) | ReplyView::PaymentQr(_) => 200,
            ReplyView::NotFound(_) => 404,
            ReplyView::InternalServerError => 500,
        }
    }
}

impl Reply {
    /// The status code of the reply: 200 with a body, 404 where nothing was
    /// found, 500 where the store failed.
    pub fn status(&self) -> (code: u16)
        ensures
            code == self@.status(),
    {
        match self {
            Reply::Product(_) => 200,
            Reply::PaymentQr(_) => 200,
            Reply::NotFound(_) => 404,
            Reply::InternalServerError => 500,
        }
    }
}

/// Mathematical value of a [`Lookup`].
pub enum LookupView {
    Reply(ReplyView),
    AskCatalog { url: Seq<char> },
}

/// How a product request goes on after the local lookup.
#[derive(Debug)]
pub enum Lookup {
    /// The request is answered.
    Reply(Reply),
    /// The store does not know the barcode: ask the catalog at `url`.
    AskCatalog { url: String },
}

impl View for Lookup {
    type V = LookupView;

    open spec fn view(&self) -> LookupView {
        match self {
            Lookup::Reply(reply) => LookupView::Reply(reply@),
            Lookup::AskCatalog { url } => LookupView::AskCatalog { url: url@ },
        }
    }
}

/// Mathematical value of an [`Enrichment`].
pub enum EnrichmentView {
    Reply(ReplyView),
    WriteBack { product: ProductView, statement: StatementView },
}

/// How a product request goes on after the catalog was asked.
#[derive(Debug)]
pub enum Enrichment {
    /// The request is answered.
    Reply(Reply),
    /// The catalog knew the barcode: run `statement` to keep `product`, then
    /// answer with it.
    WriteBack { product: Product, statement: Statement },
}

impl View for Enrichment {
    type V = EnrichmentView;

    open spec fn view(&self) -> EnrichmentView {
        match self {
            Enrichment::Reply(reply) => EnrichmentView::Reply(reply@),
            Enrichment::WriteBack { product, statement } => EnrichmentView::WriteBack {
                product: product@,
                statement: statement@,
            },
        }
    }
}

/// The value of what a lookup in the store came to.
pub open spec fn answer_view<T: View>(answer: Result<Option<T>, StorageError>) -> Result<
    Option<T::V>,
    StorageError,
> {
    match answer {
        Ok(found) => Ok(option_view(found)),
        Err(e) => Err(e),
    }
}

/// The body of the reply to a request for an unknown product.
pub open spec fn product_not_found() -> Seq<char> {
    "Product not found"@
}

/// The body of the reply to a request for the payment QR before it was set.
pub open spec fn payment_qr_not_set() -> Seq<char> {
    "QR code not set"@
}

/// The step after the local lookup. A store failure ends the request; a
/// local record is the answer; only a miss leads to the catalog.
pub open spec fn after_local_lookup(
    barcode: Seq<char>,
    local: Result<Option<ProductView>, StorageError>,
) -> LookupView {
    match local {
        Err(_) => LookupView::Reply(ReplyView::InternalServerError),
        Ok(Some(product)) => LookupView::Reply(ReplyView::Product(product)),
        Ok(None) => LookupView::AskCatalog { url: catalog_address(barcode) },
    }
}

/// The step after the catalog was asked: keep what it found, at time `now`,
/// or report that nothing is known.
pub open spec fn after_catalog_lookup(found: Option<ProductView>, now: i64) -> EnrichmentView {
    match found {
        Some(product) => EnrichmentView::WriteBack {
            product,
            statement: StatementView::PutProduct { product: product_row(product, now) },
        },
        None => EnrichmentView::Reply(ReplyView::NotFound(product_not_found())),
    }
}

/// The reply to a request for the payment QR, from what the lookup came to.
pub open spec fn payment_qr_reply(
    local: Result<Option<PaymentQrView>, StorageError>,
) -> ReplyView {
    match local {
        Ok(Some(qr)) => ReplyView::PaymentQr(qr),
        Ok(None) => ReplyView::NotFound(payment_qr_not_set()),
        Err(_) => ReplyView::InternalServerError,
    }
}

/// The record that a product payload becomes at time `now`.
pub open spec fn product_of_payload(payload: ProductPayloadView, now: i64) -> ProductView {
    ProductView {
        barcode: payload.barcode,
        name: payload.name,
        price_bits: payload.price_bits,
        last_updated: now,
    }
}

/// First step of a product request, taken with the outcome of the local
/// lookup. A product found locally is the answer and the catalog is not
/// asked, whatever it may know. A store failure is answered at once, without
/// the catalog either. Only where the store has no such product does the
/// step ask for the catalog, at the address of this barcode.
pub fn get_product(barcode: &str, local: Result<Option<Product>, StorageError>) -> (next: Lookup)
    ensures
        next@ == after_local_lookup(barcode@, answer_view(local)),
        next@ is AskCatalog <==> local == Ok::<Option<Product>, StorageError>(None),
        local is Err ==> next@ == LookupView::Reply(ReplyView::InternalServerError),
        local matches Ok(Some(product)) ==> next@ == LookupView::Reply(
            ReplyView::Product(product@),
        ),
{
    match local {
        Err(_) => Lookup::Reply(Reply::InternalServerError),
        Ok(Some(product)) => Lookup::Reply(Reply::Product(product)),
        Ok(None) => Lookup::AskCatalog { url: catalog_url(barcode) },
    }
}

/// Second step of a product request, taken with what the catalog lookup
/// found. A product is to be written back at time `now`; no product means
/// that the barcode is unknown everywhere.
pub fn cache_external_product(found: Option<Product>, now: i64) -> (next: Enrichment)
    ensures
        next@ == after_catalog_lookup(option_view(found), now),
{
    match found {
        Some(product) => {
            let statement = upsert_product(&product, now);
            Enrichment::WriteBack { product, statement }
        },
        None => Enrichment::Reply(Reply::NotFound("Product not found".to_owned())),
    }
}

/// Last step of a product request that the catalog resolved, taken with the
/// outcome of the write-back. The product is the answer whether or not it
/// could be kept.
pub fn finish_write_back(product: Product, write_back: Result<(), StorageError>) -> (reply: Reply)
    ensures
        reply@ == ReplyView::Product(product@),
        reply@.status() == 200,
{
    Reply::Product(product)
}

/// Turns a payload into the product to store at time `now`, with the
/// statement that stores it. Nothing in the payload is refused.
pub fn add_product(payload: &ProductPayload, now: i64) -> (write: (Product, Statement))
    ensures
        write.0@ == product_of_payload(payload@, now),
        write.1@ == (StatementView::PutProduct { product: product_of_payload(payload@, now) }),
{
    let product = Product {
        barcode: payload.barcode.clone(),
        name: payload.name.clone(),
        price_bits: payload.price_bits,
        last_updated: now,
    };
    let statement = upsert_product(&product, now);
    (product, statement)
}

/// The reply to a product write: the stored record, or a server fault where
/// the store failed.
pub fn product_stored(product: Product, outcome: Result<(), StorageError>) -> (reply: Reply)
    ensures
        outcome is Ok ==> reply@ == ReplyView::Product(product@),
        outcome is Err ==> reply@ == ReplyView::InternalServerError,
{
    match outcome {
        Ok(_) => Reply::Product(product),
        Err(_) => Reply::InternalServerError,
    }
}

/// The reply to a request for the payment QR, from the outcome of the
/// lookup.
pub fn get_payment_qr(local: Result<Option<PaymentQrCode>, StorageError>) -> (reply: Reply)
    ensures
        reply@ == payment_qr_reply(answer_view(local)),
{
    match local {
        Ok(Some(qr)) => Reply::PaymentQr(qr),
        Ok(None) => Reply::NotFound("QR code not set".to_owned()),
        Err(_) => Reply::InternalServerError,
    }
}

/// Turns a posted record into the payment QR to store at time `now`, with
/// the statements that store it. The posted identity and timestamp are
/// ignored: the record gets the fixed identity and `now`.
pub fn set_payment_qr(payload: &PaymentQrCode, now: i64) -> (write: (PaymentQrCode, Vec<Statement>))
    ensures
        write.0@ == payment_qr_row(payload@, now),
        plan_view(write.1@) == payment_qr_write(payload@, now),
{
    let qr = PaymentQrCode {
        id: "store_qr".to_owned(),
        data: payload.data.clone(),
        last_updated: now,
    };
    let plan = upsert_payment_qr(&qr, now);
    (qr, plan)
}

/// The reply to a payment QR write: the stored record, or a server fault
/// where the store failed.
pub fn payment_qr_stored(qr: PaymentQrCode, outcome: Result<(), StorageError>) -> (reply: Reply)
    ensures
        outcome is Ok ==> reply@ == ReplyView::PaymentQr(qr@),
        outcome is Err ==> reply@ == ReplyView::InternalServerError,
{
    match outcome {
        Ok(_) => Reply::PaymentQr(qr),
        Err(_) => Reply::InternalServerError,
    }
}

/// One product request from beginning to end, against a working store.
pub struct Resolution {
    /// The reply to the request.
    pub reply: ReplyView,
    /// The store after the request.
    pub store: StoreModel,
    /// Whether the catalog was asked.
    pub asked_catalog: bool,
}

/// Runs a product request for `barcode` on the store `m`. `answer` is what
/// the catalog would say if asked, at time `asked_at`; a write-back happens
/// at time `kept_at` and succeeds where `kept` holds.
pub open spec fn resolve(
    m: StoreModel,
    barcode: Seq<char>,
    answer: Option<CatalogResponseView>,
    asked_at: i64,
    kept_at: i64,
    kept: bool,
) -> Resolution {
    match after_local_lookup(barcode, Ok(m.product(barcode))) {
        LookupView::Reply(reply) => Resolution { reply, store: m, asked_catalog: false },
        LookupView::AskCatalog { .. } => match after_catalog_lookup(
            external_product(barcode, answer, asked_at),
            kept_at,
        ) {
            EnrichmentView::Reply(reply) => Resolution { reply, store: m, asked_catalog: true },
            EnrichmentView::WriteBack { product, statement } => Resolution {
                reply: ReplyView::Product(product),
                store: if kept {
                    statement.run(m)
                } else {
                    m
                },
                asked_catalog: true,
            },
        },
    }
}

/// A product that the store has is the answer, and the catalog is not asked,
/// whatever it would have said.
pub proof fn lemma_local_precedence(
    m: StoreModel,
    barcode: Seq<char>,
    answer: Option<CatalogResponseView>,
    asked_at: i64,
    kept_at: i64,
    kept: bool,
)
    requires
        m.products.contains_key(barcode),
    ensures
        !resolve(m, barcode, answer, asked_at, kept_at, kept).asked_catalog,
        resolve(m, barcode, answer, asked_at, kept_at, kept).reply == ReplyView::Product(
            m.products[barcode],
        ),
        resolve(m, barcode, answer, asked_at, kept_at, kept).store == m,
{
}

/// A product that was added is the answer to the next request for its
/// barcode, with the barcode, name and price of the payload, and the catalog
/// is not asked.
pub proof fn lemma_added_product_is_resolved(
    m: StoreModel,
    payload: ProductPayloadView,
    now: i64,
    answer: Option<CatalogResponseView>,
    asked_at: i64,
    kept_at: i64,
    kept: bool,
)
    ensures
        ({
            let record = product_of_payload(payload, now);
            let stored = (StatementView::PutProduct { product: record }).run(m);
            let next = resolve(stored, payload.barcode, answer, asked_at, kept_at, kept);
            &&& next.reply == ReplyView::Product(record)
            &&& next.reply.status() == 200
            &&& !next.asked_catalog
            &&& next.store == stored
        }),
{
}

/// Before the first write a request for the payment QR finds nothing. After
/// a write it is answered with the record of that write, under the fixed
/// identity, whatever identity was posted and whatever the store held.
pub proof fn lemma_payment_qr_is_served(
    m: StoreModel,
    posted: PaymentQrView,
    now: i64,
    answer: Option<PaymentQrView>,
)
    ensures
        StoreModel::empty().answers_payment_qr(answer) ==> payment_qr_reply(Ok(answer))
            == ReplyView::NotFound(payment_qr_not_set()),
        run_all(payment_qr_write(posted, now), m).answers_payment_qr(answer) ==> payment_qr_reply(
            Ok(answer),
        ) == ReplyView::PaymentQr(payment_qr_row(posted, now)),
{
    let after = run_all(payment_qr_write(posted, now), m);
    lemma_payment_qr_write(m, posted, now);
    if StoreModel::empty().answers_payment_qr(answer) {
        if let Some(row) = answer {
            assert(StoreModel::empty().payment_qr.dom().contains(row.id));
        }
    }
    if after.answers_payment_qr(answer) {
        match answer {
            None => {
                assert(after.payment_qr.dom().contains(payment_qr_id()));
                assert(Set::<Seq<char>>::empty().contains(payment_qr_id()));
            },
            Some(row) => {
                assert(after.payment_qr.dom().contains(row.id));
            },
        }
    }
}

/// A barcode that only the catalog knows is kept by the request that
/// resolves it: the next request for it is answered from the store, with the
/// record that was written back, and does not ask the catalog again.
pub proof fn lemma_write_back_on_enrichment(
    m: StoreModel,
    barcode: Seq<char>,
    answer: Option<CatalogResponseView>,
    asked_at: i64,
    kept_at: i64,
    later_answer: Option<CatalogResponseView>,
    later_asked_at: i64,
    later_kept_at: i64,
    later_kept: bool,
)
    requires
        !m.products.contains_key(barcode),
        catalog_knows(answer),
    ensures
        ({
            let first = resolve(m, barcode, answer, asked_at, kept_at, true);
            let product = external_product(barcode, answer, asked_at)->Some_0;
            let second = resolve(
                first.store,
                barcode,
                later_answer,
                later_asked_at,
                later_kept_at,
                later_kept,
            );
            &&& first.asked_catalog
            &&& first.reply == ReplyView::Product(product)
            &&& m.wf() ==> first.store.wf()
            &&& first.store.product(barcode) == Some(product_row(product, kept_at))
            &&& !second.asked_catalog
            &&& second.reply == ReplyView::Product(product_row(product, kept_at))
            &&& second.store == first.store
        }),
{
}

/// Where only the write-back fails, the request that the catalog resolved is
/// still answered with the product, and the store is as it was.
pub proof fn lemma_write_back_failure_isolated(
    m: StoreModel,
    barcode: Seq<char>,
    answer: Option<CatalogResponseView>,
    asked_at: i64,
    kept_at: i64,
)
    requires
        !m.products.contains_key(barcode),
        catalog_knows(answer),
    ensures
        ({
            let outcome = resolve(m, barcode, answer, asked_at, kept_at, false);
            &&& outcome.reply == ReplyView::Product(
                external_product(barcode, answer, asked_at)->Some_0,
            )
            &&& outcome.reply.status() == 200
            &&& outcome.store == m
        }),
{
}

/// A request as far as the store is concerned, with the outcomes of the
/// outside world that decide what it writes.
pub enum Request {
    /// A product request; the fields are the arguments of [`resolve`].
    GetProduct {
        barcode: Seq<char>,
        answer: Option<CatalogResponseView>,
        asked_at: i64,
        kept_at: i64,
        kept: bool,
    },
    /// A product write at time `now`, which the store accepts where `kept`
    /// holds.
    AddProduct { payload: ProductPayloadView, now: i64, kept: bool },
    /// A payment QR request.
    GetPaymentQr,
    /// A payment QR write at time `now`, of whose statements the first `ran`
    /// succeed.
    SetPaymentQr { posted: PaymentQrView, now: i64, ran: nat },
}

/// The store after one request.
pub open spec fn serve(m: StoreModel, request: Request) -> StoreModel {
    match request {
        Request::GetProduct { barcode, answer, asked_at, kept_at, kept } => resolve(
            m,
            barcode,
            answer,
            asked_at,
            kept_at,
            kept,
        ).store,
        Request::AddProduct { payload, now, kept } => if kept {
            (StatementView::PutProduct { product: product_of_payload(payload, now) }).run(m)
        } else {
            m
        },
        Request::GetPaymentQr => m,
        Request::SetPaymentQr { posted, now, ran } => {
            let plan = payment_qr_write(posted, now);
            if ran == 0 {
                m
            } else if ran == 1 {
                plan[0].run(m)
            } else {
                run_all(plan, m)
            }
        },
    }
}

/// The store after the requests, served in order.
pub open spec fn serve_all(m: StoreModel, requests: Seq<Request>) -> StoreModel
    decreases requests.len(),
{
    if requests.len() == 0 {
        m
    } else {
        serve(serve_all(m, requests.drop_last()), requests.last())
    }
}

/// What holds of the store at any time: every row is filed under its own
/// key, so no barcode has two products, and no payment QR row exists but
/// the one under the fixed identity.
pub open spec fn store_invariant(m: StoreModel) -> bool {
    &&& m.wf()
    &&& m.payment_qr.dom().subset_of(set![payment_qr_id()])
}

/// Every request keeps the store's invariant, whether its writes succeed,
/// fail, or stop halfway.
pub proof fn lemma_serve_keeps_invariant(m: StoreModel, request: Request)
    requires
        store_invariant(m),
    ensures
        store_invariant(serve(m, request)),
{
    match request {
        Request::SetPaymentQr { posted, now, ran } => {
            lemma_payment_qr_write(m, posted, now);
        },
        _ => {},
    }
}

/// Starting from an empty store, the invariant holds after any sequence of
/// requests: at most one product per barcode and at most one payment QR row.
pub proof fn lemma_store_invariant(requests: Seq<Request>)
    ensures
        store_invariant(serve_all(StoreModel::empty(), requests)),
    decreases requests.len(),
{
    if requests.len() > 0 {
        lemma_store_invariant(requests.drop_last());
        lemma_serve_keeps_invariant(
            serve_all(StoreModel::empty(), requests.drop_last()),
            requests.last(),
        );
    }
}

} // verus!
