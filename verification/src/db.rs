//! The persistence contract: the statements that reach the store, what they
//! bind, and what they do to the stored records.
//!
//! The store itself is outside this crate. Each function here says which
//! statements a store operation consists of; the caller executes them and
//! hands the rows back. [`StoreModel`] is the reading of the two tables on
//! which the laws at the end of this file are stated.

use vstd::prelude::*;
use crate::models::{payment_qr_id, PaymentQrCode, PaymentQrView, Product, ProductView};

verus! {

/// Why a store operation gave no answer.
#[derive(Debug, Clone, Copy, PartialEq, Eq, Structural)]
pub enum StorageError {
    /// The medium could not be opened or prepared.
    Unavailable,
    /// A read or a write failed.
    Failed,
}

/// Mathematical value of a [`SqlValue`].
pub enum SqlValueView {
    Text(Seq<char>),
    Real(u64),
    Integer(i64),
}

/// A value bound to a placeholder of a statement. `Real` carries the bit
/// pattern of a binary64 number.
#[derive(Debug)]
pub enum SqlValue {
    Text(String),
    Real(u64),
    Integer(i64),
}

impl View for SqlValue {
    type V = SqlValueView;

    open spec fn view(&self) -> SqlValueView {
        match self {
            SqlValue::Text(s) => SqlValueView::Text(s@),
            SqlValue::Real(bits) => SqlValueView::Real(*bits),
            SqlValue::Integer(i) => SqlValueView::Integer(*i),
        }
    }
}

/// Mathematical value of a [`Statement`].
pub enum StatementView {
    CreateProducts,
    CreatePaymentQr,
    SelectProduct { barcode: Seq<char> },
    PutProduct { product: ProductView },
    SelectPaymentQr,
    ClearPaymentQr,
    InsertPaymentQr { qr: PaymentQrView },
}

/// One statement against the store.
#[derive(Debug)]
pub enum Statement {
    /// Creates the product table unless it exists.
    CreateProducts,
    /// Creates the payment QR table unless it exists.
    CreatePaymentQr,
    /// Reads the product with this barcode.
    SelectProduct { barcode: String },
    /// Writes a product, replacing the one with the same barcode.
    PutProduct { product: Product },
    /// Reads at most one payment QR row.
    SelectPaymentQr,
    /// Deletes every payment QR row.
    ClearPaymentQr,
    /// Inserts a payment QR row.
    InsertPaymentQr { qr: PaymentQrCode },
}

impl View for Statement {
    type V = StatementView;

    open spec fn view(&self) -> StatementView {
        match self {
            Statement::CreateProducts => StatementView::CreateProducts,
            Statement::CreatePaymentQr => StatementView::CreatePaymentQr,
            Statement::SelectProduct { barcode } => StatementView::SelectProduct {
                barcode: barcode@,
            },
            Statement::PutProduct { product } => StatementView::PutProduct { product: product@ },
            Statement::SelectPaymentQr => StatementView::SelectPaymentQr,
            Statement::ClearPaymentQr => StatementView::ClearPaymentQr,
            Statement::InsertPaymentQr { qr } => StatementView::InsertPaymentQr { qr: qr@ },
        }
    }
}

/// The values of a sequence of statements.
pub open spec fn plan_view(plan: Seq<Statement>) -> Seq<StatementView> {
    plan.map_values(|s: Statement| s@)
}

/// The two tables as mathematical maps, each row under its primary key.
pub struct StoreModel {
    pub products: Map<Seq<char>, ProductView>,
    pub payment_qr: Map<Seq<char>, PaymentQrView>,
}

impl StoreModel {
    /// Every row is filed under its own key.
    pub open spec fn wf(self) -> bool {
        &&& forall|k: Seq<char>| #[trigger]
            self.products.contains_key(k) ==> self.products[k].barcode == k
        &&& forall|k: Seq<char>| #[trigger]
            self.payment_qr.contains_key(k) ==> self.payment_qr[k].id == k
    }

    /// The store before its first write.
    pub open spec fn empty() -> StoreModel {
        StoreModel { products: Map::empty(), payment_qr: Map::empty() }
    }

    /// What a product lookup finds.
    pub open spec fn product(self, barcode: Seq<char>) -> Option<ProductView> {
        if self.products.contains_key(barcode) {
            Some(self.products[barcode])
        } else {
            None
        }
    }

    /// Whether `answer` is a possible result of a payment QR lookup: nothing
    /// from an empty table, else any one of its rows.
    pub open spec fn answers_payment_qr(self, answer: Option<PaymentQrView>) -> bool {
        match answer {
            None => self.payment_qr.dom() =~= Set::empty(),
            Some(row) => self.payment_qr.contains_key(row.id) && self.payment_qr[row.id] == row,
        }
    }
}

impl StatementView {
    /// The text of the statement.
    pub open spec fn sql(self) -> Seq<char> {
        match self {
            StatementView::CreateProducts =>
                "CREATE TABLE IF NOT EXISTS products (barcode TEXT PRIMARY KEY, name TEXT NOT NULL, price REAL NOT NULL, last_updated INTEGER NOT NULL)"@,
            StatementView::CreatePaymentQr =>
                "CREATE TABLE IF NOT EXISTS payment_qr (id TEXT PRIMARY KEY, data TEXT NOT NULL, last_updated INTEGER NOT NULL)"@,
            StatementView::SelectProduct { .. } =>
                "SELECT barcode, name, price, last_updated FROM products WHERE barcode = ?1"@,
            StatementView::PutProduct { .. } =>
                "INSERT OR REPLACE INTO products (barcode, name, price, last_updated) VALUES (?1, ?2, ?3, ?4)"@,
            StatementView::SelectPaymentQr => "SELECT id, data, last_updated FROM payment_qr LIMIT 1"@,
            StatementView::ClearPaymentQr => "DELETE FROM payment_qr"@,
            StatementView::InsertPaymentQr { .. } =>
                "INSERT INTO payment_qr (id, data, last_updated) VALUES (?1, ?2, ?3)"@,
        }
    }

    /// The values bound to the placeholders, `?1` first.
    pub open spec fn bindings(self) -> Seq<SqlValueView> {
        match self {
            StatementView::SelectProduct { barcode } => seq![SqlValueView::Text(barcode)],
            StatementView::PutProduct { product: record } => seq![
                SqlValueView::Text(record.barcode),
                SqlValueView::Text(record.name),
                SqlValueView::Real(record.price_bits),
                SqlValueView::Integer(record.last_updated),
            ],
            StatementView::InsertPaymentQr { qr: record } => seq![
                SqlValueView::Text(record.id),
                SqlValueView::Text(record.data),
                SqlValueView::Integer(record.last_updated),
            ],
            _ => Seq::empty(),
        }
    }

    /// Whether the store accepts the statement: a plain insert is refused
    /// where a row with the same key exists.
    pub open spec fn accepted(self, m: StoreModel) -> bool {
        match self {
            StatementView::InsertPaymentQr { qr: record } => !m.payment_qr.contains_key(record.id),
            _ => true,
        }
    }

    /// The store after the statement; a refused statement changes nothing.
    pub open spec fn run(self, m: StoreModel) -> StoreModel {
        match self {
            StatementView::PutProduct { product: record } => StoreModel {
                products: m.products.insert(record.barcode, record),
                payment_qr: m.payment_qr,
            },
            StatementView::ClearPaymentQr => StoreModel {
                products: m.products,
                payment_qr: Map::empty(),
            },
            StatementView::InsertPaymentQr { qr: record } => if self.accepted(m) {
                StoreModel {
                    products: m.products,
                    payment_qr: m.payment_qr.insert(record.id, record),
                }
            } else {
                m
            },
            _ => m,
        }
    }
}

/// The store after the statements of `plan`, run in order.
pub open spec fn run_all(plan: Seq<StatementView>, m: StoreModel) -> StoreModel
    decreases plan.len(),
{
    if plan.len() == 0 {
        m
    } else {
        run_all(plan.drop_first(), plan[0].run(m))
    }
}

impl Statement {
    /// The text of the statement, with numbered placeholders.
    pub fn sql(&self) -> (text: &'static str)
        ensures
            text@ == self@.sql(),
    {
        match self {
            Statement::CreateProducts =>
                "CREATE TABLE IF NOT EXISTS products (barcode TEXT PRIMARY KEY, name TEXT NOT NULL, price REAL NOT NULL, last_updated INTEGER NOT NULL)",
            Statement::CreatePaymentQr =>
                "CREATE TABLE IF NOT EXISTS payment_qr (id TEXT PRIMARY KEY, data TEXT NOT NULL, last_updated INTEGER NOT NULL)",
            Statement::SelectProduct { .. } =>
                "SELECT barcode, name, price, last_updated FROM products WHERE barcode = ?1",
            Statement::PutProduct { .. } =>
                "INSERT OR REPLACE INTO products (barcode, name, price, last_updated) VALUES (?1, ?2, ?3, ?4)",
            Statement::SelectPaymentQr => "SELECT id, data, last_updated FROM payment_qr LIMIT 1",
            Statement::ClearPaymentQr => "DELETE FROM payment_qr",
            Statement::InsertPaymentQr { .. } =>
                "INSERT INTO payment_qr (id, data, last_updated) VALUES (?1, ?2, ?3)",
        }
    }

    /// The values to bind, in the order of the placeholders.
    pub fn params(&self) -> (values: Vec<SqlValue>)
        ensures
            values@.len() == self@.bindings().len(),
            forall|i: int|
                0 <= i < values@.len() ==> (#[trigger] values@[i])@ == self@.bindings()[i],
    {
        match self {
            Statement::SelectProduct { barcode } => vec![SqlValue::Text(barcode.clone())],
            Statement::PutProduct { product: record } => vec![
                SqlValue::Text(record.barcode.clone()),
                SqlValue::Text(record.name.clone()),
                SqlValue::Real(record.price_bits),
                SqlValue::Integer(record.last_updated),
            ],
            Statement::InsertPaymentQr { qr: record } => vec![
                SqlValue::Text(record.id.clone()),
                SqlValue::Text(record.data.clone()),
                SqlValue::Integer(record.last_updated),
            ],
            _ => Vec::new(),
        }
    }
}

/// The product as the store keeps it when written at time `now`: the
/// caller's timestamp is dropped.
pub open spec fn product_row(product: ProductView, now: i64) -> ProductView {
    ProductView {
        barcode: product.barcode,
        name: product.name,
        price_bits: product.price_bits,
        last_updated: now,
    }
}

/// The payment QR record as the store keeps it when written at time `now`:
/// the caller's identity and timestamp are dropped.
pub open spec fn payment_qr_row(qr: PaymentQrView, now: i64) -> PaymentQrView {
    PaymentQrView { id: payment_qr_id(), data: qr.data, last_updated: now }
}

/// The statements of a payment QR write.
pub open spec fn payment_qr_write(qr: PaymentQrView, now: i64) -> Seq<StatementView> {
    seq![
        StatementView::ClearPaymentQr,
        StatementView::InsertPaymentQr { qr: payment_qr_row(qr, now) },
    ]
}

/// The statements that prepare the store: one per table, each harmless where
/// the table exists.
pub fn init() -> (plan: Vec<Statement>)
    ensures
        plan_view(plan@) == seq![StatementView::CreateProducts, StatementView::CreatePaymentQr],
{
    let plan = vec![Statement::CreateProducts, Statement::CreatePaymentQr];
    assert(plan_view(plan@) =~= seq![
        StatementView::CreateProducts,
        StatementView::CreatePaymentQr,
    ]);
    plan
}

/// The lookup of the product with exactly this barcode.
pub fn get_product(barcode: &str) -> (statement: Statement)
    ensures
        statement@ == (StatementView::SelectProduct { barcode: barcode@ }),
{
    Statement::SelectProduct { barcode: barcode.to_owned() }
}

/// The write of a product at time `now`. It replaces the row with the same
/// barcode and stamps the record with `now`, whatever timestamp it came with.
pub fn upsert_product(product: &Product, now: i64) -> (statement: Statement)
    ensures
        statement@ == (StatementView::PutProduct { product: product_row(product@, now) }),
{
    Statement::PutProduct {
        product: Product {
            barcode: product.barcode.clone(),
            name: product.name.clone(),
            price_bits: product.price_bits,
            last_updated: now,
        },
    }
}

/// The lookup of the payment QR record.
pub fn get_payment_qr() -> (statement: Statement)
    ensures
        statement@ == StatementView::SelectPaymentQr,
{
    Statement::SelectPaymentQr
}

/// The write of the payment QR record at time `now`: every row is deleted,
/// then one is inserted under the fixed identity, stamped with `now`.
pub fn upsert_payment_qr(qr: &PaymentQrCode, now: i64) -> (plan: Vec<Statement>)
    ensures
        plan_view(plan@) == payment_qr_write(qr@, now),
{
    let record = PaymentQrCode {
        id: "store_qr".to_owned(),
        data: qr.data.clone(),
        last_updated: now,
    };
    let plan = vec![Statement::ClearPaymentQr, Statement::InsertPaymentQr { qr: record }];
    assert(plan_view(plan@) =~= payment_qr_write(qr@, now));
    plan
}

/// The answer that a sequence of rows stands for: the first row, nothing
/// where there is none, and the row's own failure where reading it failed.
pub open spec fn first_of<T>(rows: Seq<Result<T, StorageError>>) -> Result<
    Option<T>,
    StorageError,
> {
    if rows.len() == 0 {
        Ok(None)
    } else {
        match rows[0] {
            Ok(row) => Ok(Some(row)),
            Err(e) => Err(e),
        }
    }
}

/// The answer of a lookup from the rows that the store handed out. Only the
/// first row counts.
pub fn first_row<T>(rows: Vec<Result<T, StorageError>>) -> (answer: Result<
    Option<T>,
    StorageError,
>)
    ensures
        answer == first_of(rows@),
{
    let mut rows = rows;
    if rows.len() == 0 {
        Ok(None)
    } else {
        match rows.swap_remove(0) {
            Ok(row) => Ok(Some(row)),
            Err(e) => Err(e),
        }
    }
}

/// Preparing the store changes no record, so it can be repeated at every
/// start.
pub proof fn lemma_init_keeps_records(m: StoreModel)
    ensures
        run_all(seq![StatementView::CreateProducts, StatementView::CreatePaymentQr], m) == m,
{
    let plan = seq![StatementView::CreateProducts, StatementView::CreatePaymentQr];
    let rest = plan.drop_first();
    assert(rest.drop_first().len() == 0);
    assert(run_all(rest.drop_first(), m) == m);
    assert(rest[0] == StatementView::CreatePaymentQr);
    assert(run_all(rest, m) == m);
}

/// Writing the same product twice keeps one row under its barcode, with the
/// barcode, name and price that were written, and touches no other row. Its
/// timestamp is that of the later write, which is no earlier than that of
/// the first where the clock does not run backwards.
pub proof fn lemma_upsert_product_idempotent(
    m: StoreModel,
    product: ProductView,
    first: i64,
    second: i64,
)
    ensures
        ({
            let once = (StatementView::PutProduct { product: product_row(product, first) }).run(m);
            let twice = (StatementView::PutProduct { product: product_row(product, second) }).run(
                once,
            );
            &&& m.wf() ==> once.wf() && twice.wf()
            &&& once.product(product.barcode) == Some(product_row(product, first))
            &&& twice.product(product.barcode) == Some(product_row(product, second))
            &&& twice.products.dom() == once.products.dom()
            &&& twice.products.remove(product.barcode) == m.products.remove(product.barcode)
            &&& twice.payment_qr == m.payment_qr
            &&& first <= second ==> once.products[product.barcode].last_updated
                <= twice.products[product.barcode].last_updated
        }),
{
    let once = (StatementView::PutProduct { product: product_row(product, first) }).run(m);
    let twice = (StatementView::PutProduct { product: product_row(product, second) }).run(once);
    assert(twice.products.dom() =~= once.products.dom());
    assert(twice.products.remove(product.barcode) =~= m.products.remove(product.barcode));
}

/// The store after a sequence of payment QR writes, each a record and the
/// time of its write, the earliest first.
pub open spec fn after_payment_qr_writes(
    m: StoreModel,
    writes: Seq<(PaymentQrView, i64)>,
) -> StoreModel
    decreases writes.len(),
{
    if writes.len() == 0 {
        m
    } else {
        run_all(
            payment_qr_write(writes.last().0, writes.last().1),
            after_payment_qr_writes(m, writes.drop_last()),
        )
    }
}

/// One payment QR write leaves exactly one row, under the fixed identity,
/// with the data and the time of that write, whatever the table held before
/// and whatever identity the caller supplied.
pub proof fn lemma_payment_qr_write(m: StoreModel, qr: PaymentQrView, now: i64)
    ensures
        ({
            let after = run_all(payment_qr_write(qr, now), m);
            &&& after.payment_qr.dom() == set![payment_qr_id()]
            &&& after.payment_qr[payment_qr_id()] == payment_qr_row(qr, now)
            &&& after.products == m.products
            &&& m.wf() ==> after.wf()
        }),
{
    let plan = payment_qr_write(qr, now);
    let cleared = plan[0].run(m);
    let rest = plan.drop_first();
    assert(rest[0] == plan[1]);
    let after = rest[0].run(cleared);
    assert(rest.drop_first().len() == 0);
    assert(run_all(rest.drop_first(), after) == after);
    assert(run_all(rest, cleared) == after);
    assert(run_all(plan, m) == after);
    assert(after.payment_qr.dom() =~= set![payment_qr_id()]);
}

/// After any non-empty sequence of payment QR writes, with arbitrary
/// identities supplied, exactly one row exists: it has the fixed identity and
/// holds the data of the last write.
pub proof fn lemma_payment_qr_singleton(m: StoreModel, writes: Seq<(PaymentQrView, i64)>)
    requires
        writes.len() > 0,
    ensures
        ({
            let after = after_payment_qr_writes(m, writes);
            &&& after.payment_qr.dom() == set![payment_qr_id()]
            &&& after.payment_qr.dom().len() == 1
            &&& after.payment_qr[payment_qr_id()] == payment_qr_row(
                writes.last().0,
                writes.last().1,
            )
            &&& after.answers_payment_qr(
                Some(payment_qr_row(writes.last().0, writes.last().1)),
            )
            &&& forall|answer: Option<PaymentQrView>| #[trigger]
                after.answers_payment_qr(answer) ==> answer == Some(
                    payment_qr_row(writes.last().0, writes.last().1),
                )
        }),
{
    let before = after_payment_qr_writes(m, writes.drop_last());
    lemma_payment_qr_write(before, writes.last().0, writes.last().1);
    let after = after_payment_qr_writes(m, writes);
    assert(after.payment_qr.dom().contains(payment_qr_id()));
    assert forall|answer: Option<PaymentQrView>| #[trigger]
        after.answers_payment_qr(answer) implies answer == Some(
        payment_qr_row(writes.last().0, writes.last().1),
    ) by {
        match answer {
            None => {
                assert(Set::<Seq<char>>::empty().contains(payment_qr_id()));
            },
            Some(row) => {
                assert(after.payment_qr.dom().contains(row.id));
            },
        }
    }
}

} // verus!
