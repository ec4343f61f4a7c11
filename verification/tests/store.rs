//! The store statements, run against a real in-memory database.

use rusqlite::types::Value;
use rusqlite::Connection;
use vending_server::api::{
    add_product, cache_external_product, finish_write_back, get_payment_qr, get_product,
    payment_qr_stored, product_stored, set_payment_qr, Enrichment, Lookup, Reply,
};
use vending_server::catalog::{lookup_external_product, CatalogProduct, CatalogResponse};
use vending_server::db::{self, first_row, SqlValue, Statement, StorageError};
use vending_server::models::{PaymentQrCode, Product, ProductPayload};

fn bound(statement: &Statement) -> Vec<Value> {
    statement
        .params()
        .into_iter()
        .map(|v| match v {
            SqlValue::Text(s) => Value::Text(s),
            SqlValue::Real(bits) => Value::Real(f64::from_bits(bits)),
            SqlValue::Integer(i) => Value::Integer(i),
        })
        .collect()
}

fn execute(conn: &Connection, statement: &Statement) -> Result<(), StorageError> {
    conn.execute(statement.sql(), rusqlite::params_from_iter(bound(statement)))
        .map(|_| ())
        .map_err(|_| StorageError::Failed)
}

fn execute_all(conn: &Connection, plan: &[Statement]) -> Result<(), StorageError> {
    for statement in plan {
        execute(conn, statement)?;
    }
    Ok(())
}

fn open() -> Connection {
    let conn = Connection::open_in_memory().unwrap();
    execute_all(&conn, &db::init()).unwrap();
    conn
}

fn find_product(conn: &Connection, barcode: &str) -> Result<Option<Product>, StorageError> {
    let statement = db::get_product(barcode);
    let mut prepared = conn.prepare(statement.sql()).map_err(|_| StorageError::Failed)?;
    let rows = prepared
        .query_map(rusqlite::params_from_iter(bound(&statement)), |row| {
            Ok(Product {
                barcode: row.get(0)?,
                name: row.get(1)?,
                price_bits: row.get::<_, f64>(2)?.to_bits(),
                last_updated: row.get(3)?,
            })
        })
        .map_err(|_| StorageError::Failed)?;
    first_row(rows.map(|r| r.map_err(|_| StorageError::Failed)).collect())
}

fn find_payment_qr(conn: &Connection) -> Result<Option<PaymentQrCode>, StorageError> {
    let statement = db::get_payment_qr();
    let mut prepared = conn.prepare(statement.sql()).map_err(|_| StorageError::Failed)?;
    let rows = prepared
        .query_map(rusqlite::params_from_iter(bound(&statement)), |row| {
            Ok(PaymentQrCode { id: row.get(0)?, data: row.get(1)?, last_updated: row.get(2)? })
        })
        .map_err(|_| StorageError::Failed)?;
    first_row(rows.map(|r| r.map_err(|_| StorageError::Failed)).collect())
}

fn count(conn: &Connection, table: &str) -> i64 {
    conn.query_row(&format!("SELECT COUNT(*) FROM {}", table), [], |row| row.get(0)).unwrap()
}

fn known(name: Option<&str>) -> Option<CatalogResponse> {
    Some(CatalogResponse {
        status: 1,
        product: Some(CatalogProduct { product_name: name.map(|n| n.to_string()) }),
    })
}

#[test]
fn test_add_get_product() {
    let conn = open();

    let payload = ProductPayload {
        barcode: "12345".to_string(),
        name: "Test Item".to_string(),
        price_bits: 9.99f64.to_bits(),
    };
    let (product, statement) = add_product(&payload, 1_700_000_000);
    let reply = product_stored(product, execute(&conn, &statement));
    assert!(reply.status() == 200);

    let reply = match get_product("12345", find_product(&conn, "12345")) {
        Lookup::Reply(reply) => reply,
        Lookup::AskCatalog { .. } => panic!("a stored product must not lead to the catalog"),
    };
    assert!(reply.status() == 200);
    match reply {
        Reply::Product(result) => {
            assert_eq!(result.name, "Test Item");
            assert_eq!(f64::from_bits(result.price_bits), 9.99);
        }
        other => panic!("unexpected reply {:?}", other),
    }
}

#[test]
fn init_can_be_repeated() {
    let conn = open();
    execute_all(&conn, &db::init()).unwrap();
    execute_all(&conn, &db::init()).unwrap();
    assert_eq!(count(&conn, "products"), 0);
    assert_eq!(count(&conn, "payment_qr"), 0);
}

#[test]
fn absent_product_is_not_an_error() {
    let conn = open();
    assert!(matches!(find_product(&conn, "nothing"), Ok(None)));
}

#[test]
fn upsert_product_twice_keeps_one_row() {
    let conn = open();
    let product = Product {
        barcode: "777".to_string(),
        name: "Soda".to_string(),
        price_bits: 1.5f64.to_bits(),
        last_updated: -5,
    };
    execute(&conn, &db::upsert_product(&product, 100)).unwrap();
    let once = find_product(&conn, "777").unwrap().unwrap();
    execute(&conn, &db::upsert_product(&product, 160)).unwrap();
    let twice = find_product(&conn, "777").unwrap().unwrap();

    assert_eq!(count(&conn, "products"), 1);
    assert_eq!(once.barcode, "777");
    assert_eq!(once.name, "Soda");
    assert_eq!(once.price_bits, 1.5f64.to_bits());
    assert_eq!(once.last_updated, 100);
    assert_eq!(twice.barcode, "777");
    assert_eq!(twice.name, "Soda");
    assert_eq!(twice.price_bits, 1.5f64.to_bits());
    assert_eq!(twice.last_updated, 160);
    assert!(once.last_updated <= twice.last_updated);
}

#[test]
fn upsert_product_under_frozen_clock() {
    let conn = open();
    let product = Product {
        barcode: "778".to_string(),
        name: "Water".to_string(),
        price_bits: 0.5f64.to_bits(),
        last_updated: 0,
    };
    execute(&conn, &db::upsert_product(&product, 42)).unwrap();
    execute(&conn, &db::upsert_product(&product, 42)).unwrap();
    let stored = find_product(&conn, "778").unwrap().unwrap();
    assert_eq!(count(&conn, "products"), 1);
    assert_eq!(stored.last_updated, 42);
}

#[test]
fn upsert_product_replaces_every_field() {
    let conn = open();
    let old = Product {
        barcode: "9".to_string(),
        name: "Old".to_string(),
        price_bits: 2.0f64.to_bits(),
        last_updated: 0,
    };
    let new = Product {
        barcode: "9".to_string(),
        name: "New".to_string(),
        price_bits: (-3.25f64).to_bits(),
        last_updated: 0,
    };
    execute(&conn, &db::upsert_product(&old, 1)).unwrap();
    execute(&conn, &db::upsert_product(&new, 2)).unwrap();
    let stored = find_product(&conn, "9").unwrap().unwrap();
    assert_eq!(count(&conn, "products"), 1);
    assert_eq!(stored.name, "New");
    assert_eq!(f64::from_bits(stored.price_bits), -3.25);
    assert_eq!(stored.last_updated, 2);
}

#[test]
fn payment_qr_stays_single() {
    let conn = open();
    let ids = ["", "store_qr", "other", "x' OR 1=1", "store_qr"];
    let mut now: i64 = 10;
    for id in ids {
        let posted = PaymentQrCode {
            id: id.to_string(),
            data: format!("image-{}", now),
            last_updated: 999,
        };
        let (qr, plan) = set_payment_qr(&posted, now);
        let reply = payment_qr_stored(qr, execute_all(&conn, &plan));
        assert_eq!(reply.status(), 200);
        assert_eq!(count(&conn, "payment_qr"), 1);
        let stored = find_payment_qr(&conn).unwrap().unwrap();
        assert_eq!(stored.id, "store_qr");
        assert_eq!(stored.data, format!("image-{}", now));
        assert_eq!(stored.last_updated, now);
        now += 10;
    }
}

#[test]
fn payment_qr_scenario() {
    let conn = open();
    let reply = get_payment_qr(find_payment_qr(&conn));
    assert_eq!(reply.status(), 404);
    match reply {
        Reply::NotFound(text) => assert_eq!(text, "QR code not set"),
        other => panic!("unexpected reply {:?}", other),
    }

    let posted = PaymentQrCode { id: "mine".to_string(), data: "abc".to_string(), last_updated: 1 };
    let (qr, plan) = set_payment_qr(&posted, 1_700_000_001);
    let reply = payment_qr_stored(qr, execute_all(&conn, &plan));
    assert_eq!(reply.status(), 200);
    match reply {
        Reply::PaymentQr(qr) => {
            assert_eq!(qr.id, "store_qr");
            assert_eq!(qr.data, "abc");
            assert_eq!(qr.last_updated, 1_700_000_001);
        }
        other => panic!("unexpected reply {:?}", other),
    }

    let reply = get_payment_qr(find_payment_qr(&conn));
    assert_eq!(reply.status(), 200);
    match reply {
        Reply::PaymentQr(qr) => {
            assert_eq!(qr.id, "store_qr");
            assert_eq!(qr.data, "abc");
        }
        other => panic!("unexpected reply {:?}", other),
    }
}

#[test]
fn unknown_everywhere_is_not_found() {
    let conn = open();
    let url = match get_product("999999", find_product(&conn, "999999")) {
        Lookup::AskCatalog { url } => url,
        Lookup::Reply(reply) => panic!("unexpected reply {:?}", reply),
    };
    assert_eq!(url, "https://world.openfoodfacts.org/api/v0/product/999999.json");

    let answer = Some(CatalogResponse { status: 0, product: None });
    let found = lookup_external_product("999999", answer, 5);
    match cache_external_product(found, 5) {
        Enrichment::Reply(reply) => {
            assert_eq!(reply.status(), 404);
            match reply {
                Reply::NotFound(text) => assert_eq!(text, "Product not found"),
                other => panic!("unexpected reply {:?}", other),
            }
        }
        Enrichment::WriteBack { .. } => panic!("nothing to write back"),
    }
    assert_eq!(count(&conn, "products"), 0);
}

#[test]
fn enrichment_is_written_back() {
    let conn = open();
    assert!(matches!(
        get_product("4006381333931", find_product(&conn, "4006381333931")),
        Lookup::AskCatalog { .. }
    ));

    let found = lookup_external_product("4006381333931", known(Some("Pencil")), 50);
    let reply = match cache_external_product(found, 51) {
        Enrichment::WriteBack { product, statement } => {
            finish_write_back(product, execute(&conn, &statement))
        }
        Enrichment::Reply(reply) => panic!("unexpected reply {:?}", reply),
    };
    assert_eq!(reply.status(), 200);
    match reply {
        Reply::Product(p) => {
            assert_eq!(p.barcode, "4006381333931");
            assert_eq!(p.name, "Pencil");
            assert_eq!(f64::from_bits(p.price_bits), 0.0);
            assert_eq!(p.last_updated, 50);
        }
        other => panic!("unexpected reply {:?}", other),
    }

    match get_product("4006381333931", find_product(&conn, "4006381333931")) {
        Lookup::Reply(Reply::Product(p)) => {
            assert_eq!(p.barcode, "4006381333931");
            assert_eq!(p.name, "Pencil");
            assert_eq!(f64::from_bits(p.price_bits), 0.0);
            assert_eq!(p.last_updated, 51);
        }
        other => panic!("the catalog must not be asked again: {:?}", other),
    }
}

#[test]
fn plain_insert_is_refused_on_an_existing_row() {
    let conn = open();
    let record =
        PaymentQrCode { id: "store_qr".to_string(), data: "a".to_string(), last_updated: 1 };
    let insert = Statement::InsertPaymentQr { qr: record };
    assert!(execute(&conn, &insert).is_ok());
    assert!(matches!(execute(&conn, &insert), Err(StorageError::Failed)));
    assert_eq!(count(&conn, "payment_qr"), 1);
    execute(&conn, &Statement::ClearPaymentQr).unwrap();
    assert_eq!(count(&conn, "payment_qr"), 0);
}
