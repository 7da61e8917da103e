use std::cell::RefCell;
use std::rc::Rc;

use stock_control::errors::{ServiceError, StorageError};
use stock_control::models::{Product, Timestamp, Transaction, TransactionType};
use stock_control::service::InventoryService;
use stock_control::storage::{
    load_products_from, load_transactions_from, save_products_to, save_transactions_to, Storage,
};

#[derive(Default)]
struct Shelf {
    products: Vec<Product>,
    transactions: Vec<Transaction>,
    product_saves: usize,
    transaction_saves: usize,
    fail_product_saves: bool,
    fail_transaction_saves: bool,
    fail_product_loads: bool,
    fail_transaction_loads: bool,
}

struct MemoryStorage(Rc<RefCell<Shelf>>);

impl Storage for MemoryStorage {
    fn save_products(&self, products: &[Product]) -> Result<(), StorageError> {
        let mut shelf = self.0.borrow_mut();
        if shelf.fail_product_saves {
            return Err(StorageError::WriteError("disk full".to_string()));
        }
        shelf.products = products.to_vec();
        shelf.product_saves += 1;
        Ok(())
    }

    fn load_products(&self) -> Result<Vec<Product>, StorageError> {
        let shelf = self.0.borrow();
        if shelf.fail_product_loads {
            return Err(StorageError::ReadError("no access".to_string()));
        }
        Ok(shelf.products.clone())
    }

    fn save_transactions(&self, transactions: &[Transaction]) -> Result<(), StorageError> {
        let mut shelf = self.0.borrow_mut();
        if shelf.fail_transaction_saves {
            return Err(StorageError::WriteError("disk full".to_string()));
        }
        shelf.transactions = transactions.to_vec();
        shelf.transaction_saves += 1;
        Ok(())
    }

    fn load_transactions(&self) -> Result<Vec<Transaction>, StorageError> {
        let shelf = self.0.borrow();
        if shelf.fail_transaction_loads {
            return Err(StorageError::ParseError("garbled".to_string()));
        }
        Ok(shelf.transactions.clone())
    }
}

fn fresh() -> (Rc<RefCell<Shelf>>, InventoryService) {
    let shelf = Rc::new(RefCell::new(Shelf::default()));
    let service = InventoryService::new(Box::new(MemoryStorage(shelf.clone()))).unwrap();
    (shelf, service)
}

fn reopen(shelf: &Rc<RefCell<Shelf>>) -> InventoryService {
    InventoryService::new(Box::new(MemoryStorage(shelf.clone()))).unwrap()
}

fn add(service: &mut InventoryService, sku: &str, name: &str, quantity: u32, reorder: u32) -> Product {
    service
        .add_product(sku.to_string(), name.to_string(), String::new(), quantity, reorder)
        .unwrap()
}

fn skus(products: &[&Product]) -> Vec<String> {
    let mut v: Vec<String> = products.iter().map(|p| p.sku.clone()).collect();
    v.sort();
    v
}

#[test]
fn empty_store_gives_empty_service() {
    let (_, service) = fresh();
    assert!(service.list_products().is_empty());
    assert!(service.list_low_stock().is_empty());
    assert!(service.get_transactions("SKU001").is_empty());
    assert_eq!(
        service.get_product("SKU001").unwrap_err(),
        ServiceError::ProductNotFound("SKU001".to_string())
    );
}

#[test]
fn construction_fails_when_a_load_fails() {
    let shelf = Rc::new(RefCell::new(Shelf::default()));
    shelf.borrow_mut().fail_product_loads = true;
    let r = InventoryService::new(Box::new(MemoryStorage(shelf.clone())));
    assert_eq!(
        r.err().unwrap(),
        ServiceError::StorageError(StorageError::ReadError("no access".to_string()))
    );
    shelf.borrow_mut().fail_product_loads = false;
    shelf.borrow_mut().fail_transaction_loads = true;
    let r = InventoryService::new(Box::new(MemoryStorage(shelf.clone())));
    assert_eq!(
        r.err().unwrap(),
        ServiceError::StorageError(StorageError::ParseError("garbled".to_string()))
    );
}

#[test]
fn scenario_add_product_then_list_and_view() {
    let (shelf, mut service) = fresh();
    let p = service
        .add_product("SKU001".to_string(), "Widget".to_string(), "useful".to_string(), 100, 20)
        .unwrap();
    assert_eq!(p.sku, "SKU001");
    assert_eq!(p.name, "Widget");
    assert_eq!(p.description, "useful");
    assert_eq!(p.quantity, 100);
    assert_eq!(p.reorder_point, 20);
    assert_eq!(service.list_products().len(), 1);
    let seen = service.get_product("SKU001").unwrap();
    assert_eq!(*seen, p);
    assert_eq!(seen.quantity, 100);
    assert!(!seen.is_low_stock());
    assert!(service.list_low_stock().is_empty());
    assert_eq!(shelf.borrow().products, vec![p]);
    assert_eq!(shelf.borrow().product_saves, 1);
    assert_eq!(shelf.borrow().transaction_saves, 0);
}

#[test]
fn scenario_duplicate_sku_is_refused() {
    let (shelf, mut service) = fresh();
    add(&mut service, "SKU001", "W", 1, 0);
    let second =
        service.add_product("SKU001".to_string(), "Other".to_string(), String::new(), 9, 9);
    assert_eq!(second.unwrap_err(), ServiceError::DuplicateSKU("SKU001".to_string()));
    assert_eq!(service.list_products().len(), 1);
    assert_eq!(service.get_product("SKU001").unwrap().name, "W");
    assert_eq!(shelf.borrow().product_saves, 1);
}

#[test]
fn scenario_remove_stock_to_low_level() {
    let (_, mut service) = fresh();
    add(&mut service, "SKU001", "W", 10, 5);
    service.remove_stock("SKU001", 8, None).unwrap();
    let p = service.get_product("SKU001").unwrap();
    assert_eq!(p.quantity, 2);
    assert!(p.is_low_stock());
    let history = service.get_transactions("SKU001");
    assert_eq!(history.len(), 1);
    assert_eq!(history[0].transaction_type, TransactionType::Removal);
    assert_eq!(history[0].quantity, 8);
    assert_eq!(history[0].product_sku, "SKU001");
    assert_eq!(history[0].notes, None);
}

#[test]
fn scenario_insufficient_stock() {
    let (shelf, mut service) = fresh();
    add(&mut service, "SKU001", "W", 5, 0);
    let r = service.remove_stock("SKU001", 10, None);
    assert_eq!(
        r.unwrap_err(),
        ServiceError::InsufficientStock { sku: "SKU001".to_string(), requested: 10, available: 5 }
    );
    assert_eq!(service.get_product("SKU001").unwrap().quantity, 5);
    assert!(service.get_transactions("SKU001").is_empty());
    assert_eq!(shelf.borrow().product_saves, 1);
    assert_eq!(shelf.borrow().transaction_saves, 0);
}

#[test]
fn scenario_add_stock_of_zero_is_invalid() {
    let (shelf, mut service) = fresh();
    add(&mut service, "SKU001", "W", 0, 0);
    let r = service.add_stock("SKU001", 0, None);
    assert_eq!(
        r.unwrap_err(),
        ServiceError::InvalidInput("Quantity must be positive".to_string())
    );
    assert!(service.get_transactions("SKU001").is_empty());
    assert_eq!(service.get_product("SKU001").unwrap().quantity, 0);
    assert_eq!(shelf.borrow().transaction_saves, 0);
}

#[test]
fn scenario_low_stock_lists_exactly_the_low_product() {
    let (_, mut service) = fresh();
    add(&mut service, "A", "a", 3, 10);
    add(&mut service, "B", "b", 100, 10);
    assert_eq!(skus(&service.list_low_stock()), vec!["A".to_string()]);
    assert_eq!(skus(&service.list_products()), vec!["A".to_string(), "B".to_string()]);
}

#[test]
fn scenario_state_survives_a_restart() {
    let (shelf, mut service) = fresh();
    let p = service
        .add_product("SKU001".to_string(), "Widget".to_string(), "useful".to_string(), 100, 20)
        .unwrap();
    let again = reopen(&shelf);
    assert_eq!(again.list_products().len(), 1);
    assert_eq!(*again.get_product("SKU001").unwrap(), p);
    assert_eq!(again.get_product("SKU001").unwrap().quantity, 100);
}

#[test]
fn scenario_delete_purges_history() {
    let (shelf, mut service) = fresh();
    add(&mut service, "X", "x", 5, 0);
    service.add_stock("X", 10, None).unwrap();
    assert_eq!(service.get_transactions("X").len(), 1);
    service.delete_product("X").unwrap();
    assert_eq!(
        service.get_product("X").unwrap_err(),
        ServiceError::ProductNotFound("X".to_string())
    );
    assert!(service.get_transactions("X").is_empty());
    assert!(shelf.borrow().products.is_empty());
    assert!(shelf.borrow().transactions.is_empty());
}

#[test]
fn blank_sku_and_blank_name_are_invalid() {
    let (shelf, mut service) = fresh();
    let empty = ServiceError::InvalidInput("SKU cannot be empty".to_string());
    let nameless = ServiceError::InvalidInput("Name cannot be empty".to_string());
    let r = service.add_product(String::new(), "n".to_string(), String::new(), 1, 1);
    assert_eq!(r.unwrap_err(), empty);
    let r = service.add_product("  \t\n".to_string(), "n".to_string(), String::new(), 1, 1);
    assert_eq!(r.unwrap_err(), empty);
    let r = service.add_product("\u{a0}\u{3000}".to_string(), "n".to_string(), String::new(), 1, 1);
    assert_eq!(r.unwrap_err(), empty);
    let r = service.add_product("S".to_string(), String::new(), String::new(), 1, 1);
    assert_eq!(r.unwrap_err(), nameless);
    let r = service.add_product("S".to_string(), "   ".to_string(), String::new(), 1, 1);
    assert_eq!(r.unwrap_err(), nameless);
    let r = service.add_product(" ".to_string(), " ".to_string(), String::new(), 1, 1);
    assert_eq!(r.unwrap_err(), empty);
    assert!(service.list_products().is_empty());
    assert_eq!(shelf.borrow().product_saves, 0);
}

#[test]
fn sku_with_spaces_around_it_is_kept_as_given() {
    let (_, mut service) = fresh();
    let p = add(&mut service, " S ", " n ", 0, 0);
    assert_eq!(p.sku, " S ");
    assert_eq!(p.name, " n ");
    assert!(service.get_product(" S ").is_ok());
    assert!(service.get_product("S").is_err());
}

#[test]
fn zero_quantity_and_zero_reorder_point_are_allowed() {
    let (_, mut service) = fresh();
    let p = add(&mut service, "S", "n", 0, 0);
    assert_eq!(p.quantity, 0);
    assert_eq!(p.reorder_point, 0);
    assert!(p.is_low_stock());
    let q = add(&mut service, "T", "n", u32::MAX, u32::MAX);
    assert_eq!(q.quantity, u32::MAX);
    assert!(q.is_low_stock());
}

#[test]
fn identifiers_are_fresh() {
    let (_, mut service) = fresh();
    let a = add(&mut service, "A", "a", 1, 1);
    let b = add(&mut service, "B", "b", 1, 1);
    assert_eq!(a.id.chars().count(), 36);
    assert_eq!(b.id.chars().count(), 36);
    assert_ne!(a.id, b.id);
    assert_ne!(a.id, "A");
    service.add_stock("A", 1, None).unwrap();
    service.add_stock("A", 1, None).unwrap();
    let h = service.get_transactions("A");
    assert_eq!(h[0].id.chars().count(), 36);
    assert_ne!(h[0].id, h[1].id);
}

#[test]
fn add_product_with_given_identifier() {
    let (_, mut service) = fresh();
    let p = service
        .add_product_with_id(
            "id-7".to_string(),
            "S".to_string(),
            "n".to_string(),
            "d".to_string(),
            4,
            2,
        )
        .unwrap();
    assert_eq!(
        p,
        Product {
            id: "id-7".to_string(),
            sku: "S".to_string(),
            name: "n".to_string(),
            description: "d".to_string(),
            quantity: 4,
            reorder_point: 2,
        }
    );
    assert_eq!(*service.get_product("S").unwrap(), p);
}

#[test]
fn update_changes_only_what_is_given() {
    let (shelf, mut service) = fresh();
    let p = service
        .add_product("S".to_string(), "old".to_string(), "text".to_string(), 7, 3)
        .unwrap();
    let u = service.update_product("S", Some("new".to_string()), None, None).unwrap();
    assert_eq!(u.name, "new");
    assert_eq!(u.description, "text");
    assert_eq!(u.reorder_point, 3);
    assert_eq!(u.quantity, 7);
    assert_eq!(u.id, p.id);
    assert_eq!(u.sku, "S");
    let u = service.update_product("S", None, Some(String::new()), Some(50)).unwrap();
    assert_eq!(u.name, "new");
    assert_eq!(u.description, "");
    assert_eq!(u.reorder_point, 50);
    assert_eq!(u.quantity, 7);
    assert_eq!(*service.get_product("S").unwrap(), u);
    assert_eq!(shelf.borrow().products, vec![u]);
    assert_eq!(shelf.borrow().product_saves, 3);
}

#[test]
fn update_with_no_field_changes_nothing() {
    let (shelf, mut service) = fresh();
    let a = add(&mut service, "A", "a", 1, 2);
    let b = add(&mut service, "B", "b", 3, 4);
    let u = service.update_product("A", None, None, None).unwrap();
    assert_eq!(u, a);
    assert_eq!(*service.get_product("A").unwrap(), a);
    assert_eq!(*service.get_product("B").unwrap(), b);
    assert_eq!(service.list_products().len(), 2);
    assert_eq!(shelf.borrow().product_saves, 3);
}

#[test]
fn update_of_unknown_product_and_blank_name() {
    let (shelf, mut service) = fresh();
    add(&mut service, "S", "n", 1, 1);
    let r = service.update_product("T", Some("x".to_string()), None, None);
    assert_eq!(r.unwrap_err(), ServiceError::ProductNotFound("T".to_string()));
    let r = service.update_product("T", Some(" ".to_string()), None, None);
    assert_eq!(r.unwrap_err(), ServiceError::ProductNotFound("T".to_string()));
    let r = service.update_product("S", Some(" ".to_string()), Some("d".to_string()), Some(9));
    assert_eq!(r.unwrap_err(), ServiceError::InvalidInput("Name cannot be empty".to_string()));
    let p = service.get_product("S").unwrap();
    assert_eq!(p.name, "n");
    assert_eq!(p.description, "");
    assert_eq!(p.reorder_point, 1);
    assert_eq!(shelf.borrow().product_saves, 1);
}

#[test]
fn stock_movements_of_unknown_product() {
    let (_, mut service) = fresh();
    let r = service.add_stock("S", 1, None);
    assert_eq!(r.unwrap_err(), ServiceError::ProductNotFound("S".to_string()));
    let r = service.remove_stock("S", 1, None);
    assert_eq!(r.unwrap_err(), ServiceError::ProductNotFound("S".to_string()));
    let r = service.remove_stock("S", 0, None);
    assert_eq!(r.unwrap_err(), ServiceError::InvalidInput("Quantity must be positive".to_string()));
    let r = service.delete_product("S");
    assert_eq!(r.unwrap_err(), ServiceError::ProductNotFound("S".to_string()));
}

#[test]
fn add_stock_records_an_addition_with_notes() {
    let (shelf, mut service) = fresh();
    add(&mut service, "S", "n", 1, 0);
    service.add_stock("S", 41, Some("shipment".to_string())).unwrap();
    assert_eq!(service.get_product("S").unwrap().quantity, 42);
    let h = service.get_transactions("S");
    assert_eq!(h.len(), 1);
    assert_eq!(h[0].transaction_type, TransactionType::Addition);
    assert_eq!(h[0].quantity, 41);
    assert_eq!(h[0].notes, Some("shipment".to_string()));
    assert_eq!(h[0].product_sku, "S");
    assert!(h[0].timestamp.secs > 1_600_000_000);
    assert_eq!(shelf.borrow().products[0].quantity, 42);
    assert_eq!(shelf.borrow().transactions.len(), 1);
    assert_eq!(shelf.borrow().product_saves, 2);
    assert_eq!(shelf.borrow().transaction_saves, 1);
}

#[test]
fn remove_all_stock_is_allowed() {
    let (_, mut service) = fresh();
    add(&mut service, "S", "n", 5, 0);
    service.remove_stock("S", 5, None).unwrap();
    assert_eq!(service.get_product("S").unwrap().quantity, 0);
    let r = service.remove_stock("S", 1, None);
    assert_eq!(
        r.unwrap_err(),
        ServiceError::InsufficientStock { sku: "S".to_string(), requested: 1, available: 0 }
    );
}

#[test]
fn movements_at_given_instants() {
    let (_, mut service) = fresh();
    add(&mut service, "S", "n", 5, 0);
    service
        .add_stock_at("S", 3, Some("a".to_string()), "t1".to_string(), Timestamp::new(100, 5))
        .unwrap();
    service.remove_stock_at("S", 8, None, "t2".to_string(), Timestamp::new(50, 0)).unwrap();
    assert_eq!(service.get_product("S").unwrap().quantity, 0);
    let h: Vec<Transaction> = service.get_transactions("S").into_iter().cloned().collect();
    assert_eq!(
        h,
        vec![
            Transaction {
                id: "t2".to_string(),
                product_sku: "S".to_string(),
                transaction_type: TransactionType::Removal,
                quantity: 8,
                timestamp: Timestamp::new(50, 0),
                notes: None,
            },
            Transaction {
                id: "t1".to_string(),
                product_sku: "S".to_string(),
                transaction_type: TransactionType::Addition,
                quantity: 3,
                timestamp: Timestamp::new(100, 5),
                notes: Some("a".to_string()),
            },
        ]
    );
}

fn history_ids(service: &InventoryService, sku: &str) -> Vec<String> {
    service.get_transactions(sku).iter().map(|t| t.id.clone()).collect()
}

#[test]
fn history_is_in_order_of_time_and_stable() {
    let (_, mut service) = fresh();
    add(&mut service, "S", "n", 0, 0);
    add(&mut service, "T", "n", 0, 0);
    let moves = [
        ("a", "S", 30, 0),
        ("b", "T", 10, 0),
        ("c", "S", 10, 7),
        ("d", "S", 30, 0),
        ("e", "S", 10, 3),
        ("f", "T", 5, 0),
        ("g", "S", -4, 999),
        ("h", "S", 10, 7),
        ("i", "S", 30, 0),
    ];
    for (id, sku, secs, nanos) in moves {
        service.add_stock_at(sku, 1, None, id.to_string(), Timestamp::new(secs, nanos)).unwrap();
    }
    assert_eq!(history_ids(&service, "S"), vec!["g", "e", "c", "h", "a", "d", "i"]);
    assert_eq!(history_ids(&service, "T"), vec!["f", "b"]);
    assert!(history_ids(&service, "U").is_empty());
    let h = service.get_transactions("S");
    for w in h.windows(2) {
        assert!(w[0].timestamp.is_at_or_before(&w[1].timestamp));
    }
}

#[test]
fn range_is_inclusive_at_both_ends_and_equals_filtered_history() {
    let (_, mut service) = fresh();
    add(&mut service, "S", "n", 0, 0);
    add(&mut service, "T", "n", 0, 0);
    let moves = [
        ("a", "S", 30, 0),
        ("b", "T", 20, 0),
        ("c", "S", 10, 0),
        ("d", "S", 20, 0),
        ("e", "S", 9, 999_999_999),
        ("f", "S", 30, 1),
        ("g", "S", 20, 0),
    ];
    for (id, sku, secs, nanos) in moves {
        service.add_stock_at(sku, 1, None, id.to_string(), Timestamp::new(secs, nanos)).unwrap();
    }
    let start = Timestamp::new(10, 0);
    let end = Timestamp::new(30, 0);
    let ranged: Vec<String> = service
        .get_transactions_in_range("S", start, end)
        .iter()
        .map(|t| t.id.clone())
        .collect();
    assert_eq!(ranged, vec!["c", "d", "g", "a"]);
    let filtered: Vec<String> = service
        .get_transactions("S")
        .iter()
        .filter(|t| t.timestamp.is_within(&start, &end))
        .map(|t| t.id.clone())
        .collect();
    assert_eq!(ranged, filtered);
    assert!(service.get_transactions_in_range("S", end, start).is_empty());
    let one: Vec<String> = service
        .get_transactions_in_range("S", Timestamp::new(20, 0), Timestamp::new(20, 0))
        .iter()
        .map(|t| t.id.clone())
        .collect();
    assert_eq!(one, vec!["d", "g"]);
}

#[test]
fn history_does_not_ask_for_the_product() {
    let shelf = Rc::new(RefCell::new(Shelf::default()));
    shelf.borrow_mut().transactions.push(Transaction {
        id: "t".to_string(),
        product_sku: "GONE".to_string(),
        transaction_type: TransactionType::Addition,
        quantity: 1,
        timestamp: Timestamp::new(1, 0),
        notes: None,
    });
    let service = reopen(&shelf);
    assert!(service.get_product("GONE").is_err());
    assert_eq!(service.get_transactions("GONE").len(), 1);
}

#[test]
fn delete_keeps_other_products_and_their_history() {
    let (shelf, mut service) = fresh();
    add(&mut service, "A", "a", 1, 0);
    add(&mut service, "B", "b", 2, 0);
    add(&mut service, "C", "c", 3, 0);
    service.add_stock_at("A", 1, None, "1".to_string(), Timestamp::new(1, 0)).unwrap();
    service.add_stock_at("B", 1, None, "2".to_string(), Timestamp::new(2, 0)).unwrap();
    service.add_stock_at("A", 1, None, "3".to_string(), Timestamp::new(3, 0)).unwrap();
    service.add_stock_at("C", 1, None, "4".to_string(), Timestamp::new(4, 0)).unwrap();
    service.delete_product("A").unwrap();
    assert_eq!(skus(&service.list_products()), vec!["B".to_string(), "C".to_string()]);
    assert!(history_ids(&service, "A").is_empty());
    assert_eq!(history_ids(&service, "B"), vec!["2"]);
    assert_eq!(history_ids(&service, "C"), vec!["4"]);
    assert_eq!(service.get_product("B").unwrap().quantity, 3);
    let kept: Vec<String> = shelf.borrow().transactions.iter().map(|t| t.id.clone()).collect();
    assert_eq!(kept, vec!["2", "4"]);
    let again = add(&mut service, "A", "again", 9, 0);
    assert_eq!(again.quantity, 9);
    assert!(history_ids(&service, "A").is_empty());
}

#[test]
fn skus_stay_unique_over_many_requests() {
    let (_, mut service) = fresh();
    for round in 0..3 {
        for sku in ["A", "B", "C", "A", "B"] {
            let _ = service.add_product(
                sku.to_string(),
                format!("n{}", round),
                String::new(),
                round,
                0,
            );
        }
        let _ = service.delete_product("B");
        let _ = service.update_product("A", Some("renamed".to_string()), None, None);
        let all = skus(&service.list_products());
        let mut unique = all.clone();
        unique.dedup();
        assert_eq!(all, unique);
    }
    assert_eq!(skus(&service.list_products()), vec!["A".to_string(), "C".to_string()]);
}

#[test]
fn stock_equals_opening_stock_plus_movements() {
    let (_, mut service) = fresh();
    add(&mut service, "S", "n", 20, 0);
    add(&mut service, "T", "n", 7, 0);
    let steps: [(bool, u32); 8] =
        [(true, 5), (false, 30), (false, 25), (true, 0), (true, 11), (false, 11), (false, 1), (true, 3)];
    for (adding, q) in steps {
        let _ = if adding {
            service.add_stock("S", q, None)
        } else {
            service.remove_stock("S", q, None)
        };
        let _ = service.update_product("S", None, Some("d".to_string()), Some(q));
    }
    let mut sum: i64 = 20;
    for t in service.get_transactions("S") {
        match t.transaction_type {
            TransactionType::Addition => sum += t.quantity as i64,
            TransactionType::Removal => sum -= t.quantity as i64,
        }
    }
    assert_eq!(service.get_transactions("S").len(), 5);
    assert_eq!(service.get_product("S").unwrap().quantity as i64, sum);
    assert_eq!(service.get_product("S").unwrap().quantity, 3);
    assert_eq!(service.get_product("T").unwrap().quantity, 7);
}

#[test]
fn saved_state_restores_to_the_same_state() {
    let (shelf, mut service) = fresh();
    add(&mut service, "A", "a", 1, 5);
    add(&mut service, "B", "b", 2, 0);
    service.add_stock_at("A", 4, Some("n".to_string()), "1".to_string(), Timestamp::new(9, 1)).unwrap();
    service.remove_stock_at("B", 1, None, "2".to_string(), Timestamp::new(3, 0)).unwrap();
    service.update_product("B", Some("bee".to_string()), None, Some(8)).unwrap();
    let products: Vec<Product> = service.product_records().to_vec();
    let transactions: Vec<Transaction> = service.transaction_records().to_vec();
    assert_eq!(shelf.borrow().products, products);
    assert_eq!(shelf.borrow().transactions, transactions);
    let again = reopen(&shelf);
    assert_eq!(again.product_records(), service.product_records());
    assert_eq!(again.transaction_records(), service.transaction_records());
    assert_eq!(*again.get_product("A").unwrap(), *service.get_product("A").unwrap());
    assert_eq!(*again.get_product("B").unwrap(), *service.get_product("B").unwrap());
    assert_eq!(history_ids(&again, "A"), vec!["1"]);
    assert_eq!(history_ids(&again, "B"), vec!["2"]);
}

#[test]
fn restore_keeps_the_later_of_two_products_with_one_sku() {
    let p = |id: &str, sku: &str, q: u32| Product {
        id: id.to_string(),
        sku: sku.to_string(),
        name: "n".to_string(),
        description: String::new(),
        quantity: q,
        reorder_point: 0,
    };
    let shelf = Rc::new(RefCell::new(Shelf::default()));
    let service = InventoryService::restore(
        vec![p("1", "A", 1), p("2", "B", 2), p("3", "A", 3), p("4", "C", 4), p("5", "A", 5)],
        Vec::new(),
        Box::new(MemoryStorage(shelf)),
    );
    assert_eq!(skus(&service.list_products()), vec!["A".to_string(), "B".to_string(), "C".to_string()]);
    assert_eq!(service.get_product("A").unwrap().id, "5");
    assert_eq!(service.get_product("A").unwrap().quantity, 5);
    assert_eq!(service.get_product("B").unwrap().id, "2");
}

#[test]
fn failed_save_is_reported_and_the_change_stays() {
    let (shelf, mut service) = fresh();
    add(&mut service, "S", "n", 5, 0);
    shelf.borrow_mut().fail_product_saves = true;
    let failure = ServiceError::StorageError(StorageError::WriteError("disk full".to_string()));
    let r = service.add_product("T".to_string(), "n".to_string(), String::new(), 1, 0);
    assert_eq!(r.unwrap_err(), failure);
    assert!(service.get_product("T").is_ok());
    let r = service.add_stock("S", 2, None);
    assert_eq!(r.unwrap_err(), failure);
    assert_eq!(service.get_product("S").unwrap().quantity, 7);
    assert_eq!(service.get_transactions("S").len(), 1);
    assert_eq!(shelf.borrow().transaction_saves, 0);
    let r = service.update_product("S", Some("m".to_string()), None, None);
    assert_eq!(r.unwrap_err(), failure);
    assert_eq!(service.get_product("S").unwrap().name, "m");
    shelf.borrow_mut().fail_product_saves = false;
    shelf.borrow_mut().fail_transaction_saves = true;
    let r = service.remove_stock("S", 1, None);
    assert_eq!(r.unwrap_err(), failure);
    assert_eq!(service.get_product("S").unwrap().quantity, 6);
    assert_eq!(shelf.borrow().products.iter().find(|p| p.sku == "S").unwrap().quantity, 6);
    let r = service.delete_product("S");
    assert_eq!(r.unwrap_err(), failure);
    assert!(service.get_product("S").is_err());
    assert!(service.get_transactions("S").is_empty());
}

#[test]
fn storage_error_converts_into_service_error() {
    let e = StorageError::ParseError("x".to_string());
    let s: ServiceError = ServiceError::from(e.clone());
    assert_eq!(s, ServiceError::StorageError(e.clone()));
    assert_eq!(s.source(), Some(&e));
    assert_eq!(ServiceError::DuplicateSKU("a".to_string()).source(), None);
    assert_eq!(stock_control::service::saved(Err(e.clone())), Err(ServiceError::StorageError(e)));
    assert_eq!(stock_control::service::saved(Ok(())), Ok(()));
}

#[test]
fn asking_the_storage_hands_its_answer_on() {
    let shelf = Rc::new(RefCell::new(Shelf::default()));
    let storage = MemoryStorage(shelf.clone());
    let p = Product {
        id: "1".to_string(),
        sku: "A".to_string(),
        name: "a".to_string(),
        description: String::new(),
        quantity: 1,
        reorder_point: 0,
    };
    let t = Transaction {
        id: "t".to_string(),
        product_sku: "A".to_string(),
        transaction_type: TransactionType::Addition,
        quantity: 1,
        timestamp: Timestamp::new(1, 0),
        notes: None,
    };
    assert_eq!(save_products_to(&storage, &[p.clone()]), Ok(()));
    assert_eq!(save_transactions_to(&storage, &[t.clone()]), Ok(()));
    assert_eq!(load_products_from(&storage), Ok(vec![p.clone()]));
    assert_eq!(load_transactions_from(&storage), Ok(vec![t]));
    shelf.borrow_mut().fail_product_saves = true;
    shelf.borrow_mut().fail_transaction_loads = true;
    assert_eq!(
        save_products_to(&storage, &[]),
        Err(StorageError::WriteError("disk full".to_string()))
    );
    assert_eq!(
        load_transactions_from(&storage),
        Err(StorageError::ParseError("garbled".to_string()))
    );
    assert_eq!(load_products_from(&storage), Ok(vec![p]));
    let boxed: Box<dyn Storage> = Box::new(MemoryStorage(shelf.clone()));
    assert_eq!(load_products_from(&*boxed).unwrap().len(), 1);
}
