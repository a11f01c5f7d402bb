use jarust::japrotocol::{JaResponse, ResponseType};
use jarust::tgenerator::{GenerateTransaction, RandomTransactionGenerator};
use jarust::tmanager::{Resolution, TransactionManager};

struct Fixed(&'static str);

impl GenerateTransaction for Fixed {
    fn generate_transaction(&self) -> String {
        self.0.to_string()
    }
}

fn ack(transaction: Option<&str>) -> JaResponse {
    JaResponse {
        janus: ResponseType::Ack,
        transaction: transaction.map(|t| t.to_string()),
        session_id: None,
        sender: None,
        establishment_protocol: None,
    }
}

#[test]
fn new_manager_is_empty() {
    let manager: TransactionManager<u32> = TransactionManager::new();
    assert_eq!(manager.size(), 0);
    assert!(!manager.contains(&"a".to_string()));
    assert_eq!(manager.created_at(&"a".to_string()), None);
}

#[test]
fn insert_registers_under_a_free_identifier() {
    let mut manager: TransactionManager<u32> = TransactionManager::new();
    assert_eq!(manager.insert("a".to_string(), 1, 100), Ok(()));
    assert_eq!(manager.insert("b".to_string(), 2, 250), Ok(()));
    assert_eq!(manager.size(), 2);
    assert!(manager.contains(&"a".to_string()));
    assert!(manager.contains(&"b".to_string()));
    assert_eq!(manager.created_at(&"a".to_string()), Some(100));
    assert_eq!(manager.created_at(&"b".to_string()), Some(250));
}

#[test]
fn insert_refuses_an_identifier_in_flight() {
    let mut manager: TransactionManager<u32> = TransactionManager::new();
    assert_eq!(manager.insert("a".to_string(), 1, 100), Ok(()));
    assert_eq!(manager.insert("a".to_string(), 2, 200), Err(2));
    assert_eq!(manager.size(), 1);
    assert_eq!(manager.created_at(&"a".to_string()), Some(100));
    assert_eq!(manager.take(&"a".to_string()), Some(1));
}

#[test]
fn register_hands_back_the_generated_identifier() {
    let mut manager: TransactionManager<u32> = TransactionManager::new();
    assert_eq!(manager.register(&Fixed("tx-1"), 7, 5), Ok("tx-1".to_string()));
    assert!(manager.contains(&"tx-1".to_string()));
    assert_eq!(manager.created_at(&"tx-1".to_string()), Some(5));
}

#[test]
fn register_refuses_a_repeated_identifier() {
    let mut manager: TransactionManager<u32> = TransactionManager::new();
    assert_eq!(manager.register(&Fixed("tx-1"), 7, 5), Ok("tx-1".to_string()));
    assert_eq!(manager.register(&Fixed("tx-1"), 8, 6), Err(8));
    assert_eq!(manager.size(), 1);
    assert_eq!(manager.take(&"tx-1".to_string()), Some(7));
}

#[test]
fn register_with_the_random_generator() {
    let mut manager: TransactionManager<u32> = TransactionManager::new();
    let id = manager.register(&RandomTransactionGenerator, 1, 0).unwrap();
    assert_eq!(id.chars().count(), 12);
    assert!(manager.contains(&id));
}

#[test]
fn random_transactions_are_twelve_letters_and_digits() {
    for _ in 0..50 {
        let id = RandomTransactionGenerator.generate_transaction();
        assert_eq!(id.len(), 12);
        assert!(id.chars().all(|c| c.is_ascii_alphanumeric()));
    }
}

#[test]
fn resolve_delivers_to_the_sink_of_the_transaction() {
    let mut manager: TransactionManager<&'static str> = TransactionManager::new();
    manager.insert("a".to_string(), "alice", 0).unwrap();
    manager.insert("b".to_string(), "bob", 0).unwrap();
    manager.insert("c".to_string(), "carol", 0).unwrap();
    assert_eq!(
        manager.resolve(ack(Some("b"))),
        Resolution::Delivered { sink: "bob", message: ack(Some("b")) }
    );
    assert_eq!(manager.size(), 2);
    assert!(manager.contains(&"a".to_string()));
    assert!(!manager.contains(&"b".to_string()));
    assert!(manager.contains(&"c".to_string()));
    assert_eq!(
        manager.resolve(ack(Some("c"))),
        Resolution::Delivered { sink: "carol", message: ack(Some("c")) }
    );
    assert_eq!(
        manager.resolve(ack(Some("a"))),
        Resolution::Delivered { sink: "alice", message: ack(Some("a")) }
    );
    assert_eq!(manager.size(), 0);
}

#[test]
fn resolve_hands_back_what_answers_nothing() {
    let mut manager: TransactionManager<u32> = TransactionManager::new();
    manager.insert("a".to_string(), 1, 0).unwrap();
    assert_eq!(manager.resolve(ack(Some("zz"))), Resolution::Unmatched(ack(Some("zz"))));
    assert_eq!(manager.resolve(ack(None)), Resolution::Unmatched(ack(None)));
    assert_eq!(manager.size(), 1);
}

#[test]
fn resolve_answers_a_request_once() {
    let mut manager: TransactionManager<u32> = TransactionManager::new();
    manager.insert("a".to_string(), 1, 0).unwrap();
    assert_eq!(
        manager.resolve(ack(Some("a"))),
        Resolution::Delivered { sink: 1, message: ack(Some("a")) }
    );
    assert_eq!(manager.resolve(ack(Some("a"))), Resolution::Unmatched(ack(Some("a"))));
}

#[test]
fn expire_takes_the_request_out() {
    let mut manager: TransactionManager<u32> = TransactionManager::new();
    manager.insert("a".to_string(), 1, 0).unwrap();
    manager.insert("b".to_string(), 2, 0).unwrap();
    assert_eq!(manager.expire(&"a".to_string()), Some(1));
    assert!(!manager.contains(&"a".to_string()));
    assert!(manager.contains(&"b".to_string()));
    assert_eq!(manager.expire(&"a".to_string()), None);
    assert_eq!(manager.resolve(ack(Some("a"))), Resolution::Unmatched(ack(Some("a"))));
}

#[test]
fn expire_after_resolve_finds_nothing() {
    let mut manager: TransactionManager<u32> = TransactionManager::new();
    manager.insert("a".to_string(), 1, 0).unwrap();
    let _ = manager.resolve(ack(Some("a")));
    assert_eq!(manager.expire(&"a".to_string()), None);
}

#[test]
fn an_identifier_is_free_again_after_its_request_left() {
    let mut manager: TransactionManager<u32> = TransactionManager::new();
    manager.insert("a".to_string(), 1, 0).unwrap();
    assert_eq!(manager.take(&"a".to_string()), Some(1));
    assert_eq!(manager.insert("a".to_string(), 2, 9), Ok(()));
    assert_eq!(manager.created_at(&"a".to_string()), Some(9));
}

#[test]
fn fail_all_hands_back_every_sink_oldest_first() {
    let mut manager: TransactionManager<u32> = TransactionManager::new();
    manager.insert("c".to_string(), 30, 0).unwrap();
    manager.insert("a".to_string(), 10, 0).unwrap();
    manager.insert("b".to_string(), 20, 0).unwrap();
    assert_eq!(manager.take(&"a".to_string()), Some(10));
    assert_eq!(manager.fail_all(), vec![30, 20]);
    assert_eq!(manager.size(), 0);
    assert_eq!(manager.fail_all(), Vec::<u32>::new());
}

#[test]
fn register_always_succeeds_while_nothing_is_in_flight() {
    for _ in 0..20 {
        let mut manager: TransactionManager<u32> = TransactionManager::new();
        let id = manager.register(&RandomTransactionGenerator, 3, 11).unwrap();
        assert_eq!(manager.size(), 1);
        assert_eq!(manager.created_at(&id), Some(11));
        assert_eq!(manager.take(&id), Some(3));
        let again = manager.register(&Fixed("same"), 4, 12);
        assert_eq!(again, Ok("same".to_string()));
    }
}
