use std::sync::{Arc, Mutex};

use social_service::numbers::Numbers;

#[test]
fn numbers_get_gives_the_shared_list() {
    let numbers = Numbers { items: Arc::new(Mutex::new(vec![1, 2, 3])) };
    assert_eq!(numbers.get(), vec![1, 2, 3]);
    let shared = numbers.clone();
    shared.items.lock().unwrap().push(4);
    assert_eq!(numbers.get(), vec![1, 2, 3, 4]);
}

#[test]
fn numbers_default_is_empty() {
    assert_eq!(Numbers::default().get(), Vec::<i64>::new());
}
