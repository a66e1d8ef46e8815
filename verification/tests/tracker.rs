use order_guard::errors::{Error, Field};
use order_guard::futures::account::OrderRequest;
use order_guard::futures::rest_model::OrderType;
use order_guard::futures::utils::amount::Amount;
use order_guard::futures::utils::order_tracker::{
    add_order_tracking_item, get_file_path, new_tracking_entry, record_entry, tracking_entry,
    write_decimal,
    TOP_N_ORDER_TRACKING_CAPACITY,
};
use order_guard::futures::utils::order_tracking_item::OrderTrackingItem;
use order_guard::futures::utils::top_n::{TopN, TopNEntry};
use order_guard::rest_model::OrderSide;

fn amount(units: i128, places: u32) -> Amount {
    Amount::new(units, places).unwrap()
}

fn request(quantity: Option<Amount>, price: Option<Amount>) -> OrderRequest {
    OrderRequest {
        symbol: "X".to_string(),
        side: OrderSide::Sell,
        position_side: None,
        order_type: OrderType::Limit,
        time_in_force: None,
        quantity,
        reduce_only: None,
        price,
        stop_price: None,
        close_position: None,
        activation_price: None,
        callback_rate: None,
        working_type: None,
        price_protect: None,
        new_client_order_id: None,
    }
}

fn entry(timestamp: u64, id: &str) -> TopNEntry<OrderTrackingItem> {
    TopNEntry {
        timestamp,
        item: OrderTrackingItem {
            size: amount(1, 0),
            price: amount(1, 0),
            side: OrderSide::Buy,
            id: id.to_string(),
        },
    }
}

fn stamps(history: &TopN<OrderTrackingItem>) -> Vec<u64> {
    history.get_all().iter().map(|e| e.timestamp).collect()
}

#[test]
fn numbers_are_written_in_decimal() {
    assert_eq!(write_decimal(0), "0");
    assert_eq!(write_decimal(7), "7");
    assert_eq!(write_decimal(10), "10");
    assert_eq!(write_decimal(1234567890), "1234567890");
    assert_eq!(write_decimal(u64::MAX), "18446744073709551615");
}

#[test]
fn file_is_named_after_the_symbol() {
    assert_eq!(get_file_path(&"BTCUSDT".to_string()), "order_tracker_BTCUSDT.json");
    assert_eq!(get_file_path(&String::new()), "order_tracker_.json");
}

#[test]
fn default_history_has_the_tracking_capacity() {
    let history: TopN<OrderTrackingItem> = TopN::default();
    assert_eq!(history.get_capacity(), 3000);
    assert_eq!(TOP_N_ORDER_TRACKING_CAPACITY, 3000);
    assert!(history.is_empty());
}

#[test]
fn order_without_size_or_price_is_not_tracked() {
    assert!(matches!(
        tracking_entry(&request(None, Some(amount(100, 0))), 5, "t".to_string()),
        Err(Error::MissingField(Field::Size))
    ));
    assert!(matches!(
        tracking_entry(&request(Some(amount(10, 0)), None), 5, "t".to_string()),
        Err(Error::MissingField(Field::Price))
    ));
    assert!(matches!(
        tracking_entry(&request(None, None), 5, "t".to_string()),
        Err(Error::MissingField(Field::Size))
    ));
    let mut history = TopN::new(3, None);
    history.insert(entry(1, "a"));
    assert!(matches!(
        add_order_tracking_item(&mut history, None, &request(None, None), 5),
        Err(Error::MissingField(Field::Size))
    ));
    assert!(matches!(
        add_order_tracking_item(&mut history, Some(vec![entry(2, "b")]), &request(Some(amount(1, 0)), None), 5),
        Err(Error::MissingField(Field::Price))
    ));
    assert_eq!(stamps(&history), vec![1]);
}

#[test]
fn tracked_order_carries_the_request_and_an_id_of_token_and_time() {
    let e = tracking_entry(&request(Some(amount(105, 1)), Some(amount(100, 0))), 1234, "tok".to_string())
        .unwrap();
    assert_eq!(e.timestamp, 1234);
    assert_eq!(e.item.id, "tok-1234");
    assert_eq!(e.item.side, OrderSide::Sell);
    assert_eq!((e.item.size.mantissa(), e.item.size.scale()), (105, 1));
    assert_eq!((e.item.price.mantissa(), e.item.price.scale()), (100, 0));
}

#[test]
fn recorded_orders_get_fresh_ids() {
    let mut history = TopN::new(5, None);
    let r = request(Some(amount(10, 0)), Some(amount(100, 0)));
    let a = add_order_tracking_item(&mut history, None, &r, 77).unwrap();
    let b = add_order_tracking_item(&mut history, None, &r, 77).unwrap();
    assert!(a.item.id.ends_with("-77"));
    assert!(b.item.id.ends_with("-77"));
    assert!(a.item.id.len() > 3);
    assert_ne!(a.item.id, b.item.id);
    assert_eq!(stamps(&history), vec![77, 77]);
}

#[test]
fn empty_history_takes_up_what_was_stored() {
    let mut history = TopN::new(3, None);
    let r = request(Some(amount(10, 0)), Some(amount(100, 0)));
    let e = add_order_tracking_item(&mut history, Some(vec![entry(20, "b"), entry(10, "a")]), &r, 30)
        .unwrap();
    assert_eq!(e.timestamp, 30);
    assert_eq!(stamps(&history), vec![10, 20, 30]);
    assert_eq!(history.get_capacity(), 3);
    add_order_tracking_item(&mut history, Some(vec![entry(1, "z")]), &r, 40).unwrap();
    assert_eq!(stamps(&history), vec![20, 30, 40]);
}

#[test]
fn record_entry_warms_only_an_empty_history() {
    let mut history = TopN::new(4, None);
    record_entry(&mut history, None, &entry(5, "e"));
    assert_eq!(stamps(&history), vec![5]);
    record_entry(&mut history, Some(vec![entry(1, "a")]), &entry(6, "f"));
    assert_eq!(stamps(&history), vec![5, 6]);
    let mut cold = TopN::new(2, None);
    record_entry(&mut cold, Some(vec![entry(1, "a"), entry(2, "b"), entry(3, "c")]), &entry(4, "d"));
    assert_eq!(stamps(&cold), vec![3, 4]);
}

#[test]
fn new_entries_are_stamped_and_named_afresh() {
    let r = request(Some(amount(10, 0)), Some(amount(100, 0)));
    let a = new_tracking_entry(&r, 1_700_000_000_000_000_000).unwrap();
    let b = new_tracking_entry(&r, 1_700_000_000_000_000_000).unwrap();
    assert_eq!(a.timestamp, 1_700_000_000_000_000_000);
    assert!(a.item.id.ends_with("-1700000000000000000"));
    assert_ne!(a.item.id, b.item.id);
    assert_eq!(a.item.side, OrderSide::Sell);
    assert!(matches!(
        new_tracking_entry(&request(None, None), 1),
        Err(Error::MissingField(Field::Size))
    ));
    assert!(matches!(
        new_tracking_entry(&request(Some(amount(1, 0)), None), 1),
        Err(Error::MissingField(Field::Price))
    ));
}
