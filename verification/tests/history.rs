use order_guard::futures::utils::amount::Amount;
use order_guard::futures::utils::order_tracking_item::OrderTrackingItem;
use order_guard::futures::utils::ranking::{Rank, Ranked};
use order_guard::futures::utils::top_n::{entries_since, entries_until, TopN, TopNEntry};
use order_guard::rest_model::OrderSide;

fn item(id: &str) -> OrderTrackingItem {
    OrderTrackingItem {
        size: Amount::new(1, 0).unwrap(),
        price: Amount::new(100, 0).unwrap(),
        side: OrderSide::Buy,
        id: id.to_string(),
    }
}

fn entry(timestamp: u64, id: &str) -> TopNEntry<OrderTrackingItem> {
    TopNEntry { timestamp, item: item(id) }
}

fn keys(entries: &Vec<TopNEntry<OrderTrackingItem>>) -> Vec<(u64, String)> {
    entries.iter().map(|e| (e.timestamp, e.item.id.clone())).collect()
}

fn key(timestamp: u64, id: &str) -> (u64, String) {
    (timestamp, id.to_string())
}

#[test]
fn keeps_all_entries_within_capacity() {
    let mut history = TopN::new(3, None);
    history.insert(entry(10, "a"));
    history.insert(entry(20, "b"));
    history.insert(entry(30, "c"));
    assert_eq!(keys(&history.get_all()), vec![key(10, "a"), key(20, "b"), key(30, "c")]);
}

#[test]
fn older_entry_leaves_a_full_history_as_it_was() {
    let mut history = TopN::new(3, None);
    history.insert(entry(10, "a"));
    history.insert(entry(20, "b"));
    history.insert(entry(30, "c"));
    history.insert(entry(5, "d"));
    assert_eq!(keys(&history.get_all()), vec![key(10, "a"), key(20, "b"), key(30, "c")]);
}

#[test]
fn newer_entry_evicts_the_oldest() {
    let mut history = TopN::new(3, None);
    for (t, id) in [(10, "a"), (20, "b"), (30, "c"), (40, "d")] {
        history.insert(entry(t, id));
    }
    assert_eq!(keys(&history.get_all()), vec![key(20, "b"), key(30, "c"), key(40, "d")]);
}

#[test]
fn entry_in_the_middle_takes_its_place() {
    let mut history = TopN::new(3, None);
    for (t, id) in [(10, "a"), (30, "c"), (40, "d"), (20, "b")] {
        history.insert(entry(t, id));
    }
    assert_eq!(keys(&history.get_all()), vec![key(20, "b"), key(30, "c"), key(40, "d")]);
}

#[test]
fn same_entry_twice_changes_nothing() {
    let mut history = TopN::new(3, None);
    history.insert(entry(10, "a"));
    history.insert(entry(20, "b"));
    history.insert(entry(20, "b"));
    assert_eq!(keys(&history.get_all()), vec![key(10, "a"), key(20, "b")]);
    history.insert(entry(30, "c"));
    history.insert(entry(30, "c"));
    assert_eq!(keys(&history.get_all()), vec![key(10, "a"), key(20, "b"), key(30, "c")]);
}

#[test]
fn evicted_entry_put_in_again_is_evicted_again() {
    let mut history = TopN::new(2, None);
    history.insert(entry(10, "a"));
    history.insert(entry(20, "b"));
    history.insert(entry(5, "c"));
    history.insert(entry(5, "c"));
    assert_eq!(keys(&history.get_all()), vec![key(10, "a"), key(20, "b")]);
}

#[test]
fn same_timestamp_with_other_item_is_another_entry() {
    let mut history = TopN::new(5, None);
    history.insert(entry(10, "b"));
    history.insert(entry(10, "a"));
    history.insert(entry(10, "b"));
    assert_eq!(keys(&history.get_all()), vec![key(10, "a"), key(10, "b")]);
}

#[test]
fn keeps_the_largest_of_all_that_was_put_in() {
    let mut history = TopN::new(3, None);
    let mut most = 0;
    for (t, id) in [(5, "e"), (1, "a"), (9, "i"), (3, "c"), (7, "g"), (9, "i"), (2, "b")] {
        history.insert(entry(t, id));
        most = most.max(history.get_all().len());
    }
    assert_eq!(most, 3);
    assert_eq!(keys(&history.get_all()), vec![key(5, "e"), key(7, "g"), key(9, "i")]);
}

#[test]
fn capacity_zero_keeps_nothing() {
    let mut history = TopN::new(0, None);
    history.insert(entry(10, "a"));
    assert!(history.is_empty());
    assert_eq!(history.get_capacity(), 0);
}

#[test]
fn snapshot_gives_the_history_back() {
    let mut history = TopN::new(4, None);
    for (t, id) in [(30, "c"), (10, "a"), (20, "b"), (20, "a")] {
        history.insert(entry(t, id));
    }
    let restored = TopN::new(history.get_capacity(), Some(history.get_all()));
    assert_eq!(keys(&restored.get_all()), keys(&history.get_all()));
    assert_eq!(restored.get_capacity(), 4);
    let again = TopN::new(4, Some(restored.get_all()));
    assert_eq!(keys(&again.get_all()), keys(&history.get_all()));
}

#[test]
fn new_orders_entries_and_drops_repeats() {
    let history =
        TopN::new(10, Some(vec![entry(30, "c"), entry(10, "a"), entry(30, "c"), entry(20, "b")]));
    assert_eq!(keys(&history.get_all()), vec![key(10, "a"), key(20, "b"), key(30, "c")]);
}

#[test]
fn new_keeps_no_more_than_the_capacity() {
    let history =
        TopN::new(2, Some(vec![entry(10, "a"), entry(20, "b"), entry(30, "c"), entry(40, "d")]));
    assert_eq!(keys(&history.get_all()), vec![key(30, "c"), key(40, "d")]);
}

#[test]
fn new_without_entries_is_empty() {
    let history: TopN<OrderTrackingItem> = TopN::new(7, None);
    assert!(history.is_empty());
    assert_eq!(history.get_capacity(), 7);
    assert!(history.get_all().is_empty());
}

#[test]
fn queries_by_timestamp() {
    let mut history = TopN::new(5, None);
    for (t, id) in [(10, "a"), (20, "b"), (30, "c")] {
        history.insert(entry(t, id));
    }
    assert_eq!(keys(&history.get_gte_timestamp(20)), vec![key(20, "b"), key(30, "c")]);
    assert_eq!(keys(&history.get_gte_timestamp(31)), vec![]);
    assert_eq!(keys(&history.get_gte_timestamp(0)).len(), 3);
    assert_eq!(keys(&history.get_lte_timestamp(20)), vec![key(10, "a"), key(20, "b")]);
    assert_eq!(keys(&history.get_lte_timestamp(9)), vec![]);
    assert_eq!(keys(&entries_since(&history.get_all(), 30)), vec![key(30, "c")]);
    assert_eq!(keys(&entries_until(&history.get_all(), 10)), vec![key(10, "a")]);
}

#[test]
fn clear_empties_and_keeps_the_capacity() {
    let mut history = TopN::new(5, None);
    history.insert(entry(10, "a"));
    assert!(!history.is_empty());
    history.clear();
    assert!(history.is_empty());
    assert_eq!(history.get_capacity(), 5);
}

#[test]
fn entries_rank_by_time_then_item() {
    assert_eq!(entry(1, "z").rank(&entry(2, "a")), Rank::Before);
    assert_eq!(entry(2, "a").rank(&entry(1, "z")), Rank::After);
    assert_eq!(entry(2, "a").rank(&entry(2, "b")), Rank::Before);
    assert_eq!(entry(2, "a").rank(&entry(2, "a")), Rank::Same);
}

#[test]
fn items_rank_by_id_price_size_side() {
    let base = item("m");
    let mut other = item("m");
    assert_eq!(base.rank(&other), Rank::Same);
    other.side = OrderSide::Sell;
    assert_eq!(base.rank(&other), Rank::Before);
    other.size = Amount::new(0, 0).unwrap();
    assert_eq!(base.rank(&other), Rank::After);
    other.price = Amount::new(101, 0).unwrap();
    assert_eq!(base.rank(&other), Rank::Before);
    other.id = "a".to_string();
    assert_eq!(base.rank(&other), Rank::After);
}

#[test]
fn ids_rank_by_code_point_and_prefix_first() {
    assert_eq!(item("a").rank(&item("b")), Rank::Before);
    assert_eq!(item("b").rank(&item("a")), Rank::After);
    assert_eq!(item("a").rank(&item("ab")), Rank::Before);
    assert_eq!(item("").rank(&item("a")), Rank::Before);
    assert_eq!(item("Z").rank(&item("a")), Rank::Before);
    assert_eq!(item("z").rank(&item("\u{e9}")), Rank::Before);
    assert_eq!(item("\u{ffff}").rank(&item("\u{10000}")), Rank::Before);
    assert_eq!(item("same").rank(&item("same")), Rank::Same);
}

#[test]
fn items_with_the_same_values_at_other_scales_are_tied() {
    let mut other = item("m");
    other.size = Amount::new(100, 2).unwrap();
    other.price = Amount::new(1000, 1).unwrap();
    assert_eq!(item("m").rank(&other), Rank::Same);
    let mut history = TopN::new(5, None);
    history.insert(TopNEntry { timestamp: 1, item: item("m") });
    history.insert(TopNEntry { timestamp: 1, item: other });
    assert_eq!(history.get_all().len(), 1);
    assert_eq!(history.get_all()[0].item.size.scale(), 0);
}

#[test]
fn duplicate_copies_every_field() {
    let e = TopNEntry {
        timestamp: 42,
        item: OrderTrackingItem {
            size: Amount::new(15, 1).unwrap(),
            price: Amount::new(-3, 0).unwrap(),
            side: OrderSide::Sell,
            id: "x-1".to_string(),
        },
    };
    let d = e.duplicate();
    assert_eq!(d.timestamp, 42);
    assert_eq!(d.item.id, "x-1");
    assert_eq!(d.item.side, OrderSide::Sell);
    assert_eq!((d.item.size.mantissa(), d.item.size.scale()), (15, 1));
    assert_eq!((d.item.price.mantissa(), d.item.price.scale()), (-3, 0));
}

fn numbered(timestamp: u64, item: u32) -> TopNEntry<u32> {
    TopNEntry { timestamp, item }
}

fn pairs(history: &TopN<u32>) -> Vec<(u64, u32)> {
    history.get_all().iter().map(|e| (e.timestamp, e.item)).collect()
}

#[test]
fn numbers_rank_by_size() {
    assert_eq!(3u32.rank(&4), Rank::Before);
    assert_eq!(4u32.rank(&3), Rank::After);
    assert_eq!(4u32.rank(&4), Rank::Same);
    assert_eq!(0u64.rank(&u64::MAX), Rank::Before);
    assert_eq!(u64::MAX.rank(&0), Rank::After);
    assert_eq!(7u64.rank(&7), Rank::Same);
    assert_eq!(9u32.duplicate(), 9);
    assert_eq!(u64::MAX.duplicate(), u64::MAX);
}

#[test]
fn history_of_numbers_keeps_three_and_turns_the_older_away() {
    let mut history: TopN<u32> = TopN::new(3, None);
    history.insert(numbered(10, 1));
    history.insert(numbered(20, 2));
    history.insert(numbered(30, 3));
    assert_eq!(pairs(&history), vec![(10, 1), (20, 2), (30, 3)]);
    history.insert(numbered(5, 4));
    assert_eq!(pairs(&history), vec![(10, 1), (20, 2), (30, 3)]);
    history.insert(numbered(40, 0));
    assert_eq!(pairs(&history), vec![(20, 2), (30, 3), (40, 0)]);
}

#[test]
fn history_of_numbers_tells_items_of_one_time_apart() {
    let mut history: TopN<u64> = TopN::new(4, None);
    for (t, item) in [(10, 7u64), (10, 3), (10, 7), (9, 100)] {
        history.insert(TopNEntry { timestamp: t, item });
    }
    let held: Vec<(u64, u64)> = history.get_all().iter().map(|e| (e.timestamp, e.item)).collect();
    assert_eq!(held, vec![(9, 100), (10, 3), (10, 7)]);
    assert_eq!(TopN::new(4, Some(history.get_all())), history);
}
