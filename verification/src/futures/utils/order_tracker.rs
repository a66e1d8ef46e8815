//! Recording submitted orders in the history of their symbol.

use vstd::prelude::*;
use vstd::string::*;
use crate::errors::{Error, Field};
use crate::futures::account::OrderRequest;
use crate::futures::utils::order_tracking_item::OrderTrackingItem;
use crate::futures::utils::ranking::Ranked;
use crate::futures::utils::slots::{find_slot, open_slots};
use crate::futures::utils::top_n::{after_all, ascending, since, with_entry, TopN, TopNEntry};

verus! {

/// How many orders the history of a symbol keeps.
pub const TOP_N_ORDER_TRACKING_CAPACITY: usize = 3000;

impl Default for TopN<OrderTrackingItem> {
    fn default() -> (r: Self)
        ensures
            r.wf(),
            r.cap() == TOP_N_ORDER_TRACKING_CAPACITY,
            r@.len() == 0,
    {
        TopN::new(TOP_N_ORDER_TRACKING_CAPACITY, None)
    }
}

/// The character of a digit.
pub open spec fn digit(d: int) -> char {
    if d == 0 {
        '0'
    } else if d == 1 {
        '1'
    } else if d == 2 {
        '2'
    } else if d == 3 {
        '3'
    } else if d == 4 {
        '4'
    } else if d == 5 {
        '5'
    } else if d == 6 {
        '6'
    } else if d == 7 {
        '7'
    } else if d == 8 {
        '8'
    } else {
        '9'
    }
}

/// A number written in decimal, without leading zeros.
pub open spec fn decimal_text(n: nat) -> Seq<char>
    decreases n,
{
    if n < 10 {
        seq![digit(n as int)]
    } else {
        decimal_text(n / 10).push(digit((n % 10) as int))
    }
}

/// The name of the file that holds the history of a symbol.
pub open spec fn file_name(order_symbol: Seq<char>) -> Seq<char> {
    "order_tracker_"@ + order_symbol + ".json"@
}

/// The id of an order tracked at `timestamp_nanos`: a token, a hyphen and
/// the time.
pub open spec fn tracking_id(token: Seq<char>, timestamp_nanos: u64) -> Seq<char> {
    token + "-"@ + decimal_text(timestamp_nanos as nat)
}

/// The history as it is when an order arrives: what was stored for the
/// symbol, put into a history of the same capacity, if the history is empty
/// and something was stored; the history itself otherwise.
pub open spec fn warmed(
    held: Seq<TopNEntry<OrderTrackingItem>>,
    stored: Option<Vec<TopNEntry<OrderTrackingItem>>>,
    capacity: nat,
) -> Seq<TopNEntry<OrderTrackingItem>> {
    match stored {
        Some(entries) => if held.len() == 0 {
            after_all(entries@, capacity)
        } else {
            held
        },
        None => held,
    }
}

fn digit_text(d: u64) -> (r: &'static str)
    requires
        d < 10,
    ensures
        r@ == seq![digit(d as int)],
{
    proof {
        reveal_strlit("0");
        reveal_strlit("1");
        reveal_strlit("2");
        reveal_strlit("3");
        reveal_strlit("4");
        reveal_strlit("5");
        reveal_strlit("6");
        reveal_strlit("7");
        reveal_strlit("8");
        reveal_strlit("9");
    }
    let r = if d == 0 {
        "0"
    } else if d == 1 {
        "1"
    } else if d == 2 {
        "2"
    } else if d == 3 {
        "3"
    } else if d == 4 {
        "4"
    } else if d == 5 {
        "5"
    } else if d == 6 {
        "6"
    } else if d == 7 {
        "7"
    } else if d == 8 {
        "8"
    } else {
        "9"
    };
    assert(r@ =~= seq![digit(d as int)]);
    r
}

/// Writes a number in decimal.
pub fn write_decimal(n: u64) -> (r: String)
    ensures
        r@ == decimal_text(n as nat),
    decreases n,
{
    if n < 10 {
        digit_text(n).to_owned()
    } else {
        let r = write_decimal(n / 10).concat(digit_text(n % 10));
        assert(r@ =~= decimal_text((n / 10) as nat).push(digit((n % 10) as int)));
        r
    }
}

/// The name of the file that holds the history of a symbol.
pub fn get_file_path(order_symbol: &String) -> (r: String)
    ensures
        r@ == file_name(order_symbol@),
{
    "order_tracker_".to_owned().concat(order_symbol.as_str()).concat(".json")
}

/// A fresh random token in text form, from `uuid::Uuid::new_v4`. Nothing is
/// claimed of it: it differs from call to call.
#[verifier::external_body]
fn fresh_token() -> (token: String) {
    uuid::Uuid::new_v4().to_string()
}

/// What is recorded of an order submitted at `timestamp_nanos`, its id made
/// of `token` and the time. An order without a size or without a price
/// cannot be tracked.
pub fn tracking_entry(order_request: &OrderRequest, timestamp_nanos: u64, token: String) -> (r:
    Result<TopNEntry<OrderTrackingItem>, Error>)
    ensures
        order_request.quantity is None ==> r == Err::<TopNEntry<OrderTrackingItem>, Error>(
            Error::MissingField(Field::Size),
        ),
        order_request.quantity is Some && order_request.price is None ==> r == Err::<
            TopNEntry<OrderTrackingItem>,
            Error,
        >(Error::MissingField(Field::Price)),
        order_request.quantity is Some && order_request.price is Some ==> r is Ok && r->Ok_0.timestamp
            == timestamp_nanos && r->Ok_0.item.size == order_request.quantity->0
            && r->Ok_0.item.price == order_request.price->0 && r->Ok_0.item.side
            == order_request.side && r->Ok_0.item.id@ == tracking_id(token@, timestamp_nanos),
{
    let size = match order_request.quantity {
        Some(quantity) => quantity,
        None => {
            return Err(Error::MissingField(Field::Size));
        },
    };
    let price = match order_request.price {
        Some(price) => price,
        None => {
            return Err(Error::MissingField(Field::Price));
        },
    };
    let time = write_decimal(timestamp_nanos);
    let id = token.concat("-").concat(time.as_str());
    Ok(
        TopNEntry {
            timestamp: timestamp_nanos,
            item: OrderTrackingItem { size, price, side: order_request.side, id },
        },
    )
}

/// What is recorded of an order submitted at `timestamp_nanos`, under a
/// fresh id. An order without a size or without a price cannot be tracked.
pub fn new_tracking_entry(order_request: &OrderRequest, timestamp_nanos: u64) -> (r: Result<
    TopNEntry<OrderTrackingItem>,
    Error,
>)
    ensures
        order_request.quantity is None ==> r == Err::<TopNEntry<OrderTrackingItem>, Error>(
            Error::MissingField(Field::Size),
        ),
        order_request.quantity is Some && order_request.price is None ==> r == Err::<
            TopNEntry<OrderTrackingItem>,
            Error,
        >(Error::MissingField(Field::Price)),
        order_request.quantity is Some && order_request.price is Some ==> r is Ok && r->Ok_0.timestamp
            == timestamp_nanos && r->Ok_0.item.size == order_request.quantity->0
            && r->Ok_0.item.price == order_request.price->0 && r->Ok_0.item.side
            == order_request.side && (exists|token: Seq<char>|
            r->Ok_0.item.id@ == tracking_id(token, timestamp_nanos)),
{
    let token = fresh_token();
    let ghost token_text = token@;
    let r = tracking_entry(order_request, timestamp_nanos, token);
    assert(r is Ok ==> r->Ok_0.item.id@ == tracking_id(token_text, timestamp_nanos));
    r
}

/// Records an order submitted at `timestamp_nanos` in the history of its
/// symbol and returns what was recorded, under a fresh id. `stored` is what
/// was found stored for the symbol: an empty history takes it up before the
/// order goes in. An order without a size or a price is turned down and
/// the history stays as it was.
pub fn add_order_tracking_item(
    history: &mut TopN<OrderTrackingItem>,
    stored: Option<Vec<TopNEntry<OrderTrackingItem>>>,
    order_request: &OrderRequest,
    timestamp_nanos: u64,
) -> (r: Result<TopNEntry<OrderTrackingItem>, Error>)
    ensures
        final(history).wf(),
        final(history).cap() == old(history).cap(),
        order_request.quantity is None ==> r == Err::<TopNEntry<OrderTrackingItem>, Error>(
            Error::MissingField(Field::Size),
        ),
        order_request.quantity is Some && order_request.price is None ==> r == Err::<
            TopNEntry<OrderTrackingItem>,
            Error,
        >(Error::MissingField(Field::Price)),
        r is Err ==> final(history)@ == old(history)@,
        order_request.quantity is Some && order_request.price is Some ==> r is Ok && r->Ok_0.timestamp
            == timestamp_nanos && r->Ok_0.item.size == order_request.quantity->0
            && r->Ok_0.item.price == order_request.price->0 && r->Ok_0.item.side
            == order_request.side && (exists|token: Seq<char>|
            r->Ok_0.item.id@ == tracking_id(token, timestamp_nanos)) && final(history)@
            == with_entry(
            warmed(old(history)@, stored, old(history).cap()),
            r->Ok_0,
            old(history).cap(),
        ),
{
    proof {
        use_type_invariant(&*history);
    }
    let new_item_entry = match new_tracking_entry(order_request, timestamp_nanos) {
        Ok(entry) => entry,
        Err(e) => {
            return Err(e);
        },
    };
    record_entry(history, stored, &new_item_entry);
    Ok(new_item_entry)
}

/// Puts an entry into the history of its symbol, after an empty history
/// took up what was stored for the symbol.
pub fn record_entry(
    history: &mut TopN<OrderTrackingItem>,
    stored: Option<Vec<TopNEntry<OrderTrackingItem>>>,
    entry: &TopNEntry<OrderTrackingItem>,
)
    ensures
        final(history).wf(),
        final(history).cap() == old(history).cap(),
        final(history)@ == with_entry(
            warmed(old(history)@, stored, old(history).cap()),
            *entry,
            old(history).cap(),
        ),
{
    match stored {
        Some(entries) => {
            if history.is_empty() {
                let loaded_top_n = TopN::new(history.get_capacity(), Some(entries));
                *history = loaded_top_n;
            }
        },
        None => {},
    }
    history.insert(entry.duplicate());
}

/// The entries of the history in a slot held for reading, oldest first.
pub uninterp spec fn found_history(
    slot: dashmap::mapref::one::Ref<String, TopN<OrderTrackingItem>>,
) -> Seq<TopNEntry<OrderTrackingItem>>;

/// The history of every symbol that had an order recorded.
pub struct OrderHistoryRegistry {
    slots: dashmap::DashMap<String, TopN<OrderTrackingItem>>,
}

/// The history in a slot held for reading, from `Ref::value`. While the
/// slot is held nobody changes what is in it.
#[verifier::external_body]
fn read_history<'a>(
    slot: &'a dashmap::mapref::one::Ref<String, TopN<OrderTrackingItem>>,
) -> (history: &'a TopN<OrderTrackingItem>)
    ensures
        history@ == found_history(*slot),
{
    slot.value()
}

impl OrderHistoryRegistry {
    /// The map that holds the histories.
    pub closed spec fn map(&self) -> dashmap::DashMap<String, TopN<OrderTrackingItem>> {
        self.slots
    }

    /// A registry in which no symbol has a history.
    pub fn new() -> (r: Self) {
        OrderHistoryRegistry { slots: open_slots() }
    }

    /// The map of the histories, for the caller that records an order: it
    /// takes hold of the symbol's slot, records the order with `record_entry`
    /// and stores the history before it lets go. Whoever holds a slot of
    /// this map must let it go before calling a function that reads the
    /// registry: the read would wait for the slot and not return.
    pub fn slots(&self) -> (r: &dashmap::DashMap<String, TopN<OrderTrackingItem>>)
        ensures
            *r == self.map(),
    {
        &self.slots
    }
}

/// What was found for a symbol, as entries: nothing for a symbol without a
/// slot; for a symbol with a slot the entries of its history, oldest first,
/// which are none where the history is empty.
pub open spec fn entries_found(
    found: Option<dashmap::mapref::one::Ref<String, TopN<OrderTrackingItem>>>,
) -> Option<Seq<TopNEntry<OrderTrackingItem>>> {
    match found {
        Some(slot) => Some(found_history(slot)),
        None => None,
    }
}

/// `r` holds the entries that `model` does.
pub open spec fn holds_entries(
    r: Option<Vec<TopNEntry<OrderTrackingItem>>>,
    model: Option<Seq<TopNEntry<OrderTrackingItem>>>,
) -> bool {
    match r {
        Some(entries) => model == Some(entries@),
        None => model is None,
    }
}

/// The entries of what was found for a symbol: `None` where no slot was
/// found, else all entries of the slot's history, oldest first.
pub fn entries_in(
    found: &Option<dashmap::mapref::one::Ref<String, TopN<OrderTrackingItem>>>,
) -> (r: Option<Vec<TopNEntry<OrderTrackingItem>>>)
    ensures
        holds_entries(r, entries_found(*found)),
        r is Some ==> ascending(r->0@),
{
    match found {
        Some(slot) => Some(read_history(slot).get_all()),
        None => None,
    }
}

/// Of the entries of what was found for a symbol, those stamped at or
/// after `timestamp`: `None` where no slot was found.
pub fn entries_since_in(
    found: &Option<dashmap::mapref::one::Ref<String, TopN<OrderTrackingItem>>>,
    timestamp: u64,
) -> (r: Option<Vec<TopNEntry<OrderTrackingItem>>>)
    ensures
        found is None ==> r is None,
        found is Some ==> r is Some && r->0@ == since(found_history(found->0), timestamp)
            && ascending(found_history(found->0)),
{
    match found {
        Some(slot) => Some(read_history(slot).get_gte_timestamp(timestamp)),
        None => None,
    }
}

/// The entries recorded for a symbol at the moment, oldest first; `None`
/// for a symbol that was never tracked. The symbol's slot is looked up in
/// the shared map, and what is returned is what `entries_in` gives for what
/// was found.
pub fn get_all_tracking_items(registry: &OrderHistoryRegistry, symbol: &String) -> (r: Option<
    Vec<TopNEntry<OrderTrackingItem>>,
>)
    ensures
        r is Some ==> ascending(r->0@),
{
    let found = find_slot(&registry.slots, symbol.as_str());
    entries_in(&found)
}

/// Of the entries recorded for a symbol at the moment, those stamped at or
/// after `timestamp`, oldest first; `None` for a symbol that was never
/// tracked. The symbol's slot is looked up in the shared map, and what is
/// returned is what `entries_since_in` gives for what was found.
pub fn get_gte_timestamp(registry: &OrderHistoryRegistry, symbol: &String, timestamp: u64) -> (r:
    Option<Vec<TopNEntry<OrderTrackingItem>>>)
    ensures
        r is Some ==> exists|entries: Seq<TopNEntry<OrderTrackingItem>>|
            ascending(entries) && r->0@ == since(entries, timestamp),
{
    let found = find_slot(&registry.slots, symbol.as_str());
    let r = entries_since_in(&found, timestamp);
    assert(r is Some ==> ascending(found_history(found->0)) && r->0@ == since(
        found_history(found->0),
        timestamp,
    ));
    r
}

} // verus!
