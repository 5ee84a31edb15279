//! The events that the feed delivers.

use vstd::prelude::*;
use crate::decimal::{decimal_of, parse_decimal, Decimal};

verus! {

/// A stream of the feed, by the symbol it reports on.
#[derive(Clone, Debug, PartialEq, Eq)]
pub enum WsChannel {
    DepthOrderbook(String),
    BookTicker(String),
}

/// The kinds of order-book event; on the wire, `depthUpdate`.
#[derive(Clone, Copy, Debug, PartialEq, Eq, Structural)]
pub enum OrderbookEventType {
    DepthUpdate,
}

/// The best bid and ask quoted for a symbol. Prices and quantities are kept
/// as the decimal texts that the feed sent; in a decoded value each of them
/// reads as a decimal.
#[derive(Clone, Debug, PartialEq, Eq)]
pub struct BookTickerData {
    pub update_id: u64,
    pub symbol: String,
    pub best_bid: String,
    pub best_bid_qty: String,
    pub best_ask: String,
    pub best_ask_qty: String,
}

/// An incremental update of an order book, for the update ids from
/// `first_update_id` to `final_update_id`. Each level is a price and a
/// quantity.
#[derive(Clone, Debug, PartialEq, Eq)]
pub struct DepthOrderbookData {
    pub event_type: OrderbookEventType,
    pub event_time: u64,
    pub symbol: String,
    pub first_update_id: u64,
    pub final_update_id: u64,
    pub previous_final_update_id: Option<u64>,
    pub bids: Vec<(Decimal, Decimal)>,
    pub asks: Vec<(Decimal, Decimal)>,
}

/// A decoded message of the feed.
#[derive(Clone, Debug, PartialEq, Eq)]
pub enum WsDataEvent {
    DepthOrderbook(DepthOrderbookData),
    BookTicker(BookTickerData),
}

/// What a `BookTickerData` holds.
pub struct TickerModel {
    pub update_id: u64,
    pub symbol: Seq<char>,
    pub best_bid: Seq<char>,
    pub best_bid_qty: Seq<char>,
    pub best_ask: Seq<char>,
    pub best_ask_qty: Seq<char>,
}

/// What a `DepthOrderbookData` holds.
pub struct DepthModel {
    pub event_time: u64,
    pub symbol: Seq<char>,
    pub first_update_id: u64,
    pub final_update_id: u64,
    pub previous_final_update_id: Option<u64>,
    pub bids: Seq<(Decimal, Decimal)>,
    pub asks: Seq<(Decimal, Decimal)>,
}

/// What a `WsDataEvent` holds.
pub enum EventModel {
    DepthOrderbook(DepthModel),
    BookTicker(TickerModel),
}

impl View for BookTickerData {
    type V = TickerModel;

    open spec fn view(&self) -> TickerModel {
        TickerModel {
            update_id: self.update_id,
            symbol: self.symbol@,
            best_bid: self.best_bid@,
            best_bid_qty: self.best_bid_qty@,
            best_ask: self.best_ask@,
            best_ask_qty: self.best_ask_qty@,
        }
    }
}

impl View for DepthOrderbookData {
    type V = DepthModel;

    open spec fn view(&self) -> DepthModel {
        DepthModel {
            event_time: self.event_time,
            symbol: self.symbol@,
            first_update_id: self.first_update_id,
            final_update_id: self.final_update_id,
            previous_final_update_id: self.previous_final_update_id,
            bids: self.bids@,
            asks: self.asks@,
        }
    }
}

impl View for WsDataEvent {
    type V = EventModel;

    open spec fn view(&self) -> EventModel {
        match self {
            WsDataEvent::DepthOrderbook(d) => EventModel::DepthOrderbook(d@),
            WsDataEvent::BookTicker(t) => EventModel::BookTicker(t@),
        }
    }
}

/// A price and a quantity, both within the bounds of a decimal.
pub open spec fn level_wf(level: (Decimal, Decimal)) -> bool {
    level.0.wf() && level.1.wf()
}

/// The decimals that two texts stand for, where both stand for one.
pub open spec fn level_of_texts(price: Seq<char>, quantity: Seq<char>) -> Option<(Decimal, Decimal)> {
    match (decimal_of(price), decimal_of(quantity)) {
        (Some(p), Some(q)) => Some((p, q)),
        _ => None,
    }
}

impl TickerModel {
    /// Each price and quantity reads as a decimal.
    pub open spec fn wf(self) -> bool {
        &&& decimal_of(self.best_bid) is Some
        &&& decimal_of(self.best_bid_qty) is Some
        &&& decimal_of(self.best_ask) is Some
        &&& decimal_of(self.best_ask_qty) is Some
    }
}

impl DepthModel {
    /// Every level is within the bounds of a decimal.
    pub open spec fn wf(self) -> bool {
        &&& forall|i: int| 0 <= i < self.bids.len() ==> level_wf(#[trigger] self.bids[i])
        &&& forall|i: int| 0 <= i < self.asks.len() ==> level_wf(#[trigger] self.asks[i])
    }
}

impl EventModel {
    /// The event is a well-formed one of its kind.
    pub open spec fn wf(self) -> bool {
        match self {
            EventModel::DepthOrderbook(d) => d.wf(),
            EventModel::BookTicker(t) => t.wf(),
        }
    }
}

impl BookTickerData {
    /// The best bid and the best ask as levels of exact decimals; `None`
    /// where one of the four texts is no decimal.
    pub fn levels(&self) -> (r: Option<((Decimal, Decimal), (Decimal, Decimal))>)
        ensures
            r == match (
                level_of_texts(self.best_bid@, self.best_bid_qty@),
                level_of_texts(self.best_ask@, self.best_ask_qty@),
            ) {
                (Some(bid), Some(ask)) => Some((bid, ask)),
                _ => None,
            },
            self@.wf() ==> r is Some,
            r matches Some(levels) ==> level_wf(levels.0) && level_wf(levels.1),
    {
        let bid = parse_decimal(self.best_bid.as_str());
        let bid_qty = parse_decimal(self.best_bid_qty.as_str());
        let ask = parse_decimal(self.best_ask.as_str());
        let ask_qty = parse_decimal(self.best_ask_qty.as_str());
        match (bid, bid_qty, ask, ask_qty) {
            (Some(bid), Some(bid_qty), Some(ask), Some(ask_qty)) => Some(
                ((bid, bid_qty), (ask, ask_qty)),
            ),
            _ => None,
        }
    }
}

} // verus!
