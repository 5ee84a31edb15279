//! From a text frame to an event: envelope peeling and shape matching.

use vstd::prelude::*;
use crate::decimal::{decimal_of, parse_decimal, Decimal};
use crate::json::{field, get, held, json_parse, lemma_field_is_member, member, parse_json, same_text, Json};
use crate::models::{
    level_wf, BookTickerData, DepthModel, DepthOrderbookData, EventModel, OrderbookEventType,
    TickerModel, WsDataEvent,
};

verus! {

/// Why a JSON document is no event.
#[derive(Clone, Copy, Debug, PartialEq, Eq, Structural)]
pub enum ShapeError {
    /// The members of one of the two shapes are there, but one of them does
    /// not hold what its shape asks for.
    Malformed,
    /// The members of neither shape are all there.
    UnknownShape,
}

/// Why a text frame is no event; each variant carries the frame's text.
#[derive(Clone, Debug, PartialEq, Eq)]
pub enum DecodeError {
    /// The text is no JSON document, or a member does not hold what its
    /// shape asks for.
    Malformed(String),
    /// The document has the members of neither shape.
    UnknownShape(String),
}

/// What a `DecodeError` holds.
pub enum DecodeErrorModel {
    Malformed(Seq<char>),
    UnknownShape(Seq<char>),
}

impl View for DecodeError {
    type V = DecodeErrorModel;

    open spec fn view(&self) -> DecodeErrorModel {
        match self {
            DecodeError::Malformed(text) => DecodeErrorModel::Malformed(text@),
            DecodeError::UnknownShape(text) => DecodeErrorModel::UnknownShape(text@),
        }
    }
}

impl DecodeError {
    /// The text of the frame that could not be decoded.
    pub fn raw_text(&self) -> (text: &String)
        ensures
            text@ == match self@ {
                DecodeErrorModel::Malformed(t) => t,
                DecodeErrorModel::UnknownShape(t) => t,
            },
    {
        match self {
            DecodeError::Malformed(text) => text,
            DecodeError::UnknownShape(text) => text,
        }
    }
}

/// The document inside all `data` envelopes: while the value is an object
/// with a member `data`, that member's value takes its place.
pub open spec fn payload(v: Json) -> Json
    decreases v,
    via payload_descends
{
    match get(v, "data"@) {
        Some(inner) => payload(inner),
        None => v,
    }
}

#[via_fn]
proof fn payload_descends(v: Json) {
    lemma_member_is_smaller(v, "data"@);
}

/// A member's value is a smaller tree than the object that holds it.
pub proof fn lemma_member_is_smaller(v: Json, key: Seq<char>)
    ensures
        get(v, key) matches Some(inner) ==> decreases_to!(v => inner),
{
    broadcast use vstd::std_specs::vec::axiom_vec_index_decreases;

    if let Json::Object(members) = v {
        lemma_field_is_member(members@, key);
        if let Some(inner) = field(members@, key) {
            let i = choose|i: int|
                0 <= i < members@.len() && members@[i].name@ == key && #[trigger] members@[i].value
                    == inner;
            assert(decreases_to!(v => members));
            assert(decreases_to!(members => members[i]));
            assert(decreases_to!(members[i] => members[i].value));
        }
    }
}

/// The number that an unsigned-integer member holds.
pub open spec fn as_u64(found: Option<Json>) -> Option<u64> {
    match found {
        Some(Json::Unsigned(n)) => Some(n),
        _ => None,
    }
}

/// The number that an optional unsigned-integer member holds: a member that
/// is absent or `null` holds none.
pub open spec fn as_optional_u64(found: Option<Json>) -> Option<Option<u64>> {
    match found {
        None => Some(None),
        Some(Json::Null) => Some(None),
        Some(Json::Unsigned(n)) => Some(Some(n)),
        _ => None,
    }
}

/// The text that a string member holds.
pub open spec fn as_text(found: Option<Json>) -> Option<Seq<char>> {
    match found {
        Some(Json::Text(s)) => Some(s@),
        _ => None,
    }
}

/// The text that a string member holds, where it stands for a decimal.
pub open spec fn as_decimal_text(found: Option<Json>) -> Option<Seq<char>> {
    match found {
        Some(Json::Text(s)) => if decimal_of(s@) is Some {
            Some(s@)
        } else {
            None
        },
        _ => None,
    }
}

/// The decimal that a string value stands for.
pub open spec fn as_decimal(v: Json) -> Option<Decimal> {
    match v {
        Json::Text(s) => decimal_of(s@),
        _ => None,
    }
}

/// The price level that an array of exactly two decimal strings stands for.
pub open spec fn level_of(v: Json) -> Option<(Decimal, Decimal)> {
    match v {
        Json::Array(pair) => if pair@.len() == 2 {
            match (as_decimal(pair@[0]), as_decimal(pair@[1])) {
                (Some(price), Some(quantity)) => Some((price, quantity)),
                _ => None,
            }
        } else {
            None
        },
        _ => None,
    }
}

/// The price levels of a sequence of values, in their order, where every one
/// of them is a level.
pub open spec fn levels_of(items: Seq<Json>) -> Option<Seq<(Decimal, Decimal)>> {
    if forall|i: int| 0 <= i < items.len() ==> (#[trigger] level_of(items[i])) is Some {
        Some(Seq::new(items.len(), |i: int| level_of(items[i]).unwrap()))
    } else {
        None
    }
}

/// The price levels that an array member holds.
pub open spec fn as_levels(found: Option<Json>) -> Option<Seq<(Decimal, Decimal)>> {
    match found {
        Some(Json::Array(items)) => levels_of(items@),
        _ => None,
    }
}

/// All the members that an order-book delta must have are there.
pub open spec fn has_depth_members(p: Json) -> bool {
    &&& get(p, "e"@) is Some
    &&& get(p, "E"@) is Some
    &&& get(p, "s"@) is Some
    &&& get(p, "U"@) is Some
    &&& get(p, "u"@) is Some
    &&& get(p, "b"@) is Some
    &&& get(p, "a"@) is Some
}

/// All the members that a best-bid/ask update must have are there.
pub open spec fn has_ticker_members(p: Json) -> bool {
    &&& get(p, "u"@) is Some
    &&& get(p, "s"@) is Some
    &&& get(p, "b"@) is Some
    &&& get(p, "B"@) is Some
    &&& get(p, "a"@) is Some
    &&& get(p, "A"@) is Some
}

/// The order-book delta that `p` is, where every member of that shape is
/// there and holds what the shape asks for. Other members are ignored.
pub open spec fn depth_of(p: Json) -> Option<DepthModel> {
    if as_text(get(p, "e"@)) == Some("depthUpdate"@)
        && as_u64(get(p, "E"@)) is Some
        && as_text(get(p, "s"@)) is Some
        && as_u64(get(p, "U"@)) is Some
        && as_u64(get(p, "u"@)) is Some
        && as_optional_u64(get(p, "pu"@)) is Some
        && as_levels(get(p, "b"@)) is Some
        && as_levels(get(p, "a"@)) is Some
    {
        Some(
            DepthModel {
                event_time: as_u64(get(p, "E"@)).unwrap(),
                symbol: as_text(get(p, "s"@)).unwrap(),
                first_update_id: as_u64(get(p, "U"@)).unwrap(),
                final_update_id: as_u64(get(p, "u"@)).unwrap(),
                previous_final_update_id: as_optional_u64(get(p, "pu"@)).unwrap(),
                bids: as_levels(get(p, "b"@)).unwrap(),
                asks: as_levels(get(p, "a"@)).unwrap(),
            },
        )
    } else {
        None
    }
}

/// The best-bid/ask update that `p` is, where every member of that shape is
/// there and holds what the shape asks for: prices and quantities are
/// strings that stand for decimals. Other members are ignored.
pub open spec fn ticker_of(p: Json) -> Option<TickerModel> {
    if as_u64(get(p, "u"@)) is Some
        && as_text(get(p, "s"@)) is Some
        && as_decimal_text(get(p, "b"@)) is Some
        && as_decimal_text(get(p, "B"@)) is Some
        && as_decimal_text(get(p, "a"@)) is Some
        && as_decimal_text(get(p, "A"@)) is Some
    {
        Some(
            TickerModel {
                update_id: as_u64(get(p, "u"@)).unwrap(),
                symbol: as_text(get(p, "s"@)).unwrap(),
                best_bid: as_decimal_text(get(p, "b"@)).unwrap(),
                best_bid_qty: as_decimal_text(get(p, "B"@)).unwrap(),
                best_ask: as_decimal_text(get(p, "a"@)).unwrap(),
                best_ask_qty: as_decimal_text(get(p, "A"@)).unwrap(),
            },
        )
    } else {
        None
    }
}

/// The event that a peeled document is: an order-book delta where it is
/// one, else a best-bid/ask update where it is one. A document that is
/// neither is malformed where it has all the members of one of the shapes,
/// and of unknown shape otherwise.
pub open spec fn classify(p: Json) -> Result<EventModel, ShapeError> {
    match depth_of(p) {
        Some(depth) => Ok(EventModel::DepthOrderbook(depth)),
        None => match ticker_of(p) {
            Some(ticker) => Ok(EventModel::BookTicker(ticker)),
            None => if has_depth_members(p) || has_ticker_members(p) {
                Err(ShapeError::Malformed)
            } else {
                Err(ShapeError::UnknownShape)
            },
        },
    }
}

/// The event that a document is, once its envelopes are peeled off.
pub open spec fn decode_spec(v: Json) -> Result<EventModel, ShapeError> {
    classify(payload(v))
}

/// What a text frame decodes to, given what the parser made of it.
pub open spec fn decode_parsed_spec(text: Seq<char>, parsed: Option<Json>) -> Result<
    EventModel,
    DecodeErrorModel,
> {
    match parsed {
        None => Err(DecodeErrorModel::Malformed(text)),
        Some(tree) => match decode_spec(tree) {
            Ok(event) => Ok(event),
            Err(ShapeError::Malformed) => Err(DecodeErrorModel::Malformed(text)),
            Err(ShapeError::UnknownShape) => Err(DecodeErrorModel::UnknownShape(text)),
        },
    }
}

/// What a text frame decodes to.
pub open spec fn parse_msg_spec(text: Seq<char>) -> Result<EventModel, DecodeErrorModel> {
    decode_parsed_spec(text, json_parse(text))
}

/// The model of a decoding result.
pub open spec fn outcome(r: Result<WsDataEvent, DecodeError>) -> Result<EventModel, DecodeErrorModel> {
    match r {
        Ok(event) => Ok(event@),
        Err(e) => Err(e@),
    }
}

/// The model of a tree-decoding result.
pub open spec fn tree_outcome(r: Result<WsDataEvent, ShapeError>) -> Result<EventModel, ShapeError> {
    match r {
        Ok(event) => Ok(event@),
        Err(e) => Err(e),
    }
}

/// The view of an optional text.
pub open spec fn text_model(s: Option<String>) -> Option<Seq<char>> {
    match s {
        Some(text) => Some(text@),
        None => None,
    }
}

/// The view of optional price levels.
pub open spec fn levels_model(levels: Option<Vec<(Decimal, Decimal)>>) -> Option<
    Seq<(Decimal, Decimal)>,
> {
    match levels {
        Some(v) => Some(v@),
        None => None,
    }
}

/// Peels the `data` envelopes off a document, however many there are. Each
/// step goes into a strictly smaller tree, so the loop ends without a bound
/// on the depth, and the depth costs no stack.
pub fn peel<'a>(v: &'a Json) -> (inner: &'a Json)
    ensures
        *inner == payload(*v),
{
    let mut cur = v;
    loop
        invariant
            payload(*cur) == payload(*v),
        decreases *cur,
    {
        match member(cur, "data") {
            Some(next) => {
                proof {
                    lemma_member_is_smaller(*cur, "data"@);
                }
                cur = next;
            },
            None => {
                return cur;
            },
        }
    }
}

fn read_u64(found: Option<&Json>) -> (n: Option<u64>)
    ensures
        n == as_u64(held(found)),
{
    match found {
        Some(Json::Unsigned(n)) => Some(*n),
        _ => None,
    }
}

fn read_optional_u64(found: Option<&Json>) -> (n: Option<Option<u64>>)
    ensures
        n == as_optional_u64(held(found)),
{
    match found {
        None => Some(None),
        Some(Json::Null) => Some(None),
        Some(Json::Unsigned(n)) => Some(Some(*n)),
        _ => None,
    }
}

fn read_text(found: Option<&Json>) -> (text: Option<String>)
    ensures
        text_model(text) == as_text(held(found)),
{
    match found {
        Some(Json::Text(s)) => Some(s.clone()),
        _ => None,
    }
}

fn read_decimal_text(found: Option<&Json>) -> (text: Option<String>)
    ensures
        text_model(text) == as_decimal_text(held(found)),
{
    match found {
        Some(Json::Text(s)) => if parse_decimal(s.as_str()).is_some() {
            Some(s.clone())
        } else {
            None
        },
        _ => None,
    }
}

fn read_decimal(v: &Json) -> (d: Option<Decimal>)
    ensures
        d == as_decimal(*v),
        d matches Some(read) ==> read.wf(),
{
    match v {
        Json::Text(s) => parse_decimal(s.as_str()),
        _ => None,
    }
}

fn read_level(v: &Json) -> (level: Option<(Decimal, Decimal)>)
    ensures
        level == level_of(*v),
        level matches Some(read) ==> level_wf(read),
{
    match v {
        Json::Array(pair) => {
            if pair.len() != 2 {
                return None;
            }
            match (read_decimal(&pair[0]), read_decimal(&pair[1])) {
                (Some(price), Some(quantity)) => Some((price, quantity)),
                _ => None,
            }
        },
        _ => None,
    }
}

fn collect_levels(items: &Vec<Json>) -> (levels: Option<Vec<(Decimal, Decimal)>>)
    ensures
        levels_model(levels) == levels_of(items@),
        levels matches Some(read) ==> forall|j: int|
            0 <= j < read@.len() ==> level_wf(#[trigger] read@[j]),
{
    let mut out: Vec<(Decimal, Decimal)> = Vec::new();
    let mut i: usize = 0;
    while i < items.len()
        invariant
            i <= items.len(),
            out@.len() == i,
            forall|j: int| 0 <= j < i ==> level_of(#[trigger] items@[j]) == Some(out@[j]),
            forall|j: int| 0 <= j < i ==> level_wf(#[trigger] out@[j]),
        decreases items.len() - i,
    {
        match read_level(&items[i]) {
            Some(level) => {
                out.push(level);
            },
            None => {
                assert(level_of(items@[i as int]) is None);
                return None;
            },
        }
        i += 1;
    }
    proof {
        assert(levels_of(items@).unwrap() =~= out@);
    }
    Some(out)
}

fn read_levels(found: Option<&Json>) -> (levels: Option<Vec<(Decimal, Decimal)>>)
    ensures
        levels_model(levels) == as_levels(held(found)),
        levels matches Some(read) ==> forall|j: int|
            0 <= j < read@.len() ==> level_wf(#[trigger] read@[j]),
{
    match found {
        Some(Json::Array(items)) => collect_levels(items),
        _ => None,
    }
}

/// The view of an optional order-book delta.
pub open spec fn depth_model(d: Option<DepthOrderbookData>) -> Option<DepthModel> {
    match d {
        Some(depth) => Some(depth@),
        None => None,
    }
}

/// The view of an optional best-bid/ask update.
pub open spec fn ticker_model(t: Option<BookTickerData>) -> Option<TickerModel> {
    match t {
        Some(ticker) => Some(ticker@),
        None => None,
    }
}

fn is_depth_update(found: Option<&Json>) -> (yes: bool)
    ensures
        yes == (as_text(held(found)) == Some("depthUpdate"@)),
{
    match found {
        Some(Json::Text(s)) => same_text(s.as_str(), "depthUpdate"),
        _ => false,
    }
}

/// Reads a peeled document as an order-book delta: every member of the
/// shape is read before anything is accepted.
pub fn try_depth(p: &Json) -> (depth: Option<DepthOrderbookData>)
    ensures
        depth_model(depth) == depth_of(*p),
        depth matches Some(read) ==> read@.wf(),
{
    if !is_depth_update(member(p, "e")) {
        return None;
    }
    let event_time = read_u64(member(p, "E"));
    let symbol = read_text(member(p, "s"));
    let first = read_u64(member(p, "U"));
    let last = read_u64(member(p, "u"));
    let previous = read_optional_u64(member(p, "pu"));
    let bids = read_levels(member(p, "b"));
    let asks = read_levels(member(p, "a"));
    match (event_time, symbol, first, last, previous, bids, asks) {
        (
            Some(event_time),
            Some(symbol),
            Some(first_update_id),
            Some(final_update_id),
            Some(previous_final_update_id),
            Some(bids),
            Some(asks),
        ) => Some(
            DepthOrderbookData {
                event_type: OrderbookEventType::DepthUpdate,
                event_time,
                symbol,
                first_update_id,
                final_update_id,
                previous_final_update_id,
                bids,
                asks,
            },
        ),
        _ => None,
    }
}

/// Reads a peeled document as a best-bid/ask update: every member of the
/// shape is read before anything is accepted.
pub fn try_ticker(p: &Json) -> (ticker: Option<BookTickerData>)
    ensures
        ticker_model(ticker) == ticker_of(*p),
        ticker matches Some(read) ==> read@.wf(),
{
    let update_id = read_u64(member(p, "u"));
    let symbol = read_text(member(p, "s"));
    let best_bid = read_decimal_text(member(p, "b"));
    let best_bid_qty = read_decimal_text(member(p, "B"));
    let best_ask = read_decimal_text(member(p, "a"));
    let best_ask_qty = read_decimal_text(member(p, "A"));
    match (update_id, symbol, best_bid, best_bid_qty, best_ask, best_ask_qty) {
        (
            Some(update_id),
            Some(symbol),
            Some(best_bid),
            Some(best_bid_qty),
            Some(best_ask),
            Some(best_ask_qty),
        ) => Some(
            BookTickerData { update_id, symbol, best_bid, best_bid_qty, best_ask, best_ask_qty },
        ),
        _ => None,
    }
}

fn has_depth(p: &Json) -> (yes: bool)
    ensures
        yes == has_depth_members(*p),
{
    member(p, "e").is_some() && member(p, "E").is_some() && member(p, "s").is_some() && member(
        p,
        "U",
    ).is_some() && member(p, "u").is_some() && member(p, "b").is_some() && member(p, "a").is_some()
}

fn has_ticker(p: &Json) -> (yes: bool)
    ensures
        yes == has_ticker_members(*p),
{
    member(p, "u").is_some() && member(p, "s").is_some() && member(p, "b").is_some() && member(
        p,
        "B",
    ).is_some() && member(p, "a").is_some() && member(p, "A").is_some()
}

/// Decodes a parsed document: peels its envelopes, then tries the two
/// shapes in turn, the order-book delta first.
pub fn decode_value(v: &Json) -> (r: Result<WsDataEvent, ShapeError>)
    ensures
        tree_outcome(r) == decode_spec(*v),
        r matches Ok(event) ==> event@.wf(),
{
    let p = peel(v);
    match try_depth(p) {
        Some(depth) => Ok(WsDataEvent::DepthOrderbook(depth)),
        None => match try_ticker(p) {
            Some(ticker) => Ok(WsDataEvent::BookTicker(ticker)),
            None => if has_depth(p) || has_ticker(p) {
                Err(ShapeError::Malformed)
            } else {
                Err(ShapeError::UnknownShape)
            },
        },
    }
}

/// Decodes a text frame from what the parser made of it. A frame that is no
/// event gives an error that carries the frame's text.
pub fn decode_parsed(msg: &str, parsed: Option<Json>) -> (r: Result<WsDataEvent, DecodeError>)
    ensures
        outcome(r) == decode_parsed_spec(msg@, parsed),
        r matches Ok(event) ==> event@.wf(),
{
    match parsed {
        None => Err(DecodeError::Malformed(msg.to_owned())),
        Some(tree) => match decode_value(&tree) {
            Ok(event) => Ok(event),
            Err(ShapeError::Malformed) => Err(DecodeError::Malformed(msg.to_owned())),
            Err(ShapeError::UnknownShape) => Err(DecodeError::UnknownShape(msg.to_owned())),
        },
    }
}

/// Decodes a text frame: parses it as JSON and decodes the document. A text
/// that the parser does not read, be it for its nesting alone, is malformed.
pub fn parse_msg(msg: &str) -> (r: Result<WsDataEvent, DecodeError>)
    ensures
        outcome(r) == parse_msg_spec(msg@),
        r matches Ok(event) ==> event@.wf(),
{
    decode_parsed(msg, parse_json(msg))
}

/// `outer` is `inner` inside `depth` envelopes: each envelope is an object
/// whose member `data` holds the next one.
pub open spec fn wraps(outer: Json, inner: Json, depth: nat) -> bool
    decreases depth,
{
    if depth == 0 {
        outer == inner
    } else {
        match get(outer, "data"@) {
            Some(next) => wraps(next, inner, (depth - 1) as nat),
            None => false,
        }
    }
}

/// Decoding sees through one envelope: an object with a member `data`
/// decodes to what that member's value decodes to.
pub proof fn lemma_envelope_is_transparent(outer: Json, inner: Json)
    requires
        get(outer, "data"@) == Some(inner),
    ensures
        payload(outer) == payload(inner),
        decode_spec(outer) == decode_spec(inner),
{
}

/// Decoding sees through any number of envelopes: a document inside `depth`
/// envelopes decodes to what the document itself decodes to.
pub proof fn lemma_envelopes_are_transparent(outer: Json, inner: Json, depth: nat)
    requires
        wraps(outer, inner, depth),
    ensures
        decode_spec(outer) == decode_spec(inner),
    decreases depth,
{
    if depth > 0 {
        let next = get(outer, "data"@).unwrap();
        lemma_envelope_is_transparent(outer, next);
        lemma_envelopes_are_transparent(next, inner, (depth - 1) as nat);
    }
}

/// A text whose document is another text's document inside any number of
/// envelopes decodes exactly where the other one does, and to the same
/// event.
pub proof fn lemma_wrapped_text_decodes_alike(outer: Seq<char>, inner: Seq<char>, depth: nat)
    requires
        json_parse(outer) is Some,
        json_parse(inner) is Some,
        wraps(json_parse(outer).unwrap(), json_parse(inner).unwrap(), depth),
    ensures
        parse_msg_spec(outer) is Ok <==> parse_msg_spec(inner) is Ok,
        parse_msg_spec(inner) is Ok ==> parse_msg_spec(outer) == parse_msg_spec(inner),
{
    lemma_envelopes_are_transparent(json_parse(outer).unwrap(), json_parse(inner).unwrap(), depth);
}

/// No document is both an order-book delta and a best-bid/ask update: the
/// member `b` is an array in the one and a string in the other.
pub proof fn lemma_shapes_exclude_each_other(p: Json)
    ensures
        !(depth_of(p) is Some && ticker_of(p) is Some),
{
}

/// Every document whose payload is an order-book delta decodes to that
/// delta, every one whose payload is a best-bid/ask update decodes to that
/// update, and one whose payload lacks a member of each shape is of unknown
/// shape.
pub proof fn lemma_discrimination(v: Json)
    ensures
        depth_of(payload(v)) matches Some(depth) ==> decode_spec(v) == Ok::<
            EventModel,
            ShapeError,
        >(EventModel::DepthOrderbook(depth)),
        ticker_of(payload(v)) matches Some(ticker) ==> decode_spec(v) == Ok::<
            EventModel,
            ShapeError,
        >(EventModel::BookTicker(ticker)),
        !has_depth_members(payload(v)) && !has_ticker_members(payload(v)) ==> decode_spec(v)
            == Err::<EventModel, ShapeError>(ShapeError::UnknownShape),
        decode_spec(v) is Ok <==> depth_of(payload(v)) is Some || ticker_of(payload(v)) is Some,
{
    lemma_shapes_exclude_each_other(payload(v));
}

/// A decoded order-book delta carries the update ids of the members `U` and
/// `u` as they were sent, so the first is at most the final one exactly where
/// that holds of the payload.
pub proof fn lemma_update_ids_are_surfaced(v: Json)
    ensures
        decode_spec(v) matches Ok(EventModel::DepthOrderbook(depth)) ==> {
            &&& get(payload(v), "U"@) == Some(Json::Unsigned(depth.first_update_id))
            &&& get(payload(v), "u"@) == Some(Json::Unsigned(depth.final_update_id))
        },
{
}

} // verus!
