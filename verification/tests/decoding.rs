use binance_feed::decimal::{parse_decimal, Decimal};
use binance_feed::decoder::{decode_parsed, decode_value, parse_msg, peel, try_depth, try_ticker, DecodeError, ShapeError};
use binance_feed::json::{lookup, member, Json, Member};
use binance_feed::models::{BookTickerData, OrderbookEventType, WsChannel, WsDataEvent};

fn entry(name: &str, value: Json) -> Member {
    Member { name: name.to_string(), value }
}

fn text(s: &str) -> Json {
    Json::Text(s.to_string())
}

fn ticker_tree() -> Json {
    Json::Object(vec![
        entry("u", Json::Unsigned(123)),
        entry("s", text("BTCUSDT")),
        entry("b", text("50000.10")),
        entry("B", text("1.5")),
        entry("a", text("50000.20")),
        entry("A", text("2.0")),
    ])
}

fn expected_ticker() -> WsDataEvent {
    WsDataEvent::BookTicker(BookTickerData {
        update_id: 123,
        symbol: "BTCUSDT".to_string(),
        best_bid: "50000.10".to_string(),
        best_bid_qty: "1.5".to_string(),
        best_ask: "50000.20".to_string(),
        best_ask_qty: "2.0".to_string(),
    })
}

fn wrap(inner: Json) -> Json {
    Json::Object(vec![entry("data", inner)])
}

const DEPTH_TEXT: &str =
    r#"{"e":"depthUpdate","E":1000,"s":"ETHUSDT","U":10,"u":15,"b":[["3000.5","2.0"]],"a":[]}"#;

const TICKER_TEXT: &str =
    r#"{"data":{"u":123,"s":"BTCUSDT","b":"50000.10","B":"1.5","a":"50000.20","A":"2.0"}}"#;

#[test]
fn wrapped_ticker_text_decodes_to_best_bid_ask() {
    assert_eq!(parse_msg(TICKER_TEXT), Ok(expected_ticker()));
}

#[test]
fn ticker_levels_are_exact_decimals() {
    match parse_msg(TICKER_TEXT) {
        Ok(WsDataEvent::BookTicker(t)) => {
            assert_eq!(
                t.levels(),
                Some((
                    (Decimal { mantissa: 5000010, scale: 2 }, Decimal { mantissa: 15, scale: 1 }),
                    (Decimal { mantissa: 5000020, scale: 2 }, Decimal { mantissa: 20, scale: 1 }),
                ))
            );
        }
        other => panic!("no ticker: {:?}", other),
    }
}

#[test]
fn ticker_levels_need_four_decimals() {
    let mut t = BookTickerData {
        update_id: 1,
        symbol: "S".to_string(),
        best_bid: "1".to_string(),
        best_bid_qty: "2".to_string(),
        best_ask: "3".to_string(),
        best_ask_qty: "4".to_string(),
    };
    let one = |m: i128| Decimal { mantissa: m, scale: 0 };
    assert_eq!(t.levels(), Some(((one(1), one(2)), (one(3), one(4)))));
    t.best_ask_qty = "four".to_string();
    assert_eq!(t.levels(), None);
    t.best_ask_qty = "4".to_string();
    t.best_bid = String::new();
    assert_eq!(t.levels(), None);
}

#[test]
fn ticker_with_a_text_that_is_no_decimal_is_malformed() {
    for text in [
        r#"{"u":1,"s":"S","b":"x","B":"1","a":"1","A":"1"}"#,
        r#"{"u":1,"s":"S","b":"1","B":"","a":"1","A":"1"}"#,
        r#"{"u":1,"s":"S","b":"1","B":"1","a":"1,5","A":"1"}"#,
        r#"{"u":1,"s":"S","b":"1","B":"1","a":"1","A":"one"}"#,
    ] {
        assert_eq!(parse_msg(text), Err(DecodeError::Malformed(text.to_string())));
    }
    let any_symbol = r#"{"u":1,"s":"","b":"1","B":"1","a":"1","A":"1"}"#;
    assert!(parse_msg(any_symbol).is_ok());
}

#[test]
fn ticker_prices_are_exact_decimals() {
    match parse_msg(TICKER_TEXT) {
        Ok(WsDataEvent::BookTicker(t)) => {
            assert_eq!(parse_decimal(&t.best_bid), Some(Decimal { mantissa: 5000010, scale: 2 }));
            assert_eq!(parse_decimal(&t.best_bid_qty), Some(Decimal { mantissa: 15, scale: 1 }));
            assert_eq!(parse_decimal(&t.best_ask), Some(Decimal { mantissa: 5000020, scale: 2 }));
            assert_eq!(parse_decimal(&t.best_ask_qty), Some(Decimal { mantissa: 20, scale: 1 }));
        }
        other => panic!("no ticker: {:?}", other),
    }
}

#[test]
fn depth_text_decodes_to_order_book_delta() {
    match parse_msg(DEPTH_TEXT) {
        Ok(WsDataEvent::DepthOrderbook(d)) => {
            assert_eq!(d.event_type, OrderbookEventType::DepthUpdate);
            assert_eq!(d.event_time, 1000);
            assert_eq!(d.symbol, "ETHUSDT");
            assert_eq!(d.first_update_id, 10);
            assert_eq!(d.final_update_id, 15);
            assert_eq!(d.previous_final_update_id, None);
            assert_eq!(
                d.bids,
                vec![(Decimal { mantissa: 30005, scale: 1 }, Decimal { mantissa: 20, scale: 1 })]
            );
            assert_eq!(d.bids.len(), 1);
            assert_eq!(d.asks.len(), 0);
        }
        other => panic!("no delta: {:?}", other),
    }
}

#[test]
fn previous_final_update_id_is_read_when_sent() {
    let sent = r#"{"e":"depthUpdate","E":1,"s":"X","U":2,"u":3,"pu":1,"b":[],"a":[]}"#;
    let null = r#"{"e":"depthUpdate","E":1,"s":"X","U":2,"u":3,"pu":null,"b":[],"a":[]}"#;
    let wrong = r#"{"e":"depthUpdate","E":1,"s":"X","U":2,"u":3,"pu":"1","b":[],"a":[]}"#;
    match parse_msg(sent) {
        Ok(WsDataEvent::DepthOrderbook(d)) => assert_eq!(d.previous_final_update_id, Some(1)),
        other => panic!("no delta: {:?}", other),
    }
    match parse_msg(null) {
        Ok(WsDataEvent::DepthOrderbook(d)) => assert_eq!(d.previous_final_update_id, None),
        other => panic!("no delta: {:?}", other),
    }
    assert_eq!(parse_msg(wrong), Err(DecodeError::Malformed(wrong.to_string())));
}

#[test]
fn any_number_of_envelopes_gives_the_same_event() {
    let bare = r#"{"u":123,"s":"BTCUSDT","b":"50000.10","B":"1.5","a":"50000.20","A":"2.0"}"#;
    let mut nested = bare.to_string();
    assert_eq!(parse_msg(&nested), Ok(expected_ticker()));
    for _ in 0..20 {
        nested = format!(r#"{{"data":{}}}"#, nested);
        assert_eq!(parse_msg(&nested), Ok(expected_ticker()));
    }
}

#[test]
fn nesting_beyond_what_the_parser_reads_is_malformed() {
    let mut nested = DEPTH_TEXT.to_string();
    for _ in 0..1000 {
        nested = format!(r#"{{"data":{}}}"#, nested);
    }
    assert_eq!(parse_msg(&nested), Err(DecodeError::Malformed(nested.clone())));
}

#[test]
fn envelopes_of_a_tree_are_peeled() {
    let mut tree = ticker_tree();
    for _ in 0..500 {
        tree = wrap(tree);
    }
    assert_eq!(peel(&tree), &ticker_tree());
    assert_eq!(decode_value(&tree), Ok(expected_ticker()));
    assert_eq!(decode_value(&ticker_tree()), Ok(expected_ticker()));
}

#[test]
fn envelope_with_other_members_is_still_an_envelope() {
    let text = format!(r#"{{"stream":"ethusdt@depth","data":{}}}"#, DEPTH_TEXT);
    assert_eq!(parse_msg(&text), parse_msg(DEPTH_TEXT));
    assert!(parse_msg(&text).is_ok());
}

#[test]
fn envelope_around_a_scalar_is_of_unknown_shape() {
    let text = r#"{"data":5}"#;
    assert_eq!(parse_msg(text), Err(DecodeError::UnknownShape(text.to_string())));
    assert_eq!(decode_value(&wrap(Json::Unsigned(5))), Err(ShapeError::UnknownShape));
}

#[test]
fn the_two_shapes_are_told_apart() {
    assert!(matches!(parse_msg(DEPTH_TEXT), Ok(WsDataEvent::DepthOrderbook(_))));
    assert!(matches!(parse_msg(TICKER_TEXT), Ok(WsDataEvent::BookTicker(_))));
    assert!(try_depth(&ticker_tree()).is_none());
    assert!(try_ticker(&ticker_tree()).is_some());
}

#[test]
fn ticker_with_an_event_type_is_still_a_ticker() {
    let text = r#"{"e":"bookTicker","u":1,"s":"X","b":"1","B":"2","a":"3","A":"4"}"#;
    assert!(matches!(parse_msg(text), Ok(WsDataEvent::BookTicker(_))));
}

#[test]
fn missing_members_give_unknown_shape() {
    for text in [
        r#"{"x":1}"#,
        r#"{}"#,
        r#"[1,2]"#,
        r#"7"#,
        r#"null"#,
        r#""depthUpdate""#,
        r#"{"u":123,"s":"BTCUSDT","b":"50000.10","B":"1.5","a":"50000.20"}"#,
        r#"{"e":"depthUpdate","E":1000,"s":"ETHUSDT","U":10,"u":15,"b":[]}"#,
    ] {
        assert_eq!(parse_msg(text), Err(DecodeError::UnknownShape(text.to_string())));
    }
}

#[test]
fn wrong_member_values_give_malformed() {
    for text in [
        r#"{"e":"depthUpdate","E":1000,"s":"ETHUSDT","U":10,"u":15,"b":[["abc","2.0"]],"a":[]}"#,
        r#"{"e":"depthUpdate","E":1000,"s":"ETHUSDT","U":10,"u":15,"b":[["1","2","3"]],"a":[]}"#,
        r#"{"e":"depthUpdate","E":1000,"s":"ETHUSDT","U":10,"u":15,"b":[["1"]],"a":[]}"#,
        r#"{"e":"depthUpdate","E":1000,"s":"ETHUSDT","U":10,"u":15,"b":[[1.5,2.5]],"a":[]}"#,
        r#"{"e":"depthUpdate","E":1000,"s":"ETHUSDT","U":10,"u":15,"b":{},"a":[]}"#,
        r#"{"e":"trade","E":1000,"s":"ETHUSDT","U":10,"u":15,"b":[],"a":[]}"#,
        r#"{"e":"depthUpdate","E":"1000","s":"ETHUSDT","U":10,"u":15,"b":[],"a":[]}"#,
        r#"{"e":"depthUpdate","E":1000,"s":7,"U":10,"u":15,"b":[],"a":[]}"#,
        r#"{"u":"123","s":"BTCUSDT","b":"50000.10","B":"1.5","a":"50000.20","A":"2.0"}"#,
        r#"{"u":123,"s":"BTCUSDT","b":50000.10,"B":"1.5","a":"50000.20","A":"2.0"}"#,
    ] {
        assert_eq!(parse_msg(text), Err(DecodeError::Malformed(text.to_string())));
    }
}

#[test]
fn out_of_range_integers_do_not_wrap() {
    let max = r#"{"u":18446744073709551615,"s":"S","b":"1","B":"1","a":"1","A":"1"}"#;
    let over = r#"{"u":18446744073709551616,"s":"S","b":"1","B":"1","a":"1","A":"1"}"#;
    let negative = r#"{"u":-1,"s":"S","b":"1","B":"1","a":"1","A":"1"}"#;
    let fraction = r#"{"u":1.5,"s":"S","b":"1","B":"1","a":"1","A":"1"}"#;
    match parse_msg(max) {
        Ok(WsDataEvent::BookTicker(t)) => assert_eq!(t.update_id, u64::MAX),
        other => panic!("no ticker: {:?}", other),
    }
    assert_eq!(parse_msg(over), Err(DecodeError::Malformed(over.to_string())));
    assert_eq!(parse_msg(negative), Err(DecodeError::Malformed(negative.to_string())));
    assert_eq!(parse_msg(fraction), Err(DecodeError::Malformed(fraction.to_string())));
}

#[test]
fn invalid_text_is_malformed() {
    for text in ["", "not json", "{", r#"{"u":1"#, r#"{"data":}"#, "{} {}"] {
        assert_eq!(parse_msg(text), Err(DecodeError::Malformed(text.to_string())));
        assert_eq!(decode_parsed(text, None), Err(DecodeError::Malformed(text.to_string())));
    }
}

#[test]
fn error_carries_the_frame_text() {
    let e = parse_msg("oops").unwrap_err();
    assert_eq!(e.raw_text(), "oops");
    let e = parse_msg("{}").unwrap_err();
    assert_eq!(e, DecodeError::UnknownShape("{}".to_string()));
    assert_eq!(e.raw_text(), "{}");
}

#[test]
fn tree_with_a_wrong_member_is_malformed() {
    let no_array = Json::Object(vec![
        entry("e", text("depthUpdate")),
        entry("E", Json::Unsigned(1)),
        entry("s", text("S")),
        entry("U", Json::Unsigned(1)),
        entry("u", Json::Unsigned(2)),
        entry("b", Json::Null),
        entry("a", Json::Array(vec![])),
    ]);
    assert_eq!(decode_value(&no_array), Err(ShapeError::Malformed));
    assert_eq!(decode_value(&wrap(no_array)), Err(ShapeError::Malformed));
    assert_eq!(decode_value(&Json::Array(vec![ticker_tree()])), Err(ShapeError::UnknownShape));
}

#[test]
fn decode_parsed_takes_the_parsed_tree() {
    assert_eq!(decode_parsed("t", Some(ticker_tree())), Ok(expected_ticker()));
    assert_eq!(
        decode_parsed("t", Some(Json::Object(vec![]))),
        Err(DecodeError::UnknownShape("t".to_string()))
    );
    let bad = Json::Object(vec![
        entry("u", Json::Number("-1".to_string())),
        entry("s", text("BTCUSDT")),
        entry("b", text("1")),
        entry("B", text("1")),
        entry("a", text("1")),
        entry("A", text("1")),
    ]);
    assert_eq!(decode_parsed("t", Some(bad)), Err(DecodeError::Malformed("t".to_string())));
}

#[test]
fn small_and_large_prices_are_exact() {
    let text = r#"{"e":"depthUpdate","E":1,"s":"S","U":1,"u":1,"b":[["0.00000001","123456.78"]],"a":[["-7","0"]]}"#;
    match parse_msg(text) {
        Ok(WsDataEvent::DepthOrderbook(d)) => {
            assert_eq!(d.bids[0].0, Decimal { mantissa: 1, scale: 8 });
            assert_eq!(d.bids[0].1, Decimal { mantissa: 12345678, scale: 2 });
            assert_eq!(d.asks[0].0, Decimal { mantissa: -7, scale: 0 });
            assert_eq!(d.asks[0].1, Decimal { mantissa: 0, scale: 0 });
            for (level, written) in [(d.bids[0].0, "0.00000001"), (d.bids[0].1, "123456.78")] {
                let back = rust_decimal::Decimal::from_i128_with_scale(level.mantissa, level.scale);
                assert_eq!(back.to_string(), written);
            }
        }
        other => panic!("no delta: {:?}", other),
    }
}

#[test]
fn update_ids_are_neither_reordered_nor_clamped() {
    let text = r#"{"e":"depthUpdate","E":1,"s":"S","U":20,"u":5,"b":[],"a":[]}"#;
    match parse_msg(text) {
        Ok(WsDataEvent::DepthOrderbook(d)) => {
            assert_eq!(d.first_update_id, 20);
            assert_eq!(d.final_update_id, 5);
        }
        other => panic!("no delta: {:?}", other),
    }
    match parse_msg(DEPTH_TEXT) {
        Ok(WsDataEvent::DepthOrderbook(d)) => assert!(d.first_update_id <= d.final_update_id),
        other => panic!("no delta: {:?}", other),
    }
}

#[test]
fn levels_keep_their_order() {
    let text = r#"{"e":"depthUpdate","E":1,"s":"S","U":1,"u":2,"b":[["3","1"],["2","1"],["1","1"]],"a":[["4","9"]]}"#;
    match parse_msg(text) {
        Ok(WsDataEvent::DepthOrderbook(d)) => {
            let prices: Vec<i128> = d.bids.iter().map(|l| l.0.mantissa).collect();
            assert_eq!(prices, vec![3, 2, 1]);
            assert_eq!(d.asks, vec![(Decimal { mantissa: 4, scale: 0 }, Decimal { mantissa: 9, scale: 0 })]);
        }
        other => panic!("no delta: {:?}", other),
    }
}

#[test]
fn parse_decimal_reads_plain_and_scientific_notation() {
    assert_eq!(parse_decimal("1.50"), Some(Decimal { mantissa: 150, scale: 2 }));
    assert_eq!(parse_decimal("-0.5"), Some(Decimal { mantissa: -5, scale: 1 }));
    let read = parse_decimal("9.7e-7").unwrap();
    assert_eq!(
        rust_decimal::Decimal::from_i128_with_scale(read.mantissa, read.scale).to_string(),
        "0.00000097"
    );
    let read = parse_decimal("1.2E3").unwrap();
    assert_eq!(
        rust_decimal::Decimal::from_i128_with_scale(read.mantissa, read.scale),
        rust_decimal::Decimal::from(1200)
    );
    assert_eq!(parse_decimal(""), None);
    assert_eq!(parse_decimal("abc"), None);
    assert_eq!(parse_decimal("1.2.3"), None);
    assert_eq!(parse_decimal("1e"), None);
}

#[test]
fn parse_decimal_keeps_within_bounds() {
    let d = parse_decimal("79228162514264337593543950335").unwrap();
    assert_eq!(d, Decimal { mantissa: 79228162514264337593543950335, scale: 0 });
    assert_eq!(parse_decimal("79228162514264337593543950336"), None);
    let d = parse_decimal("0.0000000000000000000000000001").unwrap();
    assert_eq!(d, Decimal { mantissa: 1, scale: 28 });
}

#[test]
fn lookup_finds_the_first_member_of_a_name() {
    let members = vec![
        entry("b", Json::Unsigned(1)),
        entry("B", Json::Unsigned(2)),
        entry("b", Json::Unsigned(3)),
    ];
    assert_eq!(lookup(&members, "b"), Some(&Json::Unsigned(1)));
    assert_eq!(lookup(&members, "B"), Some(&Json::Unsigned(2)));
    assert_eq!(lookup(&members, "a"), None);
    assert_eq!(lookup(&members, ""), None);
    assert_eq!(lookup(&Vec::new(), "b"), None);
}

#[test]
fn member_reads_objects_only() {
    assert_eq!(member(&ticker_tree(), "u"), Some(&Json::Unsigned(123)));
    assert_eq!(member(&ticker_tree(), "U"), None);
    assert_eq!(member(&Json::Array(vec![Json::Null]), "u"), None);
    assert_eq!(member(&text("u"), "u"), None);
}

#[test]
fn parsed_values_keep_their_kinds() {
    let text = r#"{"e":"depthUpdate","E":1,"s":"S","U":1,"u":2,"b":[],"a":[],"x":[true,null,-3,{"k":"v"}]}"#;
    assert!(parse_msg(text).is_ok());
    let flag = r#"{"u":true,"s":"S","b":"1","B":"1","a":"1","A":"1"}"#;
    assert_eq!(parse_msg(flag), Err(DecodeError::Malformed(flag.to_string())));
}

#[test]
fn channels_compare_by_kind_and_symbol() {
    assert_eq!(WsChannel::BookTicker("a".to_string()), WsChannel::BookTicker("a".to_string()));
    assert_ne!(WsChannel::BookTicker("a".to_string()), WsChannel::DepthOrderbook("a".to_string()));
    assert_ne!(WsChannel::BookTicker("a".to_string()), WsChannel::BookTicker("b".to_string()));
}
