use liquidation_relay::json::decimal_text;
use liquidation_relay::types::{
    BinanceMessage, BinanceOrder, ChainEvent, DecodedLog, NormalizedEvent, StreamEvent,
    UNKNOWN_TIMESTAMP,
};

fn order_update(timestamp: u64) -> StreamEvent {
    StreamEvent {
        symbol: String::from("BTCUSDT"),
        side: String::from("SELL"),
        order_type: String::from("LIMIT"),
        time_in_force: String::from("IOC"),
        original_quantity: String::from("0.014"),
        filled_quantity: String::from("0.014"),
        cumulative_filled_quantity: String::from("0.014"),
        limit_price: String::from("9910"),
        average_price: String::from("9910.5"),
        status: String::from("FILLED"),
        timestamp,
    }
}

fn liquidation_log(block_number: u64) -> DecodedLog {
    DecodedLog {
        collateral_asset: String::from("0xc02aaa39b223fe8d0a0e5c4f27ead9083c756cc2"),
        debt_asset: String::from("0xa0b86991c6218b36c1d19d4a2e9eb0ce3606eb48"),
        subject: String::from("0x1111111111111111111111111111111111111111"),
        debt_covered: String::from("115792089237316195423570985008687907853269984665640564039457"),
        collateral_liquidated: String::from("1000000000000000000"),
        liquidator: String::from("0x2222222222222222222222222222222222222222"),
        flag: false,
        block_number,
        transaction_hash: String::from(
            "0x3333333333333333333333333333333333333333333333333333333333333333",
        ),
    }
}

#[test]
fn decimal_text_of_small_and_large_numbers() {
    assert_eq!(decimal_text(0), "0");
    assert_eq!(decimal_text(7), "7");
    assert_eq!(decimal_text(9), "9");
    assert_eq!(decimal_text(10), "10");
    assert_eq!(decimal_text(1000), "1000");
    assert_eq!(decimal_text(1568014460893), "1568014460893");
    assert_eq!(decimal_text(u64::MAX), "18446744073709551615");
}

#[test]
fn decimal_text_agrees_with_the_standard_formatting() {
    let mut n: u64 = 1;
    while n < u64::MAX / 7 {
        assert_eq!(decimal_text(n), n.to_string());
        assert_eq!(decimal_text(n - 1), (n - 1).to_string());
        n *= 7;
    }
}

#[test]
fn stream_event_is_encoded_member_by_member() {
    let text = NormalizedEvent::Stream(order_update(1000)).to_json();
    assert_eq!(
        text,
        "{\"type\":\"stream\",\"symbol\":\"BTCUSDT\",\"side\":\"SELL\",\"order_type\":\"LIMIT\",\
         \"time_in_force\":\"IOC\",\"original_quantity\":\"0.014\",\"filled_quantity\":\"0.014\",\
         \"cumulative_filled_quantity\":\"0.014\",\"limit_price\":\"9910\",\
         \"average_price\":\"9910.5\",\"status\":\"FILLED\",\"timestamp\":1000}"
    );
}

#[test]
fn chain_event_is_encoded_member_by_member() {
    let text = NormalizedEvent::Chain(liquidation_log(100).enrich(Some(1700000000))).to_json();
    assert_eq!(
        text,
        "{\"type\":\"chain\",\
         \"collateral_asset\":\"0xc02aaa39b223fe8d0a0e5c4f27ead9083c756cc2\",\
         \"debt_asset\":\"0xa0b86991c6218b36c1d19d4a2e9eb0ce3606eb48\",\
         \"subject\":\"0x1111111111111111111111111111111111111111\",\
         \"debt_covered\":\"115792089237316195423570985008687907853269984665640564039457\",\
         \"collateral_liquidated\":\"1000000000000000000\",\
         \"liquidator\":\"0x2222222222222222222222222222222222222222\",\
         \"flag\":false,\"block_number\":100,\
         \"transaction_hash\":\"0x3333333333333333333333333333333333333333333333333333333333333333\",\
         \"timestamp\":1700000000}"
    );
}

#[test]
fn flag_is_encoded_as_a_boolean() {
    let mut log = liquidation_log(5);
    log.flag = true;
    let text = log.enrich(None).to_json();
    assert!(text.contains(",\"flag\":true,"));
    let text = liquidation_log(5).enrich(None).to_json();
    assert!(text.contains(",\"flag\":false,"));
}

#[test]
fn text_is_escaped_inside_json_strings() {
    let mut event = order_update(1);
    event.symbol = String::from("A\"B\\C");
    event.side = String::from("line\nbreak\ttab\rreturn");
    event.order_type = String::from("\u{8}\u{c}");
    event.time_in_force = String::from("\u{0}\u{1}\u{1f}\u{7f}");
    event.status = String::from("caf\u{e9} \u{1f600} /");
    let text = event.to_json();
    assert!(text.contains("\"symbol\":\"A\\\"B\\\\C\","));
    assert!(text.contains("\"side\":\"line\\nbreak\\ttab\\rreturn\","));
    assert!(text.contains("\"order_type\":\"\\b\\f\","));
    assert!(text.contains("\"time_in_force\":\"\\u0000\\u0001\\u001f\u{7f}\","));
    assert!(text.contains("\"status\":\"caf\u{e9} \u{1f600} /\","));
}

#[test]
fn empty_text_is_encoded_as_an_empty_string() {
    let mut event = order_update(0);
    event.symbol = String::new();
    let text = event.to_json();
    assert!(text.starts_with("{\"type\":\"stream\",\"symbol\":\"\",\"side\":"));
    assert!(text.ends_with(",\"timestamp\":0}"));
}

#[test]
fn encoded_stream_event_reads_back_as_json() {
    let mut event = order_update(1568014460893);
    event.status = String::from("PARTIALLY \"FILLED\"\n");
    let text = NormalizedEvent::Stream(event).to_json();
    let value: serde_json::Value = serde_json::from_str(&text).unwrap();
    let object = value.as_object().unwrap();
    assert_eq!(object.len(), 12);
    assert_eq!(value["type"].as_str(), Some("stream"));
    assert_eq!(value["symbol"].as_str(), Some("BTCUSDT"));
    assert_eq!(value["side"].as_str(), Some("SELL"));
    assert_eq!(value["order_type"].as_str(), Some("LIMIT"));
    assert_eq!(value["time_in_force"].as_str(), Some("IOC"));
    assert_eq!(value["original_quantity"].as_str(), Some("0.014"));
    assert_eq!(value["filled_quantity"].as_str(), Some("0.014"));
    assert_eq!(value["cumulative_filled_quantity"].as_str(), Some("0.014"));
    assert_eq!(value["limit_price"].as_str(), Some("9910"));
    assert_eq!(value["average_price"].as_str(), Some("9910.5"));
    assert_eq!(value["status"].as_str(), Some("PARTIALLY \"FILLED\"\n"));
    assert_eq!(value["timestamp"].as_u64(), Some(1568014460893));
}

#[test]
fn encoded_chain_event_reads_back_as_json() {
    let text = NormalizedEvent::Chain(liquidation_log(18000000).enrich(Some(1693066895))).to_json();
    let value: serde_json::Value = serde_json::from_str(&text).unwrap();
    let object = value.as_object().unwrap();
    assert_eq!(object.len(), 11);
    assert_eq!(value["type"].as_str(), Some("chain"));
    assert_eq!(
        value["collateral_asset"].as_str(),
        Some("0xc02aaa39b223fe8d0a0e5c4f27ead9083c756cc2")
    );
    assert_eq!(value["debt_asset"].as_str(), Some("0xa0b86991c6218b36c1d19d4a2e9eb0ce3606eb48"));
    assert_eq!(value["subject"].as_str(), Some("0x1111111111111111111111111111111111111111"));
    assert_eq!(
        value["debt_covered"].as_str(),
        Some("115792089237316195423570985008687907853269984665640564039457")
    );
    assert_eq!(value["collateral_liquidated"].as_str(), Some("1000000000000000000"));
    assert_eq!(value["liquidator"].as_str(), Some("0x2222222222222222222222222222222222222222"));
    assert_eq!(value["flag"].as_bool(), Some(false));
    assert_eq!(value["block_number"].as_u64(), Some(18000000));
    assert_eq!(
        value["transaction_hash"].as_str(),
        Some("0x3333333333333333333333333333333333333333333333333333333333333333")
    );
    assert_eq!(value["timestamp"].as_u64(), Some(1693066895));
}

#[test]
fn largest_timestamp_is_encoded_exactly() {
    let text = order_update(u64::MAX).to_json();
    assert!(text.ends_with(",\"timestamp\":18446744073709551615}"));
    let value: serde_json::Value = serde_json::from_str(&text).unwrap();
    assert_eq!(value["timestamp"].as_u64(), Some(u64::MAX));
}

#[test]
fn tag_tells_the_two_kinds_apart() {
    let stream = NormalizedEvent::Stream(order_update(1));
    let chain = NormalizedEvent::Chain(liquidation_log(1).enrich(None));
    assert_eq!(stream.tag(), "stream");
    assert_eq!(chain.tag(), "chain");
    assert!(stream.to_json().starts_with("{\"type\":\"stream\","));
    assert!(chain.to_json().starts_with("{\"type\":\"chain\","));
}

#[test]
fn timestamp_is_read_from_either_kind() {
    assert_eq!(NormalizedEvent::Stream(order_update(1000)).timestamp(), 1000);
    assert_eq!(NormalizedEvent::Chain(liquidation_log(1).enrich(Some(77))).timestamp(), 77);
    assert_eq!(NormalizedEvent::Chain(liquidation_log(1).enrich(None)).timestamp(), 0);
}

#[test]
fn feed_message_is_normalized_field_by_field() {
    let message = BinanceMessage {
        e: String::from("forceOrder"),
        E: 1568014460893,
        o: BinanceOrder {
            s: String::from("BTCUSDT"),
            S: String::from("SELL"),
            o: String::from("LIMIT"),
            f: String::from("IOC"),
            q: String::from("0.014"),
            p: String::from("9910"),
            ap: String::from("9910.5"),
            X: String::from("FILLED"),
            l: String::from("0.010"),
            z: String::from("0.012"),
            T: 1568014460000,
        },
    };
    let event = message.normalize();
    assert_eq!(
        event,
        StreamEvent {
            symbol: String::from("BTCUSDT"),
            side: String::from("SELL"),
            order_type: String::from("LIMIT"),
            time_in_force: String::from("IOC"),
            original_quantity: String::from("0.014"),
            filled_quantity: String::from("0.010"),
            cumulative_filled_quantity: String::from("0.012"),
            limit_price: String::from("9910"),
            average_price: String::from("9910.5"),
            status: String::from("FILLED"),
            timestamp: 1568014460893,
        }
    );
}

#[test]
fn enrichment_sets_the_time_that_was_found() {
    let event = liquidation_log(100).enrich(Some(1700000000));
    assert_eq!(event.timestamp, 1700000000);
    assert_eq!(event.block_number, 100);
}

#[test]
fn failed_enrichment_costs_the_timestamp_only() {
    let log = liquidation_log(100);
    let event = log.clone().enrich(None);
    assert_eq!(UNKNOWN_TIMESTAMP, 0);
    assert_eq!(
        event,
        ChainEvent {
            collateral_asset: log.collateral_asset,
            debt_asset: log.debt_asset,
            subject: log.subject,
            debt_covered: log.debt_covered,
            collateral_liquidated: log.collateral_liquidated,
            liquidator: log.liquidator,
            flag: log.flag,
            block_number: 100,
            transaction_hash: log.transaction_hash,
            timestamp: 0,
        }
    );
}
