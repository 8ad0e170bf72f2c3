use connector_ftx::ws::frames::{control_frame_with, login_frame_with, ping_frame};
use connector_ftx::ws::{LoginRequest, PendingControlRequest, WsChannel};

fn object(fields: Vec<(&str, serde_json::Value)>) -> serde_json::Value {
    let mut map = serde_json::Map::new();
    for (key, value) in fields {
        map.insert(key.to_string(), value);
    }
    serde_json::Value::Object(map)
}

fn text(value: &str) -> serde_json::Value {
    serde_json::Value::String(value.to_string())
}

fn control_value(op: &str, channel: &str, market: &str) -> serde_json::Value {
    object(vec![("op", text(op)), ("channel", text(channel)), ("market", text(market))])
}

fn subscribe_to(channel: WsChannel) -> PendingControlRequest {
    PendingControlRequest { channel, subscribe: true }
}

#[test]
fn ping_frame_text() {
    assert_eq!(ping_frame(), "{\"op\":\"ping\"}");
    assert_eq!(ping_frame(), object(vec![("op", text("ping"))]).to_string());
}

#[test]
fn subscribe_frame_for_an_orderbook() {
    let frame = subscribe_to(WsChannel::Orderbook("BTC/USD".to_string())).encode();
    assert_eq!(frame, "{\"channel\":\"orderbook\",\"market\":\"BTC/USD\",\"op\":\"subscribe\"}");
}

#[test]
fn unsubscribe_frame_for_trades() {
    let request =
        PendingControlRequest { channel: WsChannel::Trades("ETH/USD".to_string()), subscribe: false };
    assert_eq!(
        request.encode(),
        "{\"channel\":\"trades\",\"market\":\"ETH/USD\",\"op\":\"unsubscribe\"}"
    );
}

#[test]
fn account_channels_have_an_empty_market() {
    assert_eq!(
        subscribe_to(WsChannel::Fills).encode(),
        "{\"channel\":\"fills\",\"market\":\"\",\"op\":\"subscribe\"}"
    );
    assert_eq!(
        subscribe_to(WsChannel::Orders).encode(),
        "{\"channel\":\"orders\",\"market\":\"\",\"op\":\"subscribe\"}"
    );
}

#[test]
fn control_frames_are_what_serde_json_renders() {
    let channels = vec![
        (WsChannel::Orderbook("BTC/USD".to_string()), "orderbook", "BTC/USD"),
        (WsChannel::Trades("BTC-PERP".to_string()), "trades", "BTC-PERP"),
        (WsChannel::Ticker("ETH/USDT".to_string()), "ticker", "ETH/USDT"),
        (WsChannel::Fills, "fills", ""),
        (WsChannel::Orders, "orders", ""),
    ];
    for (channel, name, market) in channels {
        for subscribe in [true, false] {
            let op = if subscribe { "subscribe" } else { "unsubscribe" };
            let request = PendingControlRequest { channel: channel.clone(), subscribe };
            assert_eq!(request.encode(), control_value(op, name, market).to_string());
        }
    }
}

#[test]
fn control_frames_parse_back_to_their_fields() {
    let frame = subscribe_to(WsChannel::Ticker("BTC/USD".to_string())).encode();
    let parsed: serde_json::Value = serde_json::from_str(&frame).expect("valid JSON");
    assert_eq!(parsed["op"], text("subscribe"));
    assert_eq!(parsed["channel"], text("ticker"));
    assert_eq!(parsed["market"], text("BTC/USD"));
}

#[test]
fn market_names_are_escaped() {
    let market = "a\"b\\c\nd\te\u{1}f/é€😀";
    let frame = subscribe_to(WsChannel::Trades(market.to_string())).encode();
    assert_eq!(
        frame,
        "{\"channel\":\"trades\",\"market\":\"a\\\"b\\\\c\\nd\\te\\u0001f/é€😀\",\"op\":\"subscribe\"}"
    );
    assert_eq!(frame, control_value("subscribe", "trades", market).to_string());
    let parsed: serde_json::Value = serde_json::from_str(&frame).expect("valid JSON");
    assert_eq!(parsed["market"], text(market));
}

#[test]
fn control_frame_with_places_the_literal_as_given() {
    let channel = WsChannel::Orderbook("ignored".to_string());
    assert_eq!(
        control_frame_with(true, &channel, "\"X\""),
        "{\"channel\":\"orderbook\",\"market\":\"X\",\"op\":\"subscribe\"}"
    );
    assert_eq!(
        control_frame_with(false, &WsChannel::Fills, "null"),
        "{\"channel\":\"fills\",\"market\":null,\"op\":\"unsubscribe\"}"
    );
}

#[test]
fn login_frame_with_places_the_literals_as_given() {
    assert_eq!(
        login_frame_with("\"k\"", "\"s\"", "null", 17),
        "{\"args\":{\"key\":\"k\",\"sign\":\"s\",\"subaccount\":null,\"time\":17},\"op\":\"login\"}"
    );
    assert_eq!(
        login_frame_with("K", "S", "A", 0),
        "{\"args\":{\"key\":K,\"sign\":S,\"subaccount\":A,\"time\":0},\"op\":\"login\"}"
    );
}

#[test]
fn login_frame_without_subaccount() {
    let login = LoginRequest {
        key: "my-key".to_string(),
        sign: "abcdef".to_string(),
        time: 1557246346499,
        subaccount: None,
    };
    assert_eq!(
        login.encode(),
        "{\"args\":{\"key\":\"my-key\",\"sign\":\"abcdef\",\"subaccount\":null,\"time\":1557246346499},\"op\":\"login\"}"
    );
}

#[test]
fn login_frame_with_subaccount() {
    let login = LoginRequest {
        key: "my-key".to_string(),
        sign: "abcdef".to_string(),
        time: u64::MAX,
        subaccount: Some("desk \"A\"".to_string()),
    };
    assert_eq!(
        login.encode(),
        "{\"args\":{\"key\":\"my-key\",\"sign\":\"abcdef\",\"subaccount\":\"desk \\\"A\\\"\",\"time\":18446744073709551615},\"op\":\"login\"}"
    );
}

#[test]
fn login_frames_are_what_serde_json_renders() {
    for subaccount in [None, Some("sub/1".to_string())] {
        let login = LoginRequest {
            key: "k\\ey".to_string(),
            sign: "0123456789abcdef".to_string(),
            time: 1650000000000,
            subaccount: subaccount.clone(),
        };
        let expected = object(vec![
            ("op", text("login")),
            (
                "args",
                object(vec![
                    ("key", text("k\\ey")),
                    ("sign", text("0123456789abcdef")),
                    ("time", serde_json::Value::Number(serde_json::Number::from(1650000000000u64))),
                    (
                        "subaccount",
                        match &subaccount {
                            Some(name) => text(name),
                            None => serde_json::Value::Null,
                        },
                    ),
                ]),
            ),
        ]);
        assert_eq!(login.encode(), expected.to_string());
    }
}

fn expected_literal(text: &str) -> String {
    let digits = "0123456789abcdef".as_bytes();
    let mut literal = String::from("\"");
    for c in text.chars() {
        match c {
            '"' => literal.push_str("\\\""),
            '\\' => literal.push_str("\\\\"),
            '\u{8}' => literal.push_str("\\b"),
            '\t' => literal.push_str("\\t"),
            '\n' => literal.push_str("\\n"),
            '\u{c}' => literal.push_str("\\f"),
            '\r' => literal.push_str("\\r"),
            c if (c as u32) < 0x20 => {
                literal.push_str("\\u00");
                literal.push(digits[(c as usize) / 16] as char);
                literal.push(digits[(c as usize) % 16] as char);
            }
            c => literal.push(c),
        }
    }
    literal.push('"');
    literal
}

fn market_literal(market: &str) -> String {
    let frame = subscribe_to(WsChannel::Trades(market.to_string())).encode();
    let head = "{\"channel\":\"trades\",\"market\":";
    let tail = ",\"op\":\"subscribe\"}";
    assert!(frame.starts_with(head) && frame.ends_with(tail));
    frame[head.len()..frame.len() - tail.len()].to_string()
}

#[test]
fn every_character_is_escaped_as_stated() {
    let mut code: u32 = 0;
    while code <= 0x10FFFF {
        let mut text = String::new();
        let end = code + 0x1000;
        while code < end {
            if let Some(c) = char::from_u32(code) {
                text.push(c);
            }
            code += 1;
        }
        assert_eq!(market_literal(&text), expected_literal(&text));
    }
}

#[test]
fn control_characters_are_escaped_one_by_one() {
    assert_eq!(market_literal(""), "\"\"");
    assert_eq!(market_literal("\u{0}"), "\"\\u0000\"");
    assert_eq!(market_literal("\u{8}"), "\"\\b\"");
    assert_eq!(market_literal("\u{b}"), "\"\\u000b\"");
    assert_eq!(market_literal("\u{c}"), "\"\\f\"");
    assert_eq!(market_literal("\u{1f}"), "\"\\u001f\"");
    assert_eq!(market_literal(" "), "\" \"");
    assert_eq!(market_literal("\u{7f}"), "\"\u{7f}\"");
    assert_eq!(market_literal("/"), "\"/\"");
    assert_eq!(market_literal("\u{2028}"), "\"\u{2028}\"");
    for code in 0..0x20u32 {
        let c = char::from_u32(code).expect("a character");
        assert_eq!(market_literal(&c.to_string()), expected_literal(&c.to_string()));
    }
}
