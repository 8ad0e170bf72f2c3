use connector_ftx::ws::{
    ClientAction, ConnectionState, FtxWsClient, FtxWsSetting, OrderInfo, OrderStatus, OrderType,
    Side, TickerInfo, WsChannel, WsDataEvent, WsMessageType, WsResponse, WsResponseData,
};
use rust_decimal::Decimal;

fn at(seconds: i64, nanos: u32) -> chrono::NaiveDateTime {
    chrono::DateTime::from_timestamp(seconds, nanos).expect("a time in range").naive_utc()
}

fn ticker() -> WsResponseData {
    WsResponseData::Ticker(TickerInfo {
        bid: Decimal::new(99, 0),
        ask: Decimal::new(101, 0),
        bid_size: Decimal::new(1, 0),
        ask_size: Decimal::new(2, 0),
        last: Decimal::new(100, 0),
        time: at(1621740952, 507955312),
    })
}

fn frame(type_: WsMessageType, market: Option<&str>, data: Option<WsResponseData>) -> WsResponse {
    WsResponse { market: market.map(|m| m.to_string()), type_, data }
}

fn btc_book() -> WsChannel {
    WsChannel::Orderbook("BTC/USD".to_string())
}

fn eth_trades() -> WsChannel {
    WsChannel::Trades("ETH/USD".to_string())
}

fn written(client_requests: Vec<connector_ftx::ws::PendingControlRequest>) -> Vec<String> {
    client_requests.iter().map(|request| request.encode()).collect()
}

#[test]
fn channel_equality_is_by_kind_and_market() {
    assert_eq!(btc_book(), btc_book());
    assert_ne!(btc_book(), WsChannel::Orderbook("ETH/USD".to_string()));
    assert_ne!(btc_book(), WsChannel::Trades("BTC/USD".to_string()));
    assert_ne!(WsChannel::Trades("X".to_string()), WsChannel::Ticker("X".to_string()));
    assert_eq!(WsChannel::Fills, WsChannel::Fills);
    assert_eq!(WsChannel::Orders, WsChannel::Orders);
    assert_ne!(WsChannel::Fills, WsChannel::Orders);
    assert_ne!(WsChannel::Fills, WsChannel::Orderbook(String::new()));
}

#[test]
fn channel_clone_is_equal() {
    for channel in [btc_book(), eth_trades(), WsChannel::Ticker("A".to_string()), WsChannel::Fills] {
        assert_eq!(channel.clone(), channel);
    }
}

#[test]
fn channel_names_and_markets() {
    assert_eq!(btc_book().name(), "orderbook");
    assert_eq!(eth_trades().name(), "trades");
    assert_eq!(WsChannel::Ticker("A".to_string()).name(), "ticker");
    assert_eq!(WsChannel::Fills.name(), "fills");
    assert_eq!(WsChannel::Orders.name(), "orders");
    assert_eq!(btc_book().market(), "BTC/USD");
    assert_eq!(eth_trades().market(), "ETH/USD");
    assert_eq!(WsChannel::Ticker("A".to_string()).market(), "A");
    assert_eq!(WsChannel::Fills.market(), "");
    assert_eq!(WsChannel::Orders.market(), "");
}

#[test]
fn only_account_channels_are_private() {
    assert!(WsChannel::Fills.is_private());
    assert!(WsChannel::Orders.is_private());
    assert!(!btc_book().is_private());
    assert!(!eth_trades().is_private());
    assert!(!WsChannel::Ticker("A".to_string()).is_private());
}

#[test]
fn settings_name_the_exchange_address() {
    assert_eq!(FtxWsSetting::new().get_url(), "wss://ftx.com/ws");
}

#[test]
fn data_event_takes_payload_and_market() {
    let event = WsDataEvent::new(frame(WsMessageType::Update, Some("BTC/USD"), Some(ticker())));
    assert_eq!(event.market, Some("BTC/USD".to_string()));
    match event.data {
        WsResponseData::Ticker(ticker) => {
            assert_eq!(ticker.last, Decimal::new(100, 0));
            assert_eq!(ticker.time, at(1621740952, 507955312));
        }
        other => panic!("not a ticker: {:?}", other),
    }
}

#[test]
fn new_client_is_stopped_and_disconnected() {
    let client = FtxWsClient::new(vec![btc_book(), eth_trades()]);
    assert!(!client.is_started());
    assert_eq!(client.state(), ConnectionState::Disconnected);
    assert_eq!(client.channels(), &[btc_book(), eth_trades()]);
}

#[test]
fn new_client_counts_a_channel_once() {
    let client = FtxWsClient::new(vec![btc_book(), eth_trades(), btc_book(), eth_trades()]);
    assert_eq!(client.channels(), &[btc_book(), eth_trades()]);
}

#[test]
fn start_hands_out_the_ping_frame_once() {
    let mut client = FtxWsClient::new(vec![btc_book()]);
    assert_eq!(client.start(), Some("{\"op\":\"ping\"}".to_string()));
    assert!(client.is_started());
    assert_eq!(client.state(), ConnectionState::Connecting);
    assert_eq!(client.start(), None);
    assert!(client.is_started());
    assert_eq!(client.state(), ConnectionState::Connecting);
}

#[test]
fn a_second_start_leaves_a_live_connection_alone() {
    let mut client = FtxWsClient::new(vec![btc_book()]);
    assert!(client.start().is_some());
    client.on_connected();
    assert_eq!(client.start(), None);
    assert_eq!(client.state(), ConnectionState::Ready);
}

#[test]
fn requests_follow_the_channels() {
    let channels = [eth_trades(), WsChannel::Fills, btc_book()];
    let requests = FtxWsClient::subscribe_or_unsubscribe(&channels, false);
    assert_eq!(requests.len(), 3);
    for (request, channel) in requests.iter().zip(channels.iter()) {
        assert_eq!(&request.channel, channel);
        assert!(!request.subscribe);
    }
    assert!(FtxWsClient::subscribe_or_unsubscribe(&[], true).is_empty());
}

#[test]
fn every_connection_subscribes_to_all_channels_oldest_first() {
    let mut client = FtxWsClient::new(vec![btc_book(), eth_trades()]);
    assert!(client.start().is_some());
    let expected = vec![
        "{\"channel\":\"orderbook\",\"market\":\"BTC/USD\",\"op\":\"subscribe\"}".to_string(),
        "{\"channel\":\"trades\",\"market\":\"ETH/USD\",\"op\":\"subscribe\"}".to_string(),
    ];
    assert_eq!(written(client.on_connected()), expected);
    assert_eq!(client.state(), ConnectionState::Ready);
    client.on_disconnected();
    assert_eq!(client.state(), ConnectionState::Disconnected);
    assert_eq!(client.channels(), &[btc_book(), eth_trades()]);
    assert_eq!(written(client.on_connected()), expected);
    assert_eq!(client.state(), ConnectionState::Ready);
}

#[test]
fn on_data_delivers_snapshots_and_updates() {
    let client = FtxWsClient::new(vec![btc_book()]);
    for type_ in [WsMessageType::Partial, WsMessageType::Update] {
        match client.on_data(Ok(frame(type_, Some("BTC/USD"), Some(ticker())))) {
            ClientAction::Deliver(event) => {
                assert_eq!(event.market, Some("BTC/USD".to_string()));
                assert!(matches!(event.data, WsResponseData::Ticker(_)));
            }
            other => panic!("unexpected action {:?}", other),
        }
    }
}

#[test]
fn on_data_ignores_data_frames_without_payload() {
    let client = FtxWsClient::new(vec![btc_book()]);
    for type_ in [WsMessageType::Partial, WsMessageType::Update] {
        let action = client.on_data(Ok(frame(type_, Some("BTC/USD"), None)));
        assert!(matches!(action, ClientAction::Ignore));
        assert!(!action.disconnects());
    }
}

#[test]
fn on_data_notes_a_confirmed_subscription() {
    let client = FtxWsClient::new(vec![btc_book()]);
    match client.on_data(Ok(frame(WsMessageType::Subscribed, Some("BTC/USD"), None))) {
        ClientAction::Subscribed(market) => assert_eq!(market, Some("BTC/USD".to_string())),
        other => panic!("unexpected action {:?}", other),
    }
    match client.on_data(Ok(frame(WsMessageType::Subscribed, None, None))) {
        ClientAction::Subscribed(market) => assert_eq!(market, None),
        other => panic!("unexpected action {:?}", other),
    }
}

#[test]
fn on_data_ignores_pong_notice_and_unsubscription() {
    let client = FtxWsClient::new(vec![btc_book()]);
    for type_ in [WsMessageType::Pong, WsMessageType::Info, WsMessageType::Unsubscribed] {
        assert!(matches!(client.on_data(Ok(frame(type_, None, None))), ClientAction::Ignore));
        let loaded = frame(type_, Some("BTC/USD"), Some(ticker()));
        assert!(matches!(client.on_data(Ok(loaded)), ClientAction::Ignore));
    }
}

#[test]
fn on_data_disconnects_on_an_error_frame() {
    let client = FtxWsClient::new(vec![btc_book()]);
    let action = client.on_data(Ok(frame(WsMessageType::Error, Some("BTC/USD"), None)));
    assert!(action.disconnects());
    match action {
        ClientAction::Rejected(response) => {
            assert_eq!(response.type_, WsMessageType::Error);
            assert_eq!(response.market, Some("BTC/USD".to_string()));
        }
        other => panic!("unexpected action {:?}", other),
    }
}

#[test]
fn on_data_disconnects_on_a_frame_that_does_not_decode() {
    let client = FtxWsClient::new(vec![btc_book()]);
    let error = serde_json::from_str::<serde_json::Value>("garbage").unwrap_err();
    let message = error.to_string();
    let action = client.on_data(Err(error));
    assert!(action.disconnects());
    match action {
        ClientAction::Malformed(inner) => assert_eq!(inner.to_string(), message),
        other => panic!("unexpected action {:?}", other),
    }
}

#[test]
fn payload_types_can_be_cloned() {
    let order = OrderInfo {
        id: 9,
        market: "BTC/USD".to_string(),
        future: None,
        type_: OrderType::Limit,
        side: Side::Sell,
        price: Some(Decimal::new(12345, 2)),
        size: Decimal::new(1, 1),
        reduce_only: false,
        ioc: false,
        post_only: true,
        status: OrderStatus::Open,
        filled_size: Decimal::new(0, 0),
        remaining_size: Decimal::new(1, 1),
        avg_fill_price: None,
        client_id: Some("mine".to_string()),
        created_at: at(1, 2),
    };
    let response = frame(WsMessageType::Update, None, Some(WsResponseData::Order(order)));
    let copy = response.clone();
    match (response.data, copy.data) {
        (Some(WsResponseData::Order(a)), Some(WsResponseData::Order(b))) => {
            assert_eq!(a.id, b.id);
            assert_eq!(a.price, b.price);
            assert_eq!(a.client_id, b.client_id);
            assert_eq!(a.status, b.status);
        }
        _ => panic!("the clone lost the payload"),
    }
}

#[test]
fn clones_carry_every_field() {
    let fill = connector_ftx::ws::FillInfo {
        id: 7,
        market: Some("BTC/USD".to_string()),
        future: None,
        base_currency: Some("BTC".to_string()),
        quote_currency: Some("USD".to_string()),
        type_: "order".to_string(),
        side: Side::Buy,
        price: Decimal::new(30_000, 0),
        size: Decimal::new(25, 2),
        order_id: Some(11),
        trade_id: None,
        time: at(1621740952, 0),
        fee: Decimal::new(3, 1),
        fee_rate: Decimal::new(4, 4),
        fee_currency: "USD".to_string(),
        liquidity: connector_ftx::ws::Liquidity::Taker,
    };
    let copy = fill.clone();
    assert_eq!(format!("{:?}", copy), format!("{:?}", fill));

    let book = connector_ftx::ws::OrderbookInfo {
        action: connector_ftx::ws::WsOrderbookAction::Partial,
        bids: vec![(Decimal::new(1, 0), Decimal::new(2, 0)), (Decimal::new(3, 0), Decimal::new(4, 0))],
        asks: vec![(Decimal::new(5, 0), Decimal::new(6, 0))],
        checksum: 42,
        time: at(5, 6),
    };
    let copy = book.clone();
    assert_eq!(copy.bids, book.bids);
    assert_eq!(copy.asks, book.asks);
    assert_eq!(format!("{:?}", copy), format!("{:?}", book));

    let event = WsDataEvent {
        data: WsResponseData::OrderbookData(book),
        market: Some("BTC/USD".to_string()),
    };
    assert_eq!(format!("{:?}", event.clone()), format!("{:?}", event));

    let trades = WsResponseData::Trades(vec![
        connector_ftx::ws::TradeInfo {
            id: 1,
            price: Decimal::new(1, 0),
            size: Decimal::new(2, 0),
            side: Side::Sell,
            liquidation: true,
            time: at(1, 0),
        },
        connector_ftx::ws::TradeInfo {
            id: 2,
            price: Decimal::new(3, 0),
            size: Decimal::new(4, 0),
            side: Side::Buy,
            liquidation: false,
            time: at(2, 0),
        },
    ]);
    assert_eq!(format!("{:?}", trades.clone()), format!("{:?}", trades));
    let frame = frame(WsMessageType::Update, Some("ETH/USD"), Some(trades));
    assert_eq!(format!("{:?}", frame.clone()), format!("{:?}", frame));

    let events = [
        connector_ftx::ws::EventData::Fill(fill),
        connector_ftx::ws::EventData::Ticker(match ticker() {
            WsResponseData::Ticker(ticker) => ticker,
            other => panic!("not a ticker: {:?}", other),
        }),
    ];
    for event in events.iter() {
        assert_eq!(format!("{:?}", event.clone()), format!("{:?}", event));
    }
}
