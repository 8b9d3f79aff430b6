use hmac::Mac;
use news_rust::ladder::MarketCategory;
use news_rust::requests::{binance_leverage_query, binance_order, bybit_order, Side};
use news_rust::signing::{
    construct_headers, construct_headers_at, generate_headers_and_signature, sign, CredentialSet,
    Credentials,
};

fn creds(key: &str, secret: &str) -> Credentials {
    Credentials { api_key: key.to_string(), api_secret: secret.to_string() }
}

fn set() -> CredentialSet {
    CredentialSet {
        binance_spot: creds("spot-key", "spot-secret"),
        binance_futures: creds("futures-key", "futures-secret"),
        bybit: creds("bybit-key", "bybit-secret"),
    }
}

fn expected(secret: &str, message: &str) -> String {
    let mut mac = hmac::Hmac::<sha2::Sha256>::new_from_slice(secret.as_bytes()).unwrap();
    mac.update(message.as_bytes());
    hex::encode(mac.finalize().into_bytes())
}

#[test]
fn test_generate_headers_and_signature() {
    let payload_btcusdt = "symbol=BTCUSDT&recvWindow=5000&timestamp=1706641454555";
    for payload in [payload_btcusdt, ""] {
        let (headers, signature) = generate_headers_and_signature(&set(), MarketCategory::Spot, payload);
        assert_eq!(headers, vec![("X-MBX-APIKEY".to_string(), "spot-key".to_string())]);
        assert_eq!(signature, expected("spot-secret", payload));
        let (headers, signature) =
            generate_headers_and_signature(&set(), MarketCategory::Derivatives, payload);
        assert_eq!(headers, vec![("X-MBX-APIKEY".to_string(), "futures-key".to_string())]);
        assert_eq!(signature, expected("futures-secret", payload));
    }
}

#[test]
fn known_hmac_vector() {
    // RFC 4231 test case 2
    assert_eq!(
        sign("Jefe", "what do ya want for nothing?"),
        "5bdcc146bf60754e6a042426089575c75a003f089d2739839dec58b964ec3843"
    );
}

#[test]
fn signature_is_deterministic_and_timestamp_sensitive() {
    let c = creds("k", "s");
    let a = construct_headers_at(&c, "{}", "5000", 1_000);
    let b = construct_headers_at(&c, "{}", "5000", 1_000);
    let later = construct_headers_at(&c, "{}", "5000", 1_001);
    assert_eq!(a, b);
    assert_ne!(a[1].1, later[1].1);
    assert_eq!(a[1].1, expected("s", "1000k5000{}"));
    let other_payload = construct_headers_at(&c, "{ }", "5000", 1_000);
    assert_ne!(a[1].1, other_payload[1].1);
}

#[test]
fn bybit_headers_in_order() {
    let c = creds("key", "secret");
    let h = construct_headers_at(&c, "payload", "1000", 42);
    let names: Vec<&str> = h.iter().map(|(n, _)| n.as_str()).collect();
    assert_eq!(
        names,
        vec![
            "X-BAPI-API-KEY",
            "X-BAPI-SIGN",
            "X-BAPI-TIMESTAMP",
            "X-BAPI-RECV-WINDOW",
            "Connection",
            "Content-Type"
        ]
    );
    assert_eq!(h[0].1, "key");
    assert_eq!(h[2].1, "42");
    assert_eq!(h[3].1, "1000");
    assert_eq!(h[4].1, "keep-alive");
    assert_eq!(h[5].1, "application/json");
    let now = construct_headers(&c, "payload", "1000");
    assert_eq!(now.len(), 6);
}

#[test]
fn binance_order_query() {
    let r = binance_order(&set(), "DYMUSDT", MarketCategory::Derivatives, Side::Buy, 4_000_000, "1000", 7);
    let query = "symbol=DYMUSDT&side=BUY&type=MARKET&quantity=0.04&recvWindow=1000&timestamp=7";
    assert_eq!(r.payload, format!("{}&signature={}", query, expected("futures-secret", query)));
    assert_eq!(r.headers, vec![("X-MBX-APIKEY".to_string(), "futures-key".to_string())]);
    let r = binance_order(&set(), "DYMUSDT", MarketCategory::Spot, Side::Sell, 150_000_000, "1000", 7);
    let query = "symbol=DYMUSDT&side=SELL&type=MARKET&quoteOrderQty=1.5&recvWindow=1000&timestamp=7";
    assert_eq!(r.payload, format!("{}&signature={}", query, expected("spot-secret", query)));
}

#[test]
fn binance_leverage_query_text() {
    let r = binance_leverage_query(&set(), "BTCUSDT", "5000", 9);
    let query = "symbol=BTCUSDT&recvWindow=5000&timestamp=9";
    assert_eq!(r.payload, format!("{}&signature={}", query, expected("futures-secret", query)));
}

#[test]
fn bybit_order_body() {
    let c = creds("key", "secret");
    let r = bybit_order(&c, "ZETAUSDT", MarketCategory::Derivatives, Side::Sell, 250_000_000, "1000", 5);
    assert_eq!(
        r.payload,
        r#"{"category":"linear","symbol":"ZETAUSDT","side":"Sell","orderType":"Market","qty":"2.5"}"#
    );
    assert_eq!(r.headers[1].1, expected("secret", &format!("5key1000{}", r.payload)));
}
