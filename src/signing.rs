//! Authentication material for signed exchange requests. One exchange signs
//! the request text alone; the other signs `timestamp || api key || receive
//! window || payload`. Both use HMAC-SHA256, hex encoded.
use vstd::prelude::*;
use vstd::utf8::encode_utf8;
use crate::amount::{digit_char, digits_of, push_digits};
use crate::ladder::MarketCategory;
use crate::text::{push_str, string_of};

verus! {

/// An API key and its secret.
#[derive(Debug, Clone)]
pub struct Credentials {
    pub api_key: String,
    pub api_secret: String,
}

/// Every credential pair the reaction needs: one exchange keeps separate
/// pairs for spot and derivatives, the other one pair.
#[derive(Debug, Clone)]
pub struct CredentialSet {
    pub binance_spot: Credentials,
    pub binance_futures: Credentials,
    pub bybit: Credentials,
}

/// The HMAC-SHA256 tag of `message` under `key`.
pub uninterp spec fn hmac_sha256(key: Seq<u8>, message: Seq<u8>) -> Seq<u8>;

/// Lower-case hex digit of a nibble.
pub open spec fn hex_digit(n: nat) -> char {
    if n < 10 {
        digit_char(n as int)
    } else if n == 10 {
        'a'
    } else if n == 11 {
        'b'
    } else if n == 12 {
        'c'
    } else if n == 13 {
        'd'
    } else if n == 14 {
        'e'
    } else {
        'f'
    }
}

/// Two lower-case hex digits per byte, high nibble first.
pub open spec fn hex_lower(b: Seq<u8>) -> Seq<char>
    decreases b.len(),
{
    if b.len() == 0 {
        Seq::empty()
    } else {
        hex_lower(b.drop_last()) + seq![hex_digit((b.last() / 16) as nat), hex_digit((b.last() % 16) as nat)]
    }
}

/// Hex text of the HMAC-SHA256 tag of `message`'s UTF-8 bytes under `secret`'s.
pub open spec fn signature_of(secret: Seq<char>, message: Seq<char>) -> Seq<char> {
    hex_lower(hmac_sha256(encode_utf8(secret), encode_utf8(message)))
}

/// Relies on `hmac::Hmac<sha2::Sha256>`: `new_from_slice` takes a key of any
/// length (its `InvalidLength` error is never returned), and `update` then
/// `finalize` give the 32-byte tag of `message`.
#[verifier::external_body]
fn hmac_sha256_tag(key: &[u8], message: &[u8]) -> (r: Vec<u8>)
    ensures
        r@ == hmac_sha256(key@, message@),
        r@.len() == 32,
{
    let mut mac = <hmac::Hmac<sha2::Sha256> as hmac::Mac>::new_from_slice(key).expect("any key length");
    hmac::Mac::update(&mut mac, message);
    hmac::Mac::finalize(mac).into_bytes().to_vec()
}

/// Relies on `hex::encode`: two lower-case hex digits per byte, in order.
#[verifier::external_body]
fn hex_encode(b: &[u8]) -> (r: String)
    ensures
        r@ == hex_lower(b@),
{
    hex::encode(b)
}

/// Relies on `std::time::SystemTime::duration_since(UNIX_EPOCH)`, which is an
/// error for a clock before the epoch, and on chrono's
/// `DateTime::<Utc>::from_timestamp`, which is `None` outside chrono's range,
/// and `timestamp_millis`: the current time in milliseconds since the epoch,
/// or `None`. Whatever the clock says, nothing here panics.
#[verifier::external_body]
fn now_millis() -> (r: Option<i64>) {
    let since = std::time::SystemTime::now().duration_since(std::time::UNIX_EPOCH).ok()?;
    let secs = i64::try_from(since.as_secs()).ok()?;
    chrono::DateTime::<chrono::Utc>::from_timestamp(secs, since.subsec_nanos()).map(|t| t.timestamp_millis())
}

/// A clock reading as a timestamp: an unreadable or negative reading is zero.
pub fn timestamp_from_millis(t: Option<i64>) -> (r: u64)
    ensures
        r == timestamp_from_millis_spec(t),
{
    match t {
        Some(v) => if v < 0 {
            0
        } else {
            v as u64
        },
        None => 0,
    }
}

/// The current time in milliseconds since the epoch; zero when the clock
/// cannot be read that way.
pub fn current_timestamp() -> (r: u64)
    ensures
        r <= i64::MAX,
{
    let t = now_millis();
    timestamp_from_millis(t)
}

pub open spec fn timestamp_from_millis_spec(t: Option<i64>) -> u64 {
    match t {
        Some(v) => if v < 0 { 0 } else { v as u64 },
        None => 0,
    }
}

/// Hex HMAC-SHA256 signature of `message` under `secret`.
pub fn sign(secret: &str, message: &str) -> (r: String)
    ensures
        r@ == signature_of(secret@, message@),
{
    let tag = hmac_sha256_tag(secret.as_bytes(), message.as_bytes());
    hex_encode(tag.as_slice())
}

/// The pair that signs requests of `category` on the first exchange.
pub open spec fn binance_pair(set: CredentialSet, category: MarketCategory) -> Credentials {
    match category {
        MarketCategory::Spot => set.binance_spot,
        MarketCategory::Derivatives => set.binance_futures,
    }
}

/// Headers and signature of a request on the first exchange, which signs
/// the request text alone.
pub fn generate_headers_and_signature(creds: &CredentialSet, category: MarketCategory, payload: &str) -> (r: (
    Vec<(String, String)>,
    String,
))
    ensures
        r.0.deep_view() == seq![("X-MBX-APIKEY"@, binance_pair(*creds, category).api_key@)],
        r.1@ == signature_of(binance_pair(*creds, category).api_secret@, payload@),
{
    let pair = match category {
        MarketCategory::Spot => &creds.binance_spot,
        MarketCategory::Derivatives => &creds.binance_futures,
    };
    let signature = sign(pair.api_secret.as_str(), payload);
    let mut headers: Vec<(String, String)> = Vec::new();
    headers.push((String::from_str("X-MBX-APIKEY"), pair.api_key.clone()));
    (headers, signature)
}

/// What the second exchange signs.
pub open spec fn bybit_message(timestamp: nat, api_key: Seq<char>, recv_window: Seq<char>, payload: Seq<char>) -> Seq<char> {
    digits_of(timestamp) + api_key + recv_window + payload
}

/// Headers of a request on the second exchange, signed at `timestamp`.
pub open spec fn bybit_headers(creds: Credentials, payload: Seq<char>, recv_window: Seq<char>, timestamp: nat) -> Seq<
    (Seq<char>, Seq<char>),
> {
    seq![
        ("X-BAPI-API-KEY"@, creds.api_key@),
        ("X-BAPI-SIGN"@, signature_of(creds.api_secret@, bybit_message(timestamp, creds.api_key@, recv_window, payload))),
        ("X-BAPI-TIMESTAMP"@, digits_of(timestamp)),
        ("X-BAPI-RECV-WINDOW"@, recv_window),
        ("Connection"@, "keep-alive"@),
        ("Content-Type"@, "application/json"@),
    ]
}

/// Headers of a request on the second exchange, signed at `timestamp`.
pub fn construct_headers_at(creds: &Credentials, payload: &str, recv_window: &str, timestamp: u64) -> (r: Vec<
    (String, String),
>)
    ensures
        r.deep_view() == bybit_headers(*creds, payload@, recv_window@, timestamp as nat),
{
    let mut ts: Vec<char> = Vec::new();
    push_digits(&mut ts, timestamp as u128);
    let mut message: Vec<char> = ts.clone();
    push_str(&mut message, creds.api_key.as_str());
    push_str(&mut message, recv_window);
    push_str(&mut message, payload);
    let message = string_of(&message);
    let signature = sign(creds.api_secret.as_str(), message.as_str());
    let mut headers: Vec<(String, String)> = Vec::new();
    headers.push((String::from_str("X-BAPI-API-KEY"), creds.api_key.clone()));
    headers.push((String::from_str("X-BAPI-SIGN"), signature));
    headers.push((String::from_str("X-BAPI-TIMESTAMP"), string_of(&ts)));
    headers.push((String::from_str("X-BAPI-RECV-WINDOW"), String::from_str(recv_window)));
    headers.push((String::from_str("Connection"), String::from_str("keep-alive")));
    headers.push((String::from_str("Content-Type"), String::from_str("application/json")));
    assert(headers.deep_view() =~= bybit_headers(*creds, payload@, recv_window@, timestamp as nat));
    headers
}

/// Headers of a request on the second exchange, signed now.
pub fn construct_headers(creds: &Credentials, payload: &str, recv_window: &str) -> (r: Vec<(String, String)>)
    ensures
        exists|t: nat| r.deep_view() == bybit_headers(*creds, payload@, recv_window@, t),
{
    let t = current_timestamp();
    construct_headers_at(creds, payload, recv_window, t)
}

proof fn lemma_digits_len(n: nat)
    ensures
        digits_of(n).len() >= 1,
        n >= 10 ==> digits_of(n).len() >= 2,
    decreases n,
{
    if n >= 10 {
        lemma_digits_len(n / 10);
    }
}

pub(crate) proof fn lemma_digits_injective(m: nat, n: nat)
    requires
        digits_of(m) == digits_of(n),
    ensures
        m == n,
    decreases m,
{
    lemma_digits_len(m);
    lemma_digits_len(n);
    if m >= 10 && n >= 10 {
        assert(digits_of(m).last() == digit_char((m % 10) as int));
        assert(digits_of(n).last() == digit_char((n % 10) as int));
        assert(digits_of(m).drop_last() == digits_of(m / 10));
        assert(digits_of(n).drop_last() == digits_of(n / 10));
        lemma_digits_injective(m / 10, n / 10);
    } else if m < 10 && n < 10 {
        assert(digits_of(m)[0] == digit_char(m as int));
        assert(digits_of(n)[0] == digit_char(n as int));
    }
}

pub(crate) proof fn lemma_same_ends(a: Seq<char>, x: Seq<char>, y: Seq<char>, b: Seq<char>)
    requires
        a + x + b == a + y + b,
    ensures
        x == y,
{
    assert((a + x + b).len() == a.len() + x.len() + b.len());
    assert((a + y + b).len() == a.len() + y.len() + b.len());
    assert(x.len() == y.len());
    assert forall|i: int| 0 <= i < x.len() implies x[i] == y[i] by {
        assert((a + x + b)[a.len() + i] == x[i]);
        assert((a + y + b)[a.len() + i] == y[i]);
    }
    assert(x =~= y);
}

pub(crate) proof fn lemma_encoding_injective(s: Seq<char>, t: Seq<char>)
    requires
        encode_utf8(s) == encode_utf8(t),
    ensures
        s == t,
{
    vstd::utf8::encode_utf8_decode_utf8(s);
    vstd::utf8::encode_utf8_decode_utf8(t);
}

/// What the second exchange signs changes whenever one of timestamp, API key,
/// receive window or payload changes, so requests made at different times
/// never sign the same bytes; the signature itself is a function of the
/// secret and those bytes (`signature_of`).
pub proof fn lemma_bybit_signed_bytes_differ(
    t1: nat,
    t2: nat,
    k1: Seq<char>,
    k2: Seq<char>,
    w1: Seq<char>,
    w2: Seq<char>,
    body1: Seq<char>,
    body2: Seq<char>,
)
    ensures
        t1 != t2 ==> encode_utf8(bybit_message(t1, k1, w1, body1)) != encode_utf8(bybit_message(t2, k1, w1, body1)),
        k1 != k2 ==> encode_utf8(bybit_message(t1, k1, w1, body1)) != encode_utf8(bybit_message(t1, k2, w1, body1)),
        w1 != w2 ==> encode_utf8(bybit_message(t1, k1, w1, body1)) != encode_utf8(bybit_message(t1, k1, w2, body1)),
        body1 != body2 ==> encode_utf8(bybit_message(t1, k1, w1, body1)) != encode_utf8(bybit_message(t1, k1, w1, body2)),
{
    let e = Seq::<char>::empty();
    let d = digits_of(t1);
    if encode_utf8(bybit_message(t1, k1, w1, body1)) == encode_utf8(bybit_message(t2, k1, w1, body1)) {
        lemma_encoding_injective(bybit_message(t1, k1, w1, body1), bybit_message(t2, k1, w1, body1));
        assert(bybit_message(t1, k1, w1, body1) == e + d + (k1 + w1 + body1));
        assert(bybit_message(t2, k1, w1, body1) == e + digits_of(t2) + (k1 + w1 + body1));
        lemma_same_ends(e, d, digits_of(t2), k1 + w1 + body1);
        lemma_digits_injective(t1, t2);
    }
    if encode_utf8(bybit_message(t1, k1, w1, body1)) == encode_utf8(bybit_message(t1, k2, w1, body1)) {
        lemma_encoding_injective(bybit_message(t1, k1, w1, body1), bybit_message(t1, k2, w1, body1));
        assert(bybit_message(t1, k1, w1, body1) == d + k1 + (w1 + body1));
        assert(bybit_message(t1, k2, w1, body1) == d + k2 + (w1 + body1));
        lemma_same_ends(d, k1, k2, w1 + body1);
    }
    if encode_utf8(bybit_message(t1, k1, w1, body1)) == encode_utf8(bybit_message(t1, k1, w2, body1)) {
        lemma_encoding_injective(bybit_message(t1, k1, w1, body1), bybit_message(t1, k1, w2, body1));
        lemma_same_ends(d + k1, w1, w2, body1);
    }
    if encode_utf8(bybit_message(t1, k1, w1, body1)) == encode_utf8(bybit_message(t1, k1, w1, body2)) {
        lemma_encoding_injective(bybit_message(t1, k1, w1, body1), bybit_message(t1, k1, w1, body2));
        assert(bybit_message(t1, k1, w1, body1) == d + k1 + w1 + body1 + e);
        assert(bybit_message(t1, k1, w1, body2) == d + k1 + w1 + body2 + e);
        lemma_same_ends(d + k1 + w1, body1, body2, e);
    }
}

} // verus!
