//! Request payloads: query strings for the first exchange, JSON bodies for
//! the second, each with its authentication material.
use vstd::prelude::*;
use vstd::utf8::encode_utf8;
use crate::amount::{amount_text, digits_of, push_amount, push_digits};
use crate::ladder::MarketCategory;
use crate::signing::{
    Credentials,
    CredentialSet,
    binance_pair,
    bybit_headers,
    construct_headers_at,
    generate_headers_and_signature,
    lemma_digits_injective,
    lemma_encoding_injective,
    lemma_same_ends,
    signature_of,
};
use crate::text::{push_str, string_of};

verus! {

/// Direction of a market order.
#[derive(Debug, Clone, Copy, PartialEq, Eq, Structural)]
pub enum Side {
    Buy,
    Sell,
}

/// A request ready to send: what goes on the wire and its headers.
#[derive(Debug, Clone)]
pub struct SignedRequest {
    pub payload: String,
    pub headers: Vec<(String, String)>,
}

/// `k1=v1&k2=v2&...`
pub open spec fn query_text(fields: Seq<(Seq<char>, Seq<char>)>) -> Seq<char>
    decreases fields.len(),
{
    if fields.len() == 0 {
        Seq::empty()
    } else {
        let f = fields.last();
        let sep = if fields.len() == 1 { Seq::empty() } else { seq!['&'] };
        query_text(fields.drop_last()) + sep + f.0 + seq!['='] + f.1
    }
}

/// `"k1":"v1","k2":"v2",...`
pub open spec fn json_members(fields: Seq<(Seq<char>, Seq<char>)>) -> Seq<char>
    decreases fields.len(),
{
    if fields.len() == 0 {
        Seq::empty()
    } else {
        let f = fields.last();
        let sep = if fields.len() == 1 { Seq::empty() } else { seq![','] };
        json_members(fields.drop_last()) + sep + seq!['"'] + f.0 + seq!['"', ':', '"'] + f.1 + seq!['"']
    }
}

/// A flat JSON object of string members.
pub open spec fn json_text(fields: Seq<(Seq<char>, Seq<char>)>) -> Seq<char> {
    seq!['{'] + json_members(fields) + seq!['}']
}

pub fn query_string(fields: &Vec<(String, String)>) -> (r: String)
    ensures
        r@ == query_text(fields.deep_view()),
{
    let ghost fv = fields.deep_view();
    let mut out: Vec<char> = Vec::new();
    let mut i: usize = 0;
    while i < fields.len()
        invariant
            i <= fields@.len(),
            fv == fields.deep_view(),
            out@ == query_text(fv.take(i as int)),
        decreases fields@.len() - i,
    {
        assert(fv.take(i + 1).drop_last() == fv.take(i as int));
        if i > 0 {
            out.push('&');
        }
        push_str(&mut out, fields[i].0.as_str());
        out.push('=');
        push_str(&mut out, fields[i].1.as_str());
        i = i + 1;
    }
    assert(fv.take(fields@.len() as int) == fv);
    string_of(&out)
}

pub fn json_object(fields: &Vec<(String, String)>) -> (r: String)
    ensures
        r@ == json_text(fields.deep_view()),
{
    let ghost fv = fields.deep_view();
    let mut out: Vec<char> = Vec::new();
    out.push('{');
    let mut i: usize = 0;
    while i < fields.len()
        invariant
            i <= fields@.len(),
            fv == fields.deep_view(),
            out@ == seq!['{'] + json_members(fv.take(i as int)),
        decreases fields@.len() - i,
    {
        assert(fv.take(i + 1).drop_last() == fv.take(i as int));
        if i > 0 {
            out.push(',');
        }
        out.push('"');
        push_str(&mut out, fields[i].0.as_str());
        out.push('"');
        out.push(':');
        out.push('"');
        push_str(&mut out, fields[i].1.as_str());
        out.push('"');
        i = i + 1;
    }
    assert(fv.take(fields@.len() as int) == fv);
    out.push('}');
    string_of(&out)
}

/// Decimal text of a whole number.
pub fn decimal_string(n: u64) -> (r: String)
    ensures
        r@ == digits_of(n as nat),
{
    let mut out: Vec<char> = Vec::new();
    push_digits(&mut out, n as u128);
    string_of(&out)
}

/// Decimal text of an amount in units.
pub fn amount_string(u: u64) -> (r: String)
    ensures
        r@ == amount_text(u as nat),
{
    let mut out: Vec<char> = Vec::new();
    push_amount(&mut out, u as u128);
    string_of(&out)
}

pub open spec fn binance_side(side: Side) -> Seq<char> {
    match side {
        Side::Buy => "BUY"@,
        Side::Sell => "SELL"@,
    }
}

/// Derivatives orders give a base quantity; spot orders a quote amount.
pub open spec fn binance_amount_key(category: MarketCategory) -> Seq<char> {
    match category {
        MarketCategory::Derivatives => "quantity"@,
        MarketCategory::Spot => "quoteOrderQty"@,
    }
}

/// Fields of a market order on the first exchange.
pub open spec fn binance_order_fields(
    pair: Seq<char>,
    category: MarketCategory,
    side: Side,
    amount: nat,
    recv_window: Seq<char>,
    timestamp: nat,
) -> Seq<(Seq<char>, Seq<char>)> {
    seq![
        ("symbol"@, pair),
        ("side"@, binance_side(side)),
        ("type"@, "MARKET"@),
        (binance_amount_key(category), amount_text(amount)),
        ("recvWindow"@, recv_window),
        ("timestamp"@, digits_of(timestamp)),
    ]
}

/// Fields of a position-risk (leverage) query on the first exchange.
pub open spec fn binance_leverage_fields(pair: Seq<char>, recv_window: Seq<char>, timestamp: nat) -> Seq<
    (Seq<char>, Seq<char>),
> {
    seq![("symbol"@, pair), ("recvWindow"@, recv_window), ("timestamp"@, digits_of(timestamp))]
}

/// A signed query on the first exchange: the query text, then its signature.
pub open spec fn binance_signed_text(secret: Seq<char>, query: Seq<char>) -> Seq<char> {
    query + "&signature="@ + signature_of(secret, query)
}

fn binance_signed(creds: &CredentialSet, category: MarketCategory, fields: &Vec<(String, String)>) -> (r: SignedRequest)
    ensures
        r.payload@ == binance_signed_text(
            binance_pair(*creds, category).api_secret@,
            query_text(fields.deep_view()),
        ),
        r.headers.deep_view() == seq![("X-MBX-APIKEY"@, binance_pair(*creds, category).api_key@)],
{
    let query = query_string(fields);
    let (headers, signature) = generate_headers_and_signature(creds, category, query.as_str());
    let mut out: Vec<char> = Vec::new();
    push_str(&mut out, query.as_str());
    push_str(&mut out, "&signature=");
    push_str(&mut out, signature.as_str());
    SignedRequest { payload: string_of(&out), headers }
}

/// A signed market order on the first exchange.
pub fn binance_order(
    creds: &CredentialSet,
    pair: &str,
    category: MarketCategory,
    side: Side,
    amount: u64,
    recv_window: &str,
    timestamp: u64,
) -> (r: SignedRequest)
    ensures
        r.payload@ == binance_signed_text(
            binance_pair(*creds, category).api_secret@,
            query_text(binance_order_fields(pair@, category, side, amount as nat, recv_window@, timestamp as nat)),
        ),
        r.headers.deep_view() == seq![("X-MBX-APIKEY"@, binance_pair(*creds, category).api_key@)],
{
    let side_text = match side {
        Side::Buy => String::from_str("BUY"),
        Side::Sell => String::from_str("SELL"),
    };
    let amount_key = match category {
        MarketCategory::Derivatives => String::from_str("quantity"),
        MarketCategory::Spot => String::from_str("quoteOrderQty"),
    };
    let mut fields: Vec<(String, String)> = Vec::new();
    fields.push((String::from_str("symbol"), String::from_str(pair)));
    fields.push((String::from_str("side"), side_text));
    fields.push((String::from_str("type"), String::from_str("MARKET")));
    fields.push((amount_key, amount_string(amount)));
    fields.push((String::from_str("recvWindow"), String::from_str(recv_window)));
    fields.push((String::from_str("timestamp"), decimal_string(timestamp)));
    assert(fields.deep_view() =~= binance_order_fields(pair@, category, side, amount as nat, recv_window@, timestamp as nat));
    binance_signed(creds, category, &fields)
}

/// A signed leverage query on the first exchange (derivatives credentials).
pub fn binance_leverage_query(creds: &CredentialSet, pair: &str, recv_window: &str, timestamp: u64) -> (r: SignedRequest)
    ensures
        r.payload@ == binance_signed_text(
            creds.binance_futures.api_secret@,
            query_text(binance_leverage_fields(pair@, recv_window@, timestamp as nat)),
        ),
        r.headers.deep_view() == seq![("X-MBX-APIKEY"@, creds.binance_futures.api_key@)],
{
    let mut fields: Vec<(String, String)> = Vec::new();
    fields.push((String::from_str("symbol"), String::from_str(pair)));
    fields.push((String::from_str("recvWindow"), String::from_str(recv_window)));
    fields.push((String::from_str("timestamp"), decimal_string(timestamp)));
    assert(fields.deep_view() =~= binance_leverage_fields(pair@, recv_window@, timestamp as nat));
    binance_signed(creds, MarketCategory::Derivatives, &fields)
}

pub open spec fn bybit_category(category: MarketCategory) -> Seq<char> {
    match category {
        MarketCategory::Derivatives => "linear"@,
        MarketCategory::Spot => "spot"@,
    }
}

pub open spec fn bybit_side(side: Side) -> Seq<char> {
    match side {
        Side::Buy => "Buy"@,
        Side::Sell => "Sell"@,
    }
}

/// Fields of a market order on the second exchange.
pub open spec fn bybit_order_fields(pair: Seq<char>, category: MarketCategory, side: Side, amount: nat) -> Seq<
    (Seq<char>, Seq<char>),
> {
    seq![
        ("category"@, bybit_category(category)),
        ("symbol"@, pair),
        ("side"@, bybit_side(side)),
        ("orderType"@, "Market"@),
        ("qty"@, amount_text(amount)),
    ]
}

/// A signed market order on the second exchange: a JSON body and the
/// headers that sign it at `timestamp`.
pub fn bybit_order(
    creds: &Credentials,
    pair: &str,
    category: MarketCategory,
    side: Side,
    amount: u64,
    recv_window: &str,
    timestamp: u64,
) -> (r: SignedRequest)
    ensures
        r.payload@ == json_text(bybit_order_fields(pair@, category, side, amount as nat)),
        r.headers.deep_view() == bybit_headers(*creds, r.payload@, recv_window@, timestamp as nat),
{
    let category_text = match category {
        MarketCategory::Derivatives => String::from_str("linear"),
        MarketCategory::Spot => String::from_str("spot"),
    };
    let side_text = match side {
        Side::Buy => String::from_str("Buy"),
        Side::Sell => String::from_str("Sell"),
    };
    let mut fields: Vec<(String, String)> = Vec::new();
    fields.push((String::from_str("category"), category_text));
    fields.push((String::from_str("symbol"), String::from_str(pair)));
    fields.push((String::from_str("side"), side_text));
    fields.push((String::from_str("orderType"), String::from_str("Market")));
    fields.push((String::from_str("qty"), amount_string(amount)));
    assert(fields.deep_view() =~= bybit_order_fields(pair@, category, side, amount as nat));
    let body = json_object(&fields);
    let headers = construct_headers_at(creds, body.as_str(), recv_window, timestamp);
    SignedRequest { payload: body, headers }
}

/// A signed GET on the second exchange whose query is `fields`.
pub fn bybit_query(
    creds: &Credentials,
    fields: &Vec<(String, String)>,
    recv_window: &str,
    timestamp: u64,
) -> (r: SignedRequest)
    ensures
        r.payload@ == query_text(fields.deep_view()),
        r.headers.deep_view() == bybit_headers(*creds, r.payload@, recv_window@, timestamp as nat),
{
    let query = query_string(fields);
    let headers = construct_headers_at(creds, query.as_str(), recv_window, timestamp);
    SignedRequest { payload: query, headers }
}

/// An order on the first exchange signs its timestamp last, so the same
/// order made at two different times signs different bytes.
pub proof fn lemma_binance_signed_bytes_differ(
    pair: Seq<char>,
    category: MarketCategory,
    side: Side,
    amount: nat,
    recv_window: Seq<char>,
    t1: nat,
    t2: nat,
)
    requires
        t1 != t2,
    ensures
        encode_utf8(query_text(binance_order_fields(pair, category, side, amount, recv_window, t1)))
            != encode_utf8(query_text(binance_order_fields(pair, category, side, amount, recv_window, t2))),
{
    let f1 = binance_order_fields(pair, category, side, amount, recv_window, t1);
    let f2 = binance_order_fields(pair, category, side, amount, recv_window, t2);
    let q1 = query_text(f1);
    let q2 = query_text(f2);
    if encode_utf8(q1) == encode_utf8(q2) {
        lemma_encoding_injective(q1, q2);
        assert(f1.drop_last() == f2.drop_last());
        let head = query_text(f1.drop_last()) + seq!['&'] + "timestamp"@ + seq!['='];
        let e = Seq::<char>::empty();
        assert(q1 == head + digits_of(t1) + e);
        assert(q2 == head + digits_of(t2) + e);
        lemma_same_ends(head, digits_of(t1), digits_of(t2), e);
        lemma_digits_injective(t1, t2);
    }
}

} // verus!
