//! Responses of the second exchange's endpoints, and what the reaction reads
//! out of them. Every read endpoint nests its data under `result.list`; an
//! empty list means the value is unavailable.
use vstd::prelude::*;
use crate::amount::{amount_value, parse_amount, parse_positive_amount, positive_amount};

verus! {

/// Order history of one order.
#[derive(Debug, Clone)]
pub struct OrderInformation {
    pub result: OrderInformationResult,
}

#[derive(Debug, Clone)]
pub struct OrderInformationResult {
    pub list: Vec<OrderInformationList>,
}

/// Executed quantity and fee of an order, both in the base asset.
#[derive(Debug, Clone)]
pub struct OrderInformationList {
    pub cum_exec_qty: String,
    pub cum_exec_fee: String,
}

/// Answer to an order placement.
#[derive(Debug, Clone)]
pub struct OrderResponse {
    pub result: OrderResponseResult,
}

#[derive(Debug, Clone)]
pub struct OrderResponseResult {
    pub order_id: String,
}

/// Ticker of one pair.
#[derive(Debug, Clone)]
pub struct PriceInformation {
    pub result: PriceInformationResult,
}

#[derive(Debug, Clone)]
pub struct PriceInformationResult {
    pub list: Vec<PriceInformationList>,
}

#[derive(Debug, Clone)]
pub struct PriceInformationList {
    pub last_price: String,
}

/// Instrument metadata of one pair.
#[derive(Debug, Clone)]
pub struct SymbolInformation {
    pub result: ListSymbols,
}

#[derive(Debug, Clone)]
pub struct ListSymbols {
    pub list: Vec<Symbol>,
}

#[derive(Debug, Clone)]
pub struct Symbol {
    pub lot_size_filter: LotSizeFilter,
}

#[derive(Debug, Clone)]
pub struct LotSizeFilter {
    pub qty_step: String,
}

/// Open positions of one pair.
#[derive(Debug, Clone)]
pub struct PositionList {
    pub result: PositionListResult,
}

#[derive(Debug, Clone)]
pub struct PositionListResult {
    pub list: Vec<LeverageList>,
}

#[derive(Debug, Clone)]
pub struct LeverageList {
    pub leverage: String,
}

/// The last traded price of the first ticker entry.
pub fn last_price(info: &PriceInformation) -> (r: Option<u64>)
    ensures
        info.result.list@.len() == 0 ==> r is None,
        info.result.list@.len() > 0 ==> (r matches Some(v) ==> positive_amount(
            info.result.list@[0].last_price@,
        ) == Some(v as nat)),
        info.result.list@.len() > 0 ==> (r is None ==> positive_amount(
            info.result.list@[0].last_price@,
        ) is None),
{
    if info.result.list.len() == 0 {
        None
    } else {
        parse_positive_amount(info.result.list[0].last_price.as_str())
    }
}

/// The quantity step of the first instrument entry.
pub fn qty_step(info: &SymbolInformation) -> (r: Option<u64>)
    ensures
        info.result.list@.len() == 0 ==> r is None,
        info.result.list@.len() > 0 ==> (r matches Some(v) ==> positive_amount(
            info.result.list@[0].lot_size_filter.qty_step@,
        ) == Some(v as nat)),
        info.result.list@.len() > 0 ==> (r is None ==> positive_amount(
            info.result.list@[0].lot_size_filter.qty_step@,
        ) is None),
{
    if info.result.list.len() == 0 {
        None
    } else {
        parse_positive_amount(info.result.list[0].lot_size_filter.qty_step.as_str())
    }
}

/// The leverage of the first position entry.
pub fn position_leverage(list: &PositionList) -> (r: Option<u64>)
    ensures
        list.result.list@.len() == 0 ==> r is None,
        list.result.list@.len() > 0 ==> (r matches Some(v) ==> positive_amount(
            list.result.list@[0].leverage@,
        ) == Some(v as nat)),
        list.result.list@.len() > 0 ==> (r is None ==> positive_amount(
            list.result.list@[0].leverage@,
        ) is None),
{
    if list.result.list.len() == 0 {
        None
    } else {
        parse_positive_amount(list.result.list[0].leverage.as_str())
    }
}

/// Executed quantity less the fee, when both read and something is left.
pub open spec fn net_fill(qty: Seq<char>, fee: Seq<char>) -> Option<nat> {
    match (amount_value(qty), amount_value(fee)) {
        (Some(q), Some(f)) => if q > f { Some((q - f) as nat) } else { None },
        _ => None,
    }
}

/// The base quantity that a filled spot buy left in hand: the executed
/// quantity of the first history entry less its fee.
pub fn filled_quantity(info: &OrderInformation) -> (r: Option<u64>)
    ensures
        info.result.list@.len() == 0 ==> r is None,
        info.result.list@.len() > 0 ==> (r matches Some(v) ==> net_fill(
            info.result.list@[0].cum_exec_qty@,
            info.result.list@[0].cum_exec_fee@,
        ) == Some(v as nat)),
        info.result.list@.len() > 0 ==> (r is None ==> net_fill(
            info.result.list@[0].cum_exec_qty@,
            info.result.list@[0].cum_exec_fee@,
        ) is None),
{
    if info.result.list.len() == 0 {
        return None;
    }
    let entry = &info.result.list[0];
    match (parse_amount(entry.cum_exec_qty.as_str()), parse_amount(entry.cum_exec_fee.as_str())) {
        (Some(q), Some(f)) => if q > f {
            Some(q - f)
        } else {
            None
        },
        _ => None,
    }
}

/// Query fields of a leverage lookup for a derivatives pair.
pub fn leverage_params(pair: &str) -> (r: Vec<(String, String)>)
    ensures
        r.deep_view() == seq![("category"@, "linear"@), ("symbol"@, pair@)],
{
    let mut fields: Vec<(String, String)> = Vec::new();
    fields.push((String::from_str("category"), String::from_str("linear")));
    fields.push((String::from_str("symbol"), String::from_str(pair)));
    assert(fields.deep_view() =~= seq![("category"@, "linear"@), ("symbol"@, pair@)]);
    fields
}

/// Query fields of an order-history lookup for a spot order.
pub fn order_history_params(order_id: &str) -> (r: Vec<(String, String)>)
    ensures
        r.deep_view() == seq![("category"@, "spot"@), ("order_id"@, order_id@)],
{
    let mut fields: Vec<(String, String)> = Vec::new();
    fields.push((String::from_str("category"), String::from_str("spot")));
    fields.push((String::from_str("order_id"), String::from_str(order_id)));
    assert(fields.deep_view() =~= seq![("category"@, "spot"@), ("order_id"@, order_id@)]);
    fields
}

/// The status part of any answer: zero means the request was carried out.
#[derive(Debug, Clone, Copy, PartialEq, Eq, Structural)]
pub struct OrderAnswer {
    pub ret_code: i64,
}

/// Whether an order was accepted. A rejection comes back with a non-zero
/// code, whatever the HTTP status.
pub fn order_accepted(answer: &OrderAnswer) -> (r: bool)
    ensures
        r == (answer.ret_code == 0),
{
    answer.ret_code == 0
}

} // verus!
