use news_rust::binance::{leverage_of, price_of, ExchangeInfo, Filter, PositionLeverage, PriceTicker, StepTable, Symbol};
use news_rust::bybit::{
    filled_quantity, last_price, leverage_params, order_history_params, position_leverage, qty_step,
    LeverageList, ListSymbols, LotSizeFilter, OrderInformation, OrderInformationList,
    OrderInformationResult, PositionList, PositionListResult, PriceInformation, PriceInformationList,
    PriceInformationResult, Symbol as InstrumentSymbol, SymbolInformation,
};

fn symbol(name: &str, filters: &[(&str, &str)]) -> Symbol {
    Symbol {
        symbol: name.to_string(),
        filters: filters
            .iter()
            .map(|(t, s)| Filter { filter_type: t.to_string(), step_size: s.to_string() })
            .collect(),
    }
}

#[test]
fn step_table_from_exchange_info() {
    let info = ExchangeInfo {
        symbols: vec![
            symbol("BTCUSDT", &[("PRICE_FILTER", "0.1"), ("LOT_SIZE", "0.001")]),
            symbol("PYTHUSDT", &[("LOT_SIZE", "1")]),
            symbol("ETCUSDT", &[("LOT_SIZE", "0.01")]),
            symbol("TWTUSDT", &[("LOT_SIZE", "0.1")]),
            symbol("BADUSDT", &[("LOT_SIZE", "0")]),
            symbol("ETCUSDT", &[("LOT_SIZE", "0.1")]),
        ],
    };
    let table = StepTable::from_exchange_info(&info);
    assert_eq!(table.step_for("BTCUSDT"), Some(100_000));
    assert_eq!(table.step_for("PYTHUSDT"), Some(100_000_000));
    assert_eq!(table.step_for("ETCUSDT"), Some(10_000_000));
    assert_eq!(table.step_for("TWTUSDT"), Some(10_000_000));
    assert_eq!(table.step_for("BADUSDT"), None);
    assert_eq!(table.step_for(""), None);
    assert_eq!(StepTable::new().step_for("BTCUSDT"), None);
}

#[test]
fn first_exchange_values() {
    assert_eq!(price_of(&PriceTicker { price: "43327.40".to_string() }), Some(4_332_740_000_000));
    assert_eq!(price_of(&PriceTicker { price: "0.0".to_string() }), None);
    assert_eq!(leverage_of(&vec![PositionLeverage { leverage: "20".to_string() }]), Some(2_000_000_000));
    assert_eq!(leverage_of(&Vec::new()), None);
}

#[test]
fn second_exchange_values() {
    let price = PriceInformation {
        result: PriceInformationResult { list: vec![PriceInformationList { last_price: "2.5".to_string() }] },
    };
    assert_eq!(last_price(&price), Some(250_000_000));
    assert_eq!(last_price(&PriceInformation { result: PriceInformationResult { list: vec![] } }), None);
    let info = SymbolInformation {
        result: ListSymbols {
            list: vec![InstrumentSymbol { lot_size_filter: LotSizeFilter { qty_step: "0.01".to_string() } }],
        },
    };
    assert_eq!(qty_step(&info), Some(1_000_000));
    let positions = PositionList { result: PositionListResult { list: vec![LeverageList { leverage: "10".to_string() }] } };
    assert_eq!(position_leverage(&positions), Some(1_000_000_000));
    let fill = OrderInformation {
        result: OrderInformationResult {
            list: vec![OrderInformationList { cum_exec_qty: "12.5".to_string(), cum_exec_fee: "0.0125".to_string() }],
        },
    };
    assert_eq!(filled_quantity(&fill), Some(1_248_750_000));
    let fee_too_big = OrderInformation {
        result: OrderInformationResult {
            list: vec![OrderInformationList { cum_exec_qty: "1".to_string(), cum_exec_fee: "2".to_string() }],
        },
    };
    assert_eq!(filled_quantity(&fee_too_big), None);
}

#[test]
fn query_params() {
    let p = leverage_params("BTCUSDT");
    assert_eq!(p, vec![("category".to_string(), "linear".to_string()), ("symbol".to_string(), "BTCUSDT".to_string())]);
    let h = order_history_params("abc");
    assert_eq!(h, vec![("category".to_string(), "spot".to_string()), ("order_id".to_string(), "abc".to_string())]);
}
