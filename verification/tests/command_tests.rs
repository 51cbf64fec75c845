use rithmic_rs::commands::{
    check_modify_prices, check_oco_legs, check_order_prices, price_requirements, LegPrices,
};
use rithmic_rs::{
    OrderPlacement, OrderType, RithmicBracketLevelAdjustment,
    RithmicCancelAllOrders, RithmicCancelOrder, RithmicError, RithmicExitPosition,
    RithmicLinkOrders, RithmicModifyOrderReferenceData, TrailingStop,
};

fn message(r: Result<(), RithmicError>) -> String {
    match r {
        Err(RithmicError::InvalidArgument(m)) => m,
        other => panic!("expected an invalid argument, got {other:?}"),
    }
}

#[test]
fn a_link_command_collects_its_ids() {
    let command = RithmicLinkOrders::new()
        .basket_ids(&["123456"])
        .basket_id("123457")
        .build()
        .unwrap();

    assert_eq!(command.basket_ids, ["123456", "123457"]);
}

#[test]
fn link_a_link_command_collects_its_ids() {
    let command = RithmicLinkOrders::new()
        .basket_ids(&["123456"])
        .basket_id("123457")
        .build()
        .unwrap();

    assert_eq!(command.basket_ids, ["123456", "123457"]);
}

#[test]
fn cancel_all_defaults_to_auto_and_takes_a_placement() {
    assert_eq!(
        RithmicCancelAllOrders::new()
            .build()
            .unwrap()
            .manual_or_auto,
        OrderPlacement::Auto
    );
    assert_eq!(
        RithmicCancelAllOrders::new()
            .manual_or_auto(OrderPlacement::Manual)
            .build()
            .unwrap()
            .manual_or_auto,
        OrderPlacement::Manual
    );
}

#[test]
fn the_id_carrying_commands_validate_unconditionally() {
    assert!(RithmicCancelOrder::default().validate().is_ok());
    assert!(RithmicCancelAllOrders::default().validate().is_ok());
    assert!(RithmicExitPosition::default().validate().is_ok());
    assert!(RithmicBracketLevelAdjustment::default().validate().is_ok());
    assert!(RithmicLinkOrders::default().validate().is_ok());
    assert!(
        RithmicModifyOrderReferenceData::default()
            .validate()
            .is_ok()
    );
}

#[test]
fn the_setters_fill_each_field() {
    let cancel = RithmicCancelOrder::new()
        .id("123456")
        .manual_or_auto(OrderPlacement::Manual)
        .window_name("chart")
        .build()
        .unwrap();
    assert_eq!(cancel.id, "123456");
    assert_eq!(cancel.manual_or_auto, OrderPlacement::Manual);
    assert_eq!(cancel.window_name.as_deref(), Some("chart"));

    let exit = RithmicExitPosition::new()
        .symbol("ESM6")
        .exchange("CME")
        .window_name("w")
        .trading_algorithm("algo")
        .build()
        .unwrap();
    assert_eq!(exit.symbol, "ESM6");
    assert_eq!(exit.exchange, "CME");
    assert_eq!(exit.window_name.as_deref(), Some("w"));
    assert_eq!(exit.trading_algorithm.as_deref(), Some("algo"));

    let adjust = RithmicBracketLevelAdjustment::new()
        .id("123456")
        .ticks(16)
        .level(2)
        .build()
        .unwrap();
    assert_eq!((adjust.id.as_str(), adjust.ticks, adjust.level), ("123456", 16, Some(2)));

    let retag = RithmicModifyOrderReferenceData::new()
        .basket_id("123456")
        .user_tag("new-tag")
        .build()
        .unwrap();
    assert_eq!(retag.basket_id, "123456");
    assert_eq!(retag.user_tag, "new-tag");

    let trailing = TrailingStop::new(20, 1);
    assert_eq!((trailing.trail_by_ticks, trailing.trail_by_price_id), (20, 1));
}

#[test]
fn price_rule_messages_are_exact() {
    assert_eq!(
        message(check_order_prices(OrderType::Limit, false, true)),
        "price is required for a LIMIT order"
    );
    assert_eq!(
        message(check_order_prices(OrderType::MarketIfTouched, true, false)),
        "trigger_price is required for a MARKET_IF_TOUCHED order"
    );
    assert_eq!(
        message(check_modify_prices(OrderType::StopMarket, false, false)),
        "trigger_price, or a price to stand in for it, is required for a STOP_MARKET order"
    );
    assert_eq!(price_requirements(OrderType::Market), (false, false));
    assert_eq!(price_requirements(OrderType::LimitIfTouched), (true, true));
    assert_eq!(OrderType::StopLimit.as_str_name(), "STOP_LIMIT");
}

#[test]
fn an_oco_group_reports_the_first_failing_leg() {
    let stop = LegPrices {
        price_type: OrderType::StopMarket,
        has_price: false,
        has_trigger: false,
    };
    let mit = LegPrices {
        price_type: OrderType::MarketIfTouched,
        has_price: false,
        has_trigger: true,
    };
    assert_eq!(
        message(check_oco_legs(&vec![stop, mit])),
        "trigger_price is required for a STOP_MARKET order"
    );
    assert_eq!(
        message(check_oco_legs(&vec![mit, stop])),
        "price_type MARKET_IF_TOUCHED is not available on an OCO leg"
    );
}

