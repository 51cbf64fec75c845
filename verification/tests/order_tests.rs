use rithmic_rs::orders::{
    RithmicBracketOrder, RithmicIfTouchedTrigger, RithmicModifyOrder, RithmicOcoOrder,
    RithmicOcoOrderLeg, RithmicOrder,
};
use rithmic_rs::{
    BracketType, OrderCondition, OrderPlacement, OrderPriceField, OrderSide, OrderType,
    RithmicBracketLevelAdjustment, RithmicCancelAllOrders, RithmicCancelOrder, RithmicError,
    RithmicExitPosition, RithmicLinkOrders, RithmicModifyOrderReferenceData, TimeInForce,
    TrailingStop,
};

fn text<T: std::fmt::Debug>(r: Result<T, RithmicError>) -> String {
    r.unwrap_err().to_display_string()
}

fn order() -> RithmicOrder<f64> {
    RithmicOrder::new()
        .symbol("ESH6")
        .exchange("CME")
        .quantity(1)
        .transaction_type(OrderSide::Buy)
        .price_type(OrderType::Limit)
}

fn bracket(quantity: i32, price_type: OrderType) -> RithmicBracketOrder<f64> {
    RithmicBracketOrder::new()
        .symbol("ESH6")
        .exchange("CME")
        .quantity(quantity)
        .action(OrderSide::Buy)
        .price_type(price_type)
}

fn leg() -> RithmicOcoOrderLeg<f64> {
    RithmicOcoOrderLeg::new()
        .symbol("ESH6")
        .exchange("CME")
        .quantity(1)
        .transaction_type(OrderSide::Sell)
        .price_type(OrderType::Market)
}

fn modify(price_type: OrderType) -> RithmicModifyOrder<f64> {
    RithmicModifyOrder::new().id("b").price_type(price_type)
}

// Orders.

#[test]
fn an_order_rejects_what_validate_rejects() {
    assert!(order().build().is_err());
    assert!(order().price(5000.0).build().is_ok());
}

#[test]
fn an_order_passes_through_an_empty_instrument_and_a_zero_size() {
    assert!(RithmicOrder::<f64>::new()
        .price_type(OrderType::Market)
        .build()
        .is_ok());
}

#[test]
fn an_order_sets_every_optional_field() {
    let order = order()
        .transaction_type(OrderSide::Sell)
        .price_type(OrderType::StopLimit)
        .price(4980.0)
        .trigger_price(4985.0)
        .user_tag("stop-order")
        .duration(TimeInForce::Gtc)
        .trailing_stop_by(20, 1)
        .trade_route("route-1")
        .manual_or_auto(OrderPlacement::Manual)
        .window_name("chart")
        .release_at(35900, 500)
        .cancel_at(36000, 250)
        .cancel_after_secs(120)
        .build()
        .unwrap();

    assert_eq!(order.duration, Some(TimeInForce::Gtc));
    assert_eq!(order.manual_or_auto, OrderPlacement::Manual);
    assert_eq!(order.trailing_stop.unwrap().trail_by_price_id, 1);
    assert_eq!(order.release_at_ssboe, Some(35900));
    assert_eq!(order.release_at_usecs, Some(500));
    assert_eq!(order.cancel_at_ssboe, Some(36000));
    assert_eq!(order.cancel_at_usecs, Some(250));
}

#[test]
fn a_market_order_validates_without_a_price() {
    let order = RithmicOrder::<f64> {
        price_type: OrderType::Market,
        ..Default::default()
    };

    assert!(order.validate().is_ok());
}

#[test]
fn a_limit_order_needs_a_price() {
    let mut order = RithmicOrder::<f64> {
        price_type: OrderType::Limit,
        ..Default::default()
    };

    let err = text(order.validate());
    assert!(err.contains("price is required"), "{err}");

    order.price = Some(5000.0);
    assert!(order.validate().is_ok());
}

#[test]
fn a_stop_market_order_needs_a_trigger_but_no_price() {
    let mut order = RithmicOrder::<f64> {
        price_type: OrderType::StopMarket,
        ..Default::default()
    };

    let err = text(order.validate());
    assert!(err.contains("trigger_price is required"), "{err}");

    order.trigger_price = Some(4985.0);
    assert!(order.validate().is_ok());
}

#[test]
fn a_stop_limit_order_needs_both() {
    let mut order = RithmicOrder::<f64> {
        price_type: OrderType::StopLimit,
        price: Some(4980.0),
        ..Default::default()
    };

    assert!(order.validate().is_err());

    order.trigger_price = Some(4985.0);
    assert!(order.validate().is_ok());
}

#[test]
fn an_order_does_not_check_its_instrument_or_size() {
    let order = RithmicOrder::<f64> {
        price_type: OrderType::Market,
        ..Default::default()
    };

    assert!(order.symbol.is_empty());
    assert_eq!(order.quantity, 0);
    assert!(order.validate().is_ok());
}

#[test]
fn the_error_names_the_order_type() {
    let order = RithmicOrder::<f64> {
        price_type: OrderType::LimitIfTouched,
        ..Default::default()
    };

    let err = text(order.validate());
    assert!(err.contains("LIMIT_IF_TOUCHED"), "{err}");
}

#[test]
fn an_order_error_is_the_first_missing_price_exactly() {
    assert_eq!(
        text(RithmicOrder::<f64>::new().price_type(OrderType::StopLimit).build()),
        "invalid argument: price is required for a STOP_LIMIT order"
    );
    assert_eq!(
        text(
            RithmicOrder::<f64>::new()
                .price_type(OrderType::StopLimit)
                .price(1.0)
                .build()
        ),
        "invalid argument: trigger_price is required for a STOP_LIMIT order"
    );
}

#[test]
fn an_if_touched_trigger_holds_its_five_fields() {
    let trigger = RithmicIfTouchedTrigger::new(
        "NQM6",
        "CME",
        OrderCondition::GreaterThanEqualTo,
        OrderPriceField::TradePrice,
        18250.5,
    );
    assert_eq!(trigger.symbol, "NQM6");
    assert_eq!(trigger.exchange, "CME");
    assert_eq!(trigger.condition, OrderCondition::GreaterThanEqualTo);
    assert_eq!(trigger.price_field, OrderPriceField::TradePrice);
    assert_eq!(trigger.price, 18250.5);

    let order = order().price(1.0).if_touched(trigger.clone()).build().unwrap();
    assert_eq!(order.if_touched, Some(trigger));
}

// Defaults.

#[test]
fn command_builders_new_matches_default() {
    assert_eq!(RithmicOrder::<f64>::new(), RithmicOrder::default());
    assert_eq!(RithmicBracketOrder::<f64>::new(), RithmicBracketOrder::default());
    assert_eq!(RithmicOcoOrder::<f64>::new(), RithmicOcoOrder::default());
    assert_eq!(
        RithmicCancelAllOrders::new(),
        RithmicCancelAllOrders::default()
    );
}

#[test]
fn mod_new_matches_default() {
    assert_eq!(RithmicOrder::<f64>::new(), RithmicOrder::default());
    assert_eq!(RithmicBracketOrder::<f64>::new(), RithmicBracketOrder::default());
    assert_eq!(RithmicOcoOrder::<f64>::new(), RithmicOcoOrder::default());
    assert_eq!(
        RithmicCancelAllOrders::new(),
        RithmicCancelAllOrders::default()
    );
}

#[test]
fn the_priced_commands_start_from_their_defaults() {
    assert_eq!(RithmicOcoOrderLeg::<f64>::new(), RithmicOcoOrderLeg::default());
    assert_eq!(RithmicModifyOrder::<f64>::new(), RithmicModifyOrder::default());
}

#[test]
fn rithmic_command_types_order_command_types_default_to_auto_placement() {
    assert_eq!(
        RithmicOrder::<f64>::default().manual_or_auto,
        OrderPlacement::Auto
    );
    assert_eq!(
        RithmicOcoOrderLeg::<f64>::default().manual_or_auto,
        OrderPlacement::Auto
    );
    assert_eq!(
        RithmicBracketOrder::<f64>::default().manual_or_auto,
        OrderPlacement::Auto
    );
    assert_eq!(
        RithmicModifyOrder::<f64>::default().manual_or_auto,
        OrderPlacement::Auto
    );
    assert_eq!(
        RithmicCancelOrder::default().manual_or_auto,
        OrderPlacement::Auto
    );
    assert_eq!(
        RithmicCancelAllOrders::default().manual_or_auto,
        OrderPlacement::Auto
    );
    assert_eq!(
        RithmicExitPosition::default().manual_or_auto,
        OrderPlacement::Auto
    );
}

#[test]
fn mod_order_command_types_default_to_auto_placement() {
    assert_eq!(
        RithmicOrder::<f64>::default().manual_or_auto,
        OrderPlacement::Auto
    );
    assert_eq!(
        RithmicOcoOrderLeg::<f64>::default().manual_or_auto,
        OrderPlacement::Auto
    );
    assert_eq!(
        RithmicBracketOrder::<f64>::default().manual_or_auto,
        OrderPlacement::Auto
    );
    assert_eq!(
        RithmicModifyOrder::<f64>::default().manual_or_auto,
        OrderPlacement::Auto
    );
    assert_eq!(
        RithmicCancelOrder::default().manual_or_auto,
        OrderPlacement::Auto
    );
    assert_eq!(
        RithmicCancelAllOrders::default().manual_or_auto,
        OrderPlacement::Auto
    );
    assert_eq!(
        RithmicExitPosition::default().manual_or_auto,
        OrderPlacement::Auto
    );
}

#[test]
fn command_builders_the_id_carrying_commands_accept_an_empty_id() {
    assert!(RithmicCancelOrder::new().build().is_ok());
    assert!(RithmicBracketLevelAdjustment::new()
        .ticks(16)
        .level(2)
        .build()
        .is_ok());
    assert!(RithmicModifyOrderReferenceData::new()
        .user_tag("tag")
        .build()
        .is_ok());
    assert!(RithmicExitPosition::new().build().is_ok());
    assert!(RithmicLinkOrders::new().basket_id("123456").build().is_ok());
    assert!(RithmicModifyOrder::new()
        .price(5005.0)
        .price_type(OrderType::Limit)
        .build()
        .is_ok());
}

#[test]
fn mod_the_id_carrying_commands_accept_an_empty_id() {
    assert!(RithmicCancelOrder::new().build().is_ok());
    assert!(RithmicBracketLevelAdjustment::new()
        .ticks(16)
        .level(2)
        .build()
        .is_ok());
    assert!(RithmicModifyOrderReferenceData::new()
        .user_tag("tag")
        .build()
        .is_ok());
    assert!(RithmicExitPosition::new().build().is_ok());
    assert!(RithmicLinkOrders::new().basket_id("123456").build().is_ok());
    assert!(RithmicModifyOrder::new()
        .price(5005.0)
        .price_type(OrderType::Limit)
        .build()
        .is_ok());
}

// Brackets.

#[test]
fn bracket_a_bracket_validates_its_entry_leg() {
    let mut order = RithmicBracketOrder::<f64> {
        price_type: OrderType::Limit,
        ..Default::default()
    };

    assert!(order.validate().is_err());

    order.price = Some(5000.0);
    assert!(order.validate().is_ok());
}

#[test]
fn rithmic_command_types_a_bracket_validates_its_entry_leg() {
    let mut order = RithmicBracketOrder::<f64> {
        price_type: OrderType::Limit,
        ..Default::default()
    };

    assert!(order.validate().is_err());

    order.price = Some(5000.0);
    assert!(order.validate().is_ok());
}

fn exit_legs_are_not_checked() {
    let ragged = RithmicBracketOrder::<f64> {
        price_type: OrderType::Market,
        target_quantity: vec![1],
        target_ticks: vec![16, 24],
        ..Default::default()
    };
    assert!(ragged.validate().is_ok());

    let bare = RithmicBracketOrder::<f64> {
        price_type: OrderType::Market,
        ..Default::default()
    };
    assert!(bare.validate().is_ok());

    let mismatched = RithmicBracketOrder::<f64> {
        price_type: OrderType::Market,
        bracket_type: Some(BracketType::TargetOnly),
        stop_quantity: vec![1],
        stop_ticks: vec![10],
        ..Default::default()
    };
    assert!(mismatched.validate().is_ok());
}

#[test]
fn bracket_a_bracket_does_not_check_its_exit_legs() {
    exit_legs_are_not_checked();
}

#[test]
fn rithmic_command_types_a_bracket_does_not_check_its_exit_legs() {
    exit_legs_are_not_checked();
}

fn sugar_matches_explicit() {
    let sugar = bracket(2, OrderType::Limit)
        .price(5000.0)
        .target(20)
        .stop(10)
        .build()
        .unwrap();

    let explicit = bracket(2, OrderType::Limit)
        .price(5000.0)
        .targets(&[(2, 20)])
        .stops(&[(2, 10)])
        .build()
        .unwrap();

    assert_eq!(sugar.target_quantity, explicit.target_quantity);
    assert_eq!(sugar.target_ticks, explicit.target_ticks);
    assert_eq!(sugar.stop_quantity, explicit.stop_quantity);
    assert_eq!(sugar.stop_ticks, explicit.stop_ticks);
    assert_eq!(sugar.bracket_type, explicit.bracket_type);
    assert_eq!(
        sugar.bracket_type,
        Some(BracketType::TargetAndStopStatic),
        "the simple path must stay byte-identical to what it sent before"
    );
}

#[test]
fn bracket_the_bracket_sugar_matches_the_explicit_vectors() {
    sugar_matches_explicit();
}

#[test]
fn command_builders_the_bracket_sugar_matches_the_explicit_vectors() {
    sugar_matches_explicit();
}

fn sugar_sizes_to_quantity_so_far() {
    let after = RithmicBracketOrder::<f64>::new()
        .price_type(OrderType::Market)
        .quantity(3)
        .target(20)
        .build()
        .unwrap();
    assert_eq!(after.target_quantity, vec![3]);

    let before = RithmicBracketOrder::<f64>::new()
        .price_type(OrderType::Market)
        .target(20)
        .quantity(3)
        .build()
        .unwrap();
    assert_eq!(
        before.target_quantity,
        vec![0],
        "quantity set after the leg cannot reach back and resize it"
    );
}

#[test]
fn bracket_the_bracket_sugar_sizes_its_leg_to_the_quantity_set_so_far() {
    sugar_sizes_to_quantity_so_far();
}

#[test]
fn command_builders_the_bracket_sugar_sizes_its_leg_to_the_quantity_set_so_far() {
    sugar_sizes_to_quantity_so_far();
}

fn shape_from_legs() {
    let target_only = bracket(1, OrderType::Market).target(20).build().unwrap();
    assert_eq!(
        target_only.bracket_type,
        Some(BracketType::TargetOnlyStatic)
    );

    let stop_only = bracket(1, OrderType::Market).stop(10).build().unwrap();
    assert_eq!(stop_only.bracket_type, Some(BracketType::StopOnlyStatic));

    let explicit = bracket(1, OrderType::Market)
        .stop(10)
        .bracket_type(BracketType::StopOnly)
        .build()
        .unwrap();
    assert_eq!(explicit.bracket_type, Some(BracketType::StopOnly));
}

#[test]
fn bracket_the_bracket_derives_the_shape_from_the_legs() {
    shape_from_legs();
}

#[test]
fn command_builders_the_bracket_derives_the_shape_from_the_legs() {
    shape_from_legs();
}

fn rejects_what_validate_rejects() {
    let err = text(bracket(1, OrderType::Limit).target(20).build());
    assert!(err.contains("price is required"), "{err}");
}

#[test]
fn bracket_a_bracket_rejects_what_validate_rejects() {
    rejects_what_validate_rejects();
}

#[test]
fn command_builders_a_bracket_rejects_what_validate_rejects() {
    rejects_what_validate_rejects();
}

#[test]
fn bracket_a_bracket_leaves_the_shape_unset_when_there_are_no_exit_legs() {
    assert_eq!(
        bracket(1, OrderType::Market).build().unwrap().bracket_type,
        None
    );
}

#[test]
fn command_builders_a_bracket_leaves_the_shape_unset_when_there_are_no_exit_legs() {
    assert_eq!(
        bracket(1, OrderType::Market).build().unwrap().bracket_type,
        None
    );
}

#[test]
fn building_a_built_bracket_changes_nothing() {
    let once = bracket(2, OrderType::Market).targets(&[(1, 8), (1, 16)]).build().unwrap();
    let twice = once.clone().build().unwrap();
    assert_eq!(once, twice);
    assert_eq!(once.target_quantity, vec![1, 1]);
    assert_eq!(once.target_ticks, vec![8, 16]);
    assert_eq!(once.bracket_type, Some(BracketType::TargetOnlyStatic));
}

#[test]
fn the_bracket_timing_setters_fill_both_halves() {
    let b = bracket(1, OrderType::Market)
        .target_market_at(36000, 250000)
        .stop_market_at(36100, 500000)
        .release_at(35900, 125000)
        .cancel_at(37000, 750000)
        .cancel_after_secs(120)
        .target_market_order_after_secs(30)
        .break_even_ticks(2)
        .break_even_trigger_ticks(10)
        .trailing_stop_trigger_ticks(12)
        .trailing_stop_by_last_trade_price(true)
        .target_market_order_if_touched(true)
        .stop_market_on_reject(true)
        .duration(TimeInForce::Gtc)
        .localid("advanced-bracket-1")
        .trade_route("route-2")
        .manual_or_auto(OrderPlacement::Manual);
    assert_eq!((b.target_market_at_ssboe, b.target_market_at_usecs), (Some(36000), Some(250000)));
    assert_eq!((b.stop_market_at_ssboe, b.stop_market_at_usecs), (Some(36100), Some(500000)));
    assert_eq!((b.release_at_ssboe, b.release_at_usecs), (Some(35900), Some(125000)));
    assert_eq!((b.cancel_at_ssboe, b.cancel_at_usecs), (Some(37000), Some(750000)));
    assert_eq!(b.cancel_after_secs, Some(120));
    assert_eq!(b.target_market_order_after_secs, Some(30));
    assert_eq!(b.break_even_ticks, Some(2));
    assert_eq!(b.break_even_trigger_ticks, Some(10));
    assert_eq!(b.trailing_stop_trigger_ticks, Some(12));
    assert_eq!(b.trailing_stop_by_last_trade_price, Some(true));
    assert_eq!(b.target_market_order_if_touched, Some(true));
    assert_eq!(b.stop_market_on_reject, Some(true));
    assert_eq!(b.duration, TimeInForce::Gtc);
    assert_eq!(b.localid, "advanced-bracket-1");
    assert_eq!(b.trade_route.as_deref(), Some("route-2"));
    assert_eq!(b.manual_or_auto, OrderPlacement::Manual);
}

// OCO.

fn leg_same_rules() {
    let mut leg = RithmicOcoOrderLeg::<f64> {
        price_type: OrderType::Limit,
        ..Default::default()
    };

    assert!(leg.validate().is_err());

    leg.price = Some(5000.0);
    assert!(leg.validate().is_ok());
}

#[test]
fn oco_an_oco_leg_validates_on_the_same_rules() {
    leg_same_rules();
}

#[test]
fn rithmic_command_types_an_oco_leg_validates_on_the_same_rules() {
    leg_same_rules();
}

fn leg_rejects_if_touched() {
    let leg = RithmicOcoOrderLeg::<f64> {
        price_type: OrderType::LimitIfTouched,
        price: Some(5000.0),
        trigger_price: Some(5000.0),
        ..Default::default()
    };

    let err = text(leg.validate());
    assert!(err.contains("LIMIT_IF_TOUCHED"), "{err}");
    assert!(err.contains("is not available on an OCO leg"), "{err}");
}

#[test]
fn oco_an_oco_leg_rejects_the_if_touched_price_types() {
    leg_rejects_if_touched();
}

#[test]
fn rithmic_command_types_an_oco_leg_rejects_the_if_touched_price_types() {
    leg_rejects_if_touched();
}

fn leg_build_rejects_if_touched() {
    let err = text(
        leg()
            .price_type(OrderType::MarketIfTouched)
            .trigger_price(4980.0)
            .build(),
    );

    assert!(err.contains("is not available on an OCO leg"), "{err}");
}

#[test]
fn an_oco_leg_build_rejects_the_if_touched_price_types() {
    leg_build_rejects_if_touched();
}

#[test]
fn command_builders_an_oco_leg_rejects_the_if_touched_price_types() {
    leg_build_rejects_if_touched();
}

fn group_checks_legs_not_count() {
    let ok = RithmicOcoOrderLeg::<f64> {
        price_type: OrderType::Market,
        ..Default::default()
    };

    assert!(RithmicOcoOrder::<f64> { legs: Vec::new() }.validate().is_ok());
    assert!(RithmicOcoOrder {
        legs: vec![ok.clone()]
    }
    .validate()
    .is_ok());

    let bad = RithmicOcoOrderLeg::<f64> {
        price_type: OrderType::Limit,
        ..Default::default()
    };
    assert!(RithmicOcoOrder {
        legs: vec![ok, bad]
    }
    .validate()
    .is_err());
}

#[test]
fn oco_an_oco_order_validates_each_leg_but_not_the_count() {
    group_checks_legs_not_count();
}

#[test]
fn rithmic_command_types_an_oco_order_validates_each_leg_but_not_the_count() {
    group_checks_legs_not_count();
}

fn group_collects_legs() {
    let tagged = |tag: &str| leg().user_tag(tag).build().unwrap();

    let order = RithmicOcoOrder::new()
        .legs(vec![tagged("a"), tagged("b")])
        .leg(tagged("c"))
        .legs(vec![tagged("d"), tagged("e")])
        .build()
        .unwrap();

    assert_eq!(order.legs.len(), 5);
    let tags: Vec<&str> = order.legs.iter().map(|l| l.user_tag.as_str()).collect();
    assert_eq!(tags, ["a", "b", "c", "d", "e"]);
}

#[test]
fn oco_an_oco_order_collects_its_legs() {
    group_collects_legs();
}

#[test]
fn command_builders_an_oco_order_collects_its_legs() {
    group_collects_legs();
}

fn group_rejects_invalid_leg() {
    let good = leg().build().unwrap();
    let bad = leg().price_type(OrderType::MarketIfTouched);

    assert!(RithmicOcoOrder::new().legs(vec![good, bad]).build().is_err());
}

#[test]
fn oco_an_oco_order_rejects_an_invalid_leg() {
    group_rejects_invalid_leg();
}

#[test]
fn command_builders_an_oco_order_rejects_an_invalid_leg() {
    group_rejects_invalid_leg();
}

#[test]
fn an_oco_leg_sets_its_trailing_stop_and_route() {
    let l = leg()
        .duration(TimeInForce::Ioc)
        .trailing_stop_by(20, 1)
        .trade_route("route-3")
        .manual_or_auto(OrderPlacement::Manual);
    assert_eq!(l.duration, TimeInForce::Ioc);
    assert_eq!(l.trailing_stop, Some(TrailingStop::new(20, 1)));
    assert_eq!(l.trade_route.as_deref(), Some("route-3"));
    assert_eq!(l.manual_or_auto, OrderPlacement::Manual);
}

// Modifications.

// The modify rule followed is the one that checks the prices its type needs
// (a price standing in for a missing trigger), not the earlier one that
// checked nothing; the test that a default modify always validates belongs
// to that earlier rule and is not carried here.
#[test]
fn a_modify_requires_the_prices_its_type_needs() {
    assert!(modify(OrderType::Market).build().is_ok());

    assert!(modify(OrderType::Limit).build().is_err());
    assert!(modify(OrderType::Limit).price(5000.0).build().is_ok());

    assert!(modify(OrderType::StopMarket).build().is_err());
    assert!(modify(OrderType::StopMarket).price(5000.0).build().is_ok());
    assert!(modify(OrderType::StopMarket)
        .trigger_price(5000.0)
        .build()
        .is_ok());

    assert!(modify(OrderType::StopLimit)
        .trigger_price(4999.0)
        .build()
        .is_err());
    assert!(modify(OrderType::StopLimit).price(5000.0).build().is_ok());

    assert!(modify(OrderType::MarketIfTouched).build().is_err());
    assert!(modify(OrderType::LimitIfTouched)
        .price(5000.0)
        .build()
        .is_ok());
}

#[test]
fn a_stop_modify_does_not_need_a_trigger_price() {
    let modify = RithmicModifyOrder::<f64> {
        id: "123456".to_string(),
        symbol: "ESH6".to_string(),
        exchange: "CME".to_string(),
        quantity: 2,
        price: Some(5005.0),
        price_type: OrderType::StopMarket,
        ..Default::default()
    };

    assert!(modify.validate().is_ok());
}

#[test]
fn a_modify_sets_its_optional_fields() {
    let m = modify(OrderType::Limit)
        .symbol("ESH6")
        .exchange("CME")
        .quantity(2)
        .price(5005.0)
        .manual_or_auto(OrderPlacement::Manual)
        .window_name("chart")
        .trail_by_ticks(4)
        .build()
        .unwrap();
    assert_eq!(m.id, "b");
    assert_eq!(m.quantity, 2);
    assert_eq!(m.price, Some(5005.0));
    assert_eq!(m.window_name.as_deref(), Some("chart"));
    assert_eq!(m.trail_by_ticks, Some(4));
    assert_eq!(m.manual_or_auto, OrderPlacement::Manual);
}

#[test]
fn every_order_type_builds_with_both_prices() {
    for t in [
        OrderType::Limit,
        OrderType::Market,
        OrderType::StopLimit,
        OrderType::StopMarket,
        OrderType::MarketIfTouched,
        OrderType::LimitIfTouched,
    ] {
        assert!(order().price_type(t).price(1.0).trigger_price(1.0).build().is_ok());
        assert!(modify(t).price(1.0).trigger_price(1.0).build().is_ok());
        assert!(bracket(1, t).price(1.0).trigger_price(1.0).build().is_ok());
    }
    assert!(RithmicOrder::<f64>::new().price_type(OrderType::Market).build().is_ok());
}

#[test]
fn a_modify_accepts_what_an_order_accepts() {
    for t in [OrderType::Limit, OrderType::StopMarket, OrderType::MarketIfTouched] {
        let mut o = order().price_type(t);
        let mut m = modify(t);
        if t == OrderType::Limit {
            o = o.price(2.0);
            m = m.price(2.0);
        } else {
            o = o.trigger_price(2.0);
            m = m.trigger_price(2.0);
        }
        assert!(o.validate().is_ok());
        assert!(m.validate().is_ok());
    }
}

#[test]
fn an_oco_leg_follows_the_order_rule_except_if_touched() {
    for t in [OrderType::Limit, OrderType::Market, OrderType::StopLimit, OrderType::StopMarket] {
        let as_order = RithmicOrder::<f64>::new().price_type(t).validate().map_err(|e| e.to_display_string());
        let as_leg = RithmicOcoOrderLeg::<f64>::new().price_type(t).validate().map_err(|e| e.to_display_string());
        assert_eq!(as_order, as_leg);
    }
    for t in [OrderType::MarketIfTouched, OrderType::LimitIfTouched] {
        assert!(RithmicOcoOrderLeg::<f64>::new()
            .price_type(t)
            .price(1.0)
            .trigger_price(1.0)
            .validate()
            .is_err());
    }
}
