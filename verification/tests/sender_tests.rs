use rithmic_rs::config::LoginConfig;
use rithmic_rs::requests::{
    BarSubType, ReplayDirection, SubscriptionRequest, SysInfraType, TickBarType, TimeOrder,
    UpdateBits,
};
use rithmic_rs::sender::fold_update_bits;
use rithmic_rs::orders::{RithmicBracketOrder, RithmicIfTouchedTrigger, RithmicOcoOrderLeg, RithmicOrder};
use rithmic_rs::{
    BracketType, OrderCondition, OrderPlacement, OrderPriceField, OrderSide, OrderType,
    RithmicAccount, RithmicConfig, RithmicEnv, RithmicSenderApi, TimeInForce,
};

fn test_config(env: RithmicEnv) -> RithmicConfig {
    RithmicConfig::builder(env)
        .url("wss://test.example.com:443")
        .beta_url("wss://test-alt.example.com:443")
        .user("user")
        .password("password")
        .app_name("app")
        .app_version("1")
        .system_name("Rithmic Paper Trading")
        .build()
        .expect("valid config")
}

fn configured_account() -> RithmicAccount {
    RithmicAccount::new("FCM_A", "IB_A", "ACCOUNT_A")
}

fn override_account() -> RithmicAccount {
    RithmicAccount::new("FCM_B", "IB_B", "ACCOUNT_B")
}

fn api() -> RithmicSenderApi {
    RithmicSenderApi::new(&test_config(RithmicEnv::Demo), &configured_account())
}

#[test]
fn pnl_snapshot_override_uses_supplied_account() {
    let mut api = api();

    let (request, _) = api.request_pnl_position_snapshot_for_account(&override_account());

    assert_eq!(request.fcm_id.as_deref(), Some("FCM_B"));
    assert_eq!(request.ib_id.as_deref(), Some("IB_B"));
    assert_eq!(request.account_id.as_deref(), Some("ACCOUNT_B"));
}

#[test]
fn legacy_request_path_keeps_configured_account() {
    let mut api = api();

    let (request, _) = api.request_show_orders();

    assert_eq!(request.fcm_id.as_deref(), Some("FCM_A"));
    assert_eq!(request.ib_id.as_deref(), Some("IB_A"));
    assert_eq!(request.account_id.as_deref(), Some("ACCOUNT_A"));
}

#[test]
fn exit_position_override_uses_supplied_account() {
    let mut api = api();

    let (request, _) = api.request_exit_position_for_account("ESM6", "CME", &override_account());

    assert_eq!(request.fcm_id.as_deref(), Some("FCM_B"));
    assert_eq!(request.ib_id.as_deref(), Some("IB_B"));
    assert_eq!(request.account_id.as_deref(), Some("ACCOUNT_B"));
}

#[test]
fn link_orders_override_uses_supplied_account() {
    let mut api = api();

    let (request, _) = api.request_link_orders_for_account(
        vec!["basket-1".to_string(), "basket-2".to_string()],
        &override_account(),
    );

    assert_eq!(
        request.fcm_id,
        vec!["FCM_B".to_string(), "FCM_B".to_string()]
    );
    assert_eq!(request.ib_id, vec!["IB_B".to_string(), "IB_B".to_string()]);
    assert_eq!(
        request.account_id,
        vec!["ACCOUNT_B".to_string(), "ACCOUNT_B".to_string()]
    );
}

#[test]
fn modify_order_reference_data_override_uses_supplied_account() {
    let mut api = api();

    let (request, _) = api.request_modify_order_reference_data_for_account(
        "basket-1",
        "new-tag",
        &override_account(),
    );

    assert_eq!(request.fcm_id.as_deref(), Some("FCM_B"));
    assert_eq!(request.ib_id.as_deref(), Some("IB_B"));
    assert_eq!(request.account_id.as_deref(), Some("ACCOUNT_B"));
}

#[test]
fn account_rms_updates_override_uses_supplied_account() {
    let mut api = api();

    let (request, _) = api.request_account_rms_updates_for_account(true, &override_account());

    assert_eq!(request.fcm_id.as_deref(), Some("FCM_B"));
    assert_eq!(request.ib_id.as_deref(), Some("IB_B"));
    assert_eq!(request.account_id.as_deref(), Some("ACCOUNT_B"));
    assert_eq!(request.request.as_deref(), Some("subscribe"));
}

#[test]
fn message_ids_count_up_from_one() {
    let mut api = api();
    let (a, id_a) = api.request_heartbeat();
    let (b, id_b) = api.request_logout();
    let (_, id_c) = api.request_login_info();

    assert_eq!(id_a, "1");
    assert_eq!(id_b, "2");
    assert_eq!(id_c, "3");
    assert_eq!(a.user_msg, vec!["1".to_string()]);
    assert_eq!(b.user_msg, vec!["2".to_string()]);
    assert_eq!((a.template_id, b.template_id), (18, 12));
    assert_eq!(api.message_count(), 3);
}

#[test]
fn message_ids_are_decimal_past_nine() {
    let mut api = api();
    for _ in 0..9 {
        api.request_heartbeat();
    }
    let (_, ten) = api.request_heartbeat();
    assert_eq!(ten, "10");
}

#[test]
fn login_carries_credentials_and_options() {
    let mut api = api();
    let mut options = LoginConfig::default();
    options.aggregated_quotes = Some(true);
    options.mac_addr = Some(vec!["aa:bb".to_string()]);
    options.os_platform = Some("linux".to_string());

    let (req, id) = api.request_login(
        "Rithmic Paper Trading",
        SysInfraType::TickerPlant,
        "user",
        "secret",
        &options,
    );

    assert_eq!(req.template_id, 10);
    assert_eq!(req.template_version.as_deref(), Some("5.30"));
    assert_eq!(req.user.as_deref(), Some("user"));
    assert_eq!(req.password.as_deref(), Some("secret"));
    assert_eq!(req.app_name.as_deref(), Some("app"));
    assert_eq!(req.app_version.as_deref(), Some("1"));
    assert_eq!(req.system_name.as_deref(), Some("Rithmic Paper Trading"));
    assert_eq!(req.infra_type, Some(SysInfraType::TickerPlant));
    assert_eq!(req.aggregated_quotes, Some(true));
    assert_eq!(req.mac_addr, vec!["aa:bb".to_string()]);
    assert_eq!(req.os_version, None);
    assert_eq!(req.os_platform.as_deref(), Some("linux"));
    assert_eq!(req.user_msg, vec![id]);
}

#[test]
fn market_data_subscription_unions_the_requested_bits() {
    let mut api = api();
    let (req, _) = api.request_market_data_update(
        "ESM6",
        "CME",
        vec![UpdateBits::LastTrade, UpdateBits::Bbo, UpdateBits::LastTrade],
        SubscriptionRequest::Subscribe,
    );

    assert_eq!(req.template_id, 100);
    assert_eq!(req.symbol.as_deref(), Some("ESM6"));
    assert_eq!(req.exchange.as_deref(), Some("CME"));
    assert_eq!(req.request, Some(SubscriptionRequest::Subscribe));
    assert_eq!(req.update_bits, Some(3));
    assert_eq!(fold_update_bits(&vec![]), 0);
    assert_eq!(
        fold_update_bits(&vec![UpdateBits::OrderBook, UpdateBits::AdjustedClose]),
        4 | 65536
    );
}

#[test]
fn cancel_all_is_a_manual_trader_action() {
    let mut api = api();
    let (req, _) = api.request_cancel_all_orders();
    assert_eq!(req.template_id, 346);
    assert_eq!(req.user_type, Some(3));
    assert_eq!(req.manual_or_auto, Some(OrderPlacement::Manual));
    assert_eq!(req.account_id.as_deref(), Some("ACCOUNT_A"));

    let (cancel, _) = api.request_cancel_order("basket-9");
    assert_eq!(cancel.template_id, 316);
    assert_eq!(cancel.basket_id.as_deref(), Some("basket-9"));
    assert_eq!(cancel.manual_or_auto, Some(OrderPlacement::Auto));
}

#[test]
fn tick_bar_replay_runs_forward_from_the_first_bar() {
    let mut api = api();
    let (req, _) = api.request_tick_bar_replay("ESM6", "CME", "5", 100, 200);
    assert_eq!(req.template_id, 206);
    assert_eq!(req.bar_type, Some(TickBarType::TickBar));
    assert_eq!(req.bar_sub_type, Some(BarSubType::Regular));
    assert_eq!(req.bar_type_specifier.as_deref(), Some("5"));
    assert_eq!((req.start_index, req.finish_index), (Some(100), Some(200)));
    assert_eq!(req.direction, Some(ReplayDirection::First));
    assert_eq!(req.time_order, Some(TimeOrder::Forwards));
}

#[test]
fn account_list_uses_the_configured_broker() {
    let mut api = api();
    let (req, _) = api.request_account_list();
    assert_eq!(req.template_id, 302);
    assert_eq!(req.fcm_id.as_deref(), Some("FCM_A"));
    assert_eq!(req.ib_id.as_deref(), Some("IB_A"));
    assert_eq!(req.user_type, Some(3));
}

fn advanced_bracket() -> RithmicBracketOrder<f64> {
    RithmicBracketOrder {
        action: OrderSide::Buy,
        duration: TimeInForce::Gtc,
        exchange: "CME".to_string(),
        localid: "advanced-bracket-1".to_string(),
        price_type: OrderType::StopLimit,
        price: Some(5000.25),
        trigger_price: Some(4999.75),
        quantity: 3,
        symbol: "ESM6".to_string(),
        bracket_type: Some(BracketType::TargetAndStop),
        target_quantity: vec![2, 1],
        target_ticks: vec![16, 24],
        stop_quantity: vec![3],
        stop_ticks: vec![8],
        if_touched: Some(RithmicIfTouchedTrigger::new(
            "NQM6",
            "CME",
            OrderCondition::GreaterThanEqualTo,
            OrderPriceField::TradePrice,
            18250.5,
        )),
        break_even_ticks: Some(2),
        break_even_trigger_ticks: Some(10),
        trailing_stop_trigger_ticks: Some(12),
        trailing_stop_by_last_trade_price: Some(true),
        target_market_order_if_touched: Some(true),
        stop_market_on_reject: Some(true),
        target_market_at_ssboe: Some(36000),
        target_market_at_usecs: Some(250000),
        stop_market_at_ssboe: Some(36100),
        stop_market_at_usecs: Some(500000),
        target_market_order_after_secs: Some(30),
        release_at_ssboe: Some(35900),
        release_at_usecs: Some(125000),
        cancel_at_ssboe: Some(37000),
        cancel_at_usecs: Some(750000),
        cancel_after_secs: Some(120),
        ..Default::default()
    }
}

#[test]
fn order_request_override_uses_supplied_account() {
    let mut api = api();
    let order = RithmicOrder::new()
        .symbol("ESM6")
        .exchange("CME")
        .quantity(1)
        .price(5000.0)
        .transaction_type(OrderSide::Buy)
        .price_type(OrderType::Limit)
        .user_tag("order-1")
        .duration(TimeInForce::Day);

    let (request, _) = api.request_order_for_account(&order, &override_account());

    assert_eq!(request.fcm_id.as_deref(), Some("FCM_B"));
    assert_eq!(request.ib_id.as_deref(), Some("IB_B"));
    assert_eq!(request.account_id.as_deref(), Some("ACCOUNT_B"));
}

#[test]
fn an_order_request_carries_the_order() {
    let mut api = api();
    let order = RithmicOrder::new()
        .symbol("ESM6")
        .exchange("CME")
        .quantity(2)
        .transaction_type(OrderSide::Sell)
        .price_type(OrderType::StopLimit)
        .price(4980.0)
        .trigger_price(4985.0)
        .user_tag("stop-order")
        .trailing_stop_by(20, 1)
        .window_name("chart")
        .release_at(35900, 500)
        .if_touched(RithmicIfTouchedTrigger::new(
            "NQM6",
            "CME",
            OrderCondition::LesserThan,
            OrderPriceField::BidPrice,
            18000.25,
        ));

    let (request, id) = api.request_order(&order);

    assert_eq!(id, "1");
    assert_eq!(request.template_id, 312);
    assert_eq!(request.user_msg, vec!["1".to_string()]);
    assert_eq!(request.account_id.as_deref(), Some("ACCOUNT_A"));
    assert_eq!(request.trade_route.as_deref(), Some("simulator"));
    assert_eq!(request.symbol.as_deref(), Some("ESM6"));
    assert_eq!(request.quantity, Some(2));
    assert_eq!(request.price, Some(4980.0));
    assert_eq!(request.trigger_price, Some(4985.0));
    assert_eq!(request.transaction_type, Some(OrderSide::Sell));
    assert_eq!(request.price_type, Some(OrderType::StopLimit));
    assert_eq!(request.manual_or_auto, Some(OrderPlacement::Auto));
    assert_eq!(request.duration, Some(TimeInForce::Day));
    assert_eq!(request.user_tag.as_deref(), Some("stop-order"));
    assert_eq!(request.window_name.as_deref(), Some("chart"));
    assert_eq!(request.trailing_stop, Some(true));
    assert_eq!(request.trail_by_ticks, Some(20));
    assert_eq!(request.trail_by_price_id, Some(1));
    assert_eq!(request.release_at_ssboe, Some(35900));
    assert_eq!(request.release_at_usecs, Some(500));
    assert_eq!(request.cancel_at_ssboe, None);
    assert_eq!(request.if_touched_symbol.as_deref(), Some("NQM6"));
    assert_eq!(request.if_touched_condition, Some(OrderCondition::LesserThan));
    assert_eq!(request.if_touched_price_field, Some(OrderPriceField::BidPrice));
    assert_eq!(request.if_touched_price, Some(18000.25));
}

#[test]
fn orders_route_by_environment_unless_they_name_a_route() {
    let order = RithmicOrder::<f64>::new().price_type(OrderType::Market);

    let mut demo = api();
    let (request, _) = demo.request_order(&order);
    assert_eq!(request.trade_route.as_deref(), Some("simulator"));
    assert_eq!(request.price, None);

    let mut live = RithmicSenderApi::new(&test_config(RithmicEnv::Live), &configured_account());
    let (request, _) = live.request_order(&order);
    assert_eq!(request.trade_route.as_deref(), Some("globex"));
    assert_eq!(live.trade_route(), "globex");

    let (request, id) = live.request_order(&order.trade_route("route-1"));
    assert_eq!(request.trade_route.as_deref(), Some("route-1"));
    assert_eq!(id, "2");
}

#[test]
fn bracket_request_override_uses_supplied_account() {
    let mut api = api();
    let bracket = RithmicBracketOrder::new()
        .action(OrderSide::Buy)
        .duration(TimeInForce::Day)
        .exchange("CME")
        .localid("bracket-1")
        .price_type(OrderType::Limit)
        .price(5000.0)
        .quantity(1)
        .target(20)
        .stop(10)
        .symbol("ESM6")
        .build()
        .unwrap();

    let (request, _) = api.request_bracket_order_for_account(bracket, &override_account());

    assert_eq!(request.fcm_id.as_deref(), Some("FCM_B"));
    assert_eq!(request.ib_id.as_deref(), Some("IB_B"));
    assert_eq!(request.account_id.as_deref(), Some("ACCOUNT_B"));
    assert_eq!(request.bracket_type, Some(BracketType::TargetAndStopStatic));
    assert_eq!(request.target_quantity, vec![1]);
    assert_eq!(request.target_ticks, vec![20]);
    assert_eq!(request.stop_quantity, vec![1]);
    assert_eq!(request.stop_ticks, vec![10]);
    assert_eq!(request.price, Some(5000.0));
    assert_eq!(request.trigger_price, None);
    assert_eq!(request.user_tag.as_deref(), Some("bracket-1"));
}

#[test]
fn advanced_bracket_request_encodes_trigger_and_if_touched_fields() {
    let mut api = api();

    let (request, _) =
        api.request_advanced_bracket_order_for_account(advanced_bracket(), &override_account());

    assert_eq!(request.fcm_id.as_deref(), Some("FCM_B"));
    assert_eq!(request.ib_id.as_deref(), Some("IB_B"));
    assert_eq!(request.account_id.as_deref(), Some("ACCOUNT_B"));
    assert_eq!(request.price, Some(5000.25));
    assert_eq!(request.trigger_price, Some(4999.75));
    assert_eq!(request.price_type, Some(OrderType::StopLimit));
    assert_eq!(request.bracket_type, Some(BracketType::TargetAndStop));
    assert_eq!(request.target_quantity, vec![2, 1]);
    assert_eq!(request.target_ticks, vec![16, 24]);
    assert_eq!(request.stop_quantity, vec![3]);
    assert_eq!(request.stop_ticks, vec![8]);
    assert_eq!(request.if_touched_symbol.as_deref(), Some("NQM6"));
    assert_eq!(request.if_touched_exchange.as_deref(), Some("CME"));
    assert_eq!(
        request.if_touched_condition,
        Some(OrderCondition::GreaterThanEqualTo)
    );
    assert_eq!(
        request.if_touched_price_field,
        Some(OrderPriceField::TradePrice)
    );
    assert_eq!(request.if_touched_price, Some(18250.5));
}

#[test]
fn advanced_bracket_request_encodes_management_and_timing_fields() {
    let mut api = api();

    let (request, _) = api.request_advanced_bracket_order(advanced_bracket());

    assert_eq!(request.break_even_ticks, Some(2));
    assert_eq!(request.break_even_trigger_ticks, Some(10));
    assert_eq!(request.trailing_stop_trigger_ticks, Some(12));
    assert_eq!(request.trailing_stop_by_last_trade_price, Some(true));
    assert_eq!(request.target_market_order_if_touched, Some(true));
    assert_eq!(request.stop_market_on_reject, Some(true));
    assert_eq!(request.target_market_at_ssboe, Some(36000));
    assert_eq!(request.target_market_at_usecs, Some(250000));
    assert_eq!(request.stop_market_at_ssboe, Some(36100));
    assert_eq!(request.stop_market_at_usecs, Some(500000));
    assert_eq!(request.target_market_order_after_secs, Some(30));
    assert_eq!(request.release_at_ssboe, Some(35900));
    assert_eq!(request.release_at_usecs, Some(125000));
    assert_eq!(request.cancel_at_ssboe, Some(37000));
    assert_eq!(request.cancel_at_usecs, Some(750000));
    assert_eq!(request.cancel_after_secs, Some(120));
    assert_eq!(request.template_id, 330);
    assert_eq!(request.user_type, Some(3));
    assert_eq!(request.duration, Some(TimeInForce::Gtc));
    assert_eq!(request.account_id.as_deref(), Some("ACCOUNT_A"));
}

#[test]
fn oco_request_override_uses_supplied_account() {
    let mut api = api();
    let leg1 = RithmicOcoOrderLeg::new()
        .symbol("ESM6")
        .exchange("CME")
        .quantity(1)
        .price(5000.0)
        .transaction_type(OrderSide::Buy)
        .duration(TimeInForce::Day)
        .price_type(OrderType::Limit)
        .user_tag("oco-1");
    let leg2 = RithmicOcoOrderLeg::new()
        .symbol("ESM6")
        .exchange("CME")
        .quantity(1)
        .price(4990.0)
        .trigger_price(4990.0)
        .transaction_type(OrderSide::Sell)
        .duration(TimeInForce::Day)
        .price_type(OrderType::StopMarket)
        .user_tag("oco-2");

    let (request, _) = api.request_oco_order_for_account(leg1, leg2, &override_account());

    assert_eq!(request.fcm_id.as_deref(), Some("FCM_B"));
    assert_eq!(request.ib_id.as_deref(), Some("IB_B"));
    assert_eq!(request.account_id.as_deref(), Some("ACCOUNT_B"));
}

#[test]
fn an_oco_request_lists_each_leg_in_order() {
    let mut api = api();
    let leg1 = RithmicOcoOrderLeg::new()
        .symbol("ESM6")
        .exchange("CME")
        .quantity(1)
        .price(5020.0)
        .transaction_type(OrderSide::Sell)
        .price_type(OrderType::Limit)
        .user_tag("take-profit");
    let leg2 = RithmicOcoOrderLeg::new()
        .symbol("ESM6")
        .exchange("CME")
        .quantity(2)
        .trigger_price(4980.0)
        .transaction_type(OrderSide::Sell)
        .price_type(OrderType::StopMarket)
        .user_tag("stop-loss")
        .trade_route("route-9");

    let (request, _) = api.request_oco_order(leg1, leg2);

    assert_eq!(request.template_id, 328);
    assert_eq!(request.user_tag, ["take-profit", "stop-loss"]);
    assert_eq!(request.quantity, [1, 2]);
    assert_eq!(request.price, [5020.0, 0.0]);
    assert_eq!(request.trigger_price, [0.0, 4980.0]);
    assert_eq!(request.price_type, [OrderType::Limit, OrderType::StopMarket]);
    assert_eq!(request.trade_route, ["simulator", "route-9"]);
    assert_eq!(request.manual_or_auto, [OrderPlacement::Auto, OrderPlacement::Auto]);
}

#[test]
fn a_modify_request_repeats_the_price_as_the_trigger_for_stops() {
    let mut api = api();
    let (stop, _) = api.request_modify_order("123456", "CME", "ESH6", 2, 5005.0, OrderType::StopMarket);
    assert_eq!(stop.template_id, 314);
    assert_eq!(stop.basket_id.as_deref(), Some("123456"));
    assert_eq!(stop.price, Some(5005.0));
    assert_eq!(stop.trigger_price, Some(5005.0));
    assert_eq!(stop.quantity, Some(2));
    assert_eq!(stop.manual_or_auto, Some(OrderPlacement::Auto));

    let (limit, _) = api.request_modify_order_for_account(
        "123456",
        "CME",
        "ESH6",
        2,
        5005.0,
        OrderType::Limit,
        &override_account(),
    );
    assert_eq!(limit.trigger_price, None);
    assert_eq!(limit.account_id.as_deref(), Some("ACCOUNT_B"));
}

#[test]
fn optional_arguments_are_carried_or_left_unset() {
    let mut api = api();
    let (with_date, _) = api.request_get_instrument_by_underlying("ES", "CME", Some("202606"));
    assert_eq!(with_date.expiration_date.as_deref(), Some("202606"));
    let (without, _) = api.request_get_instrument_by_underlying("ES", "CME", None);
    assert_eq!(without.expiration_date, None);
    assert_eq!(without.underlying_symbol.as_deref(), Some("ES"));

    let (history, _) = api.request_show_order_history(None);
    assert_eq!(history.basket_id, None);
    assert_eq!(history.template_id, 322);
}

#[test]
fn naming_the_configured_account_scopes_as_leaving_it_out() {
    let mut api = api();
    let (implicit, _) = api.request_show_orders();
    let (explicit, _) = api.request_show_orders_for_account(&configured_account());
    assert_eq!(implicit.fcm_id, explicit.fcm_id);
    assert_eq!(implicit.ib_id, explicit.ib_id);
    assert_eq!(implicit.account_id, explicit.account_id);
}

#[test]
fn an_oco_request_leaves_out_a_price_no_leg_has() {
    let mut api = api();
    let limit = |price: f64, tag: &str| {
        RithmicOcoOrderLeg::new()
            .symbol("ESM6")
            .exchange("CME")
            .quantity(1)
            .price(price)
            .price_type(OrderType::Limit)
            .user_tag(tag)
    };

    let (request, _) = api.request_oco_order(limit(5020.0, "a"), limit(4980.0, "b"));
    assert_eq!(request.template_id, 328);
    assert!(request.trigger_price.is_empty());
    assert_eq!(request.price, [5020.0, 4980.0]);
    assert_eq!(request.symbol, ["ESM6", "ESM6"]);
    assert_eq!(request.user_tag, ["a", "b"]);

    let market = || RithmicOcoOrderLeg::<f64>::new().price_type(OrderType::Market);
    let (request, _) = api.request_oco_order(market(), market());
    assert!(request.price.is_empty());
    assert!(request.trigger_price.is_empty());
}
