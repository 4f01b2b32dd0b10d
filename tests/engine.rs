use base64::Engine;
use bili_ticker_buy::engine::{
    classify_create, AttemptOutcome, ClickStamp, CreateReply, EngineAction, OrderEngine, Phase,
    PrepareReply, TaskOutcome, TicketInfo,
};
use bili_ticker_buy::token::CTokenGenerator;

fn info(hot: bool) -> TicketInfo {
    TicketInfo {
        project_id: "85939".to_string(),
        project_name: Some("Concert".to_string()),
        screen_id: "101".to_string(),
        sku_id: "202".to_string(),
        count: 2,
        buyer_info: "[{\"id\":1}]".to_string(),
        deliver_info: "{}".to_string(),
        cookies: vec!["SESSDATA=x".to_string()],
        is_hot_project: Some(hot),
        pay_money: Some(68_000),
        contact_name: Some("Li".to_string()),
        contact_tel: Some("13800000000".to_string()),
    }
}

fn engine(hot: bool, interval: u64, mode: u32, total: u32) -> OrderEngine {
    OrderEngine::from_parts(
        info(hot),
        interval,
        mode,
        total,
        CTokenGenerator::new(1_000, 0, 5_000),
        "dev".to_string(),
    )
}

fn ok_prepare() -> PrepareReply {
    PrepareReply {
        errno: Some(0),
        code: None,
        token: "order-token".to_string(),
        ptoken: "pay-token".to_string(),
    }
}

fn code_reply(code: i64) -> CreateReply {
    CreateReply { errno: Some(code), code: None, order_id_text: None, order_id_number: None, pay_money: None }
}

fn stamp() -> ClickStamp {
    ClickStamp::from_draws(10_000, 0, 0, 0)
}

/// Runs prepare to success at time `now`.
fn prepared(e: &mut OrderEngine, now: u64) {
    assert!(matches!(e.poll(now, false), EngineAction::Prepare));
    e.on_prepare(Some(ok_prepare()), now, stamp());
    assert!(e.phase == Phase::Attempting);
}

#[test]
fn sixty_failures_with_budget_one_exhaust() {
    let mut e = engine(false, 100, 1, 1);
    prepared(&mut e, 0);
    let mut now: u64 = 0;
    for n in 1..=60u32 {
        assert!(matches!(e.poll(now, false), EngineAction::Create));
        assert_eq!(e.attempt, n);
        let outcome = e.on_create_reply(Some(code_reply(100017)));
        assert!(matches!(outcome, AttemptOutcome::Retryable(100017)));
        now += 100;
    }
    assert!(e.phase == Phase::Exhausted);
    assert!(matches!(e.poll(now, false), EngineAction::Finish(TaskOutcome::Exhausted)));
    for t in 0..5u64 {
        assert!(matches!(e.poll(now + t * 1000, false), EngineAction::Idle));
    }
}

#[test]
fn unlimited_mode_restarts_after_sixty() {
    let mut e = engine(false, 0, 0, 1);
    prepared(&mut e, 0);
    for _ in 0..60 {
        assert!(matches!(e.poll(0, false), EngineAction::Create));
        e.on_create_reply(None);
    }
    assert!(e.phase == Phase::Preparing);
    assert!(matches!(e.poll(0, false), EngineAction::Prepare));
}

#[test]
fn limited_budget_two_allows_one_restart() {
    let mut e = engine(false, 0, 1, 2);
    prepared(&mut e, 0);
    for _ in 0..60 {
        assert!(matches!(e.poll(0, false), EngineAction::Create));
        e.on_create_reply(Some(code_reply(-1)));
    }
    assert!(e.phase == Phase::Preparing);
    assert_eq!(e.restarts_left, 1);
}

#[test]
fn price_change_updates_next_payload() {
    let mut e = engine(false, 0, 1, 1);
    prepared(&mut e, 0);
    assert!(matches!(e.poll(0, false), EngineAction::Create));
    let reply = CreateReply { pay_money: Some(88_800), ..code_reply(100034) };
    let outcome = e.on_create_reply(Some(reply));
    assert!(matches!(outcome, AttemptOutcome::PriceChanged(Some(88_800))));
    assert_eq!(e.attempt, 1);
    assert!(e.phase == Phase::Attempting);
    assert_eq!(e.info.pay_money, Some(88_800));
    assert!(matches!(e.poll(0, false), EngineAction::Create));
    assert_eq!(e.attempt, 2);
    assert_eq!(e.create_payload().pay_money, Some(88_800));
}

#[test]
fn token_expiry_returns_to_prepare_without_budget() {
    let mut e = engine(false, 0, 1, 1);
    prepared(&mut e, 0);
    assert!(matches!(e.poll(0, false), EngineAction::Create));
    let outcome = e.on_create_reply(Some(CreateReply { errno: None, code: Some(100051), ..code_reply(0) }));
    assert!(matches!(outcome, AttemptOutcome::TokenExpired));
    assert!(e.phase == Phase::Preparing);
    assert_eq!(e.restarts_left, 1);
    assert!(matches!(e.poll(0, false), EngineAction::Prepare));
    assert!(matches!(e.poll(0, false), EngineAction::Idle));
    e.on_prepare(Some(ok_prepare()), 0, stamp());
    assert_eq!(e.attempt, 0);
}

#[test]
fn attempts_are_paced_from_their_start() {
    let mut e = engine(false, 100, 1, 1);
    prepared(&mut e, 0);
    assert!(matches!(e.poll(1_000, false), EngineAction::Create));
    e.on_create_reply(Some(code_reply(1)));
    assert!(matches!(e.poll(1_050, false), EngineAction::Sleep(40)));
    assert!(matches!(e.poll(1_081, false), EngineAction::Spin));
    assert!(matches!(e.poll(1_099, false), EngineAction::Spin));
    assert!(matches!(e.poll(1_100, false), EngineAction::Create));
    assert_eq!(e.last_attempt_start, Some(1_100));
}

#[test]
fn failed_prepare_waits_one_interval() {
    let mut e = engine(false, 500, 1, 1);
    assert!(matches!(e.poll(0, false), EngineAction::Prepare));
    let bad = PrepareReply { errno: Some(3), code: Some(-401), token: String::new(), ptoken: String::new() };
    e.on_prepare(Some(bad), 10, stamp());
    assert!(e.phase == Phase::Preparing);
    assert_eq!(e.restarts_left, 1);
    assert!(matches!(e.poll(11, false), EngineAction::Sleep(489)));
    assert!(matches!(e.poll(510, false), EngineAction::Prepare));
    e.on_prepare(None, 600, stamp());
    assert!(matches!(e.poll(1_099, false), EngineAction::Spin));
}

#[test]
fn prepare_succeeds_on_either_status_field() {
    let mut e = engine(false, 0, 1, 1);
    assert!(matches!(e.poll(0, false), EngineAction::Prepare));
    let reply = PrepareReply { errno: Some(7), code: Some(0), ..ok_prepare() };
    e.on_prepare(Some(reply), 0, stamp());
    assert!(e.phase == Phase::Attempting);
    assert_eq!(e.order_token, "order-token");
    assert_eq!(e.ptoken, "pay-token");
}

#[test]
fn cancellation_ends_task_once() {
    let mut e = engine(false, 1_000, 0, 0);
    prepared(&mut e, 0);
    assert!(matches!(e.poll(0, false), EngineAction::Create));
    e.on_create_reply(Some(code_reply(5)));
    assert!(matches!(e.poll(10, false), EngineAction::Sleep(_)));
    assert!(matches!(e.poll(20, true), EngineAction::Finish(TaskOutcome::Cancelled)));
    assert!(e.phase == Phase::Cancelled);
    assert!(matches!(e.poll(2_000, false), EngineAction::Idle));
}

#[test]
fn success_with_numeric_order_id() {
    let mut e = engine(false, 0, 1, 1);
    prepared(&mut e, 0);
    assert!(matches!(e.poll(0, false), EngineAction::Create));
    let reply = CreateReply { order_id_number: Some(1_234_567), ..code_reply(0) };
    e.on_create_reply(Some(reply));
    match e.poll(0, false) {
        EngineAction::LookupPayment(id) => assert_eq!(id, "1234567"),
        _ => panic!("expected payment lookup"),
    }
    assert!(matches!(e.poll(0, true), EngineAction::LookupPayment(_)));
    e.on_payment(Some("https://pay.example/q".to_string()));
    assert!(matches!(e.poll(0, false), EngineAction::Finish(TaskOutcome::Completed)));
    let h = e.history_item("2030-01-01 00:00:00".to_string()).unwrap();
    assert_eq!(h.order_id, "1234567");
    assert_eq!(h.project_name, "Concert");
    assert_eq!(h.price, 68_000);
    assert_eq!(h.pay_url, "https://pay.example/q");
    assert_eq!(h.time, "2030-01-01 00:00:00");
}

#[test]
fn duplicate_codes_count_as_placed_orders() {
    for code in [100048i64, 100079] {
        let mut e = engine(false, 0, 1, 1);
        prepared(&mut e, 0);
        assert!(matches!(e.poll(0, false), EngineAction::Create));
        let reply = CreateReply { order_id_text: Some("999".to_string()), ..code_reply(code) };
        e.on_create_reply(Some(reply));
        match e.poll(0, false) {
            EngineAction::LookupPayment(id) => assert_eq!(id, "999"),
            _ => panic!("expected payment lookup"),
        }
        e.on_payment(None);
        assert!(matches!(e.poll(0, false), EngineAction::Finish(TaskOutcome::Completed)));
        assert_eq!(e.history_item("t".to_string()).unwrap().order_id, "999");
    }
}

#[test]
fn success_without_order_id_completes_without_history() {
    let mut e = engine(false, 0, 1, 1);
    prepared(&mut e, 0);
    assert!(matches!(e.poll(0, false), EngineAction::Create));
    e.on_create_reply(Some(code_reply(100079)));
    assert!(matches!(e.poll(0, false), EngineAction::Finish(TaskOutcome::Completed)));
    assert!(e.history_item("t".to_string()).is_none());
}

#[test]
fn prepare_without_token_sends_empty_token() {
    let mut e = engine(false, 0, 1, 1);
    prepared(&mut e, 0);
    assert!(matches!(e.poll(0, false), EngineAction::Create));
    e.on_create_reply(Some(code_reply(100051)));
    assert!(matches!(e.poll(0, false), EngineAction::Prepare));
    let bare = PrepareReply { errno: Some(0), code: None, token: String::new(), ptoken: String::new() };
    e.on_prepare(Some(bare), 0, stamp());
    assert_eq!(e.create_payload().token, "");
}

#[test]
fn large_price_is_kept_and_saturated_in_history() {
    let mut e = engine(false, 0, 1, 1);
    prepared(&mut e, 0);
    assert!(matches!(e.poll(0, false), EngineAction::Create));
    let big = 5_000_000_000u64;
    e.on_create_reply(Some(CreateReply { pay_money: Some(big), ..code_reply(100034) }));
    assert_eq!(e.create_payload().pay_money, Some(big));
    assert!(matches!(e.poll(0, false), EngineAction::Create));
    e.on_create_reply(Some(CreateReply { order_id_text: Some("7".to_string()), ..code_reply(0) }));
    e.on_payment(None);
    assert_eq!(e.history_item("t".to_string()).unwrap().price, u32::MAX);
}

#[test]
fn history_falls_back_to_project_id() {
    let mut e = engine(false, 0, 1, 1);
    e.info.project_name = None;
    e.info.pay_money = None;
    prepared(&mut e, 0);
    assert!(matches!(e.poll(0, false), EngineAction::Create));
    e.on_create_reply(Some(CreateReply { order_id_text: Some("A1".to_string()), ..code_reply(0) }));
    e.on_payment(None);
    let h = e.history_item("t".to_string()).unwrap();
    assert_eq!(h.project_name, "85939");
    assert_eq!(h.price, 0);
    assert_eq!(h.pay_url, "");
}

#[test]
fn classification_of_replies() {
    assert!(matches!(classify_create(None), AttemptOutcome::TransportError));
    let none = CreateReply { errno: None, ..code_reply(0) };
    assert!(matches!(classify_create(Some(none)), AttemptOutcome::Retryable(-1)));
    let by_code = CreateReply { errno: None, code: Some(100051), ..code_reply(0) };
    assert!(matches!(classify_create(Some(by_code)), AttemptOutcome::TokenExpired));
    let errno_first = CreateReply { errno: Some(3), code: Some(0), ..code_reply(0) };
    assert!(matches!(classify_create(Some(errno_first)), AttemptOutcome::Retryable(3)));
    let empty_text = CreateReply { order_id_text: Some(String::new()), order_id_number: Some(5), ..code_reply(0) };
    assert!(matches!(classify_create(Some(empty_text)), AttemptOutcome::Success(None)));
    let negative = CreateReply { order_id_number: Some(-12), ..code_reply(0) };
    match classify_create(Some(negative)) {
        AttemptOutcome::Success(Some(id)) => assert_eq!(id, "-12"),
        _ => panic!("expected success"),
    }
}

#[test]
fn click_stamp_from_draws() {
    let c = ClickStamp::from_draws(10_000, 2_500, 700, 1_600);
    assert_eq!(c.now, 10_000);
    assert_eq!(c.origin, 8_500);
    assert_eq!(c.x, 300);
    assert_eq!(c.y, 1_100);
    let early = ClickStamp::from_draws(500, 0, 0, 0);
    assert_eq!(early.origin, 0);
    let drawn = ClickStamp::draw(1_000_000);
    assert!(drawn.origin > 997_000 && drawn.origin <= 999_000);
    assert!((100..600).contains(&drawn.x));
    assert!((500..1500).contains(&drawn.y));
}

#[test]
fn plain_project_payloads() {
    let mut e = engine(false, 0, 1, 1);
    let p = e.prepare_payload();
    assert_eq!(p.token, "");
    assert_eq!(p.count, 2);
    assert_eq!(p.project_id, "85939");
    prepared(&mut e, 0);
    let c = e.create_payload();
    assert_eq!(c.token, "order-token");
    assert_eq!(c.device_id, "dev");
    assert_eq!(c.buyer_info, "[{\"id\":1}]");
    assert_eq!(c.contact_tel.as_deref(), Some("13800000000"));
    assert!(c.ctoken.is_none());
    assert!(c.ptoken.is_none());
}

#[test]
fn hot_project_payloads_carry_tokens() {
    let mut e = engine(true, 0, 1, 1);
    e.info.contact_tel = Some("138****0000".to_string());
    let p = e.prepare_payload();
    let discovery = base64::engine::general_purpose::STANDARD.decode(&p.token).unwrap();
    assert_eq!(discovery.len(), 32);
    prepared(&mut e, 0);
    let c = e.create_payload();
    let submission = base64::engine::general_purpose::STANDARD.decode(c.ctoken.unwrap()).unwrap();
    assert_eq!(submission.len(), 32);
    assert_eq!(submission[0], 255);
    assert_eq!(c.ptoken.as_deref(), Some("pay-token"));
    assert!(c.contact_tel.is_none());
    assert_eq!(c.contact_name.as_deref(), Some("Li"));
}

#[test]
fn started_engine_has_device_digest() {
    let e = OrderEngine::start(info(false), 300, 1, 3, "task-1");
    assert_eq!(e.device_id.len(), 32);
    assert!(e.device_id.chars().all(|c| c.is_ascii_hexdigit() && !c.is_ascii_uppercase()));
    assert!((2_000..10_000).contains(&e.tokens.stay_time));
    assert!(e.limited);
    assert_eq!(e.restarts_left, 3);
    let other = OrderEngine::start(info(false), 300, 2, 3, "task-1");
    assert!(!other.limited);
}
