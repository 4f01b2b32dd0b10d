//! The order-attempt state machine: prepare, paced create attempts, payment
//! lookup, and the restart budget.
use vstd::prelude::*;

use crate::clock::{epoch_millis, reading_seconds, seconds_from_reading};
use crate::storage::HistoryItem;
use crate::text::{has_char, md5_hex, md5_hex_of, nat_digits, signed_text, decimal_of, unsigned_text};
use crate::token::{base64_of, zero_interleaved, CTokenGenerator};

verus! {

/// Relies on `rand::random`: a value drawn from the thread-local generator;
/// nothing is promised of it.
pub assume_specification<T>[ rand::random::<T> ]() -> (r: T)
    where
        rand::distributions::Standard: rand::distributions::Distribution<T>,
;

/// Create attempts per order token before the restart decision.
pub const ATTEMPTS_PER_ORDER: u32 = 60;

/// Reply code of a created order.
pub const CODE_OK: i64 = 0;

/// Reply code: the buyer already holds this order.
pub const CODE_ALREADY_OWNED: i64 = 100048;

/// Reply code: a duplicate of an order already placed.
pub const CODE_DUPLICATE: i64 = 100079;

/// Reply code: the price changed; the reply carries the new one.
pub const CODE_PRICE_CHANGED: i64 = 100034;

/// Reply code: the order token expired; a fresh prepare is needed.
pub const CODE_TOKEN_EXPIRED: i64 = 100051;

/// Pacing sleeps while more than this is left, and busy-waits below it.
pub const SPIN_THRESHOLD_MS: u64 = 20;

/// A pacing sleep stops this much short of the deadline.
pub const SPIN_MARGIN_MS: u64 = 10;

/// What a purchase is for. Buyer and delivery records are JSON text.
pub struct TicketInfo {
    pub project_id: String,
    pub project_name: Option<String>,
    pub screen_id: String,
    pub sku_id: String,
    pub count: u32,
    pub buyer_info: String,
    pub deliver_info: String,
    pub cookies: Vec<String>,
    pub is_hot_project: Option<bool>,
    /// The expected price; a price the service reports replaces it.
    pub pay_money: Option<u64>,
    pub contact_name: Option<String>,
    pub contact_tel: Option<String>,
}

/// The simulated click that accompanies create requests.
pub struct ClickStamp {
    /// Wall-clock milliseconds when the order token arrived.
    pub now: u64,
    /// The click instant, one to three seconds before `now`.
    pub origin: u64,
    pub x: u64,
    pub y: u64,
}

impl ClickStamp {
    /// A click from raw random draws: `x` in 100..600, `y` in 500..1500, the
    /// origin 1000 to 2999 milliseconds before `now` (not before zero).
    pub fn from_draws(now: u64, origin_draw: u64, x_draw: u64, y_draw: u64) -> (r: ClickStamp)
        ensures
            r.now == now,
            r.x == x_draw % 500 + 100,
            r.y == y_draw % 1000 + 500,
            r.origin == if now >= origin_draw % 2000 + 1000 {
                now - (origin_draw % 2000 + 1000)
            } else {
                0
            },
    {
        let back = origin_draw % 2000 + 1000;
        let origin = if now >= back { now - back } else { 0 };
        ClickStamp { now, origin, x: x_draw % 500 + 100, y: y_draw % 1000 + 500 }
    }

    /// A click at wall-clock time `now` with random position and lead.
    pub fn draw(now: u64) -> (r: ClickStamp)
        ensures
            r.now == now,
            100 <= r.x < 600,
            500 <= r.y < 1500,
            now >= 3000 ==> now - 3000 < r.origin <= now - 1000,
    {
        let o: u64 = rand::random::<u64>();
        let x: u64 = rand::random::<u64>();
        let y: u64 = rand::random::<u64>();
        ClickStamp::from_draws(now, o, x, y)
    }
}

/// The body of a prepare request.
pub struct PreparePayload {
    pub count: u32,
    pub screen_id: String,
    pub project_id: String,
    pub sku_id: String,
    /// A discovery token for high-demand projects, else empty.
    pub token: String,
}

/// The body of a create request.
pub struct CreatePayload {
    pub project_id: String,
    pub screen_id: String,
    pub sku_id: String,
    pub count: u32,
    pub buyer_info: String,
    pub deliver_info: String,
    /// The order token from the last successful prepare.
    pub token: String,
    pub device_id: String,
    pub click: ClickStamp,
    pub pay_money: Option<u64>,
    pub contact_name: Option<String>,
    /// The contact phone, left out when it is masked with `*`.
    pub contact_tel: Option<String>,
    /// A submission token, for high-demand projects.
    pub ctoken: Option<String>,
    /// The payment-setup token, for high-demand projects.
    pub ptoken: Option<String>,
}

/// The fields of a prepare reply that the engine reads.
pub struct PrepareReply {
    pub errno: Option<i64>,
    pub code: Option<i64>,
    /// `data.token`, the order token; empty when the reply has none.
    pub token: String,
    /// `data.ptoken`, the payment-setup token; empty when the reply has none.
    pub ptoken: String,
}

/// The fields of a create reply that the engine reads.
pub struct CreateReply {
    pub errno: Option<i64>,
    pub code: Option<i64>,
    /// `data.orderId` when it is text.
    pub order_id_text: Option<String>,
    /// `data.orderId` when it is a number.
    pub order_id_number: Option<i64>,
    /// `data.pay_money`, the new price after a price change.
    pub pay_money: Option<u64>,
}

/// What one create attempt came to.
pub enum AttemptOutcome {
    /// The order exists (code 0, already owned, or duplicate); its
    /// identifier, when the reply gave one.
    Success(Option<String>),
    /// The price changed; the new price, when the reply gave one.
    PriceChanged(Option<u64>),
    /// The order token expired.
    TokenExpired,
    /// Any other code.
    Retryable(i64),
    /// No reply arrived.
    TransportError,
}

/// A prepare succeeded when either status field holds zero.
pub open spec fn prepare_ok(r: PrepareReply) -> bool {
    r.errno == Some(0i64) || r.code == Some(0i64)
}

/// The status of a create reply: `errno`, else `code`, else -1.
pub open spec fn reply_code(r: CreateReply) -> i64 {
    match r.errno {
        Some(e) => e,
        None => match r.code {
            Some(c) => c,
            None => -1i64,
        },
    }
}

/// The order identifier of a reply: non-empty text, else the number's
/// decimal text, else none.
pub open spec fn order_id_of(r: CreateReply) -> Option<Seq<char>> {
    match r.order_id_text {
        Some(t) => if t@.len() > 0 { Some(t@) } else { None },
        None => match r.order_id_number {
            Some(n) => Some(decimal_of(n as int)),
            None => None,
        },
    }
}

/// The price recorded in the order history: the price in force, saturated
/// to `u32`, else zero.
pub open spec fn history_price(p: Option<u64>) -> u32 {
    match p {
        Some(v) => if v > u32::MAX { u32::MAX } else { v as u32 },
        None => 0,
    }
}

/// The view of an optional text.
pub open spec fn opt_view(o: Option<String>) -> Option<Seq<char>> {
    match o {
        Some(s) => Some(s@),
        None => None,
    }
}

/// How a create reply is classified.
pub open spec fn classified(reply: Option<CreateReply>, r: AttemptOutcome) -> bool {
    match reply {
        None => r is TransportError,
        Some(x) => {
            let c = reply_code(x);
            if c == CODE_OK || c == CODE_ALREADY_OWNED || c == CODE_DUPLICATE {
                r matches AttemptOutcome::Success(id) && opt_view(id) == order_id_of(x)
            } else if c == CODE_PRICE_CHANGED {
                r == AttemptOutcome::PriceChanged(x.pay_money)
            } else if c == CODE_TOKEN_EXPIRED {
                r is TokenExpired
            } else {
                r == AttemptOutcome::Retryable(c)
            }
        },
    }
}

/// Classifies the reply to a create attempt (`None`: no reply arrived). The
/// order exists on code 0 and on the already-owned and duplicate codes alike;
/// each carries the order identifier the reply names.
pub fn classify_create(reply: Option<CreateReply>) -> (r: AttemptOutcome)
    ensures
        classified(reply, r),
{
    match reply {
        None => AttemptOutcome::TransportError,
        Some(x) => {
            let c = match x.errno {
                Some(e) => e,
                None => match x.code {
                    Some(c) => c,
                    None => -1,
                },
            };
            if c == CODE_OK || c == CODE_ALREADY_OWNED || c == CODE_DUPLICATE {
                let id = match x.order_id_text {
                    Some(t) => if t.unicode_len() > 0 { Some(t) } else { None },
                    None => match x.order_id_number {
                        Some(n) => Some(signed_text(n)),
                        None => None,
                    },
                };
                AttemptOutcome::Success(id)
            } else if c == CODE_PRICE_CHANGED {
                AttemptOutcome::PriceChanged(x.pay_money)
            } else if c == CODE_TOKEN_EXPIRED {
                AttemptOutcome::TokenExpired
            } else {
                AttemptOutcome::Retryable(c)
            }
        },
    }
}

/// Where the engine stands.
#[derive(Clone, Copy, PartialEq, Eq, Structural)]
pub enum Phase {
    /// A prepare request is due.
    Preparing,
    /// A prepare request is out; its reply is awaited.
    PrepareSent,
    /// A create attempt is due.
    Attempting,
    /// A create attempt is out; its reply is awaited.
    CreateSent,
    /// The order exists; its payment link is to be looked up.
    PaymentLookup,
    /// Terminal: the order was placed.
    Completed,
    /// Terminal: the restart budget ran out.
    Exhausted,
    /// Terminal: the task was cancelled.
    Cancelled,
}

/// How a task ended.
#[derive(Clone, Copy, PartialEq, Eq, Structural)]
pub enum TaskOutcome {
    Completed,
    Exhausted,
    Cancelled,
}

/// What the task does next.
pub enum EngineAction {
    /// Send a prepare request.
    Prepare,
    /// Send the next create attempt.
    Create,
    /// Sleep this many milliseconds, then poll again.
    Sleep(u64),
    /// Busy-wait a moment, then poll again.
    Spin,
    /// Look up the payment link of this order.
    LookupPayment(String),
    /// The task ended: report it, once.
    Finish(TaskOutcome),
    /// Nothing to do: a reply is awaited, or the end was reported.
    Idle,
}

/// One purchase task.
pub struct OrderEngine {
    pub info: TicketInfo,
    /// Minimum spacing between network calls, in milliseconds.
    pub interval_ms: u64,
    /// Whether restarts are limited by `restarts_left`.
    pub limited: bool,
    pub restarts_left: u32,
    pub phase: Phase,
    /// Create attempts sent since the last successful prepare.
    pub attempt: u32,
    /// Earliest time (task clock, milliseconds) for the next network call.
    pub due_ms: u128,
    /// When the last create attempt was sent (task clock).
    pub last_attempt_start: Option<u64>,
    pub order_token: String,
    pub ptoken: String,
    pub click: ClickStamp,
    pub device_id: String,
    pub tokens: CTokenGenerator,
    pub order_id: String,
    pub pay_url: Option<String>,
    /// Whether the end of the task was reported.
    pub reported: bool,
}

impl OrderEngine {
    /// Whether the project needs anti-automation tokens.
    pub open spec fn hot(self) -> bool {
        self.info.is_hot_project == Some(true)
    }

    /// The state invariant.
    pub open spec fn wf(self) -> bool {
        &&& self.attempt <= ATTEMPTS_PER_ORDER
        &&& self.phase == Phase::Attempting ==> self.attempt < ATTEMPTS_PER_ORDER
        &&& self.phase == Phase::CreateSent ==> self.attempt >= 1
        &&& self.last_attempt_start matches Some(s) ==> self.due_ms >= s + self.interval_ms
        &&& self.due_ms <= u64::MAX as int + u64::MAX as int
    }

    /// The wait before a call due at `due`, at time `now`: a sleep that stops
    /// short of the deadline while much is left, a busy-wait near it.
    pub open spec fn wait_action(due: u128, now: u64) -> EngineAction {
        let left = due - now;
        if left > SPIN_THRESHOLD_MS {
            EngineAction::Sleep(
                if left - SPIN_MARGIN_MS > u64::MAX { u64::MAX } else { (left - SPIN_MARGIN_MS) as u64 },
            )
        } else {
            EngineAction::Spin
        }
    }

    /// The state and action of a poll at task time `now`.
    pub open spec fn polled(self, now: u64, cancelled: bool) -> (OrderEngine, EngineAction) {
        if self.reported {
            (self, EngineAction::Idle)
        } else {
            match self.phase {
                Phase::Completed => (
                    OrderEngine { reported: true, ..self },
                    EngineAction::Finish(TaskOutcome::Completed),
                ),
                Phase::Exhausted => (
                    OrderEngine { reported: true, ..self },
                    EngineAction::Finish(TaskOutcome::Exhausted),
                ),
                Phase::Cancelled => (
                    OrderEngine { reported: true, ..self },
                    EngineAction::Finish(TaskOutcome::Cancelled),
                ),
                Phase::PaymentLookup => (self, EngineAction::LookupPayment(self.order_id)),
                Phase::PrepareSent => (self, EngineAction::Idle),
                Phase::CreateSent => (self, EngineAction::Idle),
                Phase::Preparing => if cancelled {
                    (
                        OrderEngine { phase: Phase::Cancelled, reported: true, ..self },
                        EngineAction::Finish(TaskOutcome::Cancelled),
                    )
                } else if now < self.due_ms {
                    (self, Self::wait_action(self.due_ms, now))
                } else {
                    (OrderEngine { phase: Phase::PrepareSent, ..self }, EngineAction::Prepare)
                },
                Phase::Attempting => if cancelled {
                    (
                        OrderEngine { phase: Phase::Cancelled, reported: true, ..self },
                        EngineAction::Finish(TaskOutcome::Cancelled),
                    )
                } else if now < self.due_ms {
                    (self, Self::wait_action(self.due_ms, now))
                } else {
                    (
                        OrderEngine {
                            phase: Phase::CreateSent,
                            attempt: (self.attempt + 1) as u32,
                            last_attempt_start: Some(now),
                            due_ms: (now + self.interval_ms) as u128,
                            ..self
                        },
                        EngineAction::Create,
                    )
                },
            }
        }
    }

    /// The state after a prepare reply that arrived at task time `now`.
    pub open spec fn after_prepare(
        self,
        reply: Option<PrepareReply>,
        now: u64,
        click: ClickStamp,
    ) -> OrderEngine {
        if self.phase != Phase::PrepareSent {
            self
        } else {
            match reply {
                Some(r) if prepare_ok(r) => OrderEngine {
                    phase: Phase::Attempting,
                    attempt: 0,
                    order_token: r.token,
                    ptoken: r.ptoken,
                    click,
                    ..self
                },
                _ => OrderEngine {
                    phase: Phase::Preparing,
                    due_ms: if self.due_ms >= now + self.interval_ms {
                        self.due_ms
                    } else {
                        (now + self.interval_ms) as u128
                    },
                    ..self
                },
            }
        }
    }

    /// After an attempt that neither placed the order nor lost its token:
    /// the next attempt, or at the end of the attempts the restart decision.
    pub open spec fn continued(self) -> OrderEngine {
        if self.attempt < ATTEMPTS_PER_ORDER {
            OrderEngine { phase: Phase::Attempting, ..self }
        } else if !self.limited {
            OrderEngine { phase: Phase::Preparing, ..self }
        } else if self.restarts_left <= 1 {
            OrderEngine { phase: Phase::Exhausted, restarts_left: 0, ..self }
        } else {
            OrderEngine {
                phase: Phase::Preparing,
                restarts_left: (self.restarts_left - 1) as u32,
                ..self
            }
        }
    }

    /// The state after the outcome of the create attempt that is out.
    pub open spec fn after_create(self, outcome: AttemptOutcome) -> OrderEngine {
        if self.phase != Phase::CreateSent {
            self
        } else {
            match outcome {
                AttemptOutcome::Success(id) => match id {
                    Some(s) => OrderEngine { phase: Phase::PaymentLookup, order_id: s, ..self },
                    None => OrderEngine { phase: Phase::Completed, ..self },
                },
                AttemptOutcome::TokenExpired => OrderEngine { phase: Phase::Preparing, ..self },
                AttemptOutcome::PriceChanged(p) => match p {
                    Some(v) => OrderEngine {
                        info: TicketInfo { pay_money: Some(v), ..self.info },
                        ..self
                    }.continued(),
                    _ => self.continued(),
                },
                _ => self.continued(),
            }
        }
    }

    /// The state after the payment lookup of the placed order.
    pub open spec fn after_payment(self, url: Option<String>) -> OrderEngine {
        if self.phase != Phase::PaymentLookup {
            self
        } else {
            OrderEngine { phase: Phase::Completed, pay_url: url, ..self }
        }
    }

    /// A task that has not yet sent anything: it starts by preparing.
    /// `mode` 1 limits restarts to `total_attempts`; any other mode restarts
    /// without limit.
    pub fn from_parts(
        info: TicketInfo,
        interval_ms: u64,
        mode: u32,
        total_attempts: u32,
        tokens: CTokenGenerator,
        device_id: String,
    ) -> (r: OrderEngine)
        ensures
            r.wf(),
            r.info == info,
            r.interval_ms == interval_ms,
            r.limited == (mode == 1),
            r.restarts_left == total_attempts,
            r.phase == Phase::Preparing,
            r.attempt == 0,
            r.due_ms == 0,
            r.last_attempt_start is None,
            r.order_token@.len() == 0,
            r.ptoken@.len() == 0,
            r.tokens == tokens,
            r.device_id == device_id,
            r.order_id@.len() == 0,
            r.pay_url is None,
            !r.reported,
    {
        OrderEngine {
            info,
            interval_ms,
            limited: mode == 1,
            restarts_left: total_attempts,
            phase: Phase::Preparing,
            attempt: 0,
            due_ms: 0,
            last_attempt_start: None,
            order_token: String::new(),
            ptoken: String::new(),
            click: ClickStamp { now: 0, origin: 0, x: 0, y: 0 },
            device_id,
            tokens,
            order_id: String::new(),
            pay_url: None,
            reported: false,
        }
    }

    /// A new task for `task_id`. Its token generator is seeded with the
    /// current second and a stay time drawn in 2000..10000; its device
    /// identifier is the MD5 digest of the task identifier followed by a
    /// random number, fixed for the task's lifetime.
    pub fn start(
        info: TicketInfo,
        interval_ms: u64,
        mode: u32,
        total_attempts: u32,
        task_id: &str,
    ) -> (r: OrderEngine)
        ensures
            r.wf(),
            r.info == info,
            r.interval_ms == interval_ms,
            r.limited == (mode == 1),
            r.restarts_left == total_attempts,
            r.phase == Phase::Preparing,
            r.attempt == 0,
            r.last_attempt_start is None,
            !r.reported,
            exists|reading: Option<u128>| r.tokens == CTokenGenerator::seeded(
                reading_seconds(reading),
                0,
                r.tokens.stay_time,
            ),
            2000 <= r.tokens.stay_time < 10000,
            exists|salt: u64| r.device_id@ == md5_hex_of(task_id@ + nat_digits(salt as nat)),
    {
        let secs: u64 = seconds_from_reading(epoch_millis());
        let stay_draw: u64 = rand::random::<u64>();
        let tokens = CTokenGenerator::new(secs, 0, stay_draw % 8000 + 2000);
        let salt: u64 = rand::random::<u64>();
        let seed = String::from_str(task_id).concat(unsigned_text(salt).as_str());
        let device_id = md5_hex(seed.as_str());
        OrderEngine::from_parts(info, interval_ms, mode, total_attempts, tokens, device_id)
    }

    fn wait_for(due: u128, now: u64) -> (r: EngineAction)
        requires
            now < due,
        ensures
            r == Self::wait_action(due, now),
    {
        let left = due - now as u128;
        if left > SPIN_THRESHOLD_MS as u128 {
            let s = left - SPIN_MARGIN_MS as u128;
            EngineAction::Sleep(if s > u64::MAX as u128 { u64::MAX } else { s as u64 })
        } else {
            EngineAction::Spin
        }
    }

    /// The next action at task time `now_ms` (a monotonic clock). A set
    /// cancellation flag ends a task that is preparing or attempting. A
    /// network call waits until its due time: sleeping to just short of it,
    /// then busy-waiting. Each create attempt is due `interval_ms` after the
    /// previous one started. An ended task is reported once, then idles.
    pub fn poll(&mut self, now_ms: u64, cancelled: bool) -> (r: EngineAction)
        requires
            old(self).wf(),
        ensures
            final(self).wf(),
            (*final(self), r) == old(self).polled(now_ms, cancelled),
    {
        if self.reported {
            return EngineAction::Idle;
        }
        match self.phase {
            Phase::Completed => {
                self.reported = true;
                EngineAction::Finish(TaskOutcome::Completed)
            },
            Phase::Exhausted => {
                self.reported = true;
                EngineAction::Finish(TaskOutcome::Exhausted)
            },
            Phase::Cancelled => {
                self.reported = true;
                EngineAction::Finish(TaskOutcome::Cancelled)
            },
            Phase::PaymentLookup => EngineAction::LookupPayment(self.order_id.clone()),
            Phase::PrepareSent => EngineAction::Idle,
            Phase::CreateSent => EngineAction::Idle,
            Phase::Preparing | Phase::Attempting => {
                if cancelled {
                    self.phase = Phase::Cancelled;
                    self.reported = true;
                    return EngineAction::Finish(TaskOutcome::Cancelled);
                }
                if (now_ms as u128) < self.due_ms {
                    return Self::wait_for(self.due_ms, now_ms);
                }
                if self.phase == Phase::Preparing {
                    self.phase = Phase::PrepareSent;
                    EngineAction::Prepare
                } else {
                    self.phase = Phase::CreateSent;
                    self.attempt = self.attempt + 1;
                    self.last_attempt_start = Some(now_ms);
                    self.due_ms = now_ms as u128 + self.interval_ms as u128;
                    EngineAction::Create
                }
            },
        }
    }

    /// Takes the reply to the prepare request (`None`: no reply arrived) at
    /// task time `now_ms`. Success, a zero on either status field, stores the
    /// order and payment-setup tokens and the click for the coming attempts,
    /// and starts them. Anything else prepares again one interval later,
    /// without touching the restart budget.
    pub fn on_prepare(&mut self, reply: Option<PrepareReply>, now_ms: u64, click: ClickStamp)
        requires
            old(self).wf(),
        ensures
            final(self).wf(),
            *final(self) == old(self).after_prepare(reply, now_ms, click),
    {
        if self.phase != Phase::PrepareSent {
            return;
        }
        match reply {
            Some(r) => {
                let ok = match r.errno {
                    Some(e) => e == 0,
                    None => false,
                } || match r.code {
                    Some(c) => c == 0,
                    None => false,
                };
                if ok {
                    self.phase = Phase::Attempting;
                    self.attempt = 0;
                    self.order_token = r.token;
                    self.ptoken = r.ptoken;
                    self.click = click;
                    return;
                }
            },
            None => {},
        }
        self.phase = Phase::Preparing;
        let next = now_ms as u128 + self.interval_ms as u128;
        if self.due_ms < next {
            self.due_ms = next;
        }
    }

    fn continue_attempts(&mut self)
        requires
            old(self).wf(),
            old(self).phase == Phase::CreateSent,
        ensures
            final(self).wf(),
            *final(self) == old(self).continued(),
    {
        if self.attempt < ATTEMPTS_PER_ORDER {
            self.phase = Phase::Attempting;
        } else if !self.limited {
            self.phase = Phase::Preparing;
        } else if self.restarts_left <= 1 {
            self.phase = Phase::Exhausted;
            self.restarts_left = 0;
        } else {
            self.phase = Phase::Preparing;
            self.restarts_left = self.restarts_left - 1;
        }
    }

    /// Applies the outcome of the create attempt that is out. A placed order
    /// goes to its payment lookup (or ends, when the reply named no order). A
    /// price change takes the new price for the following attempts and counts
    /// as an attempt. An expired token goes back to prepare without using the
    /// restart budget. Anything else moves on to the next attempt; after the
    /// last one a limited task spends one restart, and ends when none is left.
    pub fn on_create(&mut self, outcome: AttemptOutcome)
        requires
            old(self).wf(),
        ensures
            final(self).wf(),
            *final(self) == old(self).after_create(outcome),
    {
        if self.phase != Phase::CreateSent {
            return;
        }
        match outcome {
            AttemptOutcome::Success(id) => match id {
                Some(s) => {
                    self.phase = Phase::PaymentLookup;
                    self.order_id = s;
                },
                None => {
                    self.phase = Phase::Completed;
                },
            },
            AttemptOutcome::TokenExpired => {
                self.phase = Phase::Preparing;
            },
            AttemptOutcome::PriceChanged(p) => {
                if let Some(v) = p {
                    self.info.pay_money = Some(v);
                }
                self.continue_attempts();
            },
            _ => {
                self.continue_attempts();
            },
        }
    }

    /// Classifies the reply to the create attempt that is out (`None`: no
    /// reply arrived) and applies it.
    pub fn on_create_reply(&mut self, reply: Option<CreateReply>) -> (r: AttemptOutcome)
        requires
            old(self).wf(),
        ensures
            final(self).wf(),
            classified(reply, r),
            *final(self) == old(self).after_create(r),
    {
        let outcome = classify_create(reply);
        let shown = match &outcome {
            AttemptOutcome::Success(id) => AttemptOutcome::Success(id.clone()),
            AttemptOutcome::PriceChanged(p) => AttemptOutcome::PriceChanged(*p),
            AttemptOutcome::TokenExpired => AttemptOutcome::TokenExpired,
            AttemptOutcome::Retryable(c) => AttemptOutcome::Retryable(*c),
            AttemptOutcome::TransportError => AttemptOutcome::TransportError,
        };
        self.on_create(outcome);
        shown
    }

    /// Takes the payment link of the placed order, when the lookup found one,
    /// and completes the task.
    pub fn on_payment(&mut self, url: Option<String>)
        requires
            old(self).wf(),
        ensures
            final(self).wf(),
            *final(self) == old(self).after_payment(url),
    {
        if self.phase == Phase::PaymentLookup {
            self.phase = Phase::Completed;
            self.pay_url = url;
        }
    }

    /// The prepare request body; a high-demand project gets a fresh
    /// discovery token, any other an empty one.
    pub fn prepare_payload(&mut self) -> (r: PreparePayload)
        ensures
            *final(self) == (OrderEngine { tokens: final(self).tokens, ..*old(self) }),
            r.count == old(self).info.count,
            r.screen_id == old(self).info.screen_id,
            r.project_id == old(self).info.project_id,
            r.sku_id == old(self).info.sku_id,
            !old(self).hot() ==> final(self).tokens == old(self).tokens && r.token@.len() == 0,
            old(self).hot() ==> r.token@ == base64_of(zero_interleaved(final(self).tokens.token_bytes())),
            old(self).hot() ==> exists|now_secs: u64, height: u32, avail: u32, touch: u32|
                1000 <= height < 3000 && 1 <= avail < 100 && 3 <= touch < 10
                && final(self).tokens == old(self).tokens.refreshed(false, now_secs, height, avail, touch),
    {
        let hot = match self.info.is_hot_project {
            Some(b) => b,
            None => false,
        };
        let token = if hot { self.tokens.generate_ctoken(false) } else { String::new() };
        PreparePayload {
            count: self.info.count,
            screen_id: self.info.screen_id.clone(),
            project_id: self.info.project_id.clone(),
            sku_id: self.info.sku_id.clone(),
            token,
        }
    }

    /// The body of the next create attempt: the stored order token, click,
    /// device identifier and current price; a high-demand project adds a fresh
    /// submission token and the payment-setup token.
    pub fn create_payload(&mut self) -> (r: CreatePayload)
        ensures
            *final(self) == (OrderEngine { tokens: final(self).tokens, ..*old(self) }),
            !old(self).hot() ==> final(self).tokens == old(self).tokens && r == old(self).payload_with(None),
            old(self).hot() ==> (r.ctoken matches Some(t) && r == final(self).payload_with(Some(t))
                && t@ == base64_of(zero_interleaved(final(self).tokens.token_bytes()))),
            old(self).hot() ==> exists|reading: Option<u128>, height: u32, avail: u32, touch: u32|
                1000 <= height < 3000 && 1 <= avail < 100
                && final(self).tokens == old(self).tokens.refreshed(
                    true,
                    reading_seconds(reading),
                    height,
                    avail,
                    touch,
                ),
    {
        let hot = match self.info.is_hot_project {
            Some(b) => b,
            None => false,
        };
        let ctoken = if hot { Some(self.tokens.generate_ctoken(true)) } else { None };
        let contact_tel = match &self.info.contact_tel {
            Some(t) => if has_char(t.as_str(), '*') { None } else { Some(t.clone()) },
            None => None,
        };
        CreatePayload {
            project_id: self.info.project_id.clone(),
            screen_id: self.info.screen_id.clone(),
            sku_id: self.info.sku_id.clone(),
            count: self.info.count,
            buyer_info: self.info.buyer_info.clone(),
            deliver_info: self.info.deliver_info.clone(),
            token: self.order_token.clone(),
            device_id: self.device_id.clone(),
            click: ClickStamp {
                now: self.click.now,
                origin: self.click.origin,
                x: self.click.x,
                y: self.click.y,
            },
            pay_money: self.info.pay_money,
            contact_name: match &self.info.contact_name {
                Some(n) => Some(n.clone()),
                None => None,
            },
            contact_tel,
            ctoken,
            ptoken: if hot { Some(self.ptoken.clone()) } else { None },
        }
    }

    /// The history record of a completed task that placed a named order,
    /// stamped with `time`: the project name (else its identifier), the
    /// price in force (else zero) and the payment link (else empty).
    pub fn history_item(&self, time: String) -> (r: Option<HistoryItem>)
        ensures
            r is Some <==> (self.phase == Phase::Completed && self.order_id@.len() > 0),
            r matches Some(h) ==> h.order_id == self.order_id && h.time == time
                && h.project_name == match self.info.project_name {
                    Some(n) => n,
                    None => self.info.project_id,
                } && h.price == history_price(self.info.pay_money) && h.pay_url@ == match self.pay_url {
                    Some(u) => u@,
                    None => Seq::<char>::empty(),
                },
    {
        if self.phase != Phase::Completed || self.order_id.as_str().unicode_len() == 0 {
            return None;
        }
        Some(HistoryItem {
            order_id: self.order_id.clone(),
            project_name: match &self.info.project_name {
                Some(n) => n.clone(),
                None => self.info.project_id.clone(),
            },
            price: match self.info.pay_money {
                Some(p) => if p > u32::MAX as u64 { u32::MAX } else { p as u32 },
                None => 0,
            },
            time,
            pay_url: match &self.pay_url {
                Some(u) => u.clone(),
                None => String::new(),
            },
        })
    }

    /// The contact phone as sent: left out when masked with `*`.
    pub open spec fn sent_tel(self) -> Option<String> {
        match self.info.contact_tel {
            Some(t) => if t@.contains('*') { None } else { Some(t) },
            None => None,
        }
    }

    /// The create request body, with the given submission token.
    pub open spec fn payload_with(self, ctoken: Option<String>) -> CreatePayload {
        CreatePayload {
            project_id: self.info.project_id,
            screen_id: self.info.screen_id,
            sku_id: self.info.sku_id,
            count: self.info.count,
            buyer_info: self.info.buyer_info,
            deliver_info: self.info.deliver_info,
            token: self.order_token,
            device_id: self.device_id,
            click: self.click,
            pay_money: self.info.pay_money,
            contact_name: self.info.contact_name,
            contact_tel: self.sent_tel(),
            ctoken,
            ptoken: if self.hot() { Some(self.ptoken) } else { None },
        }
    }
}

/// Every transition keeps the state invariant.
pub proof fn lemma_transitions_keep_wf(
    e: OrderEngine,
    now: u64,
    cancelled: bool,
    reply: Option<PrepareReply>,
    click: ClickStamp,
    outcome: AttemptOutcome,
    url: Option<String>,
)
    requires
        e.wf(),
    ensures
        e.polled(now, cancelled).0.wf(),
        e.after_prepare(reply, now, click).wf(),
        e.after_create(outcome).wf(),
        e.after_payment(url).wf(),
{
}

/// Create attempts are paced: from any valid state, a poll sends a create
/// attempt only when at least the pacing interval has passed since the
/// previous attempt started, however long that attempt took.
pub proof fn lemma_attempts_paced(e: OrderEngine, now: u64, cancelled: bool)
    requires
        e.wf(),
    ensures
        e.polled(now, cancelled).1 is Create ==> (e.last_attempt_start matches Some(s)
            ==> now >= s + e.interval_ms),
        e.polled(now, cancelled).1 is Create ==> e.polled(now, cancelled).0.last_attempt_start
            == Some(now),
{
}

/// A cancellation seen while the task prepares or attempts, or waits before
/// either, ends it at that very poll; the end is reported once and nothing
/// is sent after it.
pub proof fn lemma_cancel_ends_task(e: OrderEngine, now: u64, later: u64, again: bool)
    requires
        !e.reported,
        e.phase == Phase::Preparing || e.phase == Phase::Attempting,
    ensures
        e.polled(now, true).1 == EngineAction::Finish(TaskOutcome::Cancelled),
        e.polled(now, true).0.phase == Phase::Cancelled,
        e.polled(now, true).0.polled(later, again).1 is Idle,
{
}

/// A price change sets the price of the following attempts and counts as an
/// ordinary attempt: the attempt counter goes on from where it was.
pub proof fn lemma_price_change_carries_over(e: OrderEngine, price: u64, ctoken: Option<String>)
    requires
        e.wf(),
        e.phase == Phase::CreateSent,
    ensures
        ({
            let f = e.after_create(AttemptOutcome::PriceChanged(Some(price)));
            &&& f.info.pay_money == Some(price)
            &&& f.payload_with(ctoken).pay_money == Some(price)
            &&& f.attempt == e.attempt
            &&& e.attempt < ATTEMPTS_PER_ORDER ==> f.phase == Phase::Attempting
        }),
{
}

/// An expired token sends the task back to prepare, once, and spends none of
/// the restart budget: the next due poll sends one prepare request and then
/// waits for its reply.
pub proof fn lemma_token_expiry_reprepares(e: OrderEngine, now: u64, later: u64, again: bool)
    requires
        e.wf(),
        e.phase == Phase::CreateSent,
        !e.reported,
    ensures
        ({
            let f = e.after_create(AttemptOutcome::TokenExpired);
            &&& f.phase == Phase::Preparing
            &&& f.restarts_left == e.restarts_left
            &&& f.limited == e.limited
            &&& now >= f.due_ms ==> f.polled(now, false).1 is Prepare
            &&& now >= f.due_ms ==> f.polled(now, false).0.polled(later, again).1 is Idle
        }),
{
}

/// With one restart left, a limited task whose last attempt of the round
/// fails ends as exhausted: the end is reported once and nothing more is sent.
pub proof fn lemma_budget_exhausts(e: OrderEngine, outcome: AttemptOutcome, now: u64, later: u64, c1: bool, c2: bool)
    requires
        e.wf(),
        e.phase == Phase::CreateSent,
        !e.reported,
        e.attempt == ATTEMPTS_PER_ORDER,
        e.limited,
        e.restarts_left == 1,
        outcome is Retryable || outcome is TransportError || outcome matches AttemptOutcome::PriceChanged(_),
    ensures
        e.after_create(outcome).phase == Phase::Exhausted,
        e.after_create(outcome).polled(now, c1).1 == EngineAction::Finish(TaskOutcome::Exhausted),
        e.after_create(outcome).polled(now, c1).0.polled(later, c2).1 is Idle,
{
}

/// A create attempt that neither placed the order nor lost its token.
pub open spec fn is_failed_attempt(o: AttemptOutcome) -> bool {
    o is Retryable || o is TransportError || o is PriceChanged
}

/// The state after create attempts polled at the times `ts`, each answered by
/// the outcome at the same position of `outs`.
pub open spec fn attempts_run(e: OrderEngine, ts: Seq<u64>, outs: Seq<AttemptOutcome>) -> OrderEngine
    decreases ts.len(),
{
    if ts.len() == 0 || outs.len() == 0 {
        e
    } else {
        attempts_run(
            e.polled(ts[0], false).0.after_create(outs[0]),
            ts.drop_first(),
            outs.drop_first(),
        )
    }
}

/// Whether every poll of such a run sends a create attempt.
pub open spec fn run_all_creates(e: OrderEngine, ts: Seq<u64>, outs: Seq<AttemptOutcome>) -> bool
    decreases ts.len(),
{
    if ts.len() == 0 || outs.len() == 0 {
        true
    } else {
        e.polled(ts[0], false).1 is Create && run_all_creates(
            e.polled(ts[0], false).0.after_create(outs[0]),
            ts.drop_first(),
            outs.drop_first(),
        )
    }
}

/// Times at least `interval` apart.
pub open spec fn paced_times(ts: Seq<u64>, interval: u64) -> bool {
    forall|i: int| 0 <= i < ts.len() - 1 ==> ts[i + 1] >= #[trigger] ts[i] + interval
}

proof fn lemma_failed_round(e: OrderEngine, ts: Seq<u64>, outs: Seq<AttemptOutcome>)
    requires
        e.wf(),
        e.phase == Phase::Attempting,
        !e.reported,
        e.limited,
        e.restarts_left == 1,
        ts.len() == outs.len(),
        e.attempt + ts.len() == ATTEMPTS_PER_ORDER,
        ts.len() > 0 ==> ts[0] >= e.due_ms,
        paced_times(ts, e.interval_ms),
        forall|i: int| 0 <= i < outs.len() ==> is_failed_attempt(#[trigger] outs[i]),
    ensures
        run_all_creates(e, ts, outs),
        attempts_run(e, ts, outs).phase == Phase::Exhausted,
        !attempts_run(e, ts, outs).reported,
    decreases ts.len(),
{
    assert(ts.len() > 0);
    let p = e.polled(ts[0], false);
    let f = p.0.after_create(outs[0]);
    assert(is_failed_attempt(outs[0]));
    assert(p.1 is Create);
    assert(p.0.phase == Phase::CreateSent && p.0.attempt == e.attempt + 1);
    lemma_transitions_keep_wf(p.0, 0, false, None, e.click, outs[0], None);
    assert(attempts_run(e, ts, outs) == attempts_run(f, ts.drop_first(), outs.drop_first()));
    assert(run_all_creates(e, ts, outs) == run_all_creates(f, ts.drop_first(), outs.drop_first()));
    if ts.len() == 1 {
        assert(f.phase == Phase::Exhausted);
        assert(attempts_run(f, ts.drop_first(), outs.drop_first()) == f);
        assert(run_all_creates(f, ts.drop_first(), outs.drop_first()));
    } else {
        assert(f.phase == Phase::Attempting);
        assert(f.due_ms == ts[0] + e.interval_ms);
        assert(ts[1] >= ts[0] + e.interval_ms);
        assert(ts.drop_first()[0] == ts[1]);
        assert(paced_times(ts.drop_first(), e.interval_ms)) by {
            assert forall|i: int| 0 <= i < ts.drop_first().len() - 1 implies
                ts.drop_first()[i + 1] >= #[trigger] ts.drop_first()[i] + e.interval_ms by {
                assert(ts.drop_first()[i] == ts[i + 1]);
                assert(ts.drop_first()[i + 1] == ts[i + 2]);
            }
        }
        assert forall|i: int| 0 <= i < outs.drop_first().len() implies is_failed_attempt(
            #[trigger] outs.drop_first()[i],
        ) by {
            assert(outs.drop_first()[i] == outs[i + 1]);
        }
        lemma_failed_round(f, ts.drop_first(), outs.drop_first());
    }
}

/// With one restart allowed, a limited task whose prepare succeeds and whose
/// sixty create attempts all fail (any code other than the success and
/// token-expiry codes, or no reply) sends exactly one prepare request, then a
/// create attempt at each of sixty polls paced at least one interval apart,
/// ends as exhausted, reports that once and sends nothing after it.
pub proof fn lemma_single_budget_exhausts(
    e: OrderEngine,
    t0: u64,
    reply: PrepareReply,
    t1: u64,
    click: ClickStamp,
    ts: Seq<u64>,
    outs: Seq<AttemptOutcome>,
    later: u64,
    c1: bool,
    after: u64,
    c2: bool,
)
    requires
        e.wf(),
        e.phase == Phase::Preparing,
        !e.reported,
        e.limited,
        e.restarts_left == 1,
        e.due_ms == 0,
        prepare_ok(reply),
        ts.len() == ATTEMPTS_PER_ORDER,
        outs.len() == ATTEMPTS_PER_ORDER,
        paced_times(ts, e.interval_ms),
        forall|i: int| 0 <= i < outs.len() ==> is_failed_attempt(#[trigger] outs[i]),
    ensures
        e.polled(t0, false).1 is Prepare,
        ({
            let p = e.polled(t0, false).0.after_prepare(Some(reply), t1, click);
            let end = attempts_run(p, ts, outs);
            &&& p.phase == Phase::Attempting && p.attempt == 0
            &&& run_all_creates(p, ts, outs)
            &&& end.phase == Phase::Exhausted
            &&& end.polled(later, c1).1 == EngineAction::Finish(TaskOutcome::Exhausted)
            &&& end.polled(later, c1).0.polled(after, c2).1 is Idle
        }),
{
    let p = e.polled(t0, false).0.after_prepare(Some(reply), t1, click);
    lemma_transitions_keep_wf(e, t0, false, Some(reply), click, AttemptOutcome::TransportError, None);
    lemma_transitions_keep_wf(e.polled(t0, false).0, t1, false, Some(reply), click, AttemptOutcome::TransportError, None);
    lemma_failed_round(p, ts, outs);
}

/// The price in force is kept until the service reports another: polls,
/// prepares (also after a restart), payment lookups and every attempt
/// outcome other than a reported price change leave it as it is, so every
/// later create request and the history record carry it.
pub proof fn lemma_price_held(
    e: OrderEngine,
    now: u64,
    cancelled: bool,
    reply: Option<PrepareReply>,
    click: ClickStamp,
    outcome: AttemptOutcome,
    url: Option<String>,
    ctoken: Option<String>,
)
    ensures
        e.polled(now, cancelled).0.info.pay_money == e.info.pay_money,
        e.after_prepare(reply, now, click).info.pay_money == e.info.pay_money,
        e.after_payment(url).info.pay_money == e.info.pay_money,
        !(outcome matches AttemptOutcome::PriceChanged(Some(_))) ==> e.after_create(outcome).info.pay_money
            == e.info.pay_money,
        e.payload_with(ctoken).pay_money == e.info.pay_money,
{
}

} // verus!
