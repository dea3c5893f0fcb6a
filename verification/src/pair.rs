//! A trading pair and the watcher that finds its first liquidity: a search of the past first,
//! and a live subscription only where the past holds nothing.

use crate::address::Address;
use crate::config::ConfigError;
use crate::dex::Dex;
use crate::helpers::{spec_token_amount, token_amount, Amount};
use crate::token::Token;
use crate::uint::U256;
use vstd::prelude::*;
use vstd::string::*;

verus! {

/// A deposit of liquidity into a pair, as its log tells it.
#[derive(Clone, Copy, Debug, PartialEq, Eq)]
pub struct LiquidityEvent {
    pub sender: Address,
    pub amount0: U256,
    pub amount1: U256,
    pub block_number: u64,
}

/// A pair of tokens on an exchange.
#[derive(Debug)]
pub struct Pair {
    pub dex: Dex,
    pub address: Address,
    pub token0: Token,
    pub token1: Token,
    /// The token of interest: a copy of the side that is not the base asset. Its verified
    /// flag is the one that is kept up to date.
    pub new_token: Token,
    /// The pair's balances of its two tokens; zero until they are fetched.
    pub reserves: (U256, U256),
}

/// The symbol of the base asset.
pub open spec fn base_symbol() -> Seq<char> {
    "WETH"@
}

/// The token of interest of a pair: the second token where the first has the base asset's
/// symbol, and the first token in every other case.
pub open spec fn new_side(token0: Token, token1: Token) -> Token {
    if token0.symbol@ == base_symbol() {
        token1
    } else {
        token0
    }
}

impl Pair {
    /// The pair at `address` of two resolved tokens, with no reserves known yet.
    pub fn new(address: Address, token0: Token, token1: Token, dex: &Dex) -> (r: Pair)
        ensures
            r.dex == *dex,
            r.address == address,
            r.token0 == token0,
            r.token1 == token1,
            r.new_token == new_side(token0, token1),
            r.reserves.0@ == 0,
            r.reserves.1@ == 0,
    {
        let base = String::from_str("WETH");
        let new_token = if token0.symbol == base {
            token1.clone()
        } else {
            token0.clone()
        };
        Pair {
            dex: dex.clone(),
            address,
            token0,
            token1,
            new_token,
            reserves: (U256::zero(), U256::zero()),
        }
    }

    /// Takes in the outcome of the call for the pair's reserves. A failed call changes
    /// nothing and its error is handed on.
    pub fn get_reserves<E>(&mut self, reply: Result<(U256, U256), E>) -> (r: Result<(), E>)
        ensures
            match reply {
                Ok(reserves) => r == Ok::<(), E>(()) && *final(self) == (Pair {
                    reserves,
                    ..*old(self)
                }),
                Err(e) => r == Err::<(), E>(e) && *final(self) == *old(self),
            },
    {
        match reply {
            Ok(reserves) => {
                self.reserves = reserves;
                Ok(())
            },
            Err(e) => Err(e),
        }
    }

    /// Starts the search for the pair's first liquidity: the watcher, and its first request,
    /// a search of the past from `block_number`, the block the pair was created in.
    pub fn stream_add_liquidity(self, block_number: u64) -> (r: (PairWatcher, Action))
        ensures
            r.0 == (PairWatcher {
                pair: self,
                creation_block: block_number,
                stage: Stage::History,
                detected: None,
                amounts: None,
            }),
            r.1 == (Action::QueryHistory { from_block: block_number }),
            r.0.wf(),
    {
        (
            PairWatcher {
                pair: self,
                creation_block: block_number,
                stage: Stage::History,
                detected: None,
                amounts: None,
            },
            Action::QueryHistory { from_block: block_number },
        )
    }
}

/// Where a watcher stands.
#[derive(Clone, Copy, Debug, PartialEq, Eq)]
pub enum Stage {
    /// Awaiting the answer to the search of the past.
    History,
    /// Awaiting the first live event.
    Live,
    /// An event is detected; awaiting the pair's reserves.
    Reserves,
    /// An event is detected; awaiting the explorer's answer on the new token.
    Verification,
    /// An event is detected; awaiting the delivery of the alert.
    Alert,
    /// Finished: reported, or closed without an event.
    Done,
    /// Given up after a failure.
    Failed,
}

impl Stage {
    /// How far a stage is along the way from the search of the past to the end.
    pub open spec fn rank(self) -> nat {
        match self {
            Stage::History => 0,
            Stage::Live => 1,
            Stage::Reserves => 2,
            Stage::Verification => 3,
            Stage::Alert => 4,
            Stage::Done => 5,
            Stage::Failed => 5,
        }
    }

    /// Whether an event is still awaited.
    pub open spec fn is_awaiting(self) -> bool {
        self is History || self is Live
    }

    /// Whether an event is detected and not yet reported.
    pub open spec fn is_detected(self) -> bool {
        self is Reserves || self is Verification || self is Alert
    }
}

/// Why a watcher gave up.
#[derive(Clone, Copy, Debug, PartialEq, Eq)]
pub enum WatchError {
    /// The search of the past failed.
    HistoryQuery,
    /// An amount of the detected event does not fit in 128 bits.
    AmountTooLarge,
    /// The subscription could not be opened.
    Subscription,
    /// The call for the reserves failed.
    Reserves,
    /// The request to the code explorer failed.
    Verification,
    /// The alert was not delivered.
    AlertDelivery,
    /// A setting that the verification or the alert needs is missing.
    Configuration(ConfigError),
}

/// What happened outside, told to the watcher.
#[derive(Debug)]
pub enum Input {
    /// The search of the past, from the creation block through `head`, found `events`.
    History { head: u64, events: Vec<LiquidityEvent> },
    /// The search of the past failed.
    HistoryFailed,
    /// The subscription could not be opened.
    SubscriptionFailed,
    /// The subscription delivered an event.
    Live(LiquidityEvent),
    /// The subscription delivered a payload that could not be decoded.
    LiveUndecodable,
    /// The subscription ended or was cancelled.
    LiveClosed,
    /// The call for the reserves returned them.
    Reserves(U256, U256),
    /// The call for the reserves failed.
    ReservesFailed,
    /// The code explorer answered with this body.
    Verification(String),
    /// The request to the code explorer failed.
    VerificationFailed,
    /// The alert was delivered.
    AlertDelivered,
    /// The alert was not delivered.
    AlertFailed,
    /// The request to the code explorer or the alert cannot be made: a setting is missing.
    Unconfigured(ConfigError),
}

/// What the watcher asks to be done next.
#[derive(Clone, Copy, Debug, PartialEq, Eq)]
pub enum Action {
    /// Search the past for liquidity events of the pair, from `from_block` through the
    /// chain's head.
    QueryHistory { from_block: u64 },
    /// Subscribe to liquidity events of the pair, from `from_block` on.
    Subscribe { from_block: u64 },
    /// Keep the subscription open.
    KeepListening,
    /// Close the subscription if one is open, and call for the pair's reserves.
    FetchReserves,
    /// Ask the code explorer about the new token.
    Verify,
    /// Send the alert, with the amounts deposited in decimal units.
    Alert { amount_in: Amount, amount_out: Amount },
    /// Stop: the watcher is finished.
    Finish,
    /// Stop: the watcher gave up.
    Abort(WatchError),
    /// Nothing: the input was not awaited.
    Ignored,
}

/// The watcher of one pair.
#[derive(Debug)]
pub struct PairWatcher {
    pub pair: Pair,
    /// The block the pair was created in, where the search starts.
    pub creation_block: u64,
    pub stage: Stage,
    /// The first liquidity event, once it is detected.
    pub detected: Option<LiquidityEvent>,
    /// The amounts of the detected event in decimal units, first and second token.
    pub amounts: Option<(Amount, Amount)>,
}

/// The index of the first event in block order: the first of those in the lowest block.
pub open spec fn earliest_index(events: Seq<LiquidityEvent>) -> int
    decreases events.len(),
{
    if events.len() <= 1 {
        0
    } else {
        let k = earliest_index(events.drop_last());
        if events.last().block_number < events[k].block_number {
            events.len() - 1
        } else {
            k
        }
    }
}

/// The block a subscription starts from after a search of the past through `head`: the
/// block after `head`, so that no block is left out between the two and none is seen twice.
pub open spec fn live_start(creation_block: u64, head: u64) -> u64 {
    if head < creation_block {
        creation_block
    } else if head == u64::MAX {
        head
    } else {
        (head + 1) as u64
    }
}

impl PairWatcher {
    /// Before detection there is no event and no amount; from detection to the report there
    /// are both.
    pub open spec fn wf(&self) -> bool {
        &&& self.stage.is_awaiting() ==> self.detected is None && self.amounts is None
        &&& self.stage.is_detected() ==> self.detected is Some && self.amounts is Some
    }

    /// The watcher at another stage.
    pub open spec fn at(self, stage: Stage) -> PairWatcher {
        PairWatcher { stage, ..self }
    }

    /// Gives up.
    pub open spec fn fail(self, error: WatchError) -> (PairWatcher, Action) {
        (self.at(Stage::Failed), Action::Abort(error))
    }

    /// Takes `event` as the pair's first liquidity: converts its amounts to decimal units and
    /// asks for the reserves, or gives up where an amount does not fit.
    pub open spec fn detect(self, event: LiquidityEvent) -> (PairWatcher, Action) {
        if event.amount0@ <= u128::MAX && event.amount1@ <= u128::MAX {
            (
                PairWatcher {
                    stage: Stage::Reserves,
                    detected: Some(event),
                    amounts: Some(
                        (
                            spec_token_amount(event.amount0@ as u128, self.pair.token0.decimals),
                            spec_token_amount(event.amount1@ as u128, self.pair.token1.decimals),
                        ),
                    ),
                    ..self
                },
                Action::FetchReserves,
            )
        } else {
            (
                PairWatcher { stage: Stage::Failed, detected: Some(event), ..self },
                Action::Abort(WatchError::AmountTooLarge),
            )
        }
    }

    /// Announces the detected event where the exchange has alerts on, and finishes where it
    /// has not.
    pub open spec fn announce(self) -> (PairWatcher, Action) {
        match self.amounts {
            Some((amount_in, amount_out)) => if self.pair.dex.alert {
                (self.at(Stage::Alert), Action::Alert { amount_in, amount_out })
            } else {
                (self.at(Stage::Done), Action::Finish)
            },
            None => (self.at(Stage::Done), Action::Finish),
        }
    }

    /// Keeps the reserves, then asks about the new token where the exchange has verification
    /// on and the token is not verified yet, and announces the event in every other case.
    pub open spec fn keep_reserves(self, reserve0: U256, reserve1: U256) -> (PairWatcher, Action) {
        let kept = PairWatcher {
            pair: Pair { reserves: (reserve0, reserve1), ..self.pair },
            ..self
        };
        if kept.pair.dex.verify && !kept.pair.new_token.is_verified {
            (kept.at(Stage::Verification), Action::Verify)
        } else {
            kept.announce()
        }
    }

    /// Keeps the explorer's verdict on the new token, then announces the event.
    pub open spec fn keep_verdict(self, body: Seq<char>) -> (PairWatcher, Action) {
        let token = self.pair.new_token;
        (PairWatcher {
            pair: Pair { new_token: token.with_verified(token.verdict(body)), ..self.pair },
            ..self
        }).announce()
    }

    /// The watcher after an input, and what it asks for.
    pub open spec fn next(self, input: Input) -> (PairWatcher, Action) {
        match (self.stage, input) {
            (Stage::History, Input::History { head, events }) => if events@.len() > 0 {
                self.detect(events@[earliest_index(events@)])
            } else {
                (
                    self.at(Stage::Live),
                    Action::Subscribe { from_block: live_start(self.creation_block, head) },
                )
            },
            (Stage::History, Input::HistoryFailed) => self.fail(WatchError::HistoryQuery),
            (Stage::Live, Input::SubscriptionFailed) => self.fail(WatchError::Subscription),
            (Stage::Live, Input::Live(event)) => self.detect(event),
            (Stage::Live, Input::LiveUndecodable) => (self, Action::KeepListening),
            (Stage::Live, Input::LiveClosed) => (self.at(Stage::Done), Action::Finish),
            (Stage::Reserves, Input::Reserves(reserve0, reserve1)) => self.keep_reserves(
                reserve0,
                reserve1,
            ),
            (Stage::Reserves, Input::ReservesFailed) => self.fail(WatchError::Reserves),
            (Stage::Verification, Input::Verification(body)) => self.keep_verdict(body@),
            (Stage::Verification, Input::VerificationFailed) => self.fail(
                WatchError::Verification,
            ),
            (Stage::Verification, Input::Unconfigured(error)) => self.fail(
                WatchError::Configuration(error),
            ),
            (Stage::Alert, Input::AlertDelivered) => (self.at(Stage::Done), Action::Finish),
            (Stage::Alert, Input::AlertFailed) => (
                self.at(Stage::Done),
                Action::Abort(WatchError::AlertDelivery),
            ),
            (Stage::Alert, Input::Unconfigured(error)) => self.fail(
                WatchError::Configuration(error),
            ),
            _ => (self, Action::Ignored),
        }
    }

    /// The watcher after a run of inputs.
    pub open spec fn after_all(self, inputs: Seq<Input>) -> PairWatcher
        decreases inputs.len(),
    {
        if inputs.len() == 0 {
            self
        } else {
            self.next(inputs[0]).0.after_all(inputs.drop_first())
        }
    }

    /// How many times the watcher asks for an alert over a run of inputs.
    pub open spec fn alerts_in(self, inputs: Seq<Input>) -> nat
        decreases inputs.len(),
    {
        if inputs.len() == 0 {
            0
        } else {
            let (after, action) = self.next(inputs[0]);
            let rest = after.alerts_in(inputs.drop_first());
            if action is Alert {
                rest + 1
            } else {
                rest
            }
        }
    }

    /// How many times the watcher asks for a subscription over a run of inputs.
    pub open spec fn subscriptions_in(self, inputs: Seq<Input>) -> nat
        decreases inputs.len(),
    {
        if inputs.len() == 0 {
            0
        } else {
            let (after, action) = self.next(inputs[0]);
            let rest = after.subscriptions_in(inputs.drop_first());
            if action is Subscribe {
                rest + 1
            } else {
                rest
            }
        }
    }
}

impl PairWatcher {
    /// Takes in what happened outside, and returns what to do next.
    pub fn step(&mut self, input: Input) -> (r: Action)
        ensures
            (*final(self), r) == old(self).next(input),
            old(self).wf() ==> final(self).wf(),
    {
        match self.stage {
            Stage::History => match input {
                Input::History { head, events } => {
                    if events.len() > 0 {
                        let k = first_in_block_order(&events);
                        let event = events[k];
                        self.detect_event(event)
                    } else {
                        self.stage = Stage::Live;
                        Action::Subscribe {
                            from_block: live_start_block(self.creation_block, head),
                        }
                    }
                },
                Input::HistoryFailed => self.give_up(WatchError::HistoryQuery),
                _ => Action::Ignored,
            },
            Stage::Live => match input {
                Input::SubscriptionFailed => self.give_up(WatchError::Subscription),
                Input::Live(event) => self.detect_event(event),
                Input::LiveUndecodable => Action::KeepListening,
                Input::LiveClosed => {
                    self.stage = Stage::Done;
                    Action::Finish
                },
                _ => Action::Ignored,
            },
            Stage::Reserves => match input {
                Input::Reserves(reserve0, reserve1) => {
                    let _ = self.pair.get_reserves::<WatchError>(Ok((reserve0, reserve1)));
                    if self.pair.dex.verify && !self.pair.new_token.is_verified {
                        self.stage = Stage::Verification;
                        Action::Verify
                    } else {
                        self.announce_event()
                    }
                },
                Input::ReservesFailed => self.give_up(WatchError::Reserves),
                _ => Action::Ignored,
            },
            Stage::Verification => match input {
                Input::Verification(body) => {
                    let _ = self.pair.new_token.verified_contract::<WatchError>(Ok(body));
                    self.announce_event()
                },
                Input::VerificationFailed => self.give_up(WatchError::Verification),
                Input::Unconfigured(error) => self.give_up(WatchError::Configuration(error)),
                _ => Action::Ignored,
            },
            Stage::Alert => match input {
                Input::AlertDelivered => {
                    self.stage = Stage::Done;
                    Action::Finish
                },
                Input::AlertFailed => {
                    self.stage = Stage::Done;
                    Action::Abort(WatchError::AlertDelivery)
                },
                Input::Unconfigured(error) => self.give_up(WatchError::Configuration(error)),
                _ => Action::Ignored,
            },
            Stage::Done => Action::Ignored,
            Stage::Failed => Action::Ignored,
        }
    }

    fn give_up(&mut self, error: WatchError) -> (r: Action)
        ensures
            (*final(self), r) == old(self).fail(error),
    {
        self.stage = Stage::Failed;
        Action::Abort(error)
    }

    fn detect_event(&mut self, event: LiquidityEvent) -> (r: Action)
        ensures
            (*final(self), r) == old(self).detect(event),
    {
        self.detected = Some(event);
        match (event.amount0.to_u128(), event.amount1.to_u128()) {
            (Some(raw0), Some(raw1)) => {
                let amount0 = token_amount(raw0, self.pair.token0.decimals);
                let amount1 = token_amount(raw1, self.pair.token1.decimals);
                self.amounts = Some((amount0, amount1));
                self.stage = Stage::Reserves;
                Action::FetchReserves
            },
            _ => {
                self.stage = Stage::Failed;
                Action::Abort(WatchError::AmountTooLarge)
            },
        }
    }

    fn announce_event(&mut self) -> (r: Action)
        ensures
            (*final(self), r) == old(self).announce(),
    {
        match self.amounts {
            Some((amount_in, amount_out)) => {
                if self.pair.dex.alert {
                    self.stage = Stage::Alert;
                    Action::Alert { amount_in, amount_out }
                } else {
                    self.stage = Stage::Done;
                    Action::Finish
                }
            },
            None => {
                self.stage = Stage::Done;
                Action::Finish
            },
        }
    }
}

/// The block a subscription starts from after a search of the past through `head`.
pub fn live_start_block(creation_block: u64, head: u64) -> (r: u64)
    ensures
        r == live_start(creation_block, head),
{
    if head < creation_block {
        creation_block
    } else if head == u64::MAX {
        head
    } else {
        head + 1
    }
}

/// The index of the first event in block order. There must be an event.
pub fn first_in_block_order(events: &Vec<LiquidityEvent>) -> (k: usize)
    requires
        events.len() > 0,
    ensures
        k == earliest_index(events@),
        k < events.len(),
{
    let mut best: usize = 0;
    let mut i: usize = 1;
    assert(events@.take(1).len() == 1);
    while i < events.len()
        invariant
            1 <= i <= events.len(),
            best < i,
            best == earliest_index(events@.take(i as int)),
        decreases events.len() - i,
    {
        proof {
            assert(events@.take(i + 1).drop_last() =~= events@.take(i as int));
        }
        if events[i].block_number < events[best].block_number {
            best = i;
        }
        i += 1;
    }
    proof {
        assert(events@.take(events.len() as int) =~= events@);
    }
    best
}

/// The liquidity events of `log` that a search of the past from `from` through `head` finds.
pub open spec fn history_of(log: Seq<LiquidityEvent>, from: u64, head: u64) -> Seq<LiquidityEvent> {
    log.filter(|e: LiquidityEvent| from <= e.block_number <= head)
}

/// The liquidity events of `log` that a subscription from block `start` delivers.
pub open spec fn live_of(log: Seq<LiquidityEvent>, start: u64) -> Seq<LiquidityEvent> {
    log.filter(|e: LiquidityEvent| e.block_number >= start)
}

/// The first event in block order is in the lowest block, and no event before it is in that
/// block.
pub proof fn lemma_earliest_index(events: Seq<LiquidityEvent>)
    requires
        events.len() > 0,
    ensures
        0 <= earliest_index(events) < events.len(),
        forall|j: int|
            0 <= j < events.len() ==> events[earliest_index(events)].block_number
                <= #[trigger] events[j].block_number,
        forall|j: int|
            0 <= j < earliest_index(events) ==> events[earliest_index(events)].block_number
                < #[trigger] events[j].block_number,
    decreases events.len(),
{
    if events.len() > 1 {
        let before = events.drop_last();
        lemma_earliest_index(before);
        let k = earliest_index(before);
        assert forall|j: int| 0 <= j < events.len() implies events[earliest_index(
            events,
        )].block_number <= #[trigger] events[j].block_number by {
            if j < before.len() {
                assert(before[j] == events[j]);
            }
        }
        assert forall|j: int| 0 <= j < earliest_index(events) implies events[earliest_index(
            events,
        )].block_number < #[trigger] events[j].block_number by {
            if j < before.len() {
                assert(before[j] == events[j]);
            }
        }
    }
}

/// Where the events come in block order, the first in block order is the first.
pub proof fn lemma_earliest_of_ordered(events: Seq<LiquidityEvent>)
    requires
        events.len() > 0,
        forall|i: int, j: int|
            0 <= i <= j < events.len() ==> events[i].block_number <= events[j].block_number,
    ensures
        earliest_index(events) == 0,
{
    lemma_earliest_index(events);
    let k = earliest_index(events);
    if k > 0 {
        assert(events[k].block_number < events[0].block_number);
        assert(events[0].block_number <= events[k].block_number);
    }
}

/// A step keeps a watcher well formed.
pub proof fn lemma_next_keeps_wf(watcher: PairWatcher, input: Input)
    requires
        watcher.wf(),
    ensures
        watcher.next(input).0.wf(),
{
}

/// A watcher never goes back: from awaiting to detected to the end, and within each by the
/// order of its stages.
pub proof fn lemma_stage_never_goes_back(watcher: PairWatcher, input: Input)
    ensures
        watcher.stage.rank() <= watcher.next(input).0.stage.rank(),
        watcher.stage.is_detected() ==> !watcher.next(input).0.stage.is_awaiting(),
{
}

/// At most one event: a step never replaces the event that a watcher has detected.
pub proof fn lemma_detected_event_stays(watcher: PairWatcher, input: Input)
    requires
        watcher.wf(),
        watcher.detected is Some,
    ensures
        watcher.next(input).0.detected == watcher.detected,
{
}

/// At most one event: whatever comes after, the event that a watcher has detected is the
/// only one it ever holds.
pub proof fn lemma_at_most_one_event(watcher: PairWatcher, inputs: Seq<Input>)
    requires
        watcher.wf(),
        watcher.detected is Some,
    ensures
        watcher.after_all(inputs).detected == watcher.detected,
    decreases inputs.len(),
{
    if inputs.len() > 0 {
        lemma_next_keeps_wf(watcher, inputs[0]);
        lemma_detected_event_stays(watcher, inputs[0]);
        lemma_at_most_one_event(watcher.next(inputs[0]).0, inputs.drop_first());
    }
}

/// After the alert is asked for, or the watcher has stopped, no alert is asked for.
proof fn lemma_no_alert_after(watcher: PairWatcher, inputs: Seq<Input>)
    requires
        watcher.stage is Alert || watcher.stage is Done || watcher.stage is Failed,
    ensures
        watcher.alerts_in(inputs) == 0,
    decreases inputs.len(),
{
    if inputs.len() > 0 {
        lemma_no_alert_after(watcher.next(inputs[0]).0, inputs.drop_first());
    }
}

/// No pair is reported twice: over any run of inputs a watcher asks for at most one alert.
pub proof fn lemma_at_most_one_alert(watcher: PairWatcher, inputs: Seq<Input>)
    ensures
        watcher.alerts_in(inputs) <= 1,
    decreases inputs.len(),
{
    if inputs.len() > 0 {
        let (after, action) = watcher.next(inputs[0]);
        if action is Alert {
            lemma_no_alert_after(after, inputs.drop_first());
        } else {
            lemma_at_most_one_alert(after, inputs.drop_first());
        }
    }
}

/// Once past the search of the past, a watcher asks for no subscription.
pub proof fn lemma_no_subscription_after_history(watcher: PairWatcher, inputs: Seq<Input>)
    requires
        !(watcher.stage is History),
    ensures
        watcher.subscriptions_in(inputs) == 0,
    decreases inputs.len(),
{
    if inputs.len() > 0 {
        lemma_no_subscription_after_history(watcher.next(inputs[0]).0, inputs.drop_first());
    }
}

/// Where the search of the past finds events, the watcher takes the first of them in block
/// order, asks for no subscription then, and for none ever after.
pub proof fn lemma_history_hit_skips_live(
    watcher: PairWatcher,
    head: u64,
    events: Vec<LiquidityEvent>,
    later: Seq<Input>,
)
    requires
        watcher.stage is History,
        events@.len() > 0,
    ensures
        watcher.next(Input::History { head, events }).0.detected == Some(
            events@[earliest_index(events@)],
        ),
        !(watcher.next(Input::History { head, events }).1 is Subscribe),
        watcher.next(Input::History { head, events }).0.subscriptions_in(later) == 0,
{
    lemma_no_subscription_after_history(watcher.next(Input::History { head, events }).0, later);
}

/// Where the search of the past finds nothing, the watcher subscribes from the block after
/// the last one searched, and then takes the first event that the subscription delivers.
pub proof fn lemma_history_miss_goes_live(
    watcher: PairWatcher,
    head: u64,
    events: Vec<LiquidityEvent>,
    first: LiquidityEvent,
)
    requires
        watcher.stage is History,
        events@.len() == 0,
    ensures
        watcher.next(Input::History { head, events }).1 == (Action::Subscribe {
            from_block: live_start(watcher.creation_block, head),
        }),
        watcher.next(Input::History { head, events }).0.next(Input::Live(first)).0.detected
            == Some(first),
{
}

/// Two filters that agree on every item of a sequence keep the same items.
proof fn lemma_filters_agree(
    log: Seq<LiquidityEvent>,
    p: spec_fn(LiquidityEvent) -> bool,
    q: spec_fn(LiquidityEvent) -> bool,
)
    requires
        forall|i: int| 0 <= i < log.len() ==> p(#[trigger] log[i]) == q(log[i]),
    ensures
        log.filter(p) == log.filter(q),
    decreases log.len(),
{
    reveal(Seq::filter);
    if log.len() > 0 {
        lemma_filters_agree(log.drop_last(), p, q);
    }
}

/// An event that is on the chain when the search of the past is made, at or after the block
/// the search starts from, is found by it.
pub proof fn lemma_history_finds_existing(log: Seq<LiquidityEvent>, from: u64, head: u64, i: int)
    requires
        0 <= i < log.len(),
        from <= log[i].block_number <= head,
    ensures
        history_of(log, from, head).contains(log[i]),
        history_of(log, from, head).len() > 0,
{
    let found = |e: LiquidityEvent| from <= e.block_number <= head;
    assert(found(log[i]));
    log.lemma_filter_contains(found, i);
}

/// No gap and no overlap: where the search of the past through `head` finds nothing, the
/// subscription that starts at `live_start` delivers exactly the events at or after the
/// creation block, in the chain's order, so its first event is the pair's first.
pub proof fn lemma_live_leaves_no_gap(log: Seq<LiquidityEvent>, creation_block: u64, head: u64)
    requires
        history_of(log, creation_block, head).len() == 0,
    ensures
        live_of(log, live_start(creation_block, head)) == live_of(log, creation_block),
{
    let start = live_start(creation_block, head);
    let live = |e: LiquidityEvent| e.block_number >= start;
    let all = |e: LiquidityEvent| e.block_number >= creation_block;
    assert forall|i: int| 0 <= i < log.len() implies live(#[trigger] log[i]) == all(log[i]) by {
        if creation_block <= log[i].block_number <= head {
            lemma_history_finds_existing(log, creation_block, head, i);
        }
    }
    lemma_filters_agree(log, live, all);
}

/// The first item that a filter keeps is the first item of the sequence that passes it.
proof fn lemma_filter_first(log: Seq<LiquidityEvent>, p: spec_fn(LiquidityEvent) -> bool) -> (j:
    int)
    requires
        log.filter(p).len() > 0,
    ensures
        0 <= j < log.len(),
        p(log[j]),
        log.filter(p)[0] == log[j],
        forall|k: int| 0 <= k < j ==> !p(#[trigger] log[k]),
    decreases log.len(),
{
    reveal(Seq::filter);
    let before = log.drop_last();
    if before.filter(p).len() > 0 {
        let j = lemma_filter_first(before, p);
        assert forall|k: int| 0 <= k < j implies !p(#[trigger] log[k]) by {
            assert(!p(before[k]));
        }
        j
    } else {
        assert forall|k: int| 0 <= k < before.len() implies !p(#[trigger] log[k]) by {
            if p(before[k]) {
                before.lemma_filter_contains(p, k);
            }
        }
        log.len() - 1
    }
}

/// Where the chain's events come in block order and the search of the past finds nothing,
/// the first event that the subscription delivers is the earliest event of the pair: it is
/// at or after the creation block, and no event at or after the creation block is in a
/// lower block.
pub proof fn lemma_first_live_event_is_earliest(
    log: Seq<LiquidityEvent>,
    creation_block: u64,
    head: u64,
)
    requires
        forall|i: int, j: int|
            0 <= i <= j < log.len() ==> log[i].block_number <= log[j].block_number,
        history_of(log, creation_block, head).len() == 0,
        live_of(log, live_start(creation_block, head)).len() > 0,
    ensures
        live_of(log, live_start(creation_block, head))[0].block_number >= creation_block,
        forall|i: int|
            0 <= i < log.len() && log[i].block_number >= creation_block ==> live_of(
                log,
                live_start(creation_block, head),
            )[0].block_number <= #[trigger] log[i].block_number,
{
    lemma_live_leaves_no_gap(log, creation_block, head);
    let all = |e: LiquidityEvent| e.block_number >= creation_block;
    let j = lemma_filter_first(log, all);
    assert forall|i: int|
        0 <= i < log.len() && log[i].block_number >= creation_block implies log[j].block_number
        <= #[trigger] log[i].block_number by {
        if i < j {
            assert(!all(log[i]));
        }
    }
}

/// The reserves of a pair are written only once an event is detected, and the step that
/// writes them leaves the stage they are awaited in, to which no watcher comes back.
pub proof fn lemma_reserves_wait_for_detection(watcher: PairWatcher, input: Input)
    requires
        watcher.wf(),
        watcher.next(input).0.pair.reserves != watcher.pair.reserves,
    ensures
        watcher.detected is Some,
        watcher.stage is Reserves,
        watcher.next(input).0.stage.rank() > watcher.stage.rank(),
{
}

/// A step changes nothing of a pair but its reserves and the verified flag of its new
/// token, and that flag is never taken back.
pub proof fn lemma_pair_is_kept(watcher: PairWatcher, input: Input)
    ensures
        watcher.next(input).0.creation_block == watcher.creation_block,
        watcher.next(input).0.pair.dex == watcher.pair.dex,
        watcher.next(input).0.pair.address == watcher.pair.address,
        watcher.next(input).0.pair.token0 == watcher.pair.token0,
        watcher.next(input).0.pair.token1 == watcher.pair.token1,
        watcher.next(input).0.pair.new_token == watcher.pair.new_token.with_verified(
            watcher.next(input).0.pair.new_token.is_verified,
        ),
        watcher.pair.new_token.is_verified ==> watcher.next(input).0.pair.new_token.is_verified,
{
}

} // verus!
