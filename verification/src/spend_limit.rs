//! The spend-limit policy module: per-denomination caps on cumulative
//! outflow within a rolling one-hour window.
//!
//! A `SpendLimitState` holds the owner identity, one `Limit` record per
//! capped denomination, and the balance snapshot taken by the pre-execute
//! hook.  The after-execute hook diffs the snapshot against the balances
//! observed after execution and charges every decrease against the matching
//! record; any exceeded limit aborts the whole transaction.

use vstd::prelude::*;

use crate::account::{AfterExecute, Any, Coin, PreExecute};
use crate::error::ContractError;

verus! {

/// The length of the enforcement window, in seconds.
pub const SECONDS_PER_HOUR: u64 = 3600;

/// One spend-limit record: the cap, the amount already used within the
/// current window, and the time the window was opened by `set_spend_limit`.
#[derive(Clone, Copy, Debug, PartialEq, Eq, Structural)]
pub struct Limit {
    /// The cap on cumulative outflow within one window.
    pub limit: u128,
    /// The outflow accumulated within the current window.
    pub used: u128,
    /// The time the record was set; the window starts here.
    pub time_set: u64,
}

/// Per-account state of the spend-limit module.  The host loads it before
/// every invocation and persists it afterwards; at most one transaction per
/// account is in flight at a time, so a single snapshot slot suffices.
pub struct SpendLimitState {
    /// The owner identity; only the owner may set limits.
    pub owner: String,
    /// One record per capped denomination.  Absence of a record for a
    /// denomination means the outflow of that denomination is unlimited.
    pub limits: Vec<(String, Limit)>,
    /// The holdings observed by the last pre-execute hook, if any.
    pub balances: Option<Vec<Coin>>,
}

/// The records keyed by denomination, seen as a mathematical map.
pub open spec fn limits_map_of(s: Seq<(String, Limit)>) -> Map<Seq<char>, Limit>
    decreases s.len(),
{
    if s.len() == 0 {
        Map::empty()
    } else {
        limits_map_of(s.drop_last()).insert(s.last().0@, s.last().1)
    }
}

/// No two records share a denomination.
pub open spec fn keys_unique(s: Seq<(String, Limit)>) -> bool {
    forall|i: int, j: int| 0 <= i < j < s.len() ==> s[i].0@ != s[j].0@
}

/// Every record's cumulative use stays within its cap.
pub open spec fn all_within_limits(m: Map<Seq<char>, Limit>) -> bool {
    forall|k: Seq<char>| #[trigger] m.contains_key(k) ==> m[k].used <= m[k].limit
}

impl SpendLimitState {
    /// Structural invariant: the record list is keyed uniquely, so it
    /// denotes a map.
    pub open spec fn wf(&self) -> bool {
        keys_unique(self.limits@)
    }

    /// The module's records as a map from denomination to record.
    pub open spec fn limits_map(&self) -> Map<Seq<char>, Limit> {
        limits_map_of(self.limits@)
    }

    /// Every record's cumulative use stays within its cap.
    pub open spec fn within_limits(&self) -> bool {
        all_within_limits(self.limits_map())
    }
}

/// A key is in the map exactly when some record carries it.
pub proof fn lemma_limits_map_contains(s: Seq<(String, Limit)>, k: Seq<char>)
    ensures
        limits_map_of(s).contains_key(k) <==> exists|i: int| 0 <= i < s.len() && s[i].0@ == k,
    decreases s.len(),
{
    if s.len() > 0 {
        lemma_limits_map_contains(s.drop_last(), k);
        if s.last().0@ == k {
            assert(s[s.len() - 1].0@ == k);
        } else if limits_map_of(s).contains_key(k) {
            let i = choose|i: int| 0 <= i < s.drop_last().len() && s.drop_last()[i].0@ == k;
            assert(s[i].0@ == k);
        } else if exists|i: int| 0 <= i < s.len() && s[i].0@ == k {
            let i = choose|i: int| 0 <= i < s.len() && s[i].0@ == k;
            assert(s.drop_last()[i].0@ == k);
        }
    }
}

/// With unique keys, the record at index `i` is what the map holds under its
/// denomination.
pub proof fn lemma_limits_map_index(s: Seq<(String, Limit)>, i: int)
    requires
        keys_unique(s),
        0 <= i < s.len(),
    ensures
        limits_map_of(s).contains_key(s[i].0@),
        limits_map_of(s)[s[i].0@] == s[i].1,
    decreases s.len(),
{
    if i < s.len() - 1 {
        assert(keys_unique(s.drop_last()));
        lemma_limits_map_index(s.drop_last(), i);
        assert(s.drop_last()[i] == s[i]);
        assert(s[i].0@ != s.last().0@);
    }
}

/// Replacing the record at index `i`, keeping its denomination, is a map
/// insert under that denomination.
pub proof fn lemma_limits_map_update(s: Seq<(String, Limit)>, i: int, e: (String, Limit))
    requires
        keys_unique(s),
        0 <= i < s.len(),
        e.0@ == s[i].0@,
    ensures
        limits_map_of(s.update(i, e)) == limits_map_of(s).insert(e.0@, e.1),
    decreases s.len(),
{
    if i == s.len() - 1 {
        assert(s.update(i, e).drop_last() =~= s.drop_last());
        assert(limits_map_of(s.update(i, e)) =~= limits_map_of(s).insert(e.0@, e.1));
    } else {
        assert(keys_unique(s.drop_last()));
        assert(s.drop_last()[i] == s[i]);
        lemma_limits_map_update(s.drop_last(), i, e);
        assert(s.update(i, e).drop_last() =~= s.drop_last().update(i, e));
        assert(s.update(i, e).last() == s.last());
        assert(s[i].0@ != s.last().0@);
        assert(limits_map_of(s.update(i, e)) =~= limits_map_of(s).insert(e.0@, e.1));
    }
}

/// Appending a record with a fresh denomination is a map insert under it.
pub proof fn lemma_limits_map_push(s: Seq<(String, Limit)>, e: (String, Limit))
    ensures
        limits_map_of(s.push(e)) == limits_map_of(s).insert(e.0@, e.1),
{
    assert(s.push(e).drop_last() =~= s);
    assert(s.push(e).last() == e);
}

/// Whether a window opened at `time_set` has elapsed by `now`: strictly more
/// than one hour has passed.
pub open spec fn window_expired(time_set: u64, now: u64) -> bool {
    now > time_set + SECONDS_PER_HOUR
}

/// Whether a charge of `amount` against record `l` is admitted at `now`:
/// either the window has elapsed (the record no longer binds), or the new
/// cumulative use stays within the cap.
pub open spec fn charge_allowed(l: Limit, amount: u128, now: u64) -> bool {
    window_expired(l.time_set, now) || l.used + amount <= l.limit
}

/// Decides `window_expired` without overflowing.
pub fn window_elapsed(time_set: u64, now: u64) -> (r: bool)
    ensures
        r == window_expired(time_set, now),
{
    now > SECONDS_PER_HOUR && now - SECONDS_PER_HOUR > time_set
}

/// Decides `charge_allowed` for one record.
pub fn check_limit(limit: &Limit, amount: u128, block_time: u64) -> (r: bool)
    ensures
        r == charge_allowed(*limit, amount, block_time),
{
    // The record no longer binds once strictly more than one hour passed.
    if window_elapsed(limit.time_set, block_time) {
        return true;
    }

    // Within the window the new cumulative use must stay within the cap.
    if limit.limit < amount || limit.limit - amount < limit.used {
        return false;
    }

    true
}

/// What one charge does to the record map: no record or an elapsed window
/// admits the charge unchanged; within the window the charge is admitted,
/// and accumulated, only while the cap holds.
pub open spec fn spec_charge(
    m: Map<Seq<char>, Limit>,
    denom: Seq<char>,
    amount: u128,
    now: u64,
) -> (Map<Seq<char>, Limit>, bool) {
    if !m.contains_key(denom) {
        (m, true)
    } else {
        let l = m[denom];
        if window_expired(l.time_set, now) {
            (m, true)
        } else if l.used + amount <= l.limit {
            (m.insert(denom, Limit { limit: l.limit, used: (l.used + amount) as u128, time_set: l.time_set }), true)
        } else {
            (m, false)
        }
    }
}

/// Looks a denomination up in the record list.
fn find_limit_index(limits: &Vec<(String, Limit)>, denom: &String) -> (r: Option<usize>)
    ensures
        match r {
            Some(i) => i < limits@.len() && limits@[i as int].0@ == denom@,
            None => forall|i: int| 0 <= i < limits@.len() ==> limits@[i].0@ != denom@,
        },
{
    let n: usize = limits.len();
    for idx in 0..n
        invariant
            n == limits@.len(),
            forall|j: int| 0 <= j < idx ==> limits@[j].0@ != denom@,
    {
        if limits[idx].0 == *denom {
            return Some(idx);
        }
    }
    None
}

/// Charges `amount` of `denom` against the record list at time `now`, as
/// `spec_charge` describes; a denomination with no record is unlimited.
fn charge_limits(limits: &mut Vec<(String, Limit)>, denom: &String, amount: u128, now: u64) -> (r:
    Result<(), ContractError>)
    requires
        keys_unique(old(limits)@),
    ensures
        keys_unique(final(limits)@),
        limits_map_of(final(limits)@) == spec_charge(limits_map_of(old(limits)@), denom@, amount, now).0,
        (r is Ok) == spec_charge(limits_map_of(old(limits)@), denom@, amount, now).1,
        r is Err ==> r == Err::<(), ContractError>(ContractError::LimitExceeded),
{
    let idx = match find_limit_index(limits, denom) {
        Some(i) => i,
        None => {
            // No record: unlimited by default.
            proof {
                lemma_limits_map_contains(limits@, denom@);
            }
            return Ok(());
        },
    };
    let l: Limit = limits[idx].1;
    proof {
        lemma_limits_map_contains(limits@, denom@);
        lemma_limits_map_index(limits@, idx as int);
    }

    if !check_limit(&l, amount, now) {
        return Err(ContractError::LimitExceeded);
    }

    if window_elapsed(l.time_set, now) {
        // The window elapsed: the charge is admitted without being
        // accumulated; only a fresh `set_spend_limit` re-engages the record.
        return Ok(());
    }

    let updated = Limit { limit: l.limit, used: l.used + amount, time_set: l.time_set };
    proof {
        lemma_limits_map_update(limits@, idx as int, (limits@[idx as int].0, updated));
    }
    limits[idx].1 = updated;
    assert(limits@ =~= old(limits)@.update(idx as int, (old(limits)@[idx as int].0, updated)));
    Ok(())
}

/// Charges `amount` of `denom` against the account's records at time `now`.
///
/// A denomination with no record always succeeds (unlimited by default), an
/// elapsed window always succeeds without touching the record, and within
/// the window the charge succeeds, and is accumulated, exactly while the cap
/// holds; otherwise nothing changes and the charge fails.
pub fn charge(state: &mut SpendLimitState, denom: &String, amount: u128, now: u64) -> (r: Result<
    (),
    ContractError,
>)
    requires
        old(state).wf(),
    ensures
        final(state).wf(),
        final(state).owner == old(state).owner,
        final(state).balances == old(state).balances,
        final(state).limits_map() == spec_charge(old(state).limits_map(), denom@, amount, now).0,
        (r is Ok) == spec_charge(old(state).limits_map(), denom@, amount, now).1,
        r is Err ==> r == Err::<(), ContractError>(ContractError::LimitExceeded),
        !old(state).limits_map().contains_key(denom@) ==> r is Ok && final(state).limits_map()
            == old(state).limits_map(),
        old(state).within_limits() ==> final(state).within_limits(),
{
    let r = charge_limits(&mut state.limits, denom, amount, now);
    proof {
        if old(state).within_limits() {
            lemma_charge_preserves_within_limits(old(state).limits_map(), denom@, amount, now);
        }
    }
    r
}

/// One charge keeps every record's cumulative use within its cap: the only
/// record it rewrites is accumulated under an explicit cap check.
pub proof fn lemma_charge_preserves_within_limits(
    m: Map<Seq<char>, Limit>,
    denom: Seq<char>,
    amount: u128,
    now: u64,
)
    requires
        all_within_limits(m),
    ensures
        all_within_limits(spec_charge(m, denom, amount, now).0),
{
}

/// What `set_spend_limit` does to the record map: the record is overwritten
/// whole, with nothing used yet and the window opened at `now`.
pub open spec fn spec_set_limit(
    m: Map<Seq<char>, Limit>,
    denom: Seq<char>,
    amount: u128,
    now: u64,
) -> Map<Seq<char>, Limit> {
    m.insert(denom, Limit { limit: amount, used: 0, time_set: now })
}

/// Overwrites the record for `denom` with a fresh cap of `amount` and a
/// window opened at `now`.  Only the owner may do so; this is also the only
/// way an elapsed window is re-engaged.
pub fn set_spend_limit(
    state: &mut SpendLimitState,
    sender: &String,
    denom: String,
    amount: u128,
    now: u64,
) -> (r: Result<(), ContractError>)
    requires
        old(state).wf(),
    ensures
        final(state).wf(),
        sender@ != old(state).owner@ ==> r == Err::<(), ContractError>(ContractError::Unauthorized)
            && *final(state) == *old(state),
        sender@ == old(state).owner@ ==> r == Ok::<(), ContractError>(()) && final(state).limits_map()
            == spec_set_limit(old(state).limits_map(), denom@, amount, now),
        final(state).owner == old(state).owner,
        final(state).balances == old(state).balances,
        old(state).within_limits() ==> final(state).within_limits(),
{
    // Only the owner may replace a record.
    if !(*sender == state.owner) {
        return Err(ContractError::Unauthorized);
    }

    let record = Limit { limit: amount, used: 0, time_set: now };
    match find_limit_index(&state.limits, &denom) {
        Some(i) => {
            proof {
                lemma_limits_map_update(
                    state.limits@,
                    i as int,
                    (state.limits@[i as int].0, record),
                );
            }
            state.limits[i].1 = record;
            assert(state.limits@ =~= old(state).limits@.update(
                i as int,
                (old(state).limits@[i as int].0, record),
            ));
        },
        None => {
            proof {
                lemma_limits_map_push(state.limits@, (denom, record));
            }
            state.limits.push((denom, record));
        },
    }
    Ok(())
}

/// Builds the state a fresh spend-limit account starts from: the validated
/// owner identity, no records, and no snapshot.
pub fn instantiate(owner: String) -> (s: SpendLimitState)
    ensures
        s.owner == owner,
        s.limits_map() == Map::<Seq<char>, Limit>::empty(),
        s.balances is None,
        s.wf(),
        s.within_limits(),
{
    SpendLimitState { owner, limits: Vec::new(), balances: None }
}

/// The amount the first holding of `denom` carries, or zero when none does.
pub open spec fn spec_coin_amount(coins: Seq<Coin>, denom: Seq<char>) -> u128
    decreases coins.len(),
{
    if coins.len() == 0 {
        0
    } else if coins[0].denom@ == denom {
        coins[0].amount
    } else {
        spec_coin_amount(coins.drop_first(), denom)
    }
}

/// Looks the holding of `denom` up in a balance list.
fn find_coin_amount(coins: &Vec<Coin>, denom: &String) -> (r: u128)
    ensures
        r == spec_coin_amount(coins@, denom@),
{
    let n: usize = coins.len();
    assert(coins@.skip(0) =~= coins@);
    for idx in 0..n
        invariant
            n == coins@.len(),
            spec_coin_amount(coins@.skip(idx as int), denom@) == spec_coin_amount(coins@, denom@),
    {
        assert(coins@.skip(idx as int)[0] == coins@[idx as int]);
        if coins[idx].denom == *denom {
            return coins[idx].amount;
        }
        assert(coins@.skip(idx as int).drop_first() =~= coins@.skip(idx as int + 1));
    }
    0
}

/// What the after-execute accounting does to the record map: for every
/// snapshot position whose holding decreased, the decrease is charged in
/// order; the first refused charge stops the walk and fails the whole pass.
pub open spec fn spec_settle(
    m: Map<Seq<char>, Limit>,
    pre: Seq<Coin>,
    post: Seq<Coin>,
    now: u64,
) -> (Map<Seq<char>, Limit>, bool)
    decreases pre.len(),
{
    if pre.len() == 0 {
        (m, true)
    } else {
        let held = spec_coin_amount(post, pre[0].denom@);
        if pre[0].amount > held {
            let charged = spec_charge(m, pre[0].denom@, (pre[0].amount - held) as u128, now);
            if charged.1 {
                spec_settle(charged.0, pre.drop_first(), post, now)
            } else {
                (charged.0, false)
            }
        } else {
            spec_settle(m, pre.drop_first(), post, now)
        }
    }
}

/// A whole settle pass keeps every record's cumulative use within its cap,
/// because each single charge does.
pub proof fn lemma_settle_preserves_within_limits(
    m: Map<Seq<char>, Limit>,
    pre: Seq<Coin>,
    post: Seq<Coin>,
    now: u64,
)
    requires
        all_within_limits(m),
    ensures
        all_within_limits(spec_settle(m, pre, post, now).0),
    decreases pre.len(),
{
    if pre.len() > 0 {
        let held = spec_coin_amount(post, pre[0].denom@);
        if pre[0].amount > held {
            let amount = (pre[0].amount - held) as u128;
            lemma_charge_preserves_within_limits(m, pre[0].denom@, amount, now);
            let charged = spec_charge(m, pre[0].denom@, amount, now);
            if charged.1 {
                lemma_settle_preserves_within_limits(charged.0, pre.drop_first(), post, now);
            }
        } else {
            lemma_settle_preserves_within_limits(m, pre.drop_first(), post, now);
        }
    }
}

/// Walks the snapshot and charges every decrease, as `spec_settle`
/// describes.
fn settle_decreases(
    limits: &mut Vec<(String, Limit)>,
    pre: &Vec<Coin>,
    post: &Vec<Coin>,
    now: u64,
) -> (r: Result<(), ContractError>)
    requires
        keys_unique(old(limits)@),
    ensures
        keys_unique(final(limits)@),
        limits_map_of(final(limits)@) == spec_settle(limits_map_of(old(limits)@), pre@, post@, now).0,
        (r is Ok) == spec_settle(limits_map_of(old(limits)@), pre@, post@, now).1,
        r is Err ==> r == Err::<(), ContractError>(ContractError::LimitExceeded),
{
    let n: usize = pre.len();
    assert(pre@.skip(0) =~= pre@);
    for idx in 0..n
        invariant
            n == pre@.len(),
            keys_unique(limits@),
            spec_settle(limits_map_of(old(limits)@), pre@, post@, now) == spec_settle(
                limits_map_of(limits@),
                pre@.skip(idx as int),
                post@,
                now,
            ),
    {
        let ghost pending = pre@.skip(idx as int);
        assert(pending[0] == pre@[idx as int]);
        assert(pending.drop_first() =~= pre@.skip(idx as int + 1));

        let held = find_coin_amount(post, &pre[idx].denom);
        if pre[idx].amount > held {
            let delta: u128 = pre[idx].amount - held;
            let res = charge_limits(limits, &pre[idx].denom, delta, now);
            if res.is_err() {
                return Err(ContractError::LimitExceeded);
            }
        }
    }
    Ok(())
}

/// The type tag of the ledger's native funds-transfer message, the one
/// message kind the admission check allows.
pub open spec fn spec_msg_send_url() -> Seq<char> {
    "/cosmos.bank.v1beta1.MsgSend"@
}

/// The allow-listed funds-transfer type tag.
pub fn msg_send_url() -> (r: &'static str)
    ensures
        r@ == spec_msg_send_url(),
{
    "/cosmos.bank.v1beta1.MsgSend"
}

/// Whether every message carries the allow-listed funds-transfer type tag.
pub open spec fn all_msgs_allowed(msgs: Seq<Any>) -> bool {
    forall|i: int| 0 <= i < msgs.len() ==> msgs[i].type_url@ == spec_msg_send_url()
}

/// The read-only admission check, run before a transaction enters the
/// pending pool: it fails if any message's type tag is not allow-listed.
/// Advisory only; final enforcement happens in the after-execute hook.
pub fn validate(msgs: &Vec<Any>) -> (r: Result<bool, ContractError>)
    ensures
        all_msgs_allowed(msgs@) ==> r == Ok::<bool, ContractError>(true),
        !all_msgs_allowed(msgs@) ==> r == Err::<bool, ContractError>(
            ContractError::DisallowedMessageType,
        ),
{
    let allowed: String = msg_send_url().to_owned();
    let n: usize = msgs.len();
    for idx in 0..n
        invariant
            n == msgs@.len(),
            allowed@ == spec_msg_send_url(),
            forall|j: int| 0 <= j < idx ==> msgs@[j].type_url@ == spec_msg_send_url(),
    {
        if !(msgs[idx].type_url == allowed) {
            return Err(ContractError::DisallowedMessageType);
        }
    }
    Ok(true)
}

/// The pre-execute hook of the spend-limit module: callable only by the
/// account itself, it stores the holdings observed before execution so the
/// after-execute hook can compute what was spent.  The proposed messages are
/// not inspected.
pub fn pre_execute(
    state: &mut SpendLimitState,
    sender: &String,
    account: &String,
    balances: Vec<Coin>,
    _msgs: &Vec<Any>,
) -> (r: Result<(), ContractError>)
    requires
        old(state).wf(),
    ensures
        final(state).wf(),
        sender@ != account@ ==> r == Err::<(), ContractError>(ContractError::Unauthorized)
            && *final(state) == *old(state),
        sender@ == account@ ==> r == Ok::<(), ContractError>(())
            && final(state).balances == Some(balances),
        final(state).owner == old(state).owner,
        final(state).limits@ == old(state).limits@,
        old(state).within_limits() ==> final(state).within_limits(),
{
    // Only the account itself may run its hooks.
    if !(*sender == *account) {
        return Err(ContractError::Unauthorized);
    }

    // Overwrite any prior snapshot: at most one transaction is in flight.
    state.balances = Some(balances);
    Ok(())
}

/// The after-execute hook of the spend-limit module: callable only by the
/// account itself.  It diffs the pre-execute snapshot against the holdings
/// observed after execution and charges every decrease against the matching
/// record; one refused charge fails the pass, and the host then rolls the
/// whole transaction back.
pub fn after_execute(
    state: &mut SpendLimitState,
    sender: &String,
    account: &String,
    balances: &Vec<Coin>,
    now: u64,
    _msgs: &Vec<Any>,
) -> (r: Result<(), ContractError>)
    requires
        old(state).wf(),
    ensures
        final(state).wf(),
        sender@ != account@ ==> r == Err::<(), ContractError>(ContractError::Unauthorized)
            && *final(state) == *old(state),
        sender@ == account@ && old(state).balances is None ==> r == Err::<(), ContractError>(
            ContractError::MissingSnapshot,
        ) && *final(state) == *old(state),
        sender@ == account@ ==> (old(state).balances matches Some(pre) ==> {
            let settled = spec_settle(old(state).limits_map(), pre@, balances@, now);
            &&& final(state).limits_map() == settled.0
            &&& (r is Ok) == settled.1
            &&& (r is Err ==> r == Err::<(), ContractError>(ContractError::LimitExceeded))
        }),
        final(state).owner == old(state).owner,
        final(state).balances == old(state).balances,
        old(state).within_limits() ==> final(state).within_limits(),
{
    // Only the account itself may run its hooks.
    if !(*sender == *account) {
        return Err(ContractError::Unauthorized);
    }

    // Without a snapshot there is nothing to diff against.
    if state.balances.is_none() {
        return Err(ContractError::MissingSnapshot);
    }

    let r = settle_decreases(&mut state.limits, state.balances.as_ref().unwrap(), balances, now);
    proof {
        if old(state).within_limits() {
            let pre = old(state).balances->Some_0;
            lemma_settle_preserves_within_limits(old(state).limits_map(), pre@, balances@, now);
        }
    }
    r
}

/// Instantiation input of the spend-limit module: the owner identity, as a
/// host-validated address string.
#[derive(Debug)]
pub struct InstantiateMsg {
    pub owner: String,
}

/// The operations the spend-limit module accepts: the owner's limit-setting
/// action and the two mandatory hooks.
pub enum ExecuteMsg {
    /// The owner overwrites the record of one denomination.
    SetSpendLimit { denom: String, amount: u128 },
    /// The mandatory pre-execute hook.
    PreExecute(PreExecute),
    /// The mandatory after-execute hook.
    AfterExecute(AfterExecute),
}

/// The read-only questions the module answers for the platform.
pub enum QueryMsg {
    /// The admission check: may a transaction with these messages enter the
    /// pending pool?
    Validate { msgs: Vec<Any> },
}

/// Answers one read-only query.
pub fn query(msg: &QueryMsg) -> (r: Result<bool, ContractError>)
    ensures
        (msg matches QueryMsg::Validate { msgs } ==> {
            &&& all_msgs_allowed(msgs@) ==> r == Ok::<bool, ContractError>(true)
            &&& !all_msgs_allowed(msgs@) ==> r == Err::<bool, ContractError>(
                ContractError::DisallowedMessageType,
            )
        }),
{
    match msg {
        QueryMsg::Validate { msgs } => validate(msgs),
    }
}

/// A parsed funds-transfer descriptor, the structured form of the payload of
/// a message tagged with the funds-transfer type.
#[derive(Debug)]
pub struct MsgSend {
    pub from_address: String,
    pub to_address: String,
    pub amount: Vec<Coin>,
}

/// Dispatches one operation.  `now` is the block time and `balances` the
/// account's holdings at the time of the call, both supplied by the host;
/// `sender` is the authenticated caller and `account` the account's own
/// address.
pub fn execute(
    state: &mut SpendLimitState,
    sender: &String,
    account: &String,
    now: u64,
    balances: Vec<Coin>,
    msg: ExecuteMsg,
) -> (r: Result<(), ContractError>)
    requires
        old(state).wf(),
    ensures
        final(state).wf(),
        final(state).owner == old(state).owner,
        old(state).within_limits() ==> final(state).within_limits(),
        (msg matches ExecuteMsg::SetSpendLimit { denom, amount } ==> {
            &&& sender@ != old(state).owner@ ==> r == Err::<(), ContractError>(
                ContractError::Unauthorized,
            ) && *final(state) == *old(state)
            &&& sender@ == old(state).owner@ ==> r == Ok::<(), ContractError>(())
                && final(state).limits_map() == spec_set_limit(
                    old(state).limits_map(),
                    denom@,
                    amount,
                    now,
                )
            &&& final(state).balances == old(state).balances
        }),
        (msg matches ExecuteMsg::PreExecute(_) ==> {
            &&& sender@ != account@ ==> r == Err::<(), ContractError>(ContractError::Unauthorized)
                && *final(state) == *old(state)
            &&& sender@ == account@ ==> r == Ok::<(), ContractError>(()) && final(state).balances
                == Some(balances)
            &&& final(state).limits@ == old(state).limits@
        }),
        (msg matches ExecuteMsg::AfterExecute(_) ==> {
            &&& sender@ != account@ ==> r == Err::<(), ContractError>(ContractError::Unauthorized)
                && *final(state) == *old(state)
            &&& sender@ == account@ && old(state).balances is None ==> r == Err::<(
            ), ContractError>(ContractError::MissingSnapshot) && *final(state) == *old(state)
            &&& sender@ == account@ ==> (old(state).balances matches Some(pre) ==> {
                let settled = spec_settle(old(state).limits_map(), pre@, balances@, now);
                &&& final(state).limits_map() == settled.0
                &&& (r is Ok) == settled.1
                &&& (r is Err ==> r == Err::<(), ContractError>(ContractError::LimitExceeded))
            })
            &&& final(state).balances == old(state).balances
        }),
{
    match msg {
        ExecuteMsg::SetSpendLimit { denom, amount } => set_spend_limit(
            state,
            sender,
            denom,
            amount,
            now,
        ),
        ExecuteMsg::PreExecute(p) => pre_execute(state, sender, account, balances, &p.msgs),
        ExecuteMsg::AfterExecute(a) => after_execute(state, sender, account, &balances, now, &a.msgs),
    }
}

/// The decoded form of one sub-message, as the host boundary hands it to
/// the message-inspecting hook: the type tag, and the parsed transfer
/// descriptor where the payload of a transfer-tagged message could be
/// parsed.
pub struct DecodedMsg {
    /// The message's type tag.
    pub type_url: String,
    /// The parsed funds-transfer descriptor; a transfer-tagged message whose
    /// payload could not be parsed carries nothing here.
    pub transfer: Option<MsgSend>,
}

/// What charging every coin of one transfer does to the record map: the
/// coins are charged in order, and the first refused charge stops the walk.
pub open spec fn spec_charge_coins(
    m: Map<Seq<char>, Limit>,
    coins: Seq<Coin>,
    now: u64,
) -> (Map<Seq<char>, Limit>, bool)
    decreases coins.len(),
{
    if coins.len() == 0 {
        (m, true)
    } else {
        let charged = spec_charge(m, coins[0].denom@, coins[0].amount, now);
        if charged.1 {
            spec_charge_coins(charged.0, coins.drop_first(), now)
        } else {
            (charged.0, false)
        }
    }
}

/// What the message-inspecting accounting does to the record map: every
/// transfer-tagged message must carry a parsed descriptor, whose coins are
/// charged in order; other messages are ignored.
pub open spec fn spec_inspect_msgs(
    m: Map<Seq<char>, Limit>,
    msgs: Seq<DecodedMsg>,
    now: u64,
) -> (Map<Seq<char>, Limit>, Result<(), ContractError>)
    decreases msgs.len(),
{
    if msgs.len() == 0 {
        (m, Ok(()))
    } else if msgs[0].type_url@ == spec_msg_send_url() {
        match msgs[0].transfer {
            Option::None => (m, Err(ContractError::InvalidMessageFormat)),
            Option::Some(t) => {
                let charged = spec_charge_coins(m, t.amount@, now);
                if charged.1 {
                    spec_inspect_msgs(charged.0, msgs.drop_first(), now)
                } else {
                    (charged.0, Err(ContractError::LimitExceeded))
                }
            },
        }
    } else {
        spec_inspect_msgs(m, msgs.drop_first(), now)
    }
}

/// Charging every coin of one transfer keeps every record within its cap.
pub proof fn lemma_charge_coins_within_limits(m: Map<Seq<char>, Limit>, coins: Seq<Coin>, now: u64)
    requires
        all_within_limits(m),
    ensures
        all_within_limits(spec_charge_coins(m, coins, now).0),
    decreases coins.len(),
{
    if coins.len() > 0 {
        lemma_charge_preserves_within_limits(m, coins[0].denom@, coins[0].amount, now);
        let charged = spec_charge(m, coins[0].denom@, coins[0].amount, now);
        if charged.1 {
            lemma_charge_coins_within_limits(charged.0, coins.drop_first(), now);
        }
    }
}

/// Charges every coin of one transfer, as `spec_charge_coins` describes.
fn charge_coins(limits: &mut Vec<(String, Limit)>, coins: &Vec<Coin>, now: u64) -> (r: Result<
    (),
    ContractError,
>)
    requires
        keys_unique(old(limits)@),
    ensures
        keys_unique(final(limits)@),
        limits_map_of(final(limits)@) == spec_charge_coins(limits_map_of(old(limits)@), coins@, now).0,
        (r is Ok) == spec_charge_coins(limits_map_of(old(limits)@), coins@, now).1,
        r is Err ==> r == Err::<(), ContractError>(ContractError::LimitExceeded),
{
    let n: usize = coins.len();
    assert(coins@.skip(0) =~= coins@);
    for idx in 0..n
        invariant
            n == coins@.len(),
            keys_unique(limits@),
            spec_charge_coins(limits_map_of(old(limits)@), coins@, now) == spec_charge_coins(
                limits_map_of(limits@),
                coins@.skip(idx as int),
                now,
            ),
    {
        let ghost pending = coins@.skip(idx as int);
        assert(pending[0] == coins@[idx as int]);
        assert(pending.drop_first() =~= coins@.skip(idx as int + 1));

        let res = charge_limits(limits, &coins[idx].denom, coins[idx].amount, now);
        if res.is_err() {
            return Err(ContractError::LimitExceeded);
        }
    }
    Ok(())
}

/// The message-inspecting variant of the after-execute hook: callable only
/// by the account itself, it does not diff balances but charges the amounts
/// named by the submitted funds-transfer messages themselves.  It trusts the
/// host to pass the same message list that executed, and needs no snapshot.
pub fn after_execute_msgs(
    state: &mut SpendLimitState,
    sender: &String,
    account: &String,
    msgs: &Vec<DecodedMsg>,
    now: u64,
) -> (r: Result<(), ContractError>)
    requires
        old(state).wf(),
    ensures
        final(state).wf(),
        final(state).owner == old(state).owner,
        final(state).balances == old(state).balances,
        sender@ != account@ ==> r == Err::<(), ContractError>(ContractError::Unauthorized)
            && *final(state) == *old(state),
        sender@ == account@ ==> {
            let inspected = spec_inspect_msgs(old(state).limits_map(), msgs@, now);
            &&& final(state).limits_map() == inspected.0
            &&& r == inspected.1
        },
        old(state).within_limits() ==> final(state).within_limits(),
{
    // Only the account itself may run its hooks.
    if !(*sender == *account) {
        return Err(ContractError::Unauthorized);
    }

    let transfer_url: String = msg_send_url().to_owned();
    let n: usize = msgs.len();
    assert(msgs@.skip(0) =~= msgs@);
    for idx in 0..n
        invariant
            n == msgs@.len(),
            sender@ == account@,
            keys_unique(state.limits@),
            transfer_url@ == spec_msg_send_url(),
            state.owner == old(state).owner,
            state.balances == old(state).balances,
            old(state).within_limits() ==> all_within_limits(limits_map_of(state.limits@)),
            spec_inspect_msgs(old(state).limits_map(), msgs@, now) == spec_inspect_msgs(
                limits_map_of(state.limits@),
                msgs@.skip(idx as int),
                now,
            ),
    {
        let ghost pending = msgs@.skip(idx as int);
        assert(pending[0] == msgs@[idx as int]);
        assert(pending.drop_first() =~= msgs@.skip(idx as int + 1));

        if msgs[idx].type_url == transfer_url {
            match &msgs[idx].transfer {
                None => {
                    return Err(ContractError::InvalidMessageFormat);
                },
                Some(t) => {
                    let ghost before = limits_map_of(state.limits@);
                    let res = charge_coins(&mut state.limits, &t.amount, now);
                    proof {
                        if old(state).within_limits() {
                            lemma_charge_coins_within_limits(before, t.amount@, now);
                        }
                    }
                    if res.is_err() {
                        return Err(ContractError::LimitExceeded);
                    }
                },
            }
        }
    }
    Ok(())
}

/// A charge sequence, applied in order; a refused charge leaves the records
/// as it found them and the walk goes on.
pub open spec fn spec_charge_seq(
    m: Map<Seq<char>, Limit>,
    ops: Seq<(Seq<char>, u128, u64)>,
) -> Map<Seq<char>, Limit>
    decreases ops.len(),
{
    if ops.len() == 0 {
        m
    } else {
        spec_charge_seq(spec_charge(m, ops[0].0, ops[0].1, ops[0].2).0, ops.drop_first())
    }
}

/// After any sequence of charges on records whose cumulative use is within
/// their caps, every record is still within its cap.  In particular this
/// holds after every successful charge sequence.
pub proof fn lemma_charge_seq_within_limits(
    m: Map<Seq<char>, Limit>,
    ops: Seq<(Seq<char>, u128, u64)>,
)
    requires
        all_within_limits(m),
    ensures
        all_within_limits(spec_charge_seq(m, ops)),
    decreases ops.len(),
{
    if ops.len() > 0 {
        lemma_charge_preserves_within_limits(m, ops[0].0, ops[0].1, ops[0].2);
        lemma_charge_seq_within_limits(
            spec_charge(m, ops[0].0, ops[0].1, ops[0].2).0,
            ops.drop_first(),
        );
    }
}

/// Setting a limit twice with the same arguments persists the same records
/// as setting it once, and the record's use is zero both times.
pub proof fn lemma_set_limit_idempotent(
    m: Map<Seq<char>, Limit>,
    denom: Seq<char>,
    amount: u128,
    now: u64,
)
    ensures
        spec_set_limit(spec_set_limit(m, denom, amount, now), denom, amount, now) == spec_set_limit(
            m,
            denom,
            amount,
            now,
        ),
        spec_set_limit(m, denom, amount, now)[denom].used == 0,
{
    assert(spec_set_limit(spec_set_limit(m, denom, amount, now), denom, amount, now)
        =~= spec_set_limit(m, denom, amount, now));
}

/// A charge strictly more than one hour after the record's window opened
/// always succeeds, whatever the record's cap and use and however large the
/// amount, and leaves the records unchanged.
pub proof fn lemma_expired_window_charge_succeeds(
    m: Map<Seq<char>, Limit>,
    denom: Seq<char>,
    amount: u128,
    now: u64,
)
    requires
        m.contains_key(denom) ==> window_expired(m[denom].time_set, now),
    ensures
        spec_charge(m, denom, amount, now).1,
        spec_charge(m, denom, amount, now).0 == m,
{
}

} // verus!
