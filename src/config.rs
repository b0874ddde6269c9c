//! The configuration of the multi-account runner: one entry per account,
//! each with its cookie, its ticket choice and its timing settings.

use crate::engine::RetryPolicy;
use vstd::prelude::*;

verus! {

/// The ticket an account goes for.
#[derive(Clone, Debug, PartialEq, Eq)]
pub struct Ticket {
    /// Item id.
    pub id: String,
    /// Quantity to buy.
    pub num: usize,
    /// 1-based position of the session in the item's session list.
    pub sessions: usize,
    /// 1-based position of the price tier in the session's tier list.
    pub grade: usize,
}

/// One account of the configuration. Settings left out take their
/// defaults.
#[derive(Clone, Debug, PartialEq, Eq)]
pub struct Account {
    pub cookie: String,
    pub remark: String,
    pub ticket: Ticket,
    /// Polling interval of the countdown, in milliseconds (default 50).
    pub interval: Option<u64>,
    /// How many milliseconds before the trigger time the purchase may
    /// start (default 0: not before it).
    pub earliest_submit_time: Option<i64>,
    /// A trigger time that replaces the official sale time when positive
    /// (default -1: none).
    pub request_time: Option<i64>,
    /// Attempts per phase (default 2).
    pub retry_times: Option<u8>,
    /// Wait between attempts, in milliseconds (default 100).
    pub retry_interval: Option<u64>,
}

/// The whole configuration.
#[derive(Clone, Debug, PartialEq, Eq)]
pub struct Config {
    pub accounts: Vec<Account>,
}

/// An account whose ticket choice can be acted on: a positive quantity and
/// 1-based session and tier positions.
pub open spec fn account_valid(a: Account) -> bool {
    a.ticket.num >= 1 && a.ticket.sessions >= 1 && a.ticket.grade >= 1
}

pub open spec fn option_or<T>(o: Option<T>, d: T) -> T {
    match o {
        Some(v) => v,
        None => d,
    }
}

/// The trigger time of an account: the configured request time when it is
/// positive, else the official sale time; less the lead time it may start
/// early by, which is none unless one is configured.
pub open spec fn account_trigger(a: Account, sale_start: i64) -> int {
    let base = if option_or(a.request_time, -1i64) > 0 {
        option_or(a.request_time, -1i64)
    } else {
        sale_start
    };
    base - option_or(a.earliest_submit_time, 0i64)
}

/// Without a configured request time or lead, an account triggers exactly
/// at the official sale time, never before it.
pub proof fn lemma_unconfigured_trigger_is_sale_time(a: Account, sale_start: i64)
    requires
        a.request_time is None,
        a.earliest_submit_time is None,
    ensures
        account_trigger(a, sale_start) == sale_start,
{
}

/// Admits the accounts read from the configuration file: the whole
/// configuration when every account is valid, `None` (a setup error) when
/// one is not.
pub fn load_global_config(accounts: Vec<Account>) -> (r: Option<Config>)
    ensures
        r is Some <==> forall|i: int| 0 <= i < accounts@.len() ==> account_valid(#[trigger] accounts@[i]),
        r matches Some(c) ==> c.accounts@ == accounts@,
{
    let mut i: usize = 0;
    while i < accounts.len()
        invariant
            i <= accounts@.len(),
            forall|j: int| 0 <= j < i ==> account_valid(#[trigger] accounts@[j]),
        decreases accounts@.len() - i,
    {
        let t = &accounts[i].ticket;
        if t.num < 1 || t.sessions < 1 || t.grade < 1 {
            assert(!account_valid(accounts@[i as int]));
            return None;
        }
        i = i + 1;
    }
    Some(Config { accounts })
}

impl Account {
    /// The polling interval of the countdown, in milliseconds.
    pub fn poll_interval(&self) -> (r: u64)
        ensures
            r == option_or(self.interval, 50u64),
    {
        match self.interval {
            Some(v) => v,
            None => 50,
        }
    }

    /// The retry settings of the account: no wait between build and submit.
    pub fn retry_policy(&self) -> (r: RetryPolicy)
        ensures
            r.retry_times == option_or(self.retry_times, 2u8) as u64,
            r.retry_interval == option_or(self.retry_interval, 100u64),
            r.wait_for_submit_interval == 0,
    {
        let times: u8 = match self.retry_times {
            Some(v) => v,
            None => 2,
        };
        let interval: u64 = match self.retry_interval {
            Some(v) => v,
            None => 100,
        };
        RetryPolicy { retry_times: times as u64, retry_interval: interval, wait_for_submit_interval: 0 }
    }

    /// The trigger time of the account for an official sale time; `None`
    /// when it lies outside the `i64` range of milliseconds.
    pub fn trigger_time(&self, sale_start: i64) -> (r: Option<i64>)
        ensures
            match r {
                Some(t) => t == account_trigger(*self, sale_start),
                None => account_trigger(*self, sale_start) < i64::MIN || account_trigger(
                    *self,
                    sale_start,
                ) > i64::MAX,
            },
    {
        let request_time: i64 = match self.request_time {
            Some(v) => v,
            None => -1,
        };
        let lead: i64 = match self.earliest_submit_time {
            Some(v) => v,
            None => 0,
        };
        let base = if request_time > 0 {
            request_time
        } else {
            sale_start
        };
        let v: i128 = base as i128 - lead as i128;
        if v < i64::MIN as i128 || v > i64::MAX as i128 {
            None
        } else {
            Some(v as i64)
        }
    }
}

} // verus!
