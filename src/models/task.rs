//! The per-worker purchase task.

use crate::engine::RetryPolicy;
use crate::submit::{min_nat, select_viewers, slot_marked, ViewerSelection};
use vstd::prelude::*;

verus! {

/// What one worker buys and how: created once at start, never changed.
#[derive(Clone, Debug, PartialEq, Eq)]
pub struct Task {
    pub nickname: String,
    /// Item id.
    pub ticket_id: String,
    pub ticket_name: String,
    /// Session id.
    pub ticket_perform_id: String,
    pub ticket_perform_name: String,
    /// Price-tier id.
    pub ticket_perform_sku_id: String,
    pub ticket_perform_sku_name: String,
    /// Quantity to buy.
    pub ticket_num: usize,
    /// Length of the priority window, in minutes, by which the sale opens
    /// later for ordinary buyers.
    pub priority_purchase_time: i64,
    /// Shift of the trigger time, in milliseconds (negative: earlier).
    pub request_time_offset: i64,
    /// Nominal wait between attempts, in milliseconds.
    pub retry_interval: u64,
    /// Attempts per phase (below 1: 3).
    pub retry_times: u64,
    /// Nominal wait between build and submit, in milliseconds.
    pub wait_for_submit_interval: u64,
    /// 1-based attendee slot numbers to use; empty for the first ones.
    pub real_names: Vec<usize>,
}

/// The attendee slots of a task that names none: automatic choice.
pub fn default_real_names() -> (r: Vec<usize>)
    ensures
        r@.len() == 0,
{
    Vec::new()
}

/// The effective trigger time: the official sale time, shifted by the
/// offset, plus the priority window when there is one.
pub open spec fn effective_trigger(sale_start: i64, offset: i64, priority_minutes: i64) -> int {
    sale_start + offset + if priority_minutes > 0 {
        priority_minutes * 60_000
    } else {
        0
    }
}

impl Task {
    /// The retry settings of the task.
    pub fn retry_policy(&self) -> (r: RetryPolicy)
        ensures
            r.retry_times == self.retry_times,
            r.retry_interval == self.retry_interval,
            r.wait_for_submit_interval == self.wait_for_submit_interval,
    {
        RetryPolicy {
            retry_times: self.retry_times,
            retry_interval: self.retry_interval,
            wait_for_submit_interval: self.wait_for_submit_interval,
        }
    }

    /// The effective trigger time for an official sale time; `None` when it
    /// lies outside the `i64` range of milliseconds.
    pub fn trigger_time(&self, sale_start: i64) -> (r: Option<i64>)
        ensures
            ({
                let v = effective_trigger(
                    sale_start,
                    self.request_time_offset,
                    self.priority_purchase_time,
                );
                match r {
                    Some(t) => t == v,
                    None => v < i64::MIN || v > i64::MAX,
                }
            }),
    {
        let window: i128 = if self.priority_purchase_time > 0 {
            self.priority_purchase_time as i128 * 60_000
        } else {
            0
        };
        let v: i128 = sale_start as i128 + self.request_time_offset as i128 + window;
        if v < i64::MIN as i128 || v > i64::MAX as i128 {
            None
        } else {
            Some(v as i64)
        }
    }

    /// The attendee slots marked by the order, among `available` slots,
    /// for the configured quantity and slot numbers.
    pub fn select_viewers(&self, available: usize) -> (r: ViewerSelection)
        ensures
            r.marks@.len() == available,
            forall|i: int|
                0 <= i < available ==> #[trigger] r.marks@[i] == slot_marked(
                    available as nat,
                    self.ticket_num as nat,
                    self.real_names@,
                    i,
                ),
            r.quantity == min_nat(self.ticket_num as int, available as int),
            r.short == (0 < available && available < self.ticket_num),
    {
        select_viewers(available, self.ticket_num, &self.real_names)
    }
}

} // verus!
