//! The item detail: its sale time and its sessions.

use super::perform::PerformItem;
use super::CommonParams;
use crate::digits::{parse_i64, parsed_i64};
use crate::text::{occurs_in, text_contains};
use vstd::prelude::*;

verus! {

/// API name of the item detail call.
pub const TICKET_INFO_API: &'static str = "mtop.alibaba.damai.detail.getdetail";

/// API version of the item detail call.
pub const TICKET_INFO_API_VERSION: &'static str = "1.2";

/// The H5 channel that every form names.
pub const DM_CHANNEL: &'static str = "damai@damaih5_h5";

/// Form of the item detail call.
#[derive(Clone, Debug, PartialEq, Eq)]
pub struct TicketInfoForm {
    pub item_id: String,
    pub dm_channel: String,
}

impl TicketInfoForm {
    pub fn build(ticket_id: String) -> (r: TicketInfoForm)
        ensures
            r.item_id == ticket_id,
            r.dm_channel@ == DM_CHANNEL@,
    {
        TicketInfoForm { item_id: ticket_id, dm_channel: String::from_str(DM_CHANNEL) }
    }
}

/// Query parameters of the item detail call.
#[derive(Clone, Copy, Debug, PartialEq, Eq, Structural)]
pub struct TicketInfoParams {
    pub common: CommonParams,
}

impl TicketInfoParams {
    pub fn build() -> (r: TicketInfoParams)
        ensures
            r.common.t > i64::MIN ==> r.common.request_start == r.common.t - 1,
    {
        TicketInfoParams { common: CommonParams::build() }
    }
}

/// A price tier as the item detail lists it.
#[derive(Clone, Debug, PartialEq, Eq)]
pub struct Sku {
    pub sku_id: String,
    pub sku_name: String,
}

/// A session as the item detail lists it.
#[derive(Clone, Debug, PartialEq, Eq)]
pub struct Perform {
    pub perform_id: String,
    pub item_id: String,
    pub perform_name: String,
}

/// A group of sessions (one date, usually).
#[derive(Clone, Debug, PartialEq, Eq)]
pub struct PerformBase {
    pub name: String,
    pub time_span: String,
    pub perform_base_tag_desc: String,
    pub performs: Vec<Perform>,
}

/// The sale data of an item.
#[derive(Clone, Debug, PartialEq, Eq)]
pub struct TicketDetail {
    /// Official sale time, in milliseconds since the epoch, as text.
    pub sell_start_timestamp: String,
    pub sell_start_time_str: String,
    pub perform_bases: Vec<PerformBase>,
    /// The text of the buy button on this channel.
    pub buy_btn_text: String,
}

#[derive(Clone, Debug, PartialEq, Eq)]
pub struct StaticDataItemBase {
    pub item_id: String,
    pub item_name: String,
}

#[derive(Clone, Debug, PartialEq, Eq)]
pub struct StaticData {
    pub item_base: StaticDataItemBase,
}

/// The (name, id) pairs of the sessions of some groups, group by group.
pub open spec fn session_list(bases: Seq<PerformBase>) -> Seq<(Seq<char>, Seq<char>)>
    decreases bases.len(),
{
    if bases.len() == 0 {
        Seq::empty()
    } else {
        session_list(bases.drop_last()) + bases.last().performs@.map_values(
            |p: Perform| (p.perform_name@, p.perform_id@),
        )
    }
}

pub open spec fn item_pairs(items: Seq<PerformItem>) -> Seq<(Seq<char>, Seq<char>)> {
    items.map_values(|it: PerformItem| (it.perfrom_name@, it.perform_id@))
}

/// The words by which the buy button says that this channel does not sell
/// the item.
pub open spec fn unsupported_words() -> Seq<char> {
    "不支持"@
}

impl TicketDetail {
    /// Whether this channel sells the item: its buy button does not say
    /// that it is unsupported.
    pub fn channel_supported(&self) -> (r: bool)
        ensures
            r == !occurs_in(unsupported_words(), self.buy_btn_text@),
    {
        !text_contains(self.buy_btn_text.as_str(), "不支持")
    }

    /// The official sale time; `None` when its text is no `i64`.
    pub fn sale_start(&self) -> (r: Option<i64>)
        ensures
            match r {
                Some(v) => parsed_i64(self.sell_start_timestamp@) == Some(v as int),
                None => parsed_i64(self.sell_start_timestamp@) is None,
            },
    {
        parse_i64(self.sell_start_timestamp.as_str())
    }

    /// Every session of the item, group by group, as offered for
    /// selection.
    pub fn perform_items(&self) -> (r: Vec<PerformItem>)
        ensures
            item_pairs(r@) == session_list(self.perform_bases@),
    {
        let mut r: Vec<PerformItem> = Vec::new();
        let mut i: usize = 0;
        while i < self.perform_bases.len()
            invariant
                i <= self.perform_bases@.len(),
                item_pairs(r@) == session_list(self.perform_bases@.subrange(0, i as int)),
            decreases self.perform_bases@.len() - i,
        {
            let base = &self.perform_bases[i];
            let ghost start = item_pairs(r@);
            let ghost upto = self.perform_bases@.subrange(0, i + 1);
            assert(upto.drop_last() =~= self.perform_bases@.subrange(0, i as int));
            assert(upto.last() == *base);
            let mut j: usize = 0;
            while j < base.performs.len()
                invariant
                    j <= base.performs@.len(),
                    item_pairs(r@) == start + base.performs@.subrange(0, j as int).map_values(
                        |p: Perform| (p.perform_name@, p.perform_id@),
                    ),
                decreases base.performs@.len() - j,
            {
                let p = &base.performs[j];
                let ghost before = r@;
                r.push(PerformItem { perfrom_name: p.perform_name.clone(), perform_id: p.perform_id.clone() });
                assert(item_pairs(r@) =~= item_pairs(before).push((p.perform_name@, p.perform_id@)));
                assert(base.performs@.subrange(0, j + 1).map_values(
                    |p: Perform| (p.perform_name@, p.perform_id@),
                ) =~= base.performs@.subrange(0, j as int).map_values(
                    |p: Perform| (p.perform_name@, p.perform_id@),
                ).push((p.perform_name@, p.perform_id@)));
                j = j + 1;
            }
            assert(base.performs@.subrange(0, base.performs@.len() as int) =~= base.performs@);
            i = i + 1;
        }
        assert(self.perform_bases@.subrange(0, self.perform_bases@.len() as int) =~= self.perform_bases@);
        r
    }

    /// The session picked by a 1-based group position: the first session of
    /// that group, if there is one.
    pub fn session_perform(&self, sessions: usize) -> (r: Option<&Perform>)
        ensures
            1 <= sessions <= self.perform_bases@.len() && self.perform_bases@[sessions
                - 1].performs@.len() > 0 ==> r == Some(
                &self.perform_bases@[sessions - 1].performs@[0],
            ),
            !(1 <= sessions <= self.perform_bases@.len() && self.perform_bases@[sessions
                - 1].performs@.len() > 0) ==> r is None,
    {
        if 1 <= sessions && sessions <= self.perform_bases.len() {
            let base = &self.perform_bases[sessions - 1];
            if base.performs.len() > 0 {
                return Some(&base.performs[0]);
            }
        }
        None
    }
}

} // verus!
