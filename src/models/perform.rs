//! Sessions and price tiers of an item.

use super::CommonParams;
use vstd::prelude::*;

verus! {

/// API name of the session detail call.
pub const PERFORM_API: &'static str = "mtop.alibaba.detail.subpage.getdetail";

/// API version of the session detail call.
pub const PERFORM_API_VERSION: &'static str = "2.0";

/// Query parameters of the session detail call.
#[derive(Clone, Copy, Debug, PartialEq, Eq, Structural)]
pub struct PerformParams {
    pub common: CommonParams,
}

impl PerformParams {
    pub fn build() -> (r: PerformParams)
        ensures
            r.common.t > i64::MIN ==> r.common.request_start == r.common.t - 1,
    {
        PerformParams { common: CommonParams::build() }
    }
}

/// Form of the session detail call: the item and the session asked about.
#[derive(Clone, Debug, PartialEq, Eq)]
pub struct PerformForm {
    pub item_id: String,
    pub perform_id: String,
}

impl PerformForm {
    pub fn build(ticket_id: &String, perform_id: &String) -> (r: PerformForm)
        ensures
            r.item_id@ == ticket_id@,
            r.perform_id@ == perform_id@,
    {
        PerformForm { item_id: ticket_id.clone(), perform_id: perform_id.clone() }
    }
}

/// A price tier of a session.
#[derive(Clone, Debug, PartialEq, Eq)]
pub struct Sku {
    pub sku_id: String,
    pub item_id: String,
    pub price_name: String,
    pub sku_salable: String,
    pub price: String,
}

/// A session with its price tiers.
#[derive(Clone, Debug, PartialEq, Eq)]
pub struct Perform {
    pub perform_id: String,
    pub perform_name: String,
    pub sku_list: Vec<Sku>,
}

/// The answer of the session detail call.
#[derive(Clone, Debug, PartialEq, Eq)]
pub struct PerformInfo {
    pub perform: Perform,
}

/// A session offered for selection.
#[derive(Clone, Debug, PartialEq, Eq)]
pub struct PerformItem {
    pub perfrom_name: String,
    pub perform_id: String,
}

/// A price tier offered for selection.
#[derive(Clone, Debug, PartialEq, Eq)]
pub struct SkuItem {
    pub sku_id: String,
    pub sku_name: String,
}

impl PerformInfo {
    /// The price tiers of the session, in order, as offered for selection.
    pub fn sku_items(&self) -> (r: Vec<SkuItem>)
        ensures
            r@.len() == self.perform.sku_list@.len(),
            forall|i: int|
                0 <= i < r@.len() ==> (#[trigger] r@[i]).sku_id@ == self.perform.sku_list@[i].sku_id@
                    && r@[i].sku_name@ == self.perform.sku_list@[i].price_name@,
    {
        let mut r: Vec<SkuItem> = Vec::new();
        let mut i: usize = 0;
        while i < self.perform.sku_list.len()
            invariant
                i <= self.perform.sku_list@.len(),
                r@.len() == i,
                forall|k: int|
                    0 <= k < i ==> (#[trigger] r@[k]).sku_id@ == self.perform.sku_list@[k].sku_id@
                        && r@[k].sku_name@ == self.perform.sku_list@[k].price_name@,
            decreases self.perform.sku_list@.len() - i,
        {
            let sku = &self.perform.sku_list[i];
            r.push(SkuItem { sku_id: sku.sku_id.clone(), sku_name: sku.price_name.clone() });
            i = i + 1;
        }
        r
    }

    /// The price tier at 1-based position `grade`, if there is one.
    pub fn sku_at_grade(&self, grade: usize) -> (r: Option<&Sku>)
        ensures
            1 <= grade <= self.perform.sku_list@.len() ==> r == Some(
                &self.perform.sku_list@[grade - 1],
            ),
            !(1 <= grade <= self.perform.sku_list@.len()) ==> r is None,
    {
        if 1 <= grade && grade <= self.perform.sku_list.len() {
            Some(&self.perform.sku_list[grade - 1])
        } else {
            None
        }
    }
}

} // verus!
