//! The build and submit calls: their parameters and the built order.

use super::CommonParams;
use crate::digits::{decimal, decimal_text};
use vstd::prelude::*;

verus! {

/// API name of the build call.
pub const ORDER_BUILD_API: &'static str = "mtop.trade.order.build.h5";

/// API name of the submit call.
pub const ORDER_CREATE_API: &'static str = "mtop.trade.order.create.h5";

/// API version of the build and submit calls.
pub const ORDER_API_VERSION: &'static str = "4.0";

/// Query parameters of the build call.
#[derive(Clone, Copy, Debug, PartialEq, Eq, Structural)]
pub struct OrderParams {
    pub common: CommonParams,
}

impl OrderParams {
    pub fn build() -> (r: OrderParams)
        ensures
            r.common.t > i64::MIN ==> r.common.request_start == r.common.t - 1,
    {
        OrderParams { common: CommonParams::build() }
    }
}

/// The `buyParam` of a build call: item, quantity and price tier, joined
/// by `_`.
pub open spec fn buy_param_text(item_id: Seq<char>, sku_id: Seq<char>, num: nat) -> Seq<char> {
    item_id + "_"@ + decimal_text(num) + "_"@ + sku_id
}

/// Form of the build call.
#[derive(Clone, Debug, PartialEq, Eq)]
pub struct OrderForm {
    pub buy_param: String,
}

impl OrderForm {
    pub fn build(item_id: &String, sku_id: &String, by_num: usize) -> (r: OrderForm)
        ensures
            r.buy_param@ == buy_param_text(item_id@, sku_id@, by_num as nat),
    {
        let mut p = item_id.clone();
        p.append("_");
        let n = decimal(by_num as u64);
        p.append(n.as_str());
        p.append("_");
        p.append(sku_id.as_str());
        OrderForm { buy_param: p }
    }
}

/// The container part of a built order, which the submit call does not
/// use.
#[derive(Clone, Copy, Debug, PartialEq, Eq, Structural)]
pub struct OrderInfoContainer;

/// The data part of a built order, kept by the caller in its wire form.
#[derive(Clone, Copy, Debug, PartialEq, Eq, Structural)]
pub struct OrderInfoData;

#[derive(Clone, Debug, PartialEq, Eq)]
pub struct OrderInfoGlobal {
    pub secret_key: String,
    /// The `submitref` of the submit call.
    pub secret_value: String,
}

#[derive(Clone, Debug, PartialEq, Eq)]
pub struct OrderInfoLinkageCommon {
    pub query_params: String,
    pub compress: bool,
    pub validate_params: String,
    pub structures: String,
    pub submit_params: String,
}

#[derive(Clone, Debug, PartialEq, Eq)]
pub struct OrderInfoLinkage {
    /// The components that the submit payload carries.
    pub input: Vec<String>,
    pub request: Vec<String>,
    pub signature: String,
    pub common: OrderInfoLinkageCommon,
}

/// Query parameters of the submit call.
#[derive(Clone, Debug, PartialEq, Eq)]
pub struct SubmitOrderParams {
    pub common: CommonParams,
    pub submitref: String,
}

impl SubmitOrderParams {
    pub fn build(submitref: String) -> (r: SubmitOrderParams)
        ensures
            r.submitref == submitref,
            r.common.t > i64::MIN ==> r.common.request_start == r.common.t - 1,
    {
        SubmitOrderParams { common: CommonParams::build(), submitref }
    }
}

} // verus!
