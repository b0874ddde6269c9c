//! The user information call, used to check that a cookie still holds a
//! live session.

use super::CommonParams;
use vstd::prelude::*;

verus! {

/// API name of the user information call.
pub const USER_INFO_API: &'static str = "mtop.damai.wireless.user.session.transform";

/// API version of the user information call.
pub const USER_INFO_API_VERSION: &'static str = "1.0";

/// Query parameters of the user information call.
#[derive(Clone, Copy, Debug, PartialEq, Eq, Structural)]
pub struct GetUserInfoParams {
    pub common: CommonParams,
}

impl GetUserInfoParams {
    pub fn build() -> (r: GetUserInfoParams)
        ensures
            r.common.t > i64::MIN ==> r.common.request_start == r.common.t - 1,
    {
        GetUserInfoParams { common: CommonParams::build() }
    }
}

/// Form of the user information call; it holds constants only.
#[derive(Clone, Copy, Debug, PartialEq, Eq, Structural)]
pub struct GetUserInfoForm;

/// The answer of the user information call.
#[derive(Clone, Debug, PartialEq, Eq)]
pub struct UserInfoData {
    pub nickname: String,
    pub user_id: u64,
}

} // verus!
