//! The vendor's request and response records, as plain typed values. The
//! serialisation to and from the wire format belongs to the caller.

pub mod order;
pub mod perform;
pub mod qrcode;
pub mod task;
pub mod ticket;
pub mod user;

use crate::text::{prefix_until, same_text, text_until};
use vstd::prelude::*;

verus! {

/// The session tokens that the vendor hands out as cookies.
#[derive(Clone, Debug, PartialEq, Eq)]
pub struct DmToken {
    /// The `_m_h5_tk` cookie: the token, `_`, and its timestamp.
    pub token_with_time: String,
    /// The token alone: `token_with_time` up to its first `_`.
    pub token: String,
    /// The `_m_h5_tk_enc` cookie.
    pub enc_token: String,
}

/// The value of the last cookie called `name`, or the empty text when none
/// is.
pub open spec fn last_cookie_value(cookies: Seq<(String, String)>, name: Seq<char>) -> Seq<char>
    decreases cookies.len(),
{
    if cookies.len() == 0 {
        Seq::empty()
    } else if cookies.last().0@ == name {
        cookies.last().1@
    } else {
        last_cookie_value(cookies.drop_last(), name)
    }
}

impl DmToken {
    /// Reads the session tokens from the (name, value) cookies of a
    /// response; a cookie that is missing leaves its field empty.
    pub fn from_cookies(cookies: &Vec<(String, String)>) -> (r: DmToken)
        ensures
            r.token_with_time@ == last_cookie_value(cookies@, "_m_h5_tk"@),
            r.token@ == prefix_until(last_cookie_value(cookies@, "_m_h5_tk"@), '_'),
            r.enc_token@ == last_cookie_value(cookies@, "_m_h5_tk_enc"@),
    {
        let mut with_time = String::new();
        let mut enc = String::new();
        let mut i: usize = 0;
        while i < cookies.len()
            invariant
                i <= cookies@.len(),
                with_time@ == last_cookie_value(cookies@.subrange(0, i as int), "_m_h5_tk"@),
                enc@ == last_cookie_value(cookies@.subrange(0, i as int), "_m_h5_tk_enc"@),
            decreases cookies@.len() - i,
        {
            let ghost upto = cookies@.subrange(0, i + 1);
            assert(upto.drop_last() =~= cookies@.subrange(0, i as int));
            assert(upto.last() == cookies@[i as int]);
            let (name, value) = (&cookies[i].0, &cookies[i].1);
            if same_text(name.as_str(), "_m_h5_tk") {
                with_time = value.clone();
            }
            if same_text(name.as_str(), "_m_h5_tk_enc") {
                enc = value.clone();
            }
            i = i + 1;
        }
        assert(cookies@.subrange(0, cookies@.len() as int) =~= cookies@);
        let token = text_until(with_time.as_str(), '_');
        DmToken { token_with_time: with_time, token, enc_token: enc }
    }
}

/// Relies on chrono's `Local::now().timestamp_millis()`: the current time
/// in milliseconds since the Unix epoch. Nothing is known of its value.
#[verifier::external_body]
fn now_millis() -> (r: i64) {
    chrono::Local::now().timestamp_millis()
}

/// Protocol version of the H5 gateway.
pub const JSV: &'static str = "2.7.2";

/// Application key of the H5 client.
pub const APP_KEY: &'static str = "12574478";

/// The parameters that every gateway call carries besides its own: the
/// request time and the request start, one millisecond earlier.
#[derive(Clone, Copy, Debug, PartialEq, Eq, Structural)]
pub struct CommonParams {
    /// Request time, in milliseconds since the epoch.
    pub t: i64,
    /// Request start, in milliseconds since the epoch.
    pub request_start: i64,
}

impl CommonParams {
    /// The common parameters of a call made at `millis` (the request start
    /// stays at `millis` when it cannot go lower).
    pub fn at(millis: i64) -> (r: CommonParams)
        ensures
            r.t == millis,
            millis > i64::MIN ==> r.request_start == millis - 1,
            millis == i64::MIN ==> r.request_start == millis,
    {
        let request_start = if millis > i64::MIN {
            millis - 1
        } else {
            millis
        };
        CommonParams { t: millis, request_start }
    }

    /// The common parameters of a call made now.
    pub fn build() -> (r: CommonParams)
        ensures
            r.t > i64::MIN ==> r.request_start == r.t - 1,
    {
        CommonParams::at(now_millis())
    }
}

impl Default for CommonParams {
    fn default() -> (r: CommonParams)
        ensures
            r.t > i64::MIN ==> r.request_start == r.t - 1,
    {
        CommonParams::build()
    }
}

} // verus!
