//! QR-code login: the parameters of its calls and the decision taken on
//! each polled login status.

use crate::session::{md5_hex, md5_hex_of};
use crate::text::same_text;
use vstd::prelude::*;

verus! {

pub open spec fn is_ascii_alphanumeric(c: char) -> bool {
    ('A' <= c && c <= 'Z') || ('a' <= c && c <= 'z') || ('0' <= c && c <= '9')
}

/// `d` is `c` with an ASCII capital letter turned into its small letter.
pub open spec fn ascii_lower_of(c: char, d: char) -> bool {
    if 'A' <= c && c <= 'Z' {
        d as u32 == c as u32 + 32
    } else {
        d == c
    }
}

/// Relies on rand's `DistString::sample_string` for `Alphanumeric` over
/// `thread_rng`: `len` characters, each drawn from `A-Z`, `a-z` and `0-9`.
#[verifier::external_body]
fn random_alphanumeric(len: usize) -> (r: String)
    ensures
        r@.len() == len,
        forall|i: int| 0 <= i < len ==> is_ascii_alphanumeric(#[trigger] r@[i]),
{
    rand::distributions::DistString::sample_string(
        &rand::distributions::Alphanumeric,
        &mut rand::thread_rng(),
        len,
    )
}

/// Relies on `str::to_ascii_lowercase`: each ASCII capital letter mapped to
/// its small letter, every other character kept.
#[verifier::external_body]
fn ascii_lowercase(s: &str) -> (r: String)
    ensures
        r@.len() == s@.len(),
        forall|i: int| 0 <= i < s@.len() ==> ascii_lower_of(s@[i], #[trigger] r@[i]),
{
    s.to_ascii_lowercase()
}

/// The anti-forgery values that the QR-code calls carry, freshly drawn.
#[derive(Clone, Debug, PartialEq, Eq)]
pub struct QrcodeContentGetParams {
    /// 21 random alphanumeric characters.
    pub csrf_token: String,
    /// 40 random alphanumeric characters, in small letters.
    pub umid_token: String,
    /// The MD5 hex digest of 10 random alphanumeric characters.
    pub hsiz: String,
}

/// Whether a value is a fresh set of anti-forgery values.
pub open spec fn fresh_params(p: QrcodeContentGetParams) -> bool {
    &&& p.csrf_token@.len() == 21
    &&& p.umid_token@.len() == 40
    &&& forall|i: int| 0 <= i < 40 ==> !('A' <= #[trigger] p.umid_token@[i] <= 'Z')
    &&& exists|seed: Seq<char>| seed.len() == 10 && p.hsiz@ == md5_hex_of(seed)
}

impl QrcodeContentGetParams {
    pub fn build() -> (r: QrcodeContentGetParams)
        ensures
            fresh_params(r),
    {
        let csrf_token = random_alphanumeric(21);
        let raw = random_alphanumeric(40);
        let umid_token = ascii_lowercase(raw.as_str());
        assert forall|i: int| 0 <= i < 40 implies !('A' <= #[trigger] umid_token@[i] <= 'Z') by {
            assert(ascii_lower_of(raw@[i], umid_token@[i]));
        }
        let seed = random_alphanumeric(10);
        let hsiz = md5_hex(seed.as_str());
        QrcodeContentGetParams { csrf_token, umid_token, hsiz }
    }
}

/// The answer of the QR-code generation call.
#[derive(Clone, Debug, PartialEq, Eq)]
pub struct QrcodeData {
    pub t: u64,
    pub code_content: String,
    pub ck: String,
    pub result_code: u32,
}

/// Query parameters of the login status call; they hold constants only.
#[derive(Clone, Copy, Debug, PartialEq, Eq, Structural)]
pub struct QrCodeLoginGetResParams;

/// Form of the login status call.
#[derive(Clone, Debug, PartialEq, Eq)]
pub struct QrCodeLoginGetResForm {
    pub t: u64,
    pub ck: String,
    pub params: QrcodeContentGetParams,
    /// 40 random alphanumeric characters, in small letters.
    pub page_trace_id: String,
    /// 24 random alphanumeric characters.
    pub device_id: String,
}

impl QrCodeLoginGetResForm {
    pub fn build(t: u64, ck: String) -> (r: QrCodeLoginGetResForm)
        ensures
            r.t == t,
            r.ck == ck,
            fresh_params(r.params),
            r.page_trace_id@.len() == 40,
            r.device_id@.len() == 24,
    {
        let params = QrcodeContentGetParams::build();
        let raw = random_alphanumeric(40);
        let page_trace_id = ascii_lowercase(raw.as_str());
        let device_id = random_alphanumeric(24);
        QrCodeLoginGetResForm { t, ck, params, page_trace_id, device_id }
    }
}

/// The answer of the login status call.
#[derive(Clone, Debug, PartialEq, Eq)]
pub struct QrCodeLoginStatusData {
    pub result_code: u32,
    pub qrcode_status: String,
    pub st: Option<String>,
    pub login_type: Option<String>,
    pub login_scene: Option<String>,
    pub sid: Option<String>,
    pub cookie2: Option<String>,
    pub return_url: Option<String>,
}

/// The number of one-second polls before a QR code is given up.
pub const QR_LOGIN_MAX_POLLS: u64 = 300;

/// What to do after a polled login status.
#[derive(Clone, Debug, PartialEq, Eq)]
pub enum LoginStep {
    /// Not scanned yet: show the countdown and poll again in a second.
    Waiting(u64),
    /// Scanned, not confirmed: poll again in a second.
    Scanned,
    /// Confirmed: fetch the session cookies with these values.
    Confirmed { cookie2: String, return_url: String, st: String },
    /// The code expired: the login failed.
    Expired,
    /// An unknown status, or a confirmation without its values: the login
    /// failed.
    Failed,
}

/// The decision for status `s` at 0-based poll `poll` out of `max_polls`.
pub open spec fn login_step_of(s: QrCodeLoginStatusData, poll: u64, max_polls: u64) -> LoginStep {
    if poll >= max_polls {
        LoginStep::Expired
    } else if s.qrcode_status@ == "NEW"@ {
        LoginStep::Waiting((max_polls - poll) as u64)
    } else if s.qrcode_status@ == "SCANED"@ {
        LoginStep::Scanned
    } else if s.qrcode_status@ == "CONFIRMED"@ {
        match (s.cookie2, s.return_url, s.st) {
            (Some(c), Some(u), Some(t)) => LoginStep::Confirmed { cookie2: c, return_url: u, st: t },
            _ => LoginStep::Failed,
        }
    } else if s.qrcode_status@ == "EXPIRED"@ {
        LoginStep::Expired
    } else {
        LoginStep::Failed
    }
}

impl QrCodeLoginStatusData {
    /// Decides what follows this status at 0-based poll `poll`: polls
    /// beyond the budget count as an expired code.
    pub fn step(&self, poll: u64, max_polls: u64) -> (r: LoginStep)
        ensures
            r == login_step_of(*self, poll, max_polls),
    {
        let status = self.qrcode_status.as_str();
        if poll >= max_polls {
            LoginStep::Expired
        } else if same_text(status, "NEW") {
            LoginStep::Waiting(max_polls - poll)
        } else if same_text(status, "SCANED") {
            LoginStep::Scanned
        } else if same_text(status, "CONFIRMED") {
            match (&self.cookie2, &self.return_url, &self.st) {
                (Some(c), Some(u), Some(t)) => LoginStep::Confirmed {
                    cookie2: c.clone(),
                    return_url: u.clone(),
                    st: t.clone(),
                },
                _ => LoginStep::Failed,
            }
        } else if same_text(status, "EXPIRED") {
            LoginStep::Expired
        } else {
            LoginStep::Failed
        }
    }
}

} // verus!
