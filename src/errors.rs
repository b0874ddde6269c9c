//! The vendor's status markers: the success marker, the known error
//! markers, and the classification of a response's marker list into
//! success, transient failure or terminal failure.

use crate::engine::AttemptOutcome;
use crate::text::{has_prefix, list_contains};
use vstd::prelude::*;

verus! {

/// The marker whose presence in a response's status list means success.
pub const SUCCESS_FLAG: &'static str = "SUCCESS::调用成功";

/// Error markers that the vendor API is known to return.
#[derive(Clone, Copy, Debug, PartialEq, Eq, Structural)]
pub enum DmApiError {
    /// The selected listing has expired.
    ProductEpired,
    /// The service is overloaded.
    SystemBusy,
    /// The stock is exhausted.
    SoldOut,
    /// The order service is overloaded.
    BuildOrderSystemBusy,
}

/// The full marker text of each known error.
pub open spec fn api_error_text(e: DmApiError) -> Seq<char> {
    match e {
        DmApiError::ProductEpired => "B-00203-200-034::您选购的商品信息已过期，请重新查询"@,
        DmApiError::SystemBusy => "RGV587_ERROR::SM::哎哟喂,被挤爆啦,请稍后重试"@,
        DmApiError::SoldOut => "B-00203-200-008::对不起，您选购的商品库存不足，请重新选购"@,
        DmApiError::BuildOrderSystemBusy => "F-10001-10-16-103::对不起，系统繁忙，请稍候再试"@,
    }
}

/// The code that opens each known error's marker, up to and including the
/// `::` separator.
pub open spec fn api_error_code(e: DmApiError) -> Seq<char> {
    match e {
        DmApiError::ProductEpired => "B-00203-200-034::"@,
        DmApiError::SystemBusy => "RGV587_ERROR::"@,
        DmApiError::SoldOut => "B-00203-200-008::"@,
        DmApiError::BuildOrderSystemBusy => "F-10001-10-16-103::"@,
    }
}

/// The marker codes that retrying cannot resolve: an expired listing,
/// exhausted stock, an expired login session.
pub open spec fn terminal_codes() -> Seq<Seq<char>> {
    seq!["B-00203-200-034::"@, "B-00203-200-008::"@, "FAIL_SYS_SESSION_EXPIRED::"@]
}

/// A marker that opens with one of the terminal codes.
pub open spec fn is_terminal_marker(m: Seq<char>) -> bool {
    exists|i: int| 0 <= i < terminal_codes().len() && (#[trigger] terminal_codes()[i]).is_prefix_of(m)
}

/// Whether a marker list holds the success marker.
pub open spec fn has_success(markers: Seq<String>) -> bool {
    exists|i: int| 0 <= i < markers.len() && (#[trigger] markers[i])@ == SUCCESS_FLAG@
}

/// Whether a marker list holds a terminal marker.
pub open spec fn has_terminal(markers: Seq<String>) -> bool {
    exists|i: int| 0 <= i < markers.len() && is_terminal_marker((#[trigger] markers[i])@)
}

/// The text of a failed response: its first marker, or nothing when the
/// list is empty.
pub open spec fn failure_text(markers: Seq<String>) -> Seq<char> {
    if markers.len() == 0 {
        Seq::empty()
    } else {
        markers[0]@
    }
}

impl DmApiError {
    /// The full marker text of this error.
    pub fn message(&self) -> (r: &'static str)
        ensures
            r@ == api_error_text(*self),
    {
        match self {
            DmApiError::ProductEpired => "B-00203-200-034::您选购的商品信息已过期，请重新查询",
            DmApiError::SystemBusy => "RGV587_ERROR::SM::哎哟喂,被挤爆啦,请稍后重试",
            DmApiError::SoldOut => "B-00203-200-008::对不起，您选购的商品库存不足，请重新选购",
            DmApiError::BuildOrderSystemBusy => "F-10001-10-16-103::对不起，系统繁忙，请稍候再试",
        }
    }

    /// The code that opens this error's marker, with its `::` separator.
    pub fn code(&self) -> (r: &'static str)
        ensures
            r@ == api_error_code(*self),
    {
        match self {
            DmApiError::ProductEpired => "B-00203-200-034::",
            DmApiError::SystemBusy => "RGV587_ERROR::",
            DmApiError::SoldOut => "B-00203-200-008::",
            DmApiError::BuildOrderSystemBusy => "F-10001-10-16-103::",
        }
    }

    /// Whether retrying cannot resolve this error.
    pub fn is_terminal(&self) -> (r: bool)
        ensures
            r == (*self == DmApiError::ProductEpired || *self == DmApiError::SoldOut),
    {
        match self {
            DmApiError::ProductEpired | DmApiError::SoldOut => true,
            _ => false,
        }
    }

    /// The known error whose code opens `marker`, if any.
    pub fn from_marker(marker: &str) -> (r: Option<DmApiError>)
        ensures
            match r {
                Some(e) => api_error_code(e).is_prefix_of(marker@),
                None => forall|e: DmApiError| !(#[trigger] api_error_code(e)).is_prefix_of(marker@),
            },
    {
        let all = [
            DmApiError::ProductEpired,
            DmApiError::SystemBusy,
            DmApiError::SoldOut,
            DmApiError::BuildOrderSystemBusy,
        ];
        let mut i: usize = 0;
        while i < 4
            invariant
                i <= 4,
                all@ == seq![
                    DmApiError::ProductEpired,
                    DmApiError::SystemBusy,
                    DmApiError::SoldOut,
                    DmApiError::BuildOrderSystemBusy,
                ],
                forall|j: int| 0 <= j < i ==> !(#[trigger] api_error_code(all@[j])).is_prefix_of(marker@),
            decreases 4 - i,
        {
            let e = all[i];
            if has_prefix(marker, e.code()) {
                return Some(e);
            }
            i = i + 1;
        }
        assert forall|e: DmApiError| !(#[trigger] api_error_code(e)).is_prefix_of(marker@) by {
            match e {
                DmApiError::ProductEpired => assert(all@[0] == e),
                DmApiError::SystemBusy => assert(all@[1] == e),
                DmApiError::SoldOut => assert(all@[2] == e),
                DmApiError::BuildOrderSystemBusy => assert(all@[3] == e),
            }
        }
        None
    }
}

/// Whether `marker` opens with one of the terminal codes.
pub fn is_terminal(marker: &str) -> (r: bool)
    ensures
        r == is_terminal_marker(marker@),
{
    let codes = ["B-00203-200-034::", "B-00203-200-008::", "FAIL_SYS_SESSION_EXPIRED::"];
    let mut i: usize = 0;
    while i < 3
        invariant
            i <= 3,
            codes@.len() == 3,
            forall|j: int| 0 <= j < 3 ==> (#[trigger] codes@[j])@ == terminal_codes()[j],
            forall|j: int| 0 <= j < i ==> !(#[trigger] terminal_codes()[j]).is_prefix_of(marker@),
        decreases 3 - i,
    {
        if has_prefix(marker, codes[i]) {
            return true;
        }
        i = i + 1;
    }
    false
}

/// Classifies the status markers of one build or submit response. The
/// success marker means success. Otherwise the call failed with its first
/// marker as the reason (empty when there is none): terminally when some
/// marker opens with a terminal code, transiently else.
pub fn classify_markers(markers: &Vec<String>) -> (r: AttemptOutcome)
    ensures
        r is Success <==> has_success(markers@),
        r is TerminalFailure <==> !has_success(markers@) && has_terminal(markers@),
        r is RetryableFailure <==> !has_success(markers@) && !has_terminal(markers@),
        match r {
            AttemptOutcome::Success => true,
            AttemptOutcome::RetryableFailure(t) => t@ == failure_text(markers@),
            AttemptOutcome::TerminalFailure(t) => t@ == failure_text(markers@),
        },
{
    if list_contains(markers, SUCCESS_FLAG) {
        return AttemptOutcome::Success;
    }
    let reason = if markers.len() == 0 {
        String::new()
    } else {
        markers[0].clone()
    };
    let mut i: usize = 0;
    while i < markers.len()
        invariant
            i <= markers@.len(),
            !has_success(markers@),
            reason@ == failure_text(markers@),
            forall|j: int| 0 <= j < i ==> !is_terminal_marker((#[trigger] markers@[j])@),
        decreases markers@.len() - i,
    {
        if is_terminal(markers[i].as_str()) {
            return AttemptOutcome::TerminalFailure(reason);
        }
        i = i + 1;
    }
    AttemptOutcome::RetryableFailure(reason)
}

} // verus!
