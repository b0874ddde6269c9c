use dm_ticket::engine::AttemptOutcome;
use dm_ticket::errors::{classify_markers, is_terminal, DmApiError, SUCCESS_FLAG};

#[test]
fn success_marker_anywhere_means_success() {
    let ret = vec!["OTHER::x".to_string(), SUCCESS_FLAG.to_string()];
    assert_eq!(classify_markers(&ret), AttemptOutcome::Success);
}

#[test]
fn sold_out_is_terminal() {
    let ret = vec![DmApiError::SoldOut.message().to_string()];
    assert_eq!(
        classify_markers(&ret),
        AttemptOutcome::TerminalFailure(DmApiError::SoldOut.message().to_string())
    );
}

#[test]
fn expired_listing_is_terminal_and_reason_is_first_marker() {
    let ret = vec!["FIRST::x".to_string(), DmApiError::ProductEpired.message().to_string()];
    assert_eq!(classify_markers(&ret), AttemptOutcome::TerminalFailure("FIRST::x".to_string()));
}

#[test]
fn expired_session_is_terminal() {
    let ret = vec!["FAIL_SYS_SESSION_EXPIRED::Session过期".to_string()];
    assert!(matches!(classify_markers(&ret), AttemptOutcome::TerminalFailure(_)));
}

#[test]
fn busy_is_retryable() {
    let ret = vec![DmApiError::SystemBusy.message().to_string()];
    assert_eq!(
        classify_markers(&ret),
        AttemptOutcome::RetryableFailure(DmApiError::SystemBusy.message().to_string())
    );
    let ret = vec![DmApiError::BuildOrderSystemBusy.message().to_string()];
    assert!(matches!(classify_markers(&ret), AttemptOutcome::RetryableFailure(_)));
}

#[test]
fn empty_marker_list_is_retryable_with_empty_reason() {
    assert_eq!(classify_markers(&vec![]), AttemptOutcome::RetryableFailure(String::new()));
}

#[test]
fn success_marker_must_match_exactly() {
    let ret = vec!["SUCCESS::调用成功 ".to_string()];
    assert!(matches!(classify_markers(&ret), AttemptOutcome::RetryableFailure(_)));
}

#[test]
fn known_errors_by_code() {
    assert_eq!(
        DmApiError::from_marker("RGV587_ERROR::SM::哎哟喂,被挤爆啦,请稍后重试"),
        Some(DmApiError::SystemBusy)
    );
    assert_eq!(DmApiError::from_marker("B-00203-200-008::anything"), Some(DmApiError::SoldOut));
    assert_eq!(DmApiError::from_marker("F-10001-10-16-103::x"), Some(DmApiError::BuildOrderSystemBusy));
    assert_eq!(DmApiError::from_marker("B-00203-200-034::x"), Some(DmApiError::ProductEpired));
    assert_eq!(DmApiError::from_marker("UNKNOWN::x"), None);
    assert!(DmApiError::SoldOut.is_terminal());
    assert!(DmApiError::ProductEpired.is_terminal());
    assert!(!DmApiError::SystemBusy.is_terminal());
    assert_eq!(DmApiError::SoldOut.code(), "B-00203-200-008::");
    assert_eq!(
        DmApiError::ProductEpired.message(),
        "B-00203-200-034::您选购的商品信息已过期，请重新查询"
    );
}

#[test]
fn terminal_codes() {
    assert!(is_terminal("B-00203-200-034::x"));
    assert!(!is_terminal("B-00203-200-03"));
    assert!(!is_terminal("RGV587_ERROR::SM::x"));
}
