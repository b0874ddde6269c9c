use dm_ticket::config::{load_global_config, Account, Ticket};
use dm_ticket::digits::{decimal, parse_i64};
use dm_ticket::jitter::jittered_ms;
use dm_ticket::models::order::{OrderForm, SubmitOrderParams};
use dm_ticket::models::perform::{Perform as SessionDetail, PerformForm, PerformInfo, Sku as Tier};
use dm_ticket::models::qrcode::{LoginStep, QrCodeLoginGetResForm, QrCodeLoginStatusData, QrcodeContentGetParams};
use dm_ticket::models::task::{default_real_names, Task};
use dm_ticket::models::ticket::{Perform, PerformBase, TicketDetail, TicketInfoForm};
use dm_ticket::models::{CommonParams, DmToken};
use dm_ticket::notify::NotifyClient;
use dm_ticket::engine::RunOutcome;

fn task() -> Task {
    Task {
        nickname: "n".to_string(),
        ticket_id: "1".to_string(),
        ticket_name: "t".to_string(),
        ticket_perform_id: "2".to_string(),
        ticket_perform_name: "p".to_string(),
        ticket_perform_sku_id: "3".to_string(),
        ticket_perform_sku_name: "s".to_string(),
        ticket_num: 2,
        priority_purchase_time: 20,
        request_time_offset: -100,
        retry_interval: 100,
        retry_times: 5,
        wait_for_submit_interval: 30,
        real_names: default_real_names(),
    }
}

fn account(num: usize, sessions: usize, grade: usize) -> Account {
    Account {
        cookie: "c".to_string(),
        remark: "r".to_string(),
        ticket: Ticket { id: "1".to_string(), num, sessions, grade },
        interval: None,
        earliest_submit_time: None,
        request_time: None,
        retry_times: None,
        retry_interval: None,
    }
}

fn status(s: &str) -> QrCodeLoginStatusData {
    QrCodeLoginStatusData {
        result_code: 0,
        qrcode_status: s.to_string(),
        st: Some("st".to_string()),
        login_type: None,
        login_scene: None,
        sid: None,
        cookie2: Some("c2".to_string()),
        return_url: Some("https://x".to_string()),
    }
}

#[test]
fn task_trigger_time_adds_offset_and_priority_window() {
    let t = task();
    assert_eq!(t.trigger_time(1_000_000), Some(1_000_000 - 100 + 20 * 60_000));
    assert_eq!(t.trigger_time(i64::MAX), None);
    let mut t2 = task();
    t2.priority_purchase_time = 0;
    t2.request_time_offset = 50;
    assert_eq!(t2.trigger_time(1_000), Some(1_050));
    let p = t.retry_policy();
    assert_eq!(p.retry_times, 5);
    assert_eq!(p.wait_for_submit_interval, 30);
    assert!(default_real_names().is_empty());
}

#[test]
fn task_viewer_selection_uses_its_quantity_and_names() {
    let mut t = task();
    assert_eq!(t.select_viewers(3).marks, vec![true, true, false]);
    t.real_names = vec![2];
    assert_eq!(t.select_viewers(3).marks, vec![false, true, false]);
}

#[test]
fn account_defaults_and_trigger() {
    let a = account(1, 1, 1);
    assert_eq!(a.poll_interval(), 50);
    let p = a.retry_policy();
    assert_eq!((p.retry_times, p.retry_interval, p.wait_for_submit_interval), (2, 100, 0));
    assert_eq!(a.trigger_time(10_000), Some(10_000));
    let mut lead = account(1, 1, 1);
    lead.earliest_submit_time = Some(5);
    assert_eq!(lead.trigger_time(10_000), Some(9_995));
    let mut b = account(1, 1, 1);
    b.request_time = Some(5_000);
    b.earliest_submit_time = Some(0);
    assert_eq!(b.trigger_time(10_000), Some(5_000));
    assert_eq!(account(1, 1, 1).trigger_time(i64::MIN), Some(i64::MIN));
    assert_eq!(lead.trigger_time(i64::MIN), None);
}

#[test]
fn config_rejects_invalid_accounts() {
    let c = load_global_config(vec![account(1, 1, 2), account(2, 3, 1)]).unwrap();
    assert_eq!(c.accounts.len(), 2);
    assert!(load_global_config(vec![account(1, 1, 1), account(1, 0, 1)]).is_none());
    assert!(load_global_config(vec![account(0, 1, 1)]).is_none());
    assert!(load_global_config(vec![]).is_some());
}

#[test]
fn decimal_text_roundtrip() {
    assert_eq!(decimal(0), "0");
    assert_eq!(decimal(1234567890), "1234567890");
    assert_eq!(decimal(u64::MAX), "18446744073709551615");
    assert_eq!(parse_i64("1700000000000"), Some(1_700_000_000_000));
    assert_eq!(parse_i64("-42"), Some(-42));
    assert_eq!(parse_i64("+7"), Some(7));
    assert_eq!(parse_i64("-9223372036854775808"), Some(i64::MIN));
    assert_eq!(parse_i64("9223372036854775807"), Some(i64::MAX));
    assert_eq!(parse_i64("9223372036854775808"), None);
    assert_eq!(parse_i64("99999999999999999999999999"), None);
    assert_eq!(parse_i64(""), None);
    assert_eq!(parse_i64("-"), None);
    assert_eq!(parse_i64("12a"), None);
    assert_eq!(parse_i64(" 1"), None);
}

#[test]
fn order_form_buy_param() {
    let f = OrderForm::build(&"7001".to_string(), &"5002".to_string(), 3);
    assert_eq!(f.buy_param, "7001_3_5002");
    let s = SubmitOrderParams::build("ref".to_string());
    assert_eq!(s.submitref, "ref");
    assert_eq!(s.common.request_start, s.common.t - 1);
}

#[test]
fn common_params_timing() {
    let c = CommonParams::at(1_700_000_000_000);
    assert_eq!(c.t, 1_700_000_000_000);
    assert_eq!(c.request_start, 1_699_999_999_999);
    assert_eq!(CommonParams::at(i64::MIN).request_start, i64::MIN);
    let now = CommonParams::build();
    assert!(now.t > 1_600_000_000_000);
}

#[test]
fn token_from_cookies() {
    let cookies = vec![
        ("_m_h5_tk".to_string(), "abc123_1700000000000".to_string()),
        ("_m_h5_tk_enc".to_string(), "encval".to_string()),
        ("other".to_string(), "x".to_string()),
    ];
    let t = DmToken::from_cookies(&cookies);
    assert_eq!(t.token_with_time, "abc123_1700000000000");
    assert_eq!(t.token, "abc123");
    assert_eq!(t.enc_token, "encval");
    let empty = DmToken::from_cookies(&vec![]);
    assert_eq!(empty.token, "");
}

fn detail() -> TicketDetail {
    let perform = |id: &str, name: &str| Perform {
        perform_id: id.to_string(),
        item_id: "i".to_string(),
        perform_name: name.to_string(),
    };
    TicketDetail {
        sell_start_timestamp: "1700000000000".to_string(),
        sell_start_time_str: "2023-11-15 06:13".to_string(),
        buy_btn_text: "立即购买".to_string(),
        perform_bases: vec![
            PerformBase {
                name: "d1".to_string(),
                time_span: String::new(),
                perform_base_tag_desc: String::new(),
                performs: vec![perform("p1", "one"), perform("p2", "two")],
            },
            PerformBase {
                name: "d2".to_string(),
                time_span: String::new(),
                perform_base_tag_desc: String::new(),
                performs: vec![],
            },
            PerformBase {
                name: "d3".to_string(),
                time_span: String::new(),
                perform_base_tag_desc: String::new(),
                performs: vec![perform("p3", "three")],
            },
        ],
    }
}

#[test]
fn ticket_detail_sessions() {
    let d = detail();
    assert_eq!(d.sale_start(), Some(1_700_000_000_000));
    let items = d.perform_items();
    let ids: Vec<&str> = items.iter().map(|i| i.perform_id.as_str()).collect();
    assert_eq!(ids, vec!["p1", "p2", "p3"]);
    assert_eq!(items[1].perfrom_name, "two");
    assert_eq!(d.session_perform(1).unwrap().perform_id, "p1");
    assert!(d.session_perform(2).is_none());
    assert_eq!(d.session_perform(3).unwrap().perform_id, "p3");
    assert!(d.session_perform(0).is_none());
    assert!(d.session_perform(4).is_none());
    assert!(d.channel_supported());
    let mut closed = detail();
    closed.buy_btn_text = "该渠道不支持购买".to_string();
    assert!(!closed.channel_supported());
    let f = TicketInfoForm::build("42".to_string());
    assert_eq!(f.dm_channel, "damai@damaih5_h5");
}

#[test]
fn perform_info_tiers() {
    let tier = |id: &str, name: &str| Tier {
        sku_id: id.to_string(),
        item_id: "it".to_string(),
        price_name: name.to_string(),
        sku_salable: "true".to_string(),
        price: "100".to_string(),
    };
    let info = PerformInfo {
        perform: SessionDetail {
            perform_id: "p".to_string(),
            perform_name: "pn".to_string(),
            sku_list: vec![tier("s1", "cheap"), tier("s2", "dear")],
        },
    };
    let items = info.sku_items();
    assert_eq!(items.len(), 2);
    assert_eq!(items[1].sku_id, "s2");
    assert_eq!(items[1].sku_name, "dear");
    assert_eq!(info.sku_at_grade(1).unwrap().sku_id, "s1");
    assert!(info.sku_at_grade(0).is_none());
    assert!(info.sku_at_grade(3).is_none());
    let f = PerformForm::build(&"t".to_string(), &"p".to_string());
    assert_eq!(f.perform_id, "p");
}

#[test]
fn qr_login_steps() {
    assert_eq!(status("NEW").step(10, 300), LoginStep::Waiting(290));
    assert_eq!(status("SCANED").step(0, 300), LoginStep::Scanned);
    assert_eq!(
        status("CONFIRMED").step(5, 300),
        LoginStep::Confirmed {
            cookie2: "c2".to_string(),
            return_url: "https://x".to_string(),
            st: "st".to_string()
        }
    );
    let mut missing = status("CONFIRMED");
    missing.st = None;
    assert_eq!(missing.step(5, 300), LoginStep::Failed);
    assert_eq!(status("EXPIRED").step(0, 300), LoginStep::Expired);
    assert_eq!(status("WHAT").step(0, 300), LoginStep::Failed);
    assert_eq!(status("NEW").step(300, 300), LoginStep::Expired);
}

#[test]
fn qr_params_are_fresh() {
    let p = QrcodeContentGetParams::build();
    assert_eq!(p.csrf_token.len(), 21);
    assert_eq!(p.umid_token.len(), 40);
    assert!(p.umid_token.chars().all(|c| c.is_ascii_lowercase() || c.is_ascii_digit()));
    assert_eq!(p.hsiz.len(), 32);
    let f = QrCodeLoginGetResForm::build(7, "ck".to_string());
    assert_eq!(f.t, 7);
    assert_eq!(f.device_id.len(), 24);
    assert!(f.page_trace_id.chars().all(|c| !c.is_ascii_uppercase()));
}

#[test]
fn jitter_stays_in_window() {
    let mut seen = Vec::new();
    for _ in 0..200 {
        let d = jittered_ms(100);
        assert!((80..110).contains(&d));
        if !seen.contains(&d) {
            seen.push(d);
        }
    }
    assert!(seen.len() > 1);
    assert_eq!(jittered_ms(0), 0);
    assert_eq!(jittered_ms(1), 0);
    let big = jittered_ms(u64::MAX);
    assert!(big >= u64::MAX / 5 * 4);
}

#[test]
fn notification_delivery() {
    assert!(NotifyClient::delivered(Some(200)));
    assert!(!NotifyClient::delivered(Some(500)));
    assert!(!NotifyClient::delivered(None));
    assert_eq!(NotifyClient::headline(&RunOutcome::Success), "SUCCESS");
    assert_eq!(NotifyClient::headline(&RunOutcome::Cancelled), "CANCELLED");
}

#[test]
fn common_params_default_is_now() {
    let d = CommonParams::default();
    assert_eq!(d.request_start, d.t - 1);
}
