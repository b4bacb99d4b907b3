use cacheckpointmanager::config::{resolve_config, AppConfig};
use cacheckpointmanager::errors::Error;
use cacheckpointmanager::payment::PaymentResultDetails;
use cacheckpointmanager::print::{cms_slip_text, payment_slip_text, CmsSlipCommandPayload};
use cacheckpointmanager::process_gatepass_qr;
use cacheckpointmanager::rest::{cacm_transaction_detail_url, SaveOutPaymentInfoPayload};
use cacheckpointmanager::soap::CMSData;
use cacheckpointmanager::text::{between_or, contains_sub, eq_ignore_ascii, find_from};

fn sample_payment() -> PaymentResultDetails {
    PaymentResultDetails {
        success: true,
        message: String::from("Payment processed successfully"),
        transaction_id: String::from("TXN_1700000000000"),
        card_no: String::from("0001"),
        amount_paid: 17000,
        balance_after: 95000,
        timestamp: String::from("2024-05-01T10:00:00+00:00"),
        gate_name: String::from("GATE_A01"),
    }
}

fn empty_cms() -> CMSData {
    CMSData {
        daily_seq: None,
        lane_num: None,
        terminal_id: None,
        result_status: None,
        result_message: None,
        cntr_number: None,
        cntr_isocode: None,
        cntr_status: None,
        cntr_gross_weight: None,
        cntr_nett_weight: None,
        cntr_axle: None,
        cntr_seal: None,
        truck_id: None,
        truck_police_num: None,
        truck_in_time: None,
        ei: None,
        autohold: None,
    }
}

#[test]
fn default_config_values() {
    let cfg = AppConfig::default();
    assert_eq!(
        cfg.cgs_gateway_url,
        "https://cusmod-ca.multiterminal.co.id/cgsin02/services/services.asmx"
    );
    assert_eq!(cfg.cacm_tool_url, "http://cacmtool.halotec.my.id");
    assert_eq!(cfg.gate_name, "GATE_A01");
    assert_eq!(cfg.gate_type, 0);
    assert_eq!(cfg.emoney_reader_port, "/dev/ttyUSB0");
    assert_eq!(cfg.emoney_baud_rate, 38400);
    assert_eq!(cfg.emoney_deduct_price, 17000);
    assert_eq!(cfg.adam_portal_ip, "10.0.0.10");
    assert_eq!(cfg.adam_portal_port, 502);
    assert_eq!(cfg.adam_button_port, 502);
}

#[test]
fn resolve_config_prefers_loaded_record() {
    let mut loaded = AppConfig::default();
    loaded.gate_name = String::from("GATE_B02");
    let resolved = resolve_config(Some(loaded), AppConfig::default());
    assert_eq!(resolved.gate_name, "GATE_B02");
}

#[test]
fn resolve_config_falls_back_to_current() {
    let mut current = AppConfig::default();
    current.gate_name = String::from("GATE_KEPT");
    let resolved = resolve_config(None, current);
    assert_eq!(resolved.gate_name, "GATE_KEPT");
}

#[test]
fn payment_payload_maps_every_field() {
    let p = SaveOutPaymentInfoPayload::from_payment(
        sample_payment(),
        42,
        String::from("STID_9"),
        String::from("GATE_A01"),
    );
    assert_eq!(p.tr_id, 42);
    assert_eq!(p.cardnumber.as_deref(), Some("0001"));
    assert_eq!(p.deduct_amount, 17000);
    assert_eq!(p.card_remain_balance, 95000);
    assert_eq!(p.cardtype.as_deref(), Some("N/A"));
    assert_eq!(p.midreader.as_deref(), Some("READER_MID_SIM"));
    assert_eq!(p.tidreader.as_deref(), Some("READER_TID_SIM"));
    assert_eq!(p.transcounter.as_deref(), Some("N/A"));
    assert_eq!(p.transactiondata.as_deref(), Some("TXN_1700000000000"));
    assert_eq!(p.deduct_status.as_deref(), Some("00"));
    assert_eq!(p.stid.as_deref(), Some("STID_9"));
    assert_eq!(p.gate_id.as_deref(), Some("GATE_A01"));
    assert_eq!(p.mode.as_deref(), Some("AUTOGATE_V2"));
    assert_eq!(p.date_payment.as_deref(), Some("2024-05-01T10:00:00+00:00"));
}

#[test]
fn failed_payment_reports_status_02_and_saturates_amounts() {
    let mut d = sample_payment();
    d.success = false;
    d.amount_paid = u64::MAX;
    let p = SaveOutPaymentInfoPayload::from_payment(d, 1, String::new(), String::new());
    assert_eq!(p.deduct_status.as_deref(), Some("02"));
    assert_eq!(p.deduct_amount, i32::MAX);
}

#[test]
fn cacm_url_trims_trailing_slashes() {
    assert_eq!(
        cacm_transaction_detail_url("http://cacmtool.halotec.my.id/"),
        "http://cacmtool.halotec.my.id/api/TransactionDetail"
    );
    assert_eq!(
        cacm_transaction_detail_url("http://host//"),
        "http://host/api/TransactionDetail"
    );
    assert_eq!(
        cacm_transaction_detail_url("http://host"),
        "http://host/api/TransactionDetail"
    );
}

#[test]
fn payment_slip_text_exact() {
    let text = payment_slip_text(&sample_payment());
    let expected = "-- PAYMENT SLIP --\nGate: GATE_A01\nTransaction ID: TXN_1700000000000\nCard No: 0001\nAmount Paid: 17000.00\nBalance After: 95000.00\nTimestamp: 2024-05-01T10:00:00+00:00\n------------------\n(Simulated Print)";
    assert_eq!(text, expected);
}

#[test]
fn cms_slip_lists_records_with_placeholders() {
    let mut item = empty_cms();
    item.daily_seq = Some(String::from("CMS_SIM_001"));
    item.cntr_number = Some(String::from("GP1"));
    let payload = CmsSlipCommandPayload {
        transaction_id: String::from("TX-77"),
        cms_items: Some(vec![item, empty_cms()]),
        gate_name: String::from("GATE_A01"),
        tag_number: Some(String::from("TAG123")),
        tractor_number: None,
    };
    let text = cms_slip_text(&payload);
    let expected = "-- CMS SLIP --\nGate: GATE_A01\nTransaction ID: TX-77\nTag: TAG123, Tractor: N/A\n------------------\nSeq: CMS_SIM_001, CN: GP1, Police: N/A, Time: N/A\nSeq: N/A, CN: N/A, Police: N/A, Time: N/A\n------------------\n(Simulated Print)\n";
    assert_eq!(text, expected);
}

#[test]
fn cms_slip_without_items_says_so() {
    let payload = CmsSlipCommandPayload {
        transaction_id: String::from("TX-0"),
        cms_items: None,
        gate_name: String::from("G"),
        tag_number: None,
        tractor_number: None,
    };
    let text = cms_slip_text(&payload);
    assert!(text.contains("No CMS items found.\n"));
    let empty_list = CmsSlipCommandPayload { cms_items: Some(vec![]), ..payload };
    let text2 = cms_slip_text(&empty_list);
    assert!(!text2.contains("No CMS items found."));
}

#[test]
fn gatepass_qr_accepts_and_refuses() {
    assert_eq!(
        process_gatepass_qr("GP-12345").unwrap(),
        "GatePass GP-12345 accepted and processed."
    );
    assert_eq!(
        process_gatepass_qr("xxINVALIDxx").unwrap_err(),
        "Invalid GatePass format or content: xxINVALIDxx"
    );
    assert!(process_gatepass_qr("has invalid inside").is_err());
    assert!(process_gatepass_qr("abc").is_err());
    assert!(process_gatepass_qr("abcd").is_ok());
}

#[test]
fn gatepass_qr_length_counts_bytes() {
    // Two characters, four bytes in UTF-8: long enough.
    assert!(process_gatepass_qr("\u{e9}\u{e9}").is_ok());
    // Three characters, three bytes: too short.
    assert!(process_gatepass_qr("ab\u{21}").is_err());
}

#[test]
fn gatepass_qr_folds_case_beyond_ascii() {
    // The dotless i uppercases to I, so the word INVALID appears.
    assert!(process_gatepass_qr("xx\u{131}nvalidxx").is_err());
}

#[test]
fn error_messages_name_the_stage() {
    assert_eq!(
        Error::NotInitialized.message(),
        "RFID Reader not initialized. Call initialize first."
    );
    assert_eq!(
        Error::DeviceError(String::from("port busy")).message(),
        "Device error: port busy"
    );
    assert_eq!(
        Error::ChannelClosed.message(),
        "Internal event channel closed unexpectedly."
    );
    assert_eq!(
        Error::RemoteServiceError(String::from("denied")).message(),
        "Remote service error: denied"
    );
    assert_eq!(
        Error::PaymentFailed(String::from("no funds")).message(),
        "Payment failed: no funds"
    );
    assert_eq!(
        Error::ConfigError(String::from("unreadable")).message(),
        "Configuration error: unreadable"
    );
    assert!(Error::NotInitialized.is_not_initialized());
    assert!(!Error::ChannelClosed.is_not_initialized());
}

#[test]
fn text_search_basics() {
    assert!(contains_sub("abcdef", "cde"));
    assert!(!contains_sub("abcdef", "xyz"));
    assert!(contains_sub("abc", ""));
    assert_eq!(find_from("ababab", "ab", 1), Some(2));
    assert_eq!(find_from("ababab", "ba", 0), Some(1));
    assert_eq!(find_from("abc", "abcd", 0), None);
    assert_eq!(between_or("<a>x</a>", "<a>", "</a>", "d"), "x");
    assert_eq!(between_or("nothing here", "<a>", "</a>", "d"), "d");
    assert_eq!(between_or("<a>x", "<a>", "</a>", "d"), "x");
    assert_eq!(between_or("<a>x<a>y</a>", "<a>", "</a>", "d"), "x");
    assert!(eq_ignore_ascii("Open", "oPEN"));
    assert!(!eq_ignore_ascii("open", "close"));
    assert!(!eq_ignore_ascii("open", "opens"));
}
