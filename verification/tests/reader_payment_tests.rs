use cacheckpointmanager::payment::u64_to_string;
use cacheckpointmanager::reader::RFIDReader;
use cacheckpointmanager::session::RFIDManager;

#[test]
fn reader_handshake_succeeds_and_polling_reports_nothing() {
    let mut reader = RFIDReader::new("/dev/ttyUSB0", 38400);
    assert!(reader.init_port().is_ok());
    assert!(reader.poll_for_card().is_none());
}

#[test]
fn extract_card_number_takes_second_segment() {
    let reader = RFIDReader::new("/dev/ttyUSB0", 38400);
    assert_eq!(reader.extract_card_number("SIM_CARD_0032"), "CARD");
    assert_eq!(reader.extract_card_number("A_B_C"), "B");
    assert_eq!(reader.extract_card_number("A_B"), "B");
    assert_eq!(reader.extract_card_number("PROX_1234567890"), "1234567890");
}

#[test]
fn extract_card_number_without_underscore_is_unknown() {
    let reader = RFIDReader::new("/dev/ttyUSB0", 38400);
    assert_eq!(reader.extract_card_number("PLAINCARD"), "UNKNOWN");
    assert_eq!(reader.extract_card_number(""), "UNKNOWN");
}

#[test]
fn extract_card_number_edge_underscores() {
    let reader = RFIDReader::new("/dev/ttyUSB0", 38400);
    assert_eq!(reader.extract_card_number("A_"), "");
    assert_eq!(reader.extract_card_number("_X_Y"), "X");
    assert_eq!(reader.extract_card_number("__"), "");
}

#[test]
fn u64_to_string_exact_values() {
    assert_eq!(u64_to_string(0), "0");
    assert_eq!(u64_to_string(7), "7");
    assert_eq!(u64_to_string(10), "10");
    assert_eq!(u64_to_string(12345), "12345");
    assert_eq!(u64_to_string(u64::MAX), "18446744073709551615");
}

#[test]
fn payment_scenario_success_fields() {
    let mut m = RFIDManager::new();
    m.initialize("/dev/test", 38400).unwrap();
    let details = m.process_payment("CARD_0001", 17000).expect("payment must succeed");
    assert!(details.success);
    assert_eq!(details.amount_paid, 17000);
    assert_eq!(details.balance_after, 95000);
    assert_eq!(details.message, "Payment processed successfully");
    assert_eq!(details.gate_name, "SIMULATED_GATE");
    assert_eq!(details.card_no, "0001");
    assert!(!details.transaction_id.is_empty());
    assert!(details.transaction_id.starts_with("TXN_"));
    assert!(details.transaction_id.len() > 4);
    // The timestamp comes from the clock in RFC 3339 form.
    assert!(details.timestamp.len() >= 25);
    assert!(details.timestamp.contains('T'));
    assert!(details.timestamp.contains(':'));
    // The transaction id is TXN_ followed by a decimal number.
    let suffix = &details.transaction_id["TXN_".len()..];
    assert!(!suffix.is_empty());
    assert!(suffix.chars().all(|c| c.is_ascii_digit()));
}

#[test]
fn payment_works_whether_or_not_detection_is_active() {
    let mut m = RFIDManager::new();
    m.initialize("/dev/test", 38400).unwrap();
    m.start_detection().unwrap();
    let details = m.process_payment("SIM_CARD_0032", 25000).unwrap();
    assert_eq!(details.amount_paid, 25000);
    assert_eq!(details.card_no, "CARD");
    assert!(m.status().polling);
}
