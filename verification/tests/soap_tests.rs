use cacheckpointmanager::errors::Error;
use cacheckpointmanager::session::RfidDataCacheForEvent;
use cacheckpointmanager::soap::{
    card_parts, gate_in_request_body, gate_in_result, get_auth_header_xml,
    parse_gate_in_response, parse_truck_in_response, parse_validation_response,
    truck_in_request_body, truck_in_request_body_now, validate_card_request_body,
    GateInCommandData,
};

#[test]
fn auth_header_encodes_gate_name_and_password() {
    let header = get_auth_header_xml("GATE_A01");
    assert_eq!(
        header,
        "<AuthHeader xmlns=\"http://halotec-indonesia.com/\"><UserName>R0FURV9BMDE=</UserName><Password>R0FURV9BMDFQV0Q=</Password></AuthHeader>"
    );
}

#[test]
fn card_parts_splits_proximity_and_tid() {
    let (prox, tid) = card_parts("PROX1_TID99_X");
    assert_eq!(prox, "PROX1");
    assert_eq!(tid, "TID99");
    let (prox2, tid2) = card_parts("ONLYONE");
    assert_eq!(prox2, "ONLYONE");
    assert_eq!(tid2, "ONLYONE");
}

#[test]
fn validate_request_body_exact() {
    let body = validate_card_request_body("PROX1_TID99", "GATE_X");
    let expected = "<soap:Envelope xmlns:soap=\"http://schemas.xmlsoap.org/soap/envelope/\"><soap:Header><AuthHeader xmlns=\"http://halotec-indonesia.com/\"><UserName>R0FURV9Y</UserName><Password>R0FURV9YUFdE</Password></AuthHeader></soap:Header><soap:Body><CheckTIDStatus xmlns=\"http://halotec-indonesia.com/\"><tid>TID99</tid><gateId>GATE_X</gateId><proximityId>PROX1</proximityId></CheckTIDStatus></soap:Body></soap:Envelope>";
    assert_eq!(body, expected);
}

#[test]
fn validation_response_success_extracts_message() {
    let xml = "<Envelope><Status>true</Status><Message>Card accepted</Message></Envelope>";
    let r = parse_validation_response(xml).expect("status true must parse as success");
    assert!(r.status);
    assert_eq!(r.message.as_deref(), Some("Card accepted"));
    assert!(r.inner_message.is_none());
}

#[test]
fn validation_response_success_without_message_uses_default() {
    let xml = "<Envelope><Status>True</Status></Envelope>";
    let r = parse_validation_response(xml).unwrap();
    assert_eq!(r.message.as_deref(), Some("Validated"));
}

#[test]
fn validation_response_failure_is_remote_service_error() {
    let xml = "<Envelope><Status>false</Status><Message>Card blocked</Message></Envelope>";
    match parse_validation_response(xml) {
        Err(Error::RemoteServiceError(msg)) => assert_eq!(msg, "Card blocked"),
        other => panic!("expected a remote-service error, got {:?}", other.is_ok()),
    }
}

#[test]
fn validation_response_failure_without_message_uses_default() {
    let xml = "<Envelope><Status>false</Status></Envelope>";
    match parse_validation_response(xml) {
        Err(Error::RemoteServiceError(msg)) => assert_eq!(msg, "Validation Failed"),
        _ => panic!("expected a remote-service error"),
    }
}

fn gate_in_data() -> GateInCommandData {
    GateInCommandData {
        transaction_id_str: String::from("TX-77"),
        rfid_info: Some(RfidDataCacheForEvent {
            raw: String::from("RAW_MAIN_SUB"),
            main: String::from("TAG123"),
            sub: String::from("B9001XYZ"),
        }),
        gate_passes: vec![String::from("GP1"), String::from("GP2")],
        gate_name: String::from("GATE_A01"),
    }
}

#[test]
fn gate_in_body_lists_gate_passes_in_order() {
    let body = gate_in_request_body(&gate_in_data());
    assert!(body.contains("<TRANSACTIONID>TX-77</TRANSACTIONID>"));
    assert!(body.contains("<TAGNUM>TAG123</TAGNUM>"));
    assert!(body.contains("<TARList><string>GP1</string><string>GP2</string></TARList>"));
    assert!(body.contains("<INOUT>IN</INOUT>"));
    assert!(body.contains("<GATEID>GATE_A01</GATEID>"));
}

#[test]
fn gate_in_body_without_detection_has_empty_tag() {
    let mut data = gate_in_data();
    data.rfid_info = None;
    data.gate_passes = vec![];
    let body = gate_in_request_body(&data);
    assert!(body.contains("<TAGNUM></TAGNUM>"));
    assert!(body.contains("<TARList></TARList>"));
}

#[test]
fn gate_in_success_builds_simulated_record() {
    let xml = "<e><status>true</status><result>OK</result></e>";
    let r = gate_in_result(xml, gate_in_data(), String::from("2024-05-01T10:00:00+07:00"))
        .expect("success response must parse");
    assert!(r.status);
    assert_eq!(r.result.as_deref(), Some("OK"));
    assert_eq!(r.transaction_id_str.as_deref(), Some("TX-77"));
    let cms = r.result_cms.unwrap();
    assert_eq!(cms.len(), 1);
    assert_eq!(cms[0].daily_seq.as_deref(), Some("CMS_SIM_001"));
    assert_eq!(cms[0].cntr_number.as_deref(), Some("GP1"));
    assert_eq!(cms[0].truck_police_num.as_deref(), Some("B9001XYZ"));
    assert_eq!(cms[0].truck_in_time.as_deref(), Some("2024-05-01T10:00:00+07:00"));
    assert!(cms[0].lane_num.is_none());
    assert!(cms[0].truck_id.is_none());
}

#[test]
fn gate_in_lowercase_ok_also_succeeds() {
    let xml = "<e><status>true</status><result>Ok</result></e>";
    assert!(gate_in_result(xml, gate_in_data(), String::from("t")).is_ok());
}

#[test]
fn gate_in_failure_extracts_result_text() {
    let xml = "<e><status>false</status><result>NO TRANSACTION</result></e>";
    match gate_in_result(xml, gate_in_data(), String::from("t")) {
        Err(Error::RemoteServiceError(msg)) => assert_eq!(msg, "NO TRANSACTION"),
        _ => panic!("expected a remote-service error"),
    }
}

#[test]
fn truck_in_body_exact() {
    let body = truck_in_request_body("TX-77", "GATE_X", "20240501100000");
    let expected = "<soap:Envelope xmlns:soap=\"http://schemas.xmlsoap.org/soap/envelope/\"><soap:Header><AuthHeader xmlns=\"http://halotec-indonesia.com/\"><UserName>R0FURV9Y</UserName><Password>R0FURV9YUFdE</Password></AuthHeader></soap:Header><soap:Body><Message6TAR xmlns=\"http://halotec-indonesia.com/\"><transactionId>TX-77</transactionId><tar>FINAL_DUMMY_TAR</tar><updateams>true</updateams><datetime>20240501100000</datetime></Message6TAR></soap:Body></soap:Envelope>";
    assert_eq!(body, expected);
}

#[test]
fn gate_in_response_with_clock_stamps_entry_time() {
    let xml = "<e><status>true</status><result>OK</result></e>";
    let r = parse_gate_in_response(xml, gate_in_data()).unwrap();
    let cms = r.result_cms.unwrap();
    let stamp = cms[0].truck_in_time.clone().unwrap();
    assert!(!stamp.is_empty());
    assert!(stamp.contains('T'));
}

#[test]
fn truck_in_body_with_clock_has_compact_datetime() {
    let body = truck_in_request_body_now("TX-1", "GATE_X");
    let start = body.find("<datetime>").expect("datetime element present") + "<datetime>".len();
    let end = body.find("</datetime>").unwrap();
    let stamp = &body[start..end];
    assert!(stamp.len() >= 14);
    assert!(stamp.chars().all(|c| c.is_ascii_digit()));
}

#[test]
fn truck_in_success_variants() {
    assert_eq!(parse_truck_in_response("<r>OK</r>").unwrap(), "TruckIn successful.");
    assert_eq!(
        parse_truck_in_response("<Status>S</Status>").unwrap(),
        "TruckIn successful."
    );
    assert_eq!(
        parse_truck_in_response("<Message6TARResult>OK</Message6TARResult>").unwrap(),
        "TruckIn successful."
    );
}

#[test]
fn truck_in_failure_extracts_result_text() {
    let xml = "<Message6TARResult>rejected</Message6TARResult>";
    match parse_truck_in_response(xml) {
        Err(Error::RemoteServiceError(msg)) => assert_eq!(msg, "rejected"),
        _ => panic!("expected a remote-service error"),
    }
}

#[test]
fn truck_in_failure_without_tags_returns_whole_response() {
    let xml = "plain denial";
    match parse_truck_in_response(xml) {
        Err(Error::RemoteServiceError(msg)) => assert_eq!(msg, "plain denial"),
        _ => panic!("expected a remote-service error"),
    }
}
