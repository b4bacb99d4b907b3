//! Messages to and from the remote validation gateway: request envelopes are
//! built here and responses are read here, both with exact contracts. The
//! HTTP transport itself is an external collaborator and stays outside this
//! crate; a non-success transport status and a negative application-level
//! status both surface as [`Error::RemoteServiceError`].

use vstd::prelude::*;

use base64::Engine;

use crate::errors::Error;
use crate::session::RfidDataCacheForEvent;
use crate::text::{
    between_or, between_or_spec, contains_seq, contains_sub, find_char, find_char_from,
};

verus! {

/// Answer of the card-validation call: application-level status and its
/// accompanying messages.
#[derive(Clone, Debug)]
pub struct CGSMessageResult {
    pub status: bool,
    pub message: Option<String>,
    pub inner_message: Option<String>,
}

/// One container movement record as the gateway reports it.
#[derive(Clone, Debug)]
pub struct CMSData {
    pub daily_seq: Option<String>,
    pub lane_num: Option<String>,
    pub terminal_id: Option<String>,
    pub result_status: Option<String>,
    pub result_message: Option<String>,
    pub cntr_number: Option<String>,
    pub cntr_isocode: Option<String>,
    pub cntr_status: Option<String>,
    pub cntr_gross_weight: Option<String>,
    pub cntr_nett_weight: Option<String>,
    pub cntr_axle: Option<String>,
    pub cntr_seal: Option<String>,
    pub truck_id: Option<String>,
    pub truck_police_num: Option<String>,
    pub truck_in_time: Option<String>,
    pub ei: Option<String>,
    pub autohold: Option<String>,
}

/// Answer of a gate-in call: status, result text, transaction id, and the
/// movement records belonging to the transaction.
#[derive(Clone, Debug)]
pub struct CGSTReceiveResult {
    pub status: bool,
    pub result: Option<String>,
    pub transaction_id_str: Option<String>,
    pub result_cms: Option<Vec<CMSData>>,
}

/// What a gate-in request carries: the transaction, the detection that
/// opened it, its gate passes to report, and its gate name.
#[derive(Clone, Debug)]
pub struct GateInCommandData {
    pub transaction_id_str: String,
    pub rfid_info: Option<RfidDataCacheForEvent>,
    pub gate_passes: Vec<String>,
    pub gate_name: String,
}

/// The base64 text of the characters of `s`, under the standard alphabet
/// with padding.
pub uninterp spec fn b64_of(s: Seq<char>) -> Seq<char>;

/// Relies on base64's `Engine::encode` with the `STANDARD` engine: the
/// encoding is a function of the input bytes alone, and the input bytes are
/// a function of the characters.
#[verifier::external_body]
fn b64_encode(s: &str) -> (r: String)
    ensures
        r@ == b64_of(s@),
{
    base64::engine::general_purpose::STANDARD.encode(s.as_bytes())
}

/// The authentication header of every gateway envelope: a gate's name,
/// base64-encoded, as user name, and that name with `PWD` appended,
/// base64-encoded, as password.
pub open spec fn auth_header_spec(gate: Seq<char>) -> Seq<char> {
    "<AuthHeader xmlns=\"http://halotec-indonesia.com/\"><UserName>"@ + b64_of(gate)
        + "</UserName><Password>"@ + b64_of(gate + "PWD"@) + "</Password></AuthHeader>"@
}

/// Build the authentication header for `gate_name`.
pub fn get_auth_header_xml(gate_name: &str) -> (r: String)
    ensures
        r@ == auth_header_spec(gate_name@),
{
    let mut pwd_input = gate_name.to_owned();
    pwd_input.append("PWD");
    let username = b64_encode(gate_name);
    let password = b64_encode(pwd_input.as_str());
    let mut s = String::from_str("<AuthHeader xmlns=\"http://halotec-indonesia.com/\"><UserName>");
    s.append(username.as_str());
    s.append("</UserName><Password>");
    s.append(password.as_str());
    s.append("</Password></AuthHeader>");
    proof {
        assert(s@ =~= auth_header_spec(gate_name@));
    }
    s
}

/// The proximity id carried by a raw card identifier: the text before the
/// first underscore, or all of it when there is none.
pub open spec fn proximity_id_spec(s: Seq<char>) -> Seq<char> {
    let i = find_char_from(s, '_', 0);
    if i < 0 {
        s
    } else {
        s.subrange(0, i)
    }
}

/// The tag id carried by a raw card identifier: the text between the first
/// underscore and the next one (or the end), or all of it when there is no
/// underscore.
pub open spec fn card_tid_spec(s: Seq<char>) -> Seq<char> {
    let i = find_char_from(s, '_', 0);
    if i < 0 {
        s
    } else {
        let j = find_char_from(s, '_', i + 1);
        if j < 0 {
            s.subrange(i + 1, s.len() as int)
        } else {
            s.subrange(i + 1, j)
        }
    }
}

/// Split a raw card identifier into proximity id and tag id.
pub fn card_parts(card_data: &str) -> (r: (String, String))
    ensures
        r.0@ == proximity_id_spec(card_data@),
        r.1@ == card_tid_spec(card_data@),
{
    match find_char(card_data, '_', 0) {
        None => (card_data.to_owned(), card_data.to_owned()),
        Some(i) => {
            let n = card_data.unicode_len();
            let prox = card_data.substring_char(0, i).to_owned();
            let end = match find_char(card_data, '_', i + 1) {
                None => n,
                Some(j) => j,
            };
            let tid = card_data.substring_char(i + 1, end).to_owned();
            (prox, tid)
        },
    }
}

/// The card-validation envelope for a tag id, gate, and proximity id, under
/// its authentication header.
pub open spec fn validate_card_body_spec(card: Seq<char>, gate: Seq<char>) -> Seq<char> {
    "<soap:Envelope xmlns:soap=\"http://schemas.xmlsoap.org/soap/envelope/\"><soap:Header>"@
        + auth_header_spec(gate)
        + "</soap:Header><soap:Body><CheckTIDStatus xmlns=\"http://halotec-indonesia.com/\"><tid>"@
        + card_tid_spec(card) + "</tid><gateId>"@ + gate + "</gateId><proximityId>"@
        + proximity_id_spec(card) + "</proximityId></CheckTIDStatus></soap:Body></soap:Envelope>"@
}

/// Build the card-validation request envelope for a raw card identifier.
pub fn validate_card_request_body(card_data: &str, gate_name: &str) -> (r: String)
    ensures
        r@ == validate_card_body_spec(card_data@, gate_name@),
{
    let auth = get_auth_header_xml(gate_name);
    let parts = card_parts(card_data);
    let mut s = String::from_str(
        "<soap:Envelope xmlns:soap=\"http://schemas.xmlsoap.org/soap/envelope/\"><soap:Header>",
    );
    s.append(auth.as_str());
    s.append("</soap:Header><soap:Body><CheckTIDStatus xmlns=\"http://halotec-indonesia.com/\"><tid>");
    s.append(parts.1.as_str());
    s.append("</tid><gateId>");
    s.append(gate_name);
    s.append("</gateId><proximityId>");
    s.append(parts.0.as_str());
    s.append("</proximityId></CheckTIDStatus></soap:Body></soap:Envelope>");
    proof {
        assert(s@ =~= validate_card_body_spec(card_data@, gate_name@));
    }
    s
}

/// Whether a validation response reports success.
pub open spec fn validation_ok_spec(xml: Seq<char>) -> bool {
    contains_seq(xml, "<Status>true</Status>"@) || contains_seq(xml, "<Status>True</Status>"@)
}

/// Read the card-validation response. A response whose status element reads
/// true yields the message between the message tags (or `Validated` when the
/// tags are missing); any other response is a remote-service failure carrying
/// the message between the message tags (or `Validation Failed`).
pub fn parse_validation_response(response_xml: &str) -> (r: Result<CGSMessageResult, Error>)
    ensures
        r is Ok <==> validation_ok_spec(response_xml@),
        r is Ok ==> ({
            let m = r->Ok_0;
            &&& m.status == true
            &&& (m.message matches Some(t) && t@ == between_or_spec(
                response_xml@,
                "<Message>"@,
                "</Message>"@,
                "Validated"@,
            ))
            &&& m.inner_message is None
        }),
        r is Err ==> (r matches Err(Error::RemoteServiceError(t)) && t@ == between_or_spec(
            response_xml@,
            "<Message>"@,
            "</Message>"@,
            "Validation Failed"@,
        )),
{
    let ok = contains_sub(response_xml, "<Status>true</Status>") || contains_sub(
        response_xml,
        "<Status>True</Status>",
    );
    if ok {
        let msg = between_or(response_xml, "<Message>", "</Message>", "Validated");
        Ok(CGSMessageResult { status: true, message: Some(msg), inner_message: None })
    } else {
        let msg = between_or(response_xml, "<Message>", "</Message>", "Validation Failed");
        Err(Error::RemoteServiceError(msg))
    }
}

/// A gate-in envelope's gate-pass list: one `string` element
/// per gate pass, in order.
pub open spec fn tar_list_spec(gps: Seq<String>) -> Seq<char>
    decreases gps.len(),
{
    if gps.len() == 0 {
        Seq::empty()
    } else {
        tar_list_spec(gps.drop_last()) + "<string>"@ + gps.last()@ + "</string>"@
    }
}

/// The tag number a gate-in envelope reports: the main part of the detection
/// that opened the transaction, or empty without one.
pub open spec fn gate_in_tag_num_spec(info: Option<RfidDataCacheForEvent>) -> Seq<char> {
    match info {
        Some(ri) => ri.main@,
        None => Seq::empty(),
    }
}

/// A gate-in (truck in/out) envelope for a transaction.
pub open spec fn gate_in_body_spec(data: GateInCommandData) -> Seq<char> {
    "<soap:Envelope xmlns:soap=\"http://schemas.xmlsoap.org/soap/envelope/\"><soap:Header>"@
        + auth_header_spec(data.gate_name@)
        + "</soap:Header><soap:Body><TruckInOut xmlns=\"http://halotec-indonesia.com/\"><TRANSACTIONID>"@
        + data.transaction_id_str@ + "</TRANSACTIONID><TAGNUM>"@ + gate_in_tag_num_spec(
        data.rfid_info,
    ) + "</TAGNUM><TARList>"@ + tar_list_spec(data.gate_passes@)
        + "</TARList><INOUT>IN</INOUT><GATEID>"@ + data.gate_name@
        + "</GATEID></TruckInOut></soap:Body></soap:Envelope>"@
}

/// A gate-pass list, one `string` element per gate pass.
fn tar_list_xml(gate_passes: &Vec<String>) -> (r: String)
    ensures
        r@ == tar_list_spec(gate_passes@),
{
    let mut s = String::new();
    let mut i: usize = 0;
    while i < gate_passes.len()
        invariant
            i <= gate_passes@.len(),
            s@ == tar_list_spec(gate_passes@.take(i as int)),
        decreases gate_passes@.len() - i,
    {
        s.append("<string>");
        s.append(gate_passes[i].as_str());
        s.append("</string>");
        proof {
            assert(gate_passes@.take(i + 1).drop_last() =~= gate_passes@.take(i as int));
            assert(gate_passes@.take(i + 1).last() == gate_passes@[i as int]);
        }
        i = i + 1;
    }
    proof {
        assert(gate_passes@.take(gate_passes@.len() as int) =~= gate_passes@);
    }
    s
}

/// Build a gate-in request envelope.
pub fn gate_in_request_body(data: &GateInCommandData) -> (r: String)
    ensures
        r@ == gate_in_body_spec(*data),
{
    let auth = get_auth_header_xml(data.gate_name.as_str());
    let tag_num = match &data.rfid_info {
        Some(ri) => ri.main.clone(),
        None => String::new(),
    };
    let tar_list = tar_list_xml(&data.gate_passes);
    let mut s = String::from_str(
        "<soap:Envelope xmlns:soap=\"http://schemas.xmlsoap.org/soap/envelope/\"><soap:Header>",
    );
    s.append(auth.as_str());
    s.append(
        "</soap:Header><soap:Body><TruckInOut xmlns=\"http://halotec-indonesia.com/\"><TRANSACTIONID>",
    );
    s.append(data.transaction_id_str.as_str());
    s.append("</TRANSACTIONID><TAGNUM>");
    s.append(tag_num.as_str());
    s.append("</TAGNUM><TARList>");
    s.append(tar_list.as_str());
    s.append("</TARList><INOUT>IN</INOUT><GATEID>");
    s.append(data.gate_name.as_str());
    s.append("</GATEID></TruckInOut></soap:Body></soap:Envelope>");
    proof {
        assert(s@ =~= gate_in_body_spec(*data));
    }
    s
}

/// Whether a gate-in response reports success.
pub open spec fn gate_in_ok_spec(xml: Seq<char>) -> bool {
    contains_seq(xml, "<status>true</status>"@) && (contains_seq(xml, "<result>OK</result>"@)
        || contains_seq(xml, "<result>Ok</result>"@))
}

/// The one simulated movement record a successful gate-in answer carries:
/// the fixed daily sequence, the first gate pass as container number, the
/// detection's sub part as the truck's police number, the given entry time,
/// and nothing else.
pub open spec fn sim_cms_record_spec(
    c: CMSData,
    data: GateInCommandData,
    truck_in_time: Seq<char>,
) -> bool {
    &&& (c.daily_seq matches Some(t) && t@ == "CMS_SIM_001"@)
    &&& (if data.gate_passes@.len() > 0 {
        c.cntr_number matches Some(t) && t@ == data.gate_passes@[0]@
    } else {
        c.cntr_number is None
    })
    &&& (match data.rfid_info {
        Some(ri) => c.truck_police_num matches Some(t) && t@ == ri.sub@,
        None => c.truck_police_num is None,
    })
    &&& (c.truck_in_time matches Some(t) && t@ == truck_in_time)
    &&& c.lane_num is None
    &&& c.terminal_id is None
    &&& c.result_status is None
    &&& c.result_message is None
    &&& c.cntr_isocode is None
    &&& c.cntr_status is None
    &&& c.cntr_gross_weight is None
    &&& c.cntr_nett_weight is None
    &&& c.cntr_axle is None
    &&& c.cntr_seal is None
    &&& c.truck_id is None
    &&& c.ei is None
    &&& c.autohold is None
}

/// Read a gate-in response. A response that reports success yields the
/// transaction's receive result with one movement record, built from the
/// request data and `truck_in_time` (the entry time as the caller's clock
/// reads it); any other response is a remote-service failure carrying the
/// text between the result tags (or `GateIn Failed`).
pub fn gate_in_result(
    response_xml: &str,
    data: GateInCommandData,
    truck_in_time: String,
) -> (r: Result<CGSTReceiveResult, Error>)
    ensures
        r is Ok <==> gate_in_ok_spec(response_xml@),
        r is Ok ==> ({
            let g = r->Ok_0;
            &&& g.status == true
            &&& (g.result matches Some(t) && t@ == "OK"@)
            &&& (g.transaction_id_str matches Some(t) && t@ == data.transaction_id_str@)
            &&& (g.result_cms matches Some(v) && v@.len() == 1 && sim_cms_record_spec(
                v@[0],
                data,
                truck_in_time@,
            ))
        }),
        r is Err ==> (r matches Err(Error::RemoteServiceError(t)) && t@ == between_or_spec(
            response_xml@,
            "<result>"@,
            "</result>"@,
            "GateIn Failed"@,
        )),
{
    let ok = contains_sub(response_xml, "<status>true</status>") && (contains_sub(
        response_xml,
        "<result>OK</result>",
    ) || contains_sub(response_xml, "<result>Ok</result>"));
    if ok {
        let cntr_number = if data.gate_passes.len() > 0 {
            Some(data.gate_passes[0].clone())
        } else {
            None
        };
        let truck_police_num = match data.rfid_info {
            Some(ri) => Some(ri.sub),
            None => None,
        };
        let record = CMSData {
            daily_seq: Some(String::from_str("CMS_SIM_001")),
            lane_num: None,
            terminal_id: None,
            result_status: None,
            result_message: None,
            cntr_number,
            cntr_isocode: None,
            cntr_status: None,
            cntr_gross_weight: None,
            cntr_nett_weight: None,
            cntr_axle: None,
            cntr_seal: None,
            truck_id: None,
            truck_police_num,
            truck_in_time: Some(truck_in_time),
            ei: None,
            autohold: None,
        };
        let mut records: Vec<CMSData> = Vec::new();
        records.push(record);
        Ok(
            CGSTReceiveResult {
                status: true,
                result: Some(String::from_str("OK")),
                transaction_id_str: Some(data.transaction_id_str),
                result_cms: Some(records),
            },
        )
    } else {
        let msg = between_or(response_xml, "<result>", "</result>", "GateIn Failed");
        Err(Error::RemoteServiceError(msg))
    }
}

/// Relies on chrono's `Local::now` and `DateTime::to_rfc3339`: an RFC 3339
/// rendering of the current instant in the machine's time zone. The text
/// depends on the clock and the zone, but its fixed shape — a date of at
/// least ten characters, the `T` separator, a time of eight, and a signed
/// minute-precision offset of six — holds of every outcome.
#[verifier::external_body]
fn now_local_rfc3339() -> (r: String)
    ensures
        r@.len() >= 25,
        exists|i: int| 0 <= i < r@.len() && #[trigger] r@[i] == 'T',
{
    chrono::Local::now().to_rfc3339()
}

/// Relies on chrono's `Utc::now` and its formatter with the compact
/// date-time pattern (year, month, day, hour, minute, second, each
/// zero-padded): the text depends on the clock, but always holds at least
/// fourteen characters.
#[verifier::external_body]
fn now_compact_datetime() -> (r: String)
    ensures
        r@.len() >= 14,
{
    chrono::Utc::now().format("%Y%m%d%H%M%S").to_string()
}

/// Read a gate-in response, stamping the movement record with the entry
/// time as this machine's clock reads it now. The record's entry time is
/// the one field the contract leaves to the clock; everything else is as
/// [`gate_in_result`] pins it.
pub fn parse_gate_in_response(response_xml: &str, data: GateInCommandData) -> (r: Result<
    CGSTReceiveResult,
    Error,
>)
    ensures
        r is Ok <==> gate_in_ok_spec(response_xml@),
        r is Ok ==> ({
            let g = r->Ok_0;
            &&& g.status == true
            &&& (g.result matches Some(t) && t@ == "OK"@)
            &&& (g.transaction_id_str matches Some(t) && t@ == data.transaction_id_str@)
            &&& (g.result_cms matches Some(v) && v@.len() == 1 && exists|t: Seq<char>|
                t.len() > 0 && #[trigger] sim_cms_record_spec(v@[0], data, t))
        }),
        r is Err ==> (r matches Err(Error::RemoteServiceError(t)) && t@ == between_or_spec(
            response_xml@,
            "<result>"@,
            "</result>"@,
            "GateIn Failed"@,
        )),
{
    let truck_in_time = now_local_rfc3339();
    let ghost stamp = truck_in_time@;
    let r = gate_in_result(response_xml, data, truck_in_time);
    proof {
        if r is Ok {
            let g = r->Ok_0;
            match g.result_cms {
                Some(v) => {
                    assert(sim_cms_record_spec(v@[0], data, stamp));
                },
                None => {},
            }
        }
    }
    r
}

/// The truck-in confirmation envelope for a transaction, carrying the fixed
/// final gate pass and a compact timestamp.
pub open spec fn truck_in_body_spec(tx: Seq<char>, gate: Seq<char>, datetime: Seq<char>) -> Seq<
    char,
> {
    "<soap:Envelope xmlns:soap=\"http://schemas.xmlsoap.org/soap/envelope/\"><soap:Header>"@
        + auth_header_spec(gate)
        + "</soap:Header><soap:Body><Message6TAR xmlns=\"http://halotec-indonesia.com/\"><transactionId>"@
        + tx + "</transactionId><tar>FINAL_DUMMY_TAR</tar><updateams>true</updateams><datetime>"@
        + datetime + "</datetime></Message6TAR></soap:Body></soap:Envelope>"@
}

/// Build the truck-in confirmation envelope. `datetime` is the confirmation
/// time as the caller's clock reads it, in the gateway's compact form.
pub fn truck_in_request_body(transaction_id_str: &str, gate_name: &str, datetime: &str) -> (r:
    String)
    ensures
        r@ == truck_in_body_spec(transaction_id_str@, gate_name@, datetime@),
{
    let auth = get_auth_header_xml(gate_name);
    let mut s = String::from_str(
        "<soap:Envelope xmlns:soap=\"http://schemas.xmlsoap.org/soap/envelope/\"><soap:Header>",
    );
    s.append(auth.as_str());
    s.append(
        "</soap:Header><soap:Body><Message6TAR xmlns=\"http://halotec-indonesia.com/\"><transactionId>",
    );
    s.append(transaction_id_str);
    s.append("</transactionId><tar>FINAL_DUMMY_TAR</tar><updateams>true</updateams><datetime>");
    s.append(datetime);
    s.append("</datetime></Message6TAR></soap:Body></soap:Envelope>");
    proof {
        assert(s@ =~= truck_in_body_spec(transaction_id_str@, gate_name@, datetime@));
    }
    s
}

/// Build a truck-in confirmation envelope stamped with this machine's clock
/// in the compact form. The timestamp is the one part the contract leaves to
/// the clock; the envelope around it is as [`truck_in_request_body`] pins it.
pub fn truck_in_request_body_now(transaction_id_str: &str, gate_name: &str) -> (r: String)
    ensures
        exists|dt: Seq<char>|
            dt.len() >= 14 && r@ == #[trigger] truck_in_body_spec(
                transaction_id_str@,
                gate_name@,
                dt,
            ),
{
    let datetime = now_compact_datetime();
    let ghost stamp = datetime@;
    let r = truck_in_request_body(transaction_id_str, gate_name, datetime.as_str());
    proof {
        assert(r@ == truck_in_body_spec(transaction_id_str@, gate_name@, stamp));
    }
    r
}

/// Whether a truck-in response reports success.
pub open spec fn truck_in_ok_spec(xml: Seq<char>) -> bool {
    ||| contains_seq(xml, "OK"@)
    ||| contains_seq(xml, "<Status>S</Status>"@)
    ||| contains_seq(xml, "<Message6TARResult>OK</Message6TARResult>"@)
}

/// Read the truck-in confirmation response. Success yields a fixed
/// confirmation text; any other response is a remote-service failure
/// carrying the text between the result tags, or the whole response when
/// the tags are missing.
pub fn parse_truck_in_response(response_xml: &str) -> (r: Result<String, Error>)
    ensures
        r is Ok <==> truck_in_ok_spec(response_xml@),
        r is Ok ==> r->Ok_0@ == "TruckIn successful."@,
        r is Err ==> (r matches Err(Error::RemoteServiceError(t)) && t@ == between_or_spec(
            response_xml@,
            "<Message6TARResult>"@,
            "</Message6TARResult>"@,
            response_xml@,
        )),
{
    let ok = contains_sub(response_xml, "OK") || contains_sub(response_xml, "<Status>S</Status>")
        || contains_sub(response_xml, "<Message6TARResult>OK</Message6TARResult>");
    if ok {
        Ok(String::from_str("TruckIn successful."))
    } else {
        let msg = between_or(
            response_xml,
            "<Message6TARResult>",
            "</Message6TARResult>",
            response_xml,
        );
        Err(Error::RemoteServiceError(msg))
    }
}

} // verus!
