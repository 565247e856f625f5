use doc_index_updater::status::JobStatus;

fn error_status(code: &str, message: &str) -> JobStatus {
    JobStatus::Error { code: code.to_string(), message: message.to_string() }
}

#[test]
fn encode_gives_the_wire_text() {
    assert_eq!(JobStatus::Accepted.encode(), "Accepted");
    assert_eq!(JobStatus::Done.encode(), "Done");
    assert_eq!(error_status("0x0", "Error status").encode(), "Error(0x0: Error status)");
}

#[test]
fn round_trip_each_variant() {
    let all = vec![
        JobStatus::Accepted,
        JobStatus::Done,
        error_status("0x0", "Error status"),
        error_status("", ""),
        error_status("E42", "bad: input (see log)"),
    ];
    for s in all {
        assert_eq!(JobStatus::decode(&s.encode()), Ok(s.clone()));
    }
}

#[test]
fn decode_unknown_text() {
    let e = JobStatus::decode("Bedro").unwrap_err();
    assert_eq!(e.message, "Status unknown: Bedro");
}

#[test]
fn decode_error_text() {
    assert_eq!(
        JobStatus::decode("Error(0x0: Error status)"),
        Ok(error_status("0x0", "Error status"))
    );
}

#[test]
fn decode_splits_on_first_colon() {
    assert_eq!(JobStatus::decode("Error(a: b: c)"), Ok(error_status("a", "b: c")));
}

#[test]
fn decode_refuses_near_misses() {
    for t in ["", "accepted", "Accepted ", "Done!", "Error()", "Error(a b)", "Error(a:b)", "Error(a: b", "Error(:"] {
        let e = JobStatus::decode(t).unwrap_err();
        assert_eq!(e.message, format!("Status unknown: {}", t));
    }
}

#[test]
fn decode_empty_code_and_message() {
    assert_eq!(JobStatus::decode("Error(: )"), Ok(error_status("", "")));
}

#[test]
fn from_redis_value_accepted() {
    assert_eq!(JobStatus::from_redis_value(Some("Accepted".to_string())).unwrap(), JobStatus::Accepted);
}

#[test]
fn from_redis_value_done() {
    assert_eq!(JobStatus::from_redis_value(Some("Done".to_string())).unwrap(), JobStatus::Done);
}

#[test]
fn from_redis_value_error() {
    assert_eq!(
        JobStatus::from_redis_value(Some("Error(0x0: Error status)".to_string())).unwrap(),
        error_status("0x0", "Error status")
    );
}

#[test]
fn from_redis_value_unknown() {
    let e = JobStatus::from_redis_value(Some("Bedro".to_string())).unwrap_err();
    assert_eq!(e.kind, doc_index_updater::error::StoreErrorKind::TypeError);
    assert_eq!(e.detail, "Status unknown: Bedro");
}

#[test]
fn from_redis_value_nil() {
    let e = JobStatus::from_redis_value(None).unwrap_err();
    assert_eq!(e.kind, doc_index_updater::error::StoreErrorKind::TypeError);
}

#[test]
fn decoded_text_encodes_back_to_itself() {
    for t in ["Accepted", "Done", "Error(0x0: Error status)", "Error(: )", "Error(a: b: c))"] {
        assert_eq!(JobStatus::decode(t).unwrap().encode(), t);
    }
}
