use abi_resolver::registry::{
    classify, default_networks, display_url, interpret_response, read_envelope, request_url,
    Envelope, RegistryOutcome, Verdict,
};
use abi_resolver::schema::{Schema, SchemaError};
use abi_resolver::text::{chars_of, find_from, redact, starts_at};

const ADDRESS: &str = "0xabcdefabcdefabcdefabcdefabcdefabcdefabcd";

#[test]
fn request_url_without_credential() {
    assert_eq!(
        request_url("11155111", ADDRESS, ""),
        "https://api.etherscan.io/v2/api?chainid=11155111&module=contract&action=getabi&address=0xabcdefabcdefabcdefabcdefabcdefabcdefabcd"
    );
}

#[test]
fn request_url_with_credential() {
    assert_eq!(
        request_url("421614", ADDRESS, "SECRET123"),
        "https://api.etherscan.io/v2/api?chainid=421614&module=contract&action=getabi&address=0xabcdefabcdefabcdefabcdefabcdefabcdefabcd&apikey=SECRET123"
    );
}

#[test]
fn display_url_hides_the_credential() {
    let shown = display_url("421614", ADDRESS, "SECRET123");
    assert_eq!(
        shown,
        "https://api.etherscan.io/v2/api?chainid=421614&module=contract&action=getabi&address=0xabcdefabcdefabcdefabcdefabcdefabcdefabcd&apikey=HIDDEN_KEY"
    );
    assert!(!shown.contains("SECRET123"));
}

#[test]
fn display_url_without_credential_is_the_request_url() {
    assert_eq!(display_url("1", ADDRESS, ""), request_url("1", ADDRESS, ""));
}

#[test]
fn default_networks_are_in_priority_order() {
    let networks = default_networks();
    assert_eq!(networks.len(), 2);
    assert_eq!(networks[0].chain_id, "11155111");
    assert_eq!(networks[0].name, "Ethereum Sepolia");
    assert_eq!(networks[1].chain_id, "421614");
    assert_eq!(networks[1].name, "Arbitrum Sepolia");
}

#[test]
fn redact_replaces_every_occurrence() {
    assert_eq!(redact("key=abc&again=abc", "abc"), "key=HIDDEN_KEY&again=HIDDEN_KEY");
    assert_eq!(redact("aaaa", "aa"), "HIDDEN_KEYHIDDEN_KEY");
    assert_eq!(redact("aaa", "aa"), "HIDDEN_KEYa");
    assert_eq!(redact("nothing here", "abc"), "nothing here");
    assert_eq!(redact("", "abc"), "");
    assert_eq!(redact("abc", "abcd"), "abc");
}

#[test]
fn redact_with_empty_secret_changes_nothing() {
    assert_eq!(redact("some text", ""), "some text");
}

#[test]
fn redact_handles_text_outside_ascii() {
    assert_eq!(redact("cl\u{e9}=s\u{e9}same", "s\u{e9}same"), "cl\u{e9}=HIDDEN_KEY");
}

#[test]
fn characters_and_search() {
    let hay = chars_of("hello world");
    assert_eq!(hay.len(), 11);
    let needle = chars_of("o");
    assert!(starts_at(&hay, &needle, 4));
    assert!(!starts_at(&hay, &needle, 5));
    assert!(!starts_at(&hay, &needle, 11));
    assert!(!starts_at(&hay, &needle, 99));
    assert_eq!(find_from(&hay, &needle, 0), Some(4));
    assert_eq!(find_from(&hay, &needle, 5), Some(7));
    assert_eq!(find_from(&hay, &needle, 8), None);
    assert_eq!(find_from(&hay, &needle, 99), None);
    let empty = chars_of("");
    assert_eq!(find_from(&hay, &empty, 11), Some(11));
    assert_eq!(find_from(&hay, &empty, 12), None);
}

#[test]
fn envelope_is_read_from_a_response() {
    let e = read_envelope(r#"{"status":"0","message":"NOTOK","result":"Contract source code not verified"}"#)
        .unwrap();
    assert_eq!(e.status.as_deref(), Some("0"));
    assert_eq!(e.message.as_deref(), Some("NOTOK"));
    assert_eq!(e.result.as_deref(), Some("Contract source code not verified"));
}

#[test]
fn envelope_members_that_are_no_text_are_absent() {
    let e = read_envelope(r#"{"status":1,"result":[]}"#).unwrap();
    assert_eq!(e.status, None);
    assert_eq!(e.message, None);
    assert_eq!(e.result, None);
}

#[test]
fn response_that_is_not_json_has_no_envelope() {
    assert!(read_envelope("<html>busy</html>").is_none());
    assert!(read_envelope("").is_none());
    assert!(read_envelope(r#"{"status":"1"} trailing"#).is_none());
}

#[test]
fn classify_takes_the_payload_on_status_one() {
    let e = Envelope {
        status: Some("1".to_string()),
        message: Some("OK".to_string()),
        result: Some("[]".to_string()),
    };
    match classify(e) {
        Verdict::Payload(p) => assert_eq!(p, "[]"),
        other => panic!("unexpected: {:?}", other),
    }
}

#[test]
fn classify_status_one_without_payload_is_malformed() {
    let e = Envelope { status: Some("1".to_string()), message: None, result: None };
    assert!(matches!(classify(e), Verdict::Malformed));
}

#[test]
fn classify_other_status_is_not_found_with_message() {
    let e = Envelope {
        status: Some("0".to_string()),
        message: Some("NOTOK".to_string()),
        result: Some("[]".to_string()),
    };
    match classify(e) {
        Verdict::NotFound { message } => assert_eq!(message, "NOTOK"),
        other => panic!("unexpected: {:?}", other),
    }
}

#[test]
fn classify_without_status_or_message_uses_the_default_message() {
    let e = Envelope { status: None, message: None, result: None };
    match classify(e) {
        Verdict::NotFound { message } => assert_eq!(message, "Desconocido"),
        other => panic!("unexpected: {:?}", other),
    }
    let e = Envelope { status: Some("10".to_string()), message: None, result: None };
    assert!(matches!(classify(e), Verdict::NotFound { .. }));
}

#[test]
fn response_with_schema_is_found_in_compact_form() {
    let body = r#"{"status":"1","message":"OK","result":"[ {\"type\": \"function\", \"name\": \"ping\", \"inputs\": [], \"outputs\": [], \"stateMutability\": \"view\"} ]"}"#;
    match interpret_response(body) {
        RegistryOutcome::Found(schema) => assert_eq!(
            schema.text(),
            r#"[{"inputs":[],"name":"ping","outputs":[],"stateMutability":"view","type":"function"}]"#
        ),
        other => panic!("unexpected: {:?}", other),
    }
}

#[test]
fn response_not_verified_is_not_found() {
    let body = r#"{"status":"0","message":"NOTOK","result":"Contract source code not verified"}"#;
    match interpret_response(body) {
        RegistryOutcome::NotFound { message } => assert_eq!(message, "NOTOK"),
        other => panic!("unexpected: {:?}", other),
    }
}

#[test]
fn response_that_is_not_json_is_a_failure() {
    match interpret_response("Bad Gateway") {
        RegistryOutcome::Failed { cause } => assert_eq!(cause, "the response is not a JSON document"),
        other => panic!("unexpected: {:?}", other),
    }
}

#[test]
fn response_without_payload_is_a_failure() {
    match interpret_response(r#"{"status":"1","message":"OK"}"#) {
        RegistryOutcome::Failed { cause } => assert_eq!(cause, "the response holds no schema"),
        other => panic!("unexpected: {:?}", other),
    }
}

#[test]
fn payload_that_is_not_json_is_a_failure() {
    match interpret_response(r#"{"status":"1","message":"OK","result":"not json"}"#) {
        RegistryOutcome::Failed { cause } => assert_eq!(cause, "the schema is not a JSON document"),
        other => panic!("unexpected: {:?}", other),
    }
}

#[test]
fn payload_that_is_no_interface_is_a_failure() {
    match interpret_response(r#"{"status":"1","message":"OK","result":"{\"a\":1}"}"#) {
        RegistryOutcome::Failed { cause } => {
            assert_eq!(cause, "the schema does not describe an interface")
        }
        other => panic!("unexpected: {:?}", other),
    }
}

#[test]
fn schema_from_text_keeps_the_text() {
    let text = "[ ]";
    assert_eq!(Schema::from_text(text).unwrap().text(), "[ ]");
    assert_eq!(Schema::from_text(text).unwrap().to_text(), "[ ]");
}

#[test]
fn schema_from_payload_compacts_the_text() {
    assert_eq!(Schema::from_payload("[ ]").unwrap().text(), "[]");
}

#[test]
fn schema_errors_tell_json_from_interface() {
    assert_eq!(Schema::from_text("{").unwrap_err(), SchemaError::NotAnInterface);
    assert_eq!(Schema::from_text("{}").unwrap_err(), SchemaError::NotAnInterface);
    assert_eq!(Schema::from_payload("{").unwrap_err(), SchemaError::NotJson);
    assert_eq!(Schema::from_payload("{}").unwrap_err(), SchemaError::NotAnInterface);
}

#[test]
fn schema_text_round_trips() {
    let body = r#"{"status":"1","message":"OK","result":"[{\"type\":\"function\",\"name\":\"ping\",\"inputs\":[],\"outputs\":[]}]"}"#;
    let schema = match interpret_response(body) {
        RegistryOutcome::Found(schema) => schema,
        other => panic!("unexpected: {:?}", other),
    };
    let again = Schema::from_text(&schema.to_text()).unwrap();
    assert!(again.same_as(&schema));
    assert_eq!(again.functions(), schema.functions());
    assert!(again.duplicate().same_as(&schema));
}

#[test]
fn redacted_text_holds_no_secret_that_is_foreign_to_the_marker() {
    for (text, secret) in [
        ("abcabcabc", "bc"),
        ("xxsecretxxsecret", "secret"),
        ("a1a1a11a", "a1"),
        ("zzzz", "zz"),
        ("tokentoken", "token"),
    ] {
        assert!(!redact(text, secret).contains(secret), "{:?} in {:?}", secret, text);
    }
}

#[test]
fn secret_that_the_marker_holds_leaves_nothing() {
    assert_eq!(redact("aYb", "Y"), "");
    assert_eq!(redact("KEY", "KEY"), "");
    assert_eq!(redact("timeout for KEY", "KEY"), "");
    assert_eq!(redact("no secret here", "KEY"), "no secret here");
    assert_eq!(redact("HIDDEN", "HIDDEN_KEYS"), "HIDDEN");
}

#[test]
fn redacted_text_never_holds_the_secret() {
    let texts = ["", "KEY", "aKEYb", "HIDDEN_KEY", "HIDDENHIDDEN_KEY_KEY", "xYx", "D_D_D", "abcabc"];
    let secrets = ["KEY", "Y", "HIDDEN", "_", "D_", "HIDDEN_KEY", "abc", "N_K", "x"];
    for text in texts {
        for secret in secrets {
            assert!(!redact(text, secret).contains(secret), "{:?} in {:?}", secret, text);
        }
    }
}

#[test]
fn display_url_never_holds_the_credential() {
    for key in ["KEY", "api", "1", "e", "SECRET", "&", "HIDDEN_KEY"] {
        assert!(!display_url("11155111", ADDRESS, key).contains(key), "{:?}", key);
    }
}
