use abi_resolver::candidates::CandidateSet;
use abi_resolver::decoder::{
    absorb, decode, decode_candidate, decode_text, find_function, Attempt, DecodeResult, Progress,
};
use abi_resolver::abi::FunctionEntry;
use abi_resolver::hex::parse_call_data;
use abi_resolver::schema::Schema;

const TRANSFER_ABI: &str = r#"[{"type":"function","name":"transfer","inputs":[{"name":"to","type":"address"},{"name":"amount","type":"uint256"}],"outputs":[{"name":"","type":"bool"}],"stateMutability":"nonpayable"}]"#;

const APPROVE_ABI: &str = r#"[{"type":"function","name":"approve","inputs":[{"name":"spender","type":"address"},{"name":"amount","type":"uint256"}],"outputs":[{"name":"","type":"bool"}],"stateMutability":"nonpayable"}]"#;

const TRANSFER_CALL: &str = "0xa9059cbb000000000000000000000000111111111111111111111111111111111111111100000000000000000000000000000000000000000000000000000000000003e8";

fn schema(text: &str) -> Schema {
    Schema::from_text(text).expect("the text describes an interface")
}

fn set_of(texts: &[&str]) -> CandidateSet {
    let mut set = CandidateSet::new();
    for text in texts {
        set.insert(schema(text));
    }
    set
}

#[test]
fn transfer_call_is_decoded() {
    let data = parse_call_data(TRANSFER_CALL).unwrap();
    match decode_candidate(&schema(TRANSFER_ABI), &data) {
        Attempt::Decoded { name, arguments } => {
            assert_eq!(name, "transfer");
            assert_eq!(
                arguments,
                vec![
                    "Address(0x1111111111111111111111111111111111111111)".to_string(),
                    "Uint(1000)".to_string(),
                ]
            );
        }
        Attempt::Rejected { reason } => panic!("rejected: {}", reason),
    }
}

#[test]
fn unknown_selector_is_rejected() {
    let data = parse_call_data(TRANSFER_CALL).unwrap();
    match decode_candidate(&schema(APPROVE_ABI), &data) {
        Attempt::Rejected { reason } => {
            assert_eq!(reason, "no function of the schema matches the selector")
        }
        Attempt::Decoded { .. } => panic!("decoded"),
    }
}

#[test]
fn short_call_data_is_rejected() {
    match decode_candidate(&schema(TRANSFER_ABI), &[0xa9, 0x05, 0x9c]) {
        Attempt::Rejected { reason } => {
            assert_eq!(reason, "call data is shorter than a function selector")
        }
        Attempt::Decoded { .. } => panic!("decoded"),
    }
}

#[test]
fn truncated_arguments_are_rejected_by_the_decoder() {
    let data = parse_call_data("0xa9059cbb0000").unwrap();
    match decode_candidate(&schema(TRANSFER_ABI), &data) {
        Attempt::Rejected { reason } => assert!(!reason.is_empty()),
        Attempt::Decoded { .. } => panic!("decoded"),
    }
}

#[test]
fn second_candidate_decodes_when_first_fails() {
    let set = set_of(&[APPROVE_ABI, TRANSFER_ABI]);
    let data = parse_call_data(TRANSFER_CALL).unwrap();
    match decode(&set, &data) {
        DecodeResult::Success { function_name, arguments, schema, rejected } => {
            assert_eq!(function_name, "transfer");
            assert_eq!(arguments.len(), 2);
            assert_eq!(schema.text(), TRANSFER_ABI);
            assert_eq!(rejected, vec!["no function of the schema matches the selector".to_string()]);
        }
        DecodeResult::Failure { errors } => panic!("failed: {:?}", errors),
    }
}

#[test]
fn first_candidate_wins_and_later_ones_are_not_tried() {
    let set = set_of(&[TRANSFER_ABI, APPROVE_ABI]);
    let data = parse_call_data(TRANSFER_CALL).unwrap();
    match decode(&set, &data) {
        DecodeResult::Success { schema, rejected, .. } => {
            assert_eq!(schema.text(), TRANSFER_ABI);
            assert!(rejected.is_empty());
        }
        DecodeResult::Failure { errors } => panic!("failed: {:?}", errors),
    }
}

#[test]
fn failure_holds_one_error_for_each_candidate() {
    let set = set_of(&[APPROVE_ABI, "[]"]);
    let data = parse_call_data(TRANSFER_CALL).unwrap();
    match decode(&set, &data) {
        DecodeResult::Failure { errors } => {
            assert_eq!(
                errors,
                vec![
                    "no function of the schema matches the selector".to_string(),
                    "no function of the schema matches the selector".to_string(),
                ]
            );
        }
        DecodeResult::Success { .. } => panic!("decoded"),
    }
}

#[test]
fn empty_candidate_set_fails_without_errors() {
    let set = CandidateSet::new();
    match decode(&set, &[1, 2, 3, 4]) {
        DecodeResult::Failure { errors } => assert!(errors.is_empty()),
        DecodeResult::Success { .. } => panic!("decoded"),
    }
}

#[test]
fn text_that_is_not_hex_fails_for_every_candidate() {
    let set = set_of(&[APPROVE_ABI, TRANSFER_ABI]);
    match decode_text(&set, "0xzz") {
        DecodeResult::Failure { errors } => {
            assert_eq!(
                errors,
                vec![
                    "call data is not hexadecimal text".to_string(),
                    "call data is not hexadecimal text".to_string(),
                ]
            );
        }
        DecodeResult::Success { .. } => panic!("decoded"),
    }
}

#[test]
fn call_data_as_text_is_decoded() {
    let set = set_of(&[TRANSFER_ABI]);
    match decode_text(&set, TRANSFER_CALL) {
        DecodeResult::Success { function_name, .. } => assert_eq!(function_name, "transfer"),
        DecodeResult::Failure { errors } => panic!("failed: {:?}", errors),
    }
}

#[test]
fn absorb_ends_the_fold_on_success() {
    let s = schema(TRANSFER_ABI);
    let attempt = Attempt::Decoded { name: "transfer".to_string(), arguments: vec!["1".to_string()] };
    match absorb(vec!["earlier".to_string()], &s, attempt) {
        Progress::Settled(DecodeResult::Success { function_name, arguments, schema, rejected }) => {
            assert_eq!(function_name, "transfer");
            assert_eq!(arguments, vec!["1".to_string()]);
            assert_eq!(schema.text(), TRANSFER_ABI);
            assert_eq!(rejected, vec!["earlier".to_string()]);
        }
        other => panic!("unexpected: {:?}", other),
    }
}

#[test]
fn absorb_adds_a_reason_on_rejection() {
    let s = schema(TRANSFER_ABI);
    let attempt = Attempt::Rejected { reason: "later".to_string() };
    match absorb(vec!["earlier".to_string()], &s, attempt) {
        Progress::Open(errors) => {
            assert_eq!(errors, vec!["earlier".to_string(), "later".to_string()])
        }
        other => panic!("unexpected: {:?}", other),
    }
}

#[test]
fn find_function_takes_the_first_match() {
    let table = vec![
        FunctionEntry { name: "a".to_string(), selector: vec![1, 2, 3, 4] },
        FunctionEntry { name: "b".to_string(), selector: vec![9, 9, 9, 9] },
        FunctionEntry { name: "c".to_string(), selector: vec![9, 9, 9, 9] },
    ];
    assert_eq!(find_function(&table, &[9, 9, 9, 9]), Some(1));
    assert_eq!(find_function(&table, &[1, 2, 3, 4]), Some(0));
    assert_eq!(find_function(&table, &[0, 0, 0, 0]), None);
    assert_eq!(find_function(&table, &[9, 9, 9]), None);
}

#[test]
fn schema_lists_its_functions_with_selectors() {
    let s = schema(TRANSFER_ABI);
    assert_eq!(
        s.functions(),
        &vec![FunctionEntry { name: "transfer".to_string(), selector: vec![0xa9, 0x05, 0x9c, 0xbb] }]
    );
    assert_eq!(s.duplicate().functions(), s.functions());
}

#[test]
fn functions_are_listed_by_name_and_overloads_in_their_order() {
    let text = r#"[
        {"type":"function","name":"b","inputs":[{"name":"x","type":"uint256"}],"outputs":[]},
        {"type":"function","name":"a","inputs":[],"outputs":[]},
        {"type":"event","name":"E","inputs":[],"anonymous":false},
        {"type":"function","name":"b","inputs":[],"outputs":[]}
    ]"#;
    let s = schema(text);
    let names: Vec<&str> = s.functions().iter().map(|f| f.name.as_str()).collect();
    assert_eq!(names, vec!["a", "b", "b"]);
    assert!(s.functions().iter().all(|f| f.selector.len() == 4));
    assert_ne!(s.functions()[1].selector, s.functions()[2].selector);
}
