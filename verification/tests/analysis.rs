use abi_resolver::address::Address;
use abi_resolver::analysis::{
    analysis_error, analysis_invalid_address, analysis_reply, analysis_success, build_prompt,
    decoded_call, explanation, risk_level, ModelOutcome,
};
use abi_resolver::candidates::CandidateSet;
use abi_resolver::resolver::ResolutionError;
use abi_resolver::schema::Schema;
use abi_resolver::messages::HttpStatus;
use abi_resolver::scan::{
    find_char, find_closing, find_first, find_line_containing, find_line_with_prefix,
    is_whitespace, line_bounds, trim_bounds,
};
use abi_resolver::text::{chars_of, replace_all};
use abi_resolver::ResponseFormat;

fn by_std_risk_level(content: &str, prefix: &str) -> Option<String> {
    content
        .lines()
        .find(|line| line.starts_with(prefix))
        .and_then(|line| line.split(":").nth(1))
        .map(|s| s.trim().to_string())
}

fn by_std_explanation(content: &str, prefix: &str) -> Option<String> {
    if let Some(start) = content.find(prefix) {
        let after = start + prefix.len();
        if content[after..].starts_with(':') {
            Some(content[(after + 1)..].trim().to_string())
        } else {
            Some(content[after..].trim().to_string())
        }
    } else {
        None
    }
}

const ANSWERS: [&str; 14] = [
    "Risk Level: High\nExplanation: it drains the wallet",
    "Intro\r\nRisk Level:   Medium  \r\nExplanation:\r\n  two\r\n  lines  \r\n",
    "Risk Level High\nExplanation no colon",
    "Risk Level: Low: or so\nExplanation: x",
    "no such line",
    "",
    "\n\nRisk Level:\n",
    "  Risk Level: indented\nRisk Level: Caution",
    "Risk Level: \u{a0}\u{2003}wide\u{3000}\nExplanation:\u{2028}text\u{85}",
    "Risk Level\r: odd\nExplanation::double",
    "Explanation: first Explanation: second",
    "Risk Level: a\rb\nExplanation",
    "Risk Leve\nRisk Level",
    "Risk Level: last line without newline\r",
];

#[test]
fn risk_level_agrees_with_the_standard_library() {
    for answer in ANSWERS {
        for prefix in ["Risk Level", "Risk Level:", "Explanation", "", "R"] {
            assert_eq!(
                risk_level(answer, prefix),
                by_std_risk_level(answer, prefix),
                "answer {:?}, prefix {:?}",
                answer,
                prefix
            );
        }
    }
}

#[test]
fn explanation_agrees_with_the_standard_library() {
    for answer in ANSWERS {
        for prefix in ["Explanation", "Explanation:", "Risk Level", "", "n"] {
            assert_eq!(
                explanation(answer, prefix),
                by_std_explanation(answer, prefix),
                "answer {:?}, prefix {:?}",
                answer,
                prefix
            );
        }
    }
}

#[test]
fn risk_level_is_what_stands_behind_the_first_colon() {
    assert_eq!(
        risk_level("Risk Level: High\nExplanation: why", "Risk Level"),
        Some("High".to_string())
    );
    assert_eq!(risk_level("Risk Level: Low: or so", "Risk Level"), Some("Low".to_string()));
    assert_eq!(risk_level("Risk Level High", "Risk Level"), None);
    assert_eq!(risk_level("nothing", "Risk Level"), None);
    assert_eq!(risk_level("Risk Level:", "Risk Level"), Some(String::new()));
}

#[test]
fn explanation_is_all_that_follows_the_prefix() {
    assert_eq!(
        explanation("Risk Level: High\nExplanation: it drains\nthe wallet\n", "Explanation"),
        Some("it drains\nthe wallet".to_string())
    );
    assert_eq!(explanation("Explanation it", "Explanation"), Some("it".to_string()));
    assert_eq!(explanation("nothing", "Explanation"), None);
    assert_eq!(explanation("Explanation", "Explanation"), Some(String::new()));
}

#[test]
fn white_space_is_what_unicode_says() {
    for code in 0u32..0x3100 {
        if let Some(c) = char::from_u32(code) {
            assert_eq!(is_whitespace(c), c.is_whitespace(), "U+{:04X}", code);
        }
    }
    assert!(!is_whitespace('\u{feff}'));
    assert!(!is_whitespace('\u{10ffff}'));
}

#[test]
fn prompt_template_is_filled() {
    let arguments = vec!["Address(0x11)".to_string(), "say \"hi\"".to_string()];
    let prompt = build_prompt(
        "Contract {contract_address}: {function_name}({arguments}) on {contract_address}",
        "0xabc",
        "transfer",
        &arguments,
    );
    assert_eq!(
        prompt,
        "Contract 0xabc: transfer([\"Address(0x11)\", \"say \\\"hi\\\"\"]) on 0xabc"
    );
}

#[test]
fn prompt_replacements_happen_in_order() {
    let prompt = build_prompt("{contract_address}", "{function_name}", "{arguments}", &Vec::new());
    assert_eq!(prompt, "[]");
}

#[test]
fn replace_all_agrees_with_the_standard_library() {
    let cases = [
        ("hello world", "o", "0"),
        ("aaaa", "aa", "b"),
        ("aaa", "aa", "aaa"),
        ("abc", "abc", ""),
        ("abc", "abcd", "x"),
        ("", "a", "b"),
        ("\u{e9}t\u{e9}", "\u{e9}", "e"),
        ("{x}{x}", "{x}", "{x}{x}"),
    ];
    for (text, pattern, with) in cases {
        assert_eq!(replace_all(text, pattern, with), text.replace(pattern, with));
    }
    assert_eq!(replace_all("abc", "", "x"), "abc");
}

#[test]
fn analysis_success_reads_the_answer() {
    let format = ResponseFormat {
        risk_level_prefix: "Risk Level".to_string(),
        explanation_prefix: "Explanation".to_string(),
    };
    let (status, response) = analysis_success(
        "transfer".to_string(),
        vec!["1".to_string()],
        "Risk Level: High\nExplanation: careful",
        &format,
    );
    assert_eq!(status, HttpStatus::Success);
    assert_eq!(response.status, "success");
    assert_eq!(response.function_name.as_deref(), Some("transfer"));
    assert_eq!(response.arguments, Some(vec!["1".to_string()]));
    assert_eq!(response.risk_level.as_deref(), Some("High"));
    assert_eq!(response.explanation.as_deref(), Some("careful"));
    assert_eq!(response.message.as_deref(), Some("Risk analysis completed"));
    assert_eq!(response.details, None);
}

#[test]
fn analysis_error_keeps_what_was_decoded() {
    let (status, response) = analysis_error(
        HttpStatus::ServerError,
        "Failed to call DeepSeek API",
        Some("timeout".to_string()),
        Some(("transfer".to_string(), vec!["1".to_string()])),
    );
    assert_eq!(status, HttpStatus::ServerError);
    assert_eq!(response.status, "error");
    assert_eq!(response.function_name.as_deref(), Some("transfer"));
    assert_eq!(response.arguments, Some(vec!["1".to_string()]));
    assert_eq!(response.risk_level, None);
    assert_eq!(response.explanation, None);
    assert_eq!(response.message.as_deref(), Some("Failed to call DeepSeek API"));
    assert_eq!(response.details.as_deref(), Some("timeout"));
    let (status, response) =
        analysis_error(HttpStatus::BadRequest, "Invalid contract address: x", None, None);
    assert_eq!(status, HttpStatus::BadRequest);
    assert_eq!(response.function_name, None);
    assert_eq!(response.arguments, None);
    assert_eq!(response.details, None);
}

#[test]
fn scanning_finds_characters_lines_and_braces() {
    let s = chars_of("ab:cd\r\nef {g{h}} i}\nlast");
    assert_eq!(find_char(&s, ':', 0, s.len()), 2);
    assert_eq!(find_char(&s, ':', 3, s.len()), s.len());
    assert_eq!(find_char(&s, ':', 0, 2), 2);
    assert_eq!(find_char(&s, ':', 5, 2), 2);
    assert_eq!(line_bounds(&s, 0), (5, 6));
    assert_eq!(line_bounds(&s, 7), (19, 19));
    assert_eq!(line_bounds(&s, 20), (24, 24));
    assert_eq!(find_line_with_prefix(&s, &chars_of("ef")), Some((7, 19)));
    assert_eq!(find_line_with_prefix(&s, &chars_of("cd")), None);
    assert_eq!(find_line_with_prefix(&s, &chars_of("ab:cd\r")), None);
    assert_eq!(find_line_containing(&s, &chars_of("h}")), Some((7, 19)));
    assert_eq!(find_line_containing(&s, &chars_of("d\r")), None);
    assert_eq!(find_line_containing(&s, &chars_of("st")), Some((20, 24)));
    assert_eq!(find_closing(&s, 10), Some(16));
    assert_eq!(find_closing(&s, 12), Some(15));
    assert_eq!(find_closing(&s, 17), Some(19));
    assert_eq!(find_closing(&s, 20), None);
    assert_eq!(find_closing(&s, 99), None);
    assert_eq!(find_first(&s, &chars_of("{"), 0), Some(10));
    assert_eq!(find_first(&s, &chars_of("{"), 11), Some(12));
    assert_eq!(find_first(&s, &chars_of("zz"), 0), None);
    let t = chars_of("  x y \t");
    assert_eq!(trim_bounds(&t, 0, t.len()), (2, 5));
    assert_eq!(trim_bounds(&t, 0, 2), (2, 2));
    assert_eq!(trim_bounds(&t, 3, 4), (4, 4));
}

fn format() -> ResponseFormat {
    ResponseFormat {
        risk_level_prefix: "Risk Level".to_string(),
        explanation_prefix: "Explanation".to_string(),
    }
}

#[test]
fn answer_of_the_model_is_a_success() {
    let outcome = ModelOutcome::Answer { content: "Risk Level: Low\nExplanation: fine".to_string() };
    let (status, response) =
        analysis_reply("transfer".to_string(), vec!["1".to_string()], outcome, &format());
    assert_eq!(status, HttpStatus::Success);
    assert_eq!(response.status, "success");
    assert_eq!(response.risk_level.as_deref(), Some("Low"));
    assert_eq!(response.explanation.as_deref(), Some("fine"));
    assert_eq!(response.function_name.as_deref(), Some("transfer"));
}

#[test]
fn unreachable_model_is_reported_with_the_decoded_call() {
    let outcome = ModelOutcome::Unreachable { cause: "timed out".to_string() };
    let (status, response) =
        analysis_reply("transfer".to_string(), vec!["1".to_string()], outcome, &format());
    assert_eq!(status, HttpStatus::ServerError);
    assert_eq!(response.status, "error");
    assert_eq!(response.message.as_deref(), Some("Failed to call DeepSeek API"));
    assert_eq!(response.details.as_deref(), Some("timed out"));
    assert_eq!(response.function_name.as_deref(), Some("transfer"));
    assert_eq!(response.arguments, Some(vec!["1".to_string()]));
    assert_eq!(response.risk_level, None);
}

#[test]
fn answer_that_is_not_json_is_reported() {
    let outcome = ModelOutcome::NotJson { cause: "expected value".to_string() };
    let (status, response) = analysis_reply("f".to_string(), Vec::new(), outcome, &format());
    assert_eq!(status, HttpStatus::ServerError);
    assert_eq!(response.message.as_deref(), Some("Failed to parse DeepSeek JSON response"));
    assert_eq!(response.details.as_deref(), Some("expected value"));
}

#[test]
fn http_error_of_the_model_is_reported_with_its_status() {
    let outcome = ModelOutcome::HttpError {
        status: "401 Unauthorized".to_string(),
        body: "{\"error\":\"bad key\"}".to_string(),
    };
    let (status, response) = analysis_reply("f".to_string(), Vec::new(), outcome, &format());
    assert_eq!(status, HttpStatus::ServerError);
    assert_eq!(
        response.message.as_deref(),
        Some("DeepSeek API error (HTTP status: 401 Unauthorized)")
    );
    assert_eq!(response.details.as_deref(), Some("{\"error\":\"bad key\"}"));
    assert_eq!(response.function_name.as_deref(), Some("f"));
}

#[test]
fn analysis_of_an_invalid_address_is_a_bad_request() {
    let error = Address::parse("0x12").unwrap_err();
    let (status, response) = analysis_invalid_address(&error);
    assert_eq!(status, HttpStatus::BadRequest);
    assert_eq!(response.status, "error");
    assert_eq!(response.message, Some(format!("Invalid contract address: {}", error.reason)));
    assert_eq!(response.details, None);
    assert_eq!(response.function_name, None);
}

#[test]
fn call_to_analyse_is_decoded_or_the_failure_told() {
    let abi = r#"[{"inputs":[],"name":"ping","outputs":[],"stateMutability":"view","type":"function"}]"#;
    let schema = Schema::from_text(abi).unwrap();
    let selector: String = schema.functions()[0].selector.iter().map(|b| format!("{:02x}", b)).collect();
    let call = decoded_call(Ok(CandidateSet::single(schema)), &selector).unwrap();
    assert_eq!(call, ("ping".to_string(), Vec::<String>::new()));

    let schema = Schema::from_text(abi).unwrap();
    let (status, response) =
        decoded_call(Ok(CandidateSet::single(schema)), "0x00000000").unwrap_err();
    assert_eq!(status, HttpStatus::ServerError);
    assert_eq!(response.message.as_deref(), Some("Failed to decode call data"));
    assert_eq!(
        response.details.as_deref(),
        Some("Every candidate schema failed: no function of the schema matches the selector")
    );

    let failed = ResolutionError::CacheError { key: "0xabc".to_string() };
    let (status, response) = decoded_call(Err(failed), "0x00000000").unwrap_err();
    assert_eq!(status, HttpStatus::ServerError);
    assert_eq!(response.message.as_deref(), Some("Failed to fetch or load the ABI"));
    assert_eq!(response.details.as_deref(), Some("the cache entry under 0xabc is not a schema"));
}
