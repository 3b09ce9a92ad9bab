use panw_api_ollama::security::{
    rule, Assessment, AssessmentPlan, Ruling, SecurityClient, SecurityError,
};
use panw_api_ollama::text::{error_json, error_json_from_literal, is_blank, is_white_space, same_text};
use panw_api_ollama::types::{Content, ScanResponse};

fn client() -> SecurityClient {
    SecurityClient::new("https://scan.example", "SECRET-REDACTED", "standard", "proxy", "user_1")
}

fn scan(category: &str, action: &str) -> ScanResponse {
    let mut r = ScanResponse::default_safe_response();
    r.category = category.to_string();
    r.action = action.to_string();
    r
}

#[test]
fn block_vetoes_even_benign() {
    assert_eq!(rule("benign", "block"), Ruling::Veto);
    assert_eq!(rule("malicious", "block"), Ruling::Veto);
}

#[test]
fn allow_with_suspicious_category_is_rejected() {
    assert_eq!(rule("suspicious", "allow"), Ruling::NotBenign);
    assert_eq!(rule("toxic_content", "allow"), Ruling::NotBenign);
}

#[test]
fn benign_allow_passes() {
    assert_eq!(rule("benign", "allow"), Ruling::Allow);
    assert_eq!(rule("benign", "anything"), Ruling::Allow);
    assert_eq!(rule("Benign", "allow"), Ruling::NotBenign);
}

#[test]
fn blank_texts() {
    assert!(is_blank(""));
    assert!(is_blank("   \t\n\r"));
    assert!(is_blank("\u{a0}\u{3000}"));
    assert!(!is_blank(" a "));
    assert!(!is_blank("x"));
}

#[test]
fn same_text_compares_characters() {
    assert!(same_text("block", "block"));
    assert!(!same_text("block", "Block"));
    assert!(!same_text("block", "blocked"));
}

#[test]
fn empty_content_is_settled_without_scan() {
    let c = client();
    for text in ["", "   ", "\n\t "] {
        match c.plan_assessment(text, "llama3", true) {
            AssessmentPlan::Settled(a) => {
                assert!(a.is_safe);
                assert_eq!(a.category, "benign");
                assert_eq!(a.action, "allow");
                assert_eq!(a.details.scan_id, 0);
                assert_eq!(a.details.report_id, "");
                assert!(a.details.tr_id.is_none() && a.details.completed_at.is_none());
                assert!(!a.details.prompt_detected.dlp && !a.details.response_detected.url_cats);
            }
            AssessmentPlan::Scan(_) => panic!("blank content must not be scanned"),
        }
    }
}

#[test]
fn prompt_becomes_one_scan_request() {
    let c = client();
    match c.plan_assessment("What is Rust?", "llama3", true) {
        AssessmentPlan::Scan(req) => {
            assert_eq!(req.tr_id.len(), 36);
            assert_eq!(req.ai_profile.profile_name, "standard");
            assert_eq!(req.metadata.app_name, "proxy");
            assert_eq!(req.metadata.app_user, "user_1");
            assert_eq!(req.metadata.ai_model, "llama3");
            assert_eq!(req.contents.len(), 1);
            assert_eq!(req.contents[0].prompt.as_deref(), Some("What is Rust?"));
            assert!(req.contents[0].response.is_none());
        }
        AssessmentPlan::Settled(_) => panic!("non-blank content must be scanned"),
    }
}

#[test]
fn response_becomes_one_scan_request() {
    let c = client();
    match c.plan_assessment("Rust is a language.", "llama3", false) {
        AssessmentPlan::Scan(req) => {
            assert_eq!(req.contents[0].response.as_deref(), Some("Rust is a language."));
            assert!(req.contents[0].prompt.is_none());
        }
        AssessmentPlan::Settled(_) => panic!("non-blank content must be scanned"),
    }
}

#[test]
fn transaction_ids_are_fresh() {
    let c = client();
    let a = c.plan_assessment("hello", "m", true);
    let b = c.plan_assessment("hello", "m", true);
    match (a, b) {
        (AssessmentPlan::Scan(x), AssessmentPlan::Scan(y)) => assert_ne!(x.tr_id, y.tr_id),
        _ => panic!("expected scans"),
    }
}

#[test]
fn scan_url_and_key() {
    let c = client();
    assert_eq!(c.scan_url(), "https://scan.example/v1/scan/sync/request");
    assert_eq!(c.api_key(), "SECRET-REDACTED");
}

#[test]
fn status_check_passes_body_on_success() {
    let c = client();
    match c.check_api_status(200, "200 OK", "{}".to_string()) {
        Ok(body) => assert_eq!(body, "{}"),
        Err(_) => panic!("200 is a success"),
    }
    assert!(c.check_api_status(299, "299", "x".to_string()).is_ok());
}

#[test]
fn status_check_reports_status_and_body() {
    let c = client();
    for (code, line) in [(404u16, "404 Not Found"), (199, "199"), (300, "300 Multiple Choices"), (500, "500 Internal Server Error")] {
        match c.check_api_status(code, line, "nope".to_string()) {
            Err(SecurityError::AssessmentError(m)) => assert_eq!(m, format!("{}: nope", line)),
            _ => panic!("non-success status must fail"),
        }
    }
}

#[test]
fn scan_result_is_ruled_by_shared_rule() {
    let c = client();
    let a = c.process_scan_result(scan("benign", "allow"));
    assert!(a.is_safe);
    let a = c.process_scan_result(scan("benign", "block"));
    assert!(!a.is_safe);
    assert_eq!(a.action, "block");
    let a = c.process_scan_result(scan("malicious", "allow"));
    assert!(!a.is_safe);
    assert_eq!(a.category, "malicious");
}

#[test]
fn assessment_allows_by_rule_not_flag() {
    let a = Assessment {
        is_safe: true,
        category: "benign".to_string(),
        action: "block".to_string(),
        details: ScanResponse::default_safe_response(),
    };
    assert!(!a.allows());
}

#[test]
fn content_needs_a_text() {
    assert!(Content::new(None, None).is_err());
    assert_eq!(
        Content::new(None, None).err(),
        Some("Content must have at least a prompt or a response")
    );
    let c = Content::new(Some("p".to_string()), None).unwrap();
    assert_eq!(c.prompt.as_deref(), Some("p"));
    assert!(c.response.is_none());
    let c = Content::new(None, Some("r".to_string())).unwrap();
    assert_eq!(c.response.as_deref(), Some("r"));
    assert!(c.prompt.is_none());
}

#[test]
fn content_never_holds_both_texts() {
    assert_eq!(
        Content::new(Some("p".to_string()), Some("r".to_string())).err(),
        Some("Content must not have both a prompt and a response")
    );
}

#[test]
fn default_safe_response_is_clear() {
    let r = ScanResponse::default_safe_response();
    assert_eq!(r.category, "benign");
    assert_eq!(r.action, "allow");
    assert_eq!(r.report_id, "");
    assert!(r.tr_id.is_none() && r.created_at.is_none());
    assert!(!r.prompt_detected.injection && !r.response_detected.db_security);
}

#[test]
fn security_error_descriptions() {
    let e = SecurityError::AssessmentError("500: down".to_string());
    assert_eq!(e.describe(), "PANW security assessment error: 500: down");
    let json = serde_json::from_str::<u32>("x").unwrap_err();
    let text = json.to_string();
    assert_eq!(SecurityError::JsonError(json).describe(), format!("JSON parsing error: {}", text));
}

#[test]
fn error_documents_are_escaped_json() {
    assert_eq!(error_json("plain"), br#"{"error":"plain"}"#.to_vec());
    assert_eq!(error_json("say \"hi\"\n"), br#"{"error":"say \"hi\"\n"}"#.to_vec());
    assert_eq!(error_json(""), br#"{"error":""}"#.to_vec());
    assert_eq!(error_json_from_literal("\"x\""), br#"{"error":"x"}"#.to_vec());
}

#[test]
fn white_space_agrees_with_std_on_every_char() {
    for c in char::MIN..=char::MAX {
        assert_eq!(is_white_space(c), c.is_whitespace(), "{:?}", c);
    }
    assert!(is_blank("\u{85}\u{2028}\u{202f}"));
    assert!(!is_blank("\u{200b}"));
}
