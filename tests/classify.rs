use ipa_webtool::classify::download_error_needs_purchase;
use ipa_webtool::remote::{download_form, purchase_form, store_headers, AuthInfo};
use ipa_webtool::classify::{
    get_license_error_message, is_license_error, is_session_error, license_message_for,
    license_phrase_in, session_phrase_in,
};
use ipa_webtool::remote::{AuthRequest, AuthResponse, StoreResponse};

fn reply(failure: Option<&str>, customer: Option<&str>, message: Option<&str>) -> StoreResponse {
    StoreResponse {
        failure_type: failure.map(String::from),
        customer_message: customer.map(String::from),
        message: message.map(String::from),
        song: None,
    }
}

#[test]
fn session_phrases_ignore_case() {
    assert!(is_session_error(&reply(Some("Token Expired"), None, None)));
    assert!(is_session_error(&reply(None, Some("Your SESSION EXPIRED, sign in"), None)));
    assert!(is_session_error(&reply(None, None, Some("not authenticated"))));
    assert!(!is_session_error(&reply(Some("license not found"), None, None)));
    assert!(!is_session_error(&reply(None, None, None)));
}

#[test]
fn session_check_reads_the_first_present_field() {
    assert!(!is_session_error(&reply(Some("2034"), Some("unauthorized"), None)));
    assert!(is_session_error(&reply(Some("unauthorized"), Some("2034"), None)));
}

#[test]
fn phrase_tables_on_lowered_text() {
    assert!(session_phrase_in("invalid token given"));
    assert!(!session_phrase_in("Invalid Token"));
    assert!(license_phrase_in("item not found"));
    assert!(license_phrase_in("您未购买此应用"));
    assert!(!license_phrase_in("quota exceeded"));
}

#[test]
fn license_errors_ignore_case() {
    assert!(is_license_error(&reply(Some("License Not Found"), None, None)));
    assert!(is_license_error(&reply(Some("未授权"), None, None)));
    assert!(!is_license_error(&reply(Some("Quota exceeded"), None, None)));
}

#[test]
fn license_message_table() {
    assert_eq!(license_message_for("license not found", "x"), "您尚未购买此应用，正在尝试免费获取...");
    assert_eq!(license_message_for("item not found", "x"), "未找到此应用，请检查 App ID 是否正确");
    assert_eq!(license_message_for("not purchased yet", "x"), "您尚未购买此应用");
    assert_eq!(license_message_for("unauthorized", "x"), "无权下载此应用");
    assert_eq!(license_message_for("store front mismatch", "x"), "账号区域与应用不匹配");
    assert_eq!(license_message_for("something else", "raw remote text"), "raw remote text");
}

#[test]
fn license_message_from_reply() {
    let r = reply(Some("STORE FRONT ERROR"), Some("Please switch"), None);
    assert_eq!(get_license_error_message(&r), "账号区域错误，请切换账号区域");
    let r = reply(Some("5002"), Some("Temporarily unavailable"), None);
    assert_eq!(get_license_error_message(&r), "Temporarily unavailable");
    let r = reply(None, None, None);
    assert_eq!(get_license_error_message(&r), "");
}

#[test]
fn auth_request_shape() {
    let first = AuthRequest::new("a@b.c", "pw", None, "GUID1");
    assert_eq!(first.attempt, 4);
    assert_eq!(first.password, "pw");
    assert_eq!(first.apple_id, "a@b.c");
    assert_eq!(first.guid, "GUID1");
    assert_eq!(first.why, "signIn");
    assert_eq!(first.rmp, 0);
    assert!(first.create_session);
    let retry = AuthRequest::new("a@b.c", "pw", Some("123456"), "GUID1");
    assert_eq!(retry.attempt, 2);
    assert_eq!(retry.password, "pw123456");
}

#[test]
fn auth_reply_to_session() {
    let ok = AuthResponse {
        failure_type: None,
        customer_message: None,
        ds_person_id: Some("42".to_string()),
        password_token: Some("tok".to_string()),
        display_name: Some("Ann".to_string()),
    };
    let info = ok.auth_info("a@b.c").unwrap();
    assert_eq!(info.ds_person_id.as_deref(), Some("42"));
    assert_eq!(info.password_token.as_deref(), Some("tok"));
    assert_eq!(info.email.as_deref(), Some("a@b.c"));
    let failed = AuthResponse {
        failure_type: Some("-5000".to_string()),
        customer_message: Some("bad password".to_string()),
        ds_person_id: None,
        password_token: None,
        display_name: None,
    };
    assert!(failed.auth_info("a@b.c").is_none());
}

#[test]
fn download_errors_needing_purchase() {
    assert!(download_error_needs_purchase("您未购买此应用"));
    assert!(download_error_needs_purchase("no license"));
    assert!(!download_error_needs_purchase("License expired"));
    assert!(!download_error_needs_purchase("timeout"));
}

#[test]
fn request_forms_and_headers() {
    let pairs = |v: Vec<(String, String)>| -> Vec<String> {
        v.into_iter().map(|(k, x)| format!("{}={}", k, x)).collect()
    };
    assert_eq!(
        pairs(purchase_form("G", "123", Some("99"))),
        vec!["guid=G", "salableAdamId=123", "externalVersionId=99", "appExtVrsId=99", "pricingParameters=STDQ"]
    );
    assert_eq!(
        pairs(purchase_form("G", "123", None)),
        vec!["guid=G", "salableAdamId=123", "pricingParameters=STDQ"]
    );
    assert_eq!(
        pairs(download_form("G", "123", Some("99"))),
        vec!["creditDisplay=", "guid=G", "salableAdamId=123", "externalVersionId=99"]
    );
    let plain = store_headers(None);
    assert_eq!(plain.len(), 2);
    assert_eq!(plain[0].1, "Configurator/2.15 (Macintosh; OS X 11.0.0; 16G29) AppleWebKit/2603.3.8");
    let auth = AuthInfo {
        ds_person_id: Some("42".to_string()),
        password_token: Some("tok".to_string()),
        display_name: None,
        email: None,
    };
    assert_eq!(
        pairs(store_headers(Some(&auth)))[2..].to_vec(),
        vec!["X-Dsid=42", "iCloud-DSID=42", "X-Token=tok"]
    );
}
