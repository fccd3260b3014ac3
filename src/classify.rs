//! Classification of failure replies from the remote service by fixed
//! tables of phrases.

use vstd::prelude::*;
use crate::remote::StoreResponse;
use crate::text::{contains, join3, lower_of, seq_contains, to_lower};

verus! {

/// The explanatory text of a reply: the first of failure type, customer
/// message and message that is present, or the empty text.
pub open spec fn remote_message(r: &StoreResponse) -> Seq<char> {
    match r.failure_type {
        Some(s) => s@,
        None => match r.customer_message {
            Some(s) => s@,
            None => match r.message {
                Some(s) => s@,
                None => Seq::<char>::empty(),
            },
        },
    }
}

/// The lowered text names an invalid or expired session.
pub open spec fn has_session_phrase(t: Seq<char>) -> bool {
    ||| seq_contains(t, "session expired"@)
    ||| seq_contains(t, "session invalid"@)
    ||| seq_contains(t, "invalid session"@)
    ||| seq_contains(t, "unauthorized"@)
    ||| seq_contains(t, "authentication failed"@)
    ||| seq_contains(t, "token expired"@)
    ||| seq_contains(t, "invalid token"@)
    ||| seq_contains(t, "not authenticated"@)
}

/// The lowered text says that the account holds no license for the item.
pub open spec fn has_license_phrase(t: Seq<char>) -> bool {
    ||| seq_contains(t, "license"@)
    ||| seq_contains(t, "not found"@)
    ||| seq_contains(t, "未购买"@)
    ||| seq_contains(t, "未授权"@)
}

/// The reply reports that the session is no longer valid.
pub open spec fn spec_is_session_error(r: &StoreResponse) -> bool {
    has_session_phrase(lower_of(remote_message(r)))
}

/// The reply reports a missing license.
pub open spec fn spec_is_license_error(r: &StoreResponse) -> bool {
    has_license_phrase(lower_of(remote_message(r)))
}

/// The message shown for an entitlement failure whose lowered description is
/// `t`; a description that no phrase matches passes `customer` through.
pub open spec fn license_message(t: Seq<char>, customer: Seq<char>) -> Seq<char> {
    if seq_contains(t, "license not found"@) {
        "您尚未购买此应用，正在尝试免费获取..."@
    } else if seq_contains(t, "not found"@) {
        "未找到此应用，请检查 App ID 是否正确"@
    } else if seq_contains(t, "not purchased"@) {
        "您尚未购买此应用"@
    } else if seq_contains(t, "未购买"@) {
        "您尚未购买此应用"@
    } else if seq_contains(t, "未找到"@) {
        "未找到此应用"@
    } else if seq_contains(t, "unauthorized"@) {
        "无权下载此应用"@
    } else if seq_contains(t, "invalid request"@) {
        "无效的请求"@
    } else if seq_contains(t, "item not found"@) {
        "未找到此应用"@
    } else if seq_contains(t, "store front mismatch"@) {
        "账号区域与应用不匹配"@
    } else if seq_contains(t, "store front error"@) {
        "账号区域错误，请切换账号区域"@
    } else {
        customer
    }
}

/// The text of an optional field, or the empty text.
pub open spec fn text_or_empty(s: Option<String>) -> Seq<char> {
    match s {
        Some(v) => v@,
        None => Seq::<char>::empty(),
    }
}

/// The description that the license table is matched against: customer
/// message and failure type, separated by a space.
pub open spec fn license_description(r: &StoreResponse) -> Seq<char> {
    text_or_empty(r.customer_message) + " "@ + text_or_empty(r.failure_type)
}

/// The message shown for an entitlement failure reply.
pub open spec fn spec_license_error_message(r: &StoreResponse) -> Seq<char> {
    license_message(lower_of(license_description(r)), text_or_empty(r.customer_message))
}

fn opt_text(s: &Option<String>) -> (r: &str)
    ensures
        r@ == text_or_empty(*s),
{
    match s {
        Some(v) => v.as_str(),
        None => {
            proof {
                reveal_strlit("");
            }
            ""
        },
    }
}

fn message_of(r: &StoreResponse) -> (m: &str)
    ensures
        m@ == remote_message(r),
{
    match &r.failure_type {
        Some(s) => s.as_str(),
        None => match &r.customer_message {
            Some(s) => s.as_str(),
            None => opt_text(&r.message),
        },
    }
}

/// Whether an already lowered text names an invalid or expired session.
pub fn session_phrase_in(lowered: &str) -> (r: bool)
    ensures
        r == has_session_phrase(lowered@),
{
    contains(lowered, "session expired") || contains(lowered, "session invalid") || contains(
        lowered,
        "invalid session",
    ) || contains(lowered, "unauthorized") || contains(lowered, "authentication failed")
        || contains(lowered, "token expired") || contains(lowered, "invalid token") || contains(
        lowered,
        "not authenticated",
    )
}

/// Whether an already lowered text says that no license is held.
pub fn license_phrase_in(lowered: &str) -> (r: bool)
    ensures
        r == has_license_phrase(lowered@),
{
    contains(lowered, "license") || contains(lowered, "not found") || contains(lowered, "未购买")
        || contains(lowered, "未授权")
}

/// Whether a reply reports an invalid session; the comparison ignores case.
pub fn is_session_error(r: &StoreResponse) -> (b: bool)
    ensures
        b == spec_is_session_error(r),
{
    let lowered = to_lower(message_of(r));
    session_phrase_in(lowered.as_str())
}

/// Whether a reply reports a missing license; the comparison ignores case.
pub fn is_license_error(r: &StoreResponse) -> (b: bool)
    ensures
        b == spec_is_license_error(r),
{
    let lowered = to_lower(message_of(r));
    license_phrase_in(lowered.as_str())
}

/// The message for an entitlement failure whose lowered description is
/// `lowered`, falling back to the service's own `customer` message.
pub fn license_message_for(lowered: &str, customer: &str) -> (m: String)
    ensures
        m@ == license_message(lowered@, customer@),
{
    if contains(lowered, "license not found") {
        String::from_str("您尚未购买此应用，正在尝试免费获取...")
    } else if contains(lowered, "not found") {
        String::from_str("未找到此应用，请检查 App ID 是否正确")
    } else if contains(lowered, "not purchased") {
        String::from_str("您尚未购买此应用")
    } else if contains(lowered, "未购买") {
        String::from_str("您尚未购买此应用")
    } else if contains(lowered, "未找到") {
        String::from_str("未找到此应用")
    } else if contains(lowered, "unauthorized") {
        String::from_str("无权下载此应用")
    } else if contains(lowered, "invalid request") {
        String::from_str("无效的请求")
    } else if contains(lowered, "item not found") {
        String::from_str("未找到此应用")
    } else if contains(lowered, "store front mismatch") {
        String::from_str("账号区域与应用不匹配")
    } else if contains(lowered, "store front error") {
        String::from_str("账号区域错误，请切换账号区域")
    } else {
        String::from_str(customer)
    }
}

/// The message shown for an entitlement failure reply.
pub fn get_license_error_message(r: &StoreResponse) -> (m: String)
    ensures
        m@ == spec_license_error_message(r),
{
    let customer = opt_text(&r.customer_message);
    let description = join3(customer, " ", opt_text(&r.failure_type));
    let lowered = to_lower(description.as_str());
    license_message_for(lowered.as_str(), customer)
}

/// Whether a download failure with message `msg` should be reported as
/// needing a purchase.
pub fn download_error_needs_purchase(msg: &str) -> (r: bool)
    ensures
        r == (seq_contains(msg@, "未购买"@) || seq_contains(msg@, "license"@)),
{
    contains(msg, "未购买") || contains(msg, "license")
}

} // verus!
