use streamchat::chat::{resolve_metadata, ResolveError};
use streamchat::scan::{extract_token, find_sub, str_eq};

fn full_page(id: &str, key: &str, ver: &str, cont: &str) -> String {
    format!(
        "<html><link rel=\"canonical\" href=\"https://www.youtube.com/watch?v={}\">\
         var stuff = {{\"liveChatRenderer\":{{}},\"INNERTUBE_API_KEY\":\"{}\",\
         \"clientVersion\":\"{}\",\"continuation\":\"{}\"}};</html>",
        id, key, ver, cont
    )
}

#[test]
fn test_resolve_success() {
    let page = full_page("ABC123", "K1", "V1", "C1");
    let m = resolve_metadata(&page, "ABC123").expect("all markers present");
    assert_eq!(m.api_key, "K1");
    assert_eq!(m.client_version, "V1");
    assert_eq!(m.continuation, "C1");
}

#[test]
fn test_resolve_missing_canonical() {
    let page = "liveChatRenderer \"INNERTUBE_API_KEY\":\"K1\" \
                \"clientVersion\":\"V1\" \"continuation\":\"C1\"";
    assert_eq!(resolve_metadata(page, "ABC123").unwrap_err(), ResolveError::SessionNotFound);
}

#[test]
fn test_resolve_canonical_for_other_session() {
    let page = full_page("OTHER99", "K1", "V1", "C1");
    assert_eq!(resolve_metadata(&page, "ABC123").unwrap_err(), ResolveError::SessionNotFound);
}

#[test]
fn test_resolve_missing_chat_marker() {
    let page = "<link rel=\"canonical\" href=\"https://www.youtube.com/watch?v=ABC123\">\
                \"INNERTUBE_API_KEY\":\"K1\" \"clientVersion\":\"V1\" \"continuation\":\"C1\"";
    assert_eq!(resolve_metadata(page, "ABC123").unwrap_err(), ResolveError::ChatUnavailable);
}

#[test]
fn test_resolve_missing_api_key() {
    let page = "<link rel=\"canonical\" href=\"https://www.youtube.com/watch?v=ABC123\">\
                liveChatRenderer \"clientVersion\":\"V1\" \"continuation\":\"C1\"";
    assert_eq!(resolve_metadata(page, "ABC123").unwrap_err(), ResolveError::AccessKeyNotFound);
}

#[test]
fn test_resolve_empty_api_key() {
    let page = full_page("ABC123", "", "V1", "C1");
    assert_eq!(resolve_metadata(&page, "ABC123").unwrap_err(), ResolveError::AccessKeyNotFound);
}

#[test]
fn test_resolve_missing_client_version() {
    let page = "<link rel=\"canonical\" href=\"https://www.youtube.com/watch?v=ABC123\">\
                liveChatRenderer \"INNERTUBE_API_KEY\":\"K1\" \"continuation\":\"C1\"";
    assert_eq!(resolve_metadata(page, "ABC123").unwrap_err(), ResolveError::ClientVersionNotFound);
}

#[test]
fn test_resolve_missing_continuation() {
    let page = "<link rel=\"canonical\" href=\"https://www.youtube.com/watch?v=ABC123\">\
                liveChatRenderer \"INNERTUBE_API_KEY\":\"K1\" \"clientVersion\":\"V1\"";
    assert_eq!(resolve_metadata(page, "ABC123").unwrap_err(), ResolveError::ContinuationNotFound);
}

#[test]
fn test_find_sub_first_occurrence() {
    assert_eq!(find_sub("abcabc", "bc"), Some(1));
    assert_eq!(find_sub("abcabc", "cab"), Some(2));
    assert_eq!(find_sub("abc", "x"), None);
    assert_eq!(find_sub("abc", ""), Some(0));
    assert_eq!(find_sub("", "abc"), None);
}

#[test]
fn test_extract_token_stops_at_quote() {
    assert_eq!(extract_token("k\":\"value\" rest", "k\":\""), Some("value".to_string()));
    assert_eq!(extract_token("nothing here", "k\":\""), None);
}

#[test]
fn test_extract_token_unterminated_runs_to_end() {
    assert_eq!(extract_token("k:value", "k:"), Some("value".to_string()));
}

#[test]
fn test_error_messages() {
    assert_eq!(ResolveError::SessionNotFound.message(), "Video or Stream not found");
    assert_eq!(ResolveError::ChatUnavailable.message(), "Chat box not found");
    assert_eq!(ResolveError::AccessKeyNotFound.message(), "API Key not found");
    assert_eq!(ResolveError::ClientVersionNotFound.message(), "Client Version not found");
    assert_eq!(ResolveError::ContinuationNotFound.message(), "Continuation not found");
}

#[test]
fn test_str_eq() {
    assert!(str_eq("abc", "abc"));
    assert!(!str_eq("abc", "abd"));
    assert!(!str_eq("abc", "ab"));
    assert!(str_eq("", ""));
}
