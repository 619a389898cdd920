use streamchat::chat::{LoopAction, StreamChat, StreamChatOptions, ResolveError};

fn opts(id: &str, interval: u64) -> StreamChatOptions {
    StreamChatOptions { video_id: id.to_string(), fetch_interval: interval }
}

fn good_page(id: &str) -> String {
    format!(
        "<link rel=\"canonical\" href=\"https://www.youtube.com/watch?v={}\">\
         liveChatRenderer \"INNERTUBE_API_KEY\":\"K1\",\"clientVersion\":\"V1\",\
         \"continuation\":\"C1\"",
        id
    )
}

#[test]
fn test_connect_success_captures_metadata() {
    let mut chat = StreamChat::new(opts("ABC123", 3));
    assert!(!chat.is_initialized());
    assert!(chat.metadata().is_none());
    assert_eq!(chat.fetch_interval(), 3);
    assert_eq!(chat.video_id(), "ABC123");
    chat.connect(&good_page("ABC123")).expect("all markers present");
    assert!(chat.is_initialized());
    let m = chat.metadata().expect("metadata captured");
    assert_eq!(m.api_key, "K1");
    assert_eq!(m.client_version, "V1");
    assert_eq!(m.continuation, "C1");
}

#[test]
fn test_connect_twice_is_idempotent() {
    let mut chat = StreamChat::new(opts("ABC123", 3));
    chat.connect(&good_page("ABC123")).expect("first connect succeeds");
    // A second connect returns at once — even against garbage — and keeps
    // the captured metadata: no second loop is started.
    chat.connect("garbage page").expect("second connect is a no-op");
    assert!(chat.is_initialized());
    assert_eq!(chat.metadata().unwrap().api_key, "K1");
}

#[test]
fn test_connect_failure_leaves_uninitialized_then_retry() {
    let page_without_key = "<link rel=\"canonical\" href=\"https://www.youtube.com/watch?v=ABC123\">\
         liveChatRenderer \"clientVersion\":\"V1\",\"continuation\":\"C1\"";
    let mut chat = StreamChat::new(opts("ABC123", 3));
    let e = chat.connect(page_without_key).unwrap_err();
    assert_eq!(e, ResolveError::AccessKeyNotFound);
    assert!(!chat.is_initialized());
    assert!(chat.metadata().is_none());
    // A later connect retries resolution from scratch.
    chat.connect(&good_page("ABC123")).expect("retry succeeds");
    assert!(chat.is_initialized());
}

#[test]
fn test_connect_missing_chat_marker() {
    let page = "<link rel=\"canonical\" href=\"https://www.youtube.com/watch?v=ABC123\"> \
                \"INNERTUBE_API_KEY\":\"K1\",\"clientVersion\":\"V1\",\"continuation\":\"C1\"";
    let mut chat = StreamChat::new(opts("ABC123", 3));
    assert_eq!(chat.connect(page).unwrap_err(), ResolveError::ChatUnavailable);
    assert!(!chat.is_initialized());
}

#[test]
fn test_loop_actions() {
    let mut chat = StreamChat::new(opts("ABC123", 3));
    chat.connect(&good_page("ABC123")).expect("connect succeeds");
    assert_eq!(chat.loop_step(false), LoopAction::Idle);
    assert_eq!(chat.loop_step(true), LoopAction::Fetch);
}

#[test]
fn test_stop_halts_loop_and_emissions() {
    let mut chat = StreamChat::new(opts("ABC123", 3));
    chat.connect(&good_page("ABC123")).expect("connect succeeds");
    let sub = chat.event_emitter.on("chat");
    assert_eq!(chat.loop_step(true), LoopAction::Fetch);
    chat.handle_fetch_result(Some("update-1"));
    assert_eq!(chat.event_emitter.next_event(sub).unwrap().data, "update-1");
    chat.stop();
    // Cancellation wins the race tie against a pending tick: the next turn
    // exits instead of fetching, so nothing further is emitted.
    assert_eq!(chat.loop_step(true), LoopAction::Exit);
    assert!(chat.event_emitter.next_event(sub).is_none());
}

#[test]
fn test_stop_without_connect_is_safe() {
    let mut chat = StreamChat::new(opts("ABC123", 3));
    chat.stop();
    assert!(!chat.is_initialized());
    assert_eq!(chat.loop_step(true), LoopAction::Exit);
}

#[test]
fn test_handle_fetch_result_emits_and_skips() {
    let mut chat = StreamChat::new(opts("ABC123", 3));
    let sub = chat.event_emitter.on("chat");
    chat.handle_fetch_result(Some("{\"x\":1}"));
    let p = chat.event_emitter.next_event(sub).unwrap();
    assert_eq!(p.event_name, "chat");
    assert_eq!(p.data, "{\"x\":1}");
    // A failed tick is simply skipped: nothing is emitted, nothing changes.
    chat.handle_fetch_result(None);
    assert!(chat.event_emitter.next_event(sub).is_none());
}
