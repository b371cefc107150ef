use video_relay::collector::{ChatCollector, ChatResponse, CollectorState, ResponseKind, StreamEvent};
use video_relay::messages::{
    call_error, connect_error, interruption_message, open_error, serialize_error,
    stream_serialize_error,
};
use video_relay::upload::{UploadConsumer, UploadResponse};

fn item(text: &str) -> ChatResponse {
    ChatResponse {
        kind: ResponseKind::Content,
        content: text.to_string(),
        agent_name: "agent".to_string(),
        result_json: "{}".to_string(),
    }
}

fn response() -> UploadResponse {
    UploadResponse { file_id: "f1".to_string(), success: true, message: "ok".to_string() }
}

#[test]
fn collector_keeps_everything_on_clean_end() {
    let mut c = ChatCollector::new();
    for t in ["a", "b", "c"] {
        c.step(StreamEvent::Message(item(t)));
    }
    c.step(StreamEvent::End);
    assert!(c.is_finished());
    assert!(c.current_state() == CollectorState::Done);
    let out = c.into_responses();
    let texts: Vec<&str> = out.iter().map(|r| r.content.as_str()).collect();
    assert_eq!(texts, vec!["a", "b", "c"]);
}

#[test]
fn collector_appends_error_entry_on_fault() {
    let mut c = ChatCollector::new();
    c.step(StreamEvent::Message(item("a")));
    c.step(StreamEvent::Message(item("b")));
    c.step(StreamEvent::Fault("connection reset".to_string()));
    assert!(c.current_state() == CollectorState::Failed);
    c.step(StreamEvent::Message(item("late")));
    let out = c.into_responses();
    assert_eq!(out.len(), 3);
    assert_eq!(out[0].content, "a");
    assert_eq!(out[1].content, "b");
    assert!(out[2].kind == ResponseKind::Error);
    assert_eq!(out[2].agent_name, "system");
    assert_eq!(out[2].result_json, "");
    assert_eq!(
        out[2].content,
        "Stream interrupted: connection reset. Some partial results may be missing."
    );
}

#[test]
fn collector_on_empty_stream() {
    let mut c = ChatCollector::new();
    c.step(StreamEvent::End);
    assert!(c.into_responses().is_empty());
}

#[test]
fn upload_succeeds_when_everything_succeeds() {
    let mut u = UploadConsumer::new();
    u.record_write(Ok(()));
    u.record_write(Ok(()));
    let r = u.finish(Ok(response())).unwrap();
    assert_eq!(r.file_id, "f1");
    assert!(r.success);
}

#[test]
fn upload_fails_wholly_on_write_failure() {
    let mut u = UploadConsumer::new();
    u.record_write(Ok(()));
    u.record_write(Err("broken pipe".to_string()));
    assert!(u.has_failed());
    u.record_write(Err("second".to_string()));
    let r = u.finish(Ok(response()));
    assert_eq!(r.err().unwrap(), "gRPC call failed: broken pipe");
}

#[test]
fn upload_fails_on_response_failure() {
    let u = UploadConsumer::new();
    let r = u.finish(Err("status: Unavailable".to_string()));
    assert_eq!(r.err().unwrap(), "gRPC call failed: status: Unavailable");
}

#[test]
fn error_texts() {
    assert_eq!(
        connect_error("http://127.0.0.1:50051", "refused"),
        "Failed to connect to gRPC server at http://127.0.0.1:50051: refused"
    );
    assert_eq!(call_error("x"), "gRPC call failed: x");
    assert_eq!(serialize_error("y"), "Failed to serialize response: y");
    assert_eq!(stream_serialize_error("z"), "Failed to serialize chat stream: z");
    assert_eq!(open_error("/v.mp4", "missing"), "Failed to open file /v.mp4: missing");
    assert_eq!(
        interruption_message("eof"),
        "Stream interrupted: eof. Some partial results may be missing."
    );
}

#[test]
fn greeting_text() {
    assert_eq!(
        video_relay::messages::greeting("Ada"),
        "Hello, Ada! You've been greeted from Rust!"
    );
}
