use vnstat_rs_api::service::vnstat_service::{stream_step, Received, SseEvent, StreamStep};
use vnstat_rs_api::task_handle::TaskMessage;
use vnstat_rs_api::utils::decimal::decimal_text;
use vnstat_rs_api::utils::sse::default_headers;

#[test]
fn data_becomes_an_event_stamped_with_the_time() {
    let step = stream_step(
        Received::Message(TaskMessage::Data("5  120  8".to_string())),
        1_700_000_000_123,
    );
    match step {
        StreamStep::Emit(SseEvent::Data { data, id }) => {
            assert_eq!(data, "5  120  8");
            assert_eq!(id, "1700000000123");
        }
        other => panic!("expected a data event, got {:?}", other),
    }
}

#[test]
fn comment_becomes_a_comment_event() {
    let step = stream_step(Received::Message(TaskMessage::Comment("hello".to_string())), 7);
    match step {
        StreamStep::Emit(SseEvent::Comment(text)) => assert_eq!(text, "hello"),
        other => panic!("expected a comment, got {:?}", other),
    }
}

#[test]
fn error_ends_the_stream_with_that_error() {
    let step = stream_step(Received::Message(TaskMessage::Error("Spawn task failed".to_string())), 7);
    match step {
        StreamStep::Fail(error) => assert_eq!(error, "Spawn task failed"),
        other => panic!("expected a failure, got {:?}", other),
    }
}

#[test]
fn eof_ends_the_stream_cleanly() {
    assert!(matches!(stream_step(Received::Message(TaskMessage::Eof), 7), StreamStep::Finish));
}

#[test]
fn closed_channel_ends_the_stream_cleanly() {
    assert!(matches!(stream_step(Received::Closed, 7), StreamStep::Finish));
}

#[test]
fn lag_is_answered_with_one_remark_and_the_stream_goes_on() {
    for dropped in [1, 3, u64::MAX] {
        match stream_step(Received::Lagged(dropped), 7) {
            StreamStep::Emit(SseEvent::Comment(text)) => {
                assert_eq!(text, "messages dropped due to lag")
            }
            other => panic!("expected a remark, got {:?}", other),
        }
    }
}

#[test]
fn decimal_text_matches_the_usual_notation() {
    assert_eq!(decimal_text(0), "0");
    assert_eq!(decimal_text(7), "7");
    assert_eq!(decimal_text(10), "10");
    assert_eq!(decimal_text(305), "305");
    assert_eq!(decimal_text(1_000_000), "1000000");
    assert_eq!(decimal_text(u64::MAX), "18446744073709551615");
    for n in [9u64, 99, 100, 101, 4096, 1_700_000_000_123] {
        assert_eq!(decimal_text(n), n.to_string());
    }
}

#[test]
fn event_streams_get_the_three_headers() {
    assert_eq!(
        default_headers(),
        vec![
            ("Cache-Control", "no-cache, no-transform"),
            ("Connection", "keep-alive"),
            ("X-Accel-Buffering", "no"),
        ]
    );
}
