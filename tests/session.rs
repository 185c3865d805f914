use llm_router::analytics::{calculate_tokens_per_second, rate_performance, Rating};
use llm_router::ollama::{Message, StreamChunk, TerminalMetrics};
use llm_router::session::{collect_chunks, spinner_frame, StreamSession};

fn delta(text: &str) -> StreamChunk {
    StreamChunk {
        message: Message { role: "assistant".to_string(), content: text.to_string() },
        done: false,
        total_duration: None,
        eval_count: None,
        eval_duration: None,
    }
}

fn final_chunk(total: Option<u64>, count: Option<usize>, eval: Option<u64>) -> StreamChunk {
    StreamChunk {
        message: Message { role: "assistant".to_string(), content: String::new() },
        done: true,
        total_duration: total,
        eval_count: count,
        eval_duration: eval,
    }
}

#[test]
fn hello_world_stream_accumulates_and_keeps_metrics() {
    let chunks = vec![
        delta("Hel"),
        delta("lo"),
        delta(""),
        delta(" world"),
        final_chunk(Some(2_000_000_000), Some(100), Some(1_000_000_000)),
    ];
    let out = collect_chunks(&chunks);
    assert_eq!(out.content, "Hello world");
    assert_eq!(
        out.metrics,
        Some(TerminalMetrics {
            total_duration_ns: 2_000_000_000,
            eval_token_count: 100,
            eval_duration_ns: 1_000_000_000,
        })
    );
    assert!(!out.stop_spinner);
    let m = out.metrics.unwrap();
    assert_eq!(calculate_tokens_per_second(&m), 10_000);
    assert_eq!(rate_performance(&m), Rating::Good);
}

#[test]
fn empty_stream_gives_empty_text_and_stops_spinner_at_end() {
    let out = collect_chunks(&[]);
    assert_eq!(out.content, "");
    assert_eq!(out.metrics, None);
    assert!(out.stop_spinner);
}

#[test]
fn stream_without_text_stops_spinner_once_at_end() {
    let mut session = StreamSession::new();
    let a = session.on_chunk(&delta(""));
    let b = session.on_chunk(&final_chunk(None, None, None));
    assert!(!a.stop_spinner && !a.write);
    assert!(!b.stop_spinner && !b.write);
    let out = session.finish();
    assert!(out.stop_spinner);
    assert_eq!(out.content, "");
}

#[test]
fn first_text_chunk_stops_spinner_exactly_once() {
    let mut session = StreamSession::new();
    let steps = [
        session.on_chunk(&delta("")),
        session.on_chunk(&delta("a")),
        session.on_chunk(&delta("b")),
        session.on_chunk(&final_chunk(None, None, None)),
    ];
    let stops = steps.iter().filter(|s| s.stop_spinner).count();
    assert_eq!(stops, 1);
    assert!(steps[1].stop_spinner);
    assert!(steps[1].write && steps[2].write);
    let out = session.finish();
    assert!(!out.stop_spinner);
    assert_eq!(out.content, "ab");
}

#[test]
fn absent_metric_fields_default_to_zero() {
    let out = collect_chunks(&[delta("x"), final_chunk(None, Some(7), None)]);
    assert_eq!(
        out.metrics,
        Some(TerminalMetrics { total_duration_ns: 0, eval_token_count: 7, eval_duration_ns: 0 })
    );
}

#[test]
fn metrics_absent_without_final_chunk() {
    let out = collect_chunks(&[delta("x"), delta("y")]);
    assert_eq!(out.metrics, None);
    assert_eq!(out.content, "xy");
}

#[test]
fn transport_error_after_two_chunks_returns_no_text() {
    let events: Vec<Result<StreamChunk, String>> =
        vec![Ok(delta("par")), Ok(delta("tial")), Err("connection reset".to_string())];
    let mut session = StreamSession::new();
    let mut result: Option<Result<String, String>> = None;
    for event in events {
        match event {
            Ok(chunk) => {
                session.on_chunk(&chunk);
            }
            Err(e) => {
                let stop_still_needed = session.abort();
                assert!(!stop_still_needed);
                result = Some(Err(e));
                break;
            }
        }
    }
    assert_eq!(result, Some(Err("connection reset".to_string())));
}

#[test]
fn transport_error_before_text_still_stops_spinner() {
    let mut session = StreamSession::new();
    session.on_chunk(&delta(""));
    assert!(session.abort());
}

#[test]
fn spinner_cycles_through_ten_frames() {
    assert_eq!(spinner_frame(0), '⠋');
    assert_eq!(spinner_frame(9), '⠏');
    assert_eq!(spinner_frame(10), '⠋');
    assert_eq!(spinner_frame(13), '⠸');
}
