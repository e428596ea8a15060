use captioninator::capture::{CaptureMonitor, CaptureStatus, MAX_CONSECUTIVE_READ_FAILURES};
use captioninator::channel::{forward_event, LineChannel, LINE_CHANNEL_CAPACITY};
use captioninator::playback::{parse_corpus, CorpusError, TestPlayback};
use captioninator::transcript::{Line, RecognitionEvent};

#[test]
fn events_deliver_their_lines_in_order() {
    let mut channel = LineChannel::new(LINE_CHANNEL_CAPACITY);
    let events = vec![
        RecognitionEvent::Interim("a".to_string()),
        RecognitionEvent::Final("a".to_string()),
        RecognitionEvent::Interim("b".to_string()),
    ];
    for ev in events {
        let dropped = forward_event(ev, &mut channel);
        assert!(!dropped);
    }
    assert_eq!(channel.try_recv(), Some(Line::Interim("a".to_string())));
    assert_eq!(channel.try_recv(), Some(Line::Final("a".to_string())));
    assert_eq!(channel.try_recv(), Some(Line::Interim("b".to_string())));
    assert_eq!(channel.try_recv(), None);
}

#[test]
fn error_events_deliver_nothing() {
    let mut channel = LineChannel::new(LINE_CHANNEL_CAPACITY);
    let dropped = forward_event(
        RecognitionEvent::Error("transient".to_string()),
        &mut channel,
    );
    assert!(!dropped);
    assert_eq!(channel.len(), 0);
    assert_eq!(channel.try_recv(), None);
}

#[test]
fn full_channel_drops_the_newest_line_without_blocking() {
    let mut channel = LineChannel::new(LINE_CHANNEL_CAPACITY);
    for i in 0..LINE_CHANNEL_CAPACITY {
        let accepted = channel.try_send(Line::Final(format!("line {}", i)));
        assert!(accepted);
    }
    assert_eq!(channel.len(), LINE_CHANNEL_CAPACITY);

    let dropped = forward_event(
        RecognitionEvent::Final("one too many".to_string()),
        &mut channel,
    );
    assert!(dropped);
    assert_eq!(channel.len(), LINE_CHANNEL_CAPACITY);

    // What is queued is exactly the ten oldest lines.
    for i in 0..LINE_CHANNEL_CAPACITY {
        assert_eq!(channel.try_recv(), Some(Line::Final(format!("line {}", i))));
    }
    assert_eq!(channel.try_recv(), None);
}

#[test]
fn playback_cycles_the_corpus_deterministically() {
    let corpus = vec![
        Line::Final("x".to_string()),
        Line::Final("y".to_string()),
        Line::Final("z".to_string()),
    ];
    let mut playback = TestPlayback::new(corpus);
    let expected = ["x", "y", "z", "x", "y", "z", "x"];
    for text in expected {
        assert_eq!(playback.tick(), Line::Final(text.to_string()));
    }
}

#[test]
fn corpus_parse_keeps_order_and_skips_blanks() {
    let text = "RECOGNIZING: a\n\nRECOGNIZED: b\r\nRECOGNIZING: c\n";
    let corpus = parse_corpus(text).expect("every tagged line parses");
    assert_eq!(
        corpus,
        vec![
            Line::Interim("a".to_string()),
            Line::Final("b".to_string()),
            Line::Interim("c".to_string()),
        ]
    );
}

#[test]
fn corpus_with_untagged_line_is_rejected() {
    let text = "RECOGNIZING: a\nnot a tagged line\n";
    assert_eq!(parse_corpus(text), Err(CorpusError));
}

#[test]
fn empty_corpus_parses_to_no_lines() {
    assert_eq!(parse_corpus(""), Ok(vec![]));
}

#[test]
fn line_from_str_reads_the_tag_and_text() {
    assert_eq!(
        Line::from_str("RECOGNIZING: hello there"),
        Ok(Line::Interim("hello there".to_string()))
    );
    assert_eq!(
        Line::from_str("RECOGNIZED: done"),
        Ok(Line::Final("done".to_string()))
    );
    // The rest of the line is kept verbatim, even if it looks like a tag.
    assert_eq!(
        Line::from_str("RECOGNIZING: RECOGNIZED: nested"),
        Ok(Line::Interim("RECOGNIZED: nested".to_string()))
    );
    // An empty text after the tag is still a line.
    assert_eq!(
        Line::from_str("RECOGNIZED: "),
        Ok(Line::Final("".to_string()))
    );
    assert!(Line::from_str("no tag here").is_err());
    assert!(Line::from_str("RECOGNIZED:missing space").is_err());
    assert!(Line::from_str("").is_err());
}

#[test]
fn four_failures_then_success_keeps_capture_alive() {
    let mut monitor = CaptureMonitor::new();
    for _ in 0..4 {
        assert_eq!(monitor.record_read(false), CaptureStatus::Continue);
    }
    assert_eq!(monitor.record_read(true), CaptureStatus::Continue);
    assert_eq!(monitor.consecutive_failures, 0);
    // The streak starts over after the success.
    for _ in 0..4 {
        assert_eq!(monitor.record_read(false), CaptureStatus::Continue);
    }
}

#[test]
fn six_consecutive_failures_abort_capture() {
    let mut monitor = CaptureMonitor::new();
    for _ in 0..MAX_CONSECUTIVE_READ_FAILURES {
        assert_eq!(monitor.record_read(false), CaptureStatus::Continue);
    }
    assert_eq!(monitor.record_read(false), CaptureStatus::Fatal);
    assert_eq!(
        monitor.consecutive_failures,
        MAX_CONSECUTIVE_READ_FAILURES + 1
    );
}
