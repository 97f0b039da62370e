use djaly_sidecar::multiplexer::decode_chunk;
use djaly_sidecar::multiplexer::multiplex;
use djaly_sidecar::multiplexer::Multiplexer;
use djaly_sidecar::multiplexer::render_line;
use djaly_sidecar::multiplexer::sink_prefix;
use djaly_sidecar::multiplexer::Chunk;
use djaly_sidecar::multiplexer::LogEvent;
use djaly_sidecar::multiplexer::StreamKind;

#[test]
fn valid_bytes_decode_to_their_text() {
    let e = decode_chunk(StreamKind::Stdout, &b"ready on 8001".to_vec());
    assert_eq!(e.stream, StreamKind::Stdout);
    assert_eq!(e.text, "ready on 8001");
}

#[test]
fn invalid_bytes_are_replaced_not_rejected() {
    let e = decode_chunk(StreamKind::Stderr, &vec![0xff, b'o', b'k']);
    assert_eq!(e.stream, StreamKind::Stderr);
    assert_eq!(e.text, "\u{fffd}ok");
}

#[test]
fn multiplexer_keeps_operating_after_an_invalid_chunk() {
    let chunks = vec![
        Chunk {
            stream: StreamKind::Stdout,
            bytes: b"first".to_vec(),
        },
        Chunk {
            stream: StreamKind::Stdout,
            bytes: vec![0xc3, 0x28],
        },
        Chunk {
            stream: StreamKind::Stdout,
            bytes: b"last".to_vec(),
        },
    ];
    let events = multiplex(&chunks);
    assert_eq!(events.len(), 3);
    assert_eq!(events[0].text, "first");
    assert_eq!(events[1].text, "\u{fffd}(");
    assert_eq!(events[2].text, "last");
}

#[test]
fn per_channel_order_is_preserved_under_interleaving() {
    let chunks = vec![
        Chunk {
            stream: StreamKind::Stdout,
            bytes: b"A".to_vec(),
        },
        Chunk {
            stream: StreamKind::Stderr,
            bytes: b"x".to_vec(),
        },
        Chunk {
            stream: StreamKind::Stdout,
            bytes: b"B".to_vec(),
        },
        Chunk {
            stream: StreamKind::Stderr,
            bytes: b"y".to_vec(),
        },
        Chunk {
            stream: StreamKind::Stdout,
            bytes: b"C".to_vec(),
        },
    ];
    let events = multiplex(&chunks);
    let stdout_texts: Vec<&str> = events
        .iter()
        .filter(|e| e.stream == StreamKind::Stdout)
        .map(|e| e.text.as_str())
        .collect();
    let stderr_texts: Vec<&str> = events
        .iter()
        .filter(|e| e.stream == StreamKind::Stderr)
        .map(|e| e.text.as_str())
        .collect();
    assert_eq!(stdout_texts, vec!["A", "B", "C"]);
    assert_eq!(stderr_texts, vec!["x", "y"]);
}

#[test]
fn every_chunk_is_forwarded_with_its_channel_tag() {
    let chunks = vec![
        Chunk {
            stream: StreamKind::Stderr,
            bytes: b"warn".to_vec(),
        },
        Chunk {
            stream: StreamKind::Stdout,
            bytes: b"info".to_vec(),
        },
    ];
    let events = multiplex(&chunks);
    assert_eq!(events.len(), 2);
    assert_eq!(events[0].stream, StreamKind::Stderr);
    assert_eq!(events[1].stream, StreamKind::Stdout);
}

#[test]
fn incremental_forwarding_matches_the_chunks() {
    let mut mux = Multiplexer::new();
    let first = mux.forward(StreamKind::Stdout, &b"one".to_vec());
    assert_eq!(first.stream, StreamKind::Stdout);
    assert_eq!(first.text, "one");
    let second = mux.forward(StreamKind::Stderr, &vec![0xff]);
    assert_eq!(second.stream, StreamKind::Stderr);
    assert_eq!(second.text, "\u{fffd}");
    let third = mux.forward(StreamKind::Stdout, &b"two".to_vec());
    assert_eq!(third.stream, StreamKind::Stdout);
    assert_eq!(third.text, "two");
}

#[test]
fn prefixes_distinguish_the_two_channels() {
    assert_eq!(sink_prefix(StreamKind::Stdout), "[PY]: ");
    assert_eq!(sink_prefix(StreamKind::Stderr), "[PY ERR]: ");
}

#[test]
fn rendered_lines_carry_prefix_and_text() {
    let out = LogEvent {
        stream: StreamKind::Stdout,
        text: String::from("listening"),
    };
    let err = LogEvent {
        stream: StreamKind::Stderr,
        text: String::from("boom"),
    };
    assert_eq!(render_line(&out), "[PY]: listening");
    assert_eq!(render_line(&err), "[PY ERR]: boom");
}
