use tensorlake_cloud_sdk::event_source::DecodeOutcome;
use tensorlake_cloud_sdk::event_source::SseDecoder;

fn feed_bytes(dec: &mut SseDecoder, bytes: &[u8]) {
    let v: Vec<u8> = bytes.to_vec();
    dec.feed(&v);
}

#[test]
fn one_complete_frame_produces_one_event() {
    let mut dec = SseDecoder::new();
    feed_bytes(&mut dec, b"data: {\"request_id\":\"r1\"}\n");
    match dec.decode() {
        DecodeOutcome::Produced(payload) => {
            assert_eq!(payload, b"{\"request_id\":\"r1\"}".to_vec());
            let value: serde_json::Value = serde_json::from_slice(&payload).unwrap();
            assert_eq!(value["request_id"], serde_json::Value::String("r1".to_string()));
        }
        _ => panic!("expected a produced event"),
    }
    match dec.decode() {
        DecodeOutcome::NeedMoreData => {}
        _ => panic!("expected an empty buffer afterwards"),
    }
}

#[test]
fn split_mid_payload_waits_then_decodes() {
    let mut dec = SseDecoder::new();
    feed_bytes(&mut dec, b"data: {\"requ");
    match dec.decode() {
        DecodeOutcome::NeedMoreData => {}
        _ => panic!("expected to wait for more bytes"),
    }
    feed_bytes(&mut dec, b"est_id\":\"r1\"}\n");
    match dec.decode() {
        DecodeOutcome::Produced(payload) => {
            assert_eq!(payload, b"{\"request_id\":\"r1\"}".to_vec());
        }
        _ => panic!("expected a produced event after the rest arrived"),
    }
}

#[test]
fn keep_alive_line_is_skipped_without_error() {
    let mut dec = SseDecoder::new();
    feed_bytes(&mut dec, b": keep-alive\n");
    match dec.decode() {
        DecodeOutcome::NeedMoreData => {}
        _ => panic!("a non-data line must neither produce nor fail"),
    }
    match dec.decode() {
        DecodeOutcome::NeedMoreData => {}
        _ => panic!("the skipped line must be gone"),
    }
}

#[test]
fn malformed_frame_is_one_error_and_is_consumed() {
    let mut dec = SseDecoder::new();
    feed_bytes(&mut dec, b"data: not-json\n");
    match dec.decode() {
        DecodeOutcome::Error(e) => {
            assert!(!e.message.is_empty());
        }
        _ => panic!("expected an error for the malformed frame"),
    }
    // The frame was consumed: the next call finds an empty buffer.
    match dec.decode() {
        DecodeOutcome::NeedMoreData => {}
        _ => panic!("the malformed frame must not be retried"),
    }
}

#[test]
fn two_frames_in_one_chunk_come_out_in_order() {
    let mut dec = SseDecoder::new();
    feed_bytes(&mut dec, b"data: {\"a\":1}\ndata: {\"a\":2}\n");
    match dec.decode() {
        DecodeOutcome::Produced(payload) => assert_eq!(payload, b"{\"a\":1}".to_vec()),
        _ => panic!("expected the first event"),
    }
    match dec.decode() {
        DecodeOutcome::Produced(payload) => assert_eq!(payload, b"{\"a\":2}".to_vec()),
        _ => panic!("expected the second event"),
    }
    match dec.decode() {
        DecodeOutcome::NeedMoreData => {}
        _ => panic!("expected nothing after the second event"),
    }
}

#[test]
fn empty_buffer_decode_is_idempotent() {
    let mut dec = SseDecoder::new();
    for _ in 0..5 {
        match dec.decode() {
            DecodeOutcome::NeedMoreData => {}
            _ => panic!("an empty buffer must report that more data is needed"),
        }
    }
}

#[test]
fn payload_spanning_physical_lines_is_rejoined() {
    // The JSON value contains a newline between tokens, so the first
    // physical line alone is a truncated value.
    let mut dec = SseDecoder::new();
    feed_bytes(&mut dec, b"data: {\"a\":\n1}\n");
    match dec.decode() {
        DecodeOutcome::NeedMoreData => {}
        _ => panic!("the truncated first line must be kept"),
    }
    match dec.decode() {
        DecodeOutcome::Produced(payload) => {
            let value: serde_json::Value = serde_json::from_slice(&payload).unwrap();
            assert_eq!(value["a"], serde_json::Value::from(1));
        }
        _ => panic!("expected the rejoined value to decode"),
    }
}

#[test]
fn decode_all_collects_events_and_faults() {
    let mut dec = SseDecoder::new();
    feed_bytes(
        &mut dec,
        b"data: {\"a\":1}\n: keep-alive\ndata: nope\ndata: {\"a\":2}\ndata: {\"tail",
    );
    let (events, faults) = dec.decode_all();
    assert_eq!(events, vec![b"{\"a\":1}".to_vec(), b"{\"a\":2}".to_vec()]);
    assert_eq!(faults, 1);
    // The partial frame stays buffered and completes later.
    feed_bytes(&mut dec, b"\":3}\n");
    let (events, faults) = dec.decode_all();
    assert_eq!(events, vec![b"{\"tail\":3}".to_vec()]);
    assert_eq!(faults, 0);
}

#[test]
fn arbitrary_chunking_preserves_order() {
    let stream: &[u8] = b"data: {\"n\":1}\ndata: {\"n\":2}\ndata: {\"n\":3}\n";
    // Cut the same stream at every split point; the events never change.
    for cut in 0..=stream.len() {
        let mut dec = SseDecoder::new();
        feed_bytes(&mut dec, &stream[..cut]);
        let (mut events, faults_a) = dec.decode_all();
        feed_bytes(&mut dec, &stream[cut..]);
        let (more, faults_b) = dec.decode_all();
        events.extend(more);
        assert_eq!(faults_a + faults_b, 0, "cut at {cut}");
        assert_eq!(
            events,
            vec![b"{\"n\":1}".to_vec(), b"{\"n\":2}".to_vec(), b"{\"n\":3}".to_vec()],
            "cut at {cut}"
        );
    }
}

#[test]
fn unterminated_data_line_with_complete_value_is_produced() {
    let mut dec = SseDecoder::new();
    feed_bytes(&mut dec, b"data: {\"a\":1}");
    match dec.decode() {
        DecodeOutcome::Produced(payload) => assert_eq!(payload, b"{\"a\":1}".to_vec()),
        _ => panic!("a complete value needs no delimiter"),
    }
    match dec.decode() {
        DecodeOutcome::NeedMoreData => {}
        _ => panic!("the buffer must be cleared"),
    }
}

#[test]
fn partial_prefix_waits() {
    let mut dec = SseDecoder::new();
    feed_bytes(&mut dec, b"dat");
    match dec.decode() {
        DecodeOutcome::NeedMoreData => {}
        _ => panic!("a partial prefix cannot be judged yet"),
    }
    feed_bytes(&mut dec, b"a: {\"k\":\"v\"}\n");
    match dec.decode() {
        DecodeOutcome::Produced(payload) => assert_eq!(payload, b"{\"k\":\"v\"}".to_vec()),
        _ => panic!("expected the completed frame to decode"),
    }
}
