use webhook_ingest::body::assemble_body;
use webhook_ingest::dispatch::{dispatch, ingest, PayloadError};
use webhook_ingest::model::{Entry, EventBatch, Hub, Message, MessagingEvent, Sender};
use webhook_ingest::response::greeting;
use webhook_ingest::secret::{trim_secret, SecretLoad};
use webhook_ingest::verify::verify;

fn hub(mode: Option<&str>, token: Option<&str>, challenge: &str) -> Hub {
    Hub {
        mode: mode.map(|s| s.to_string()),
        token: token.map(|s| s.to_string()),
        challenge: challenge.to_string(),
    }
}

fn event(sender: &str, text: &str) -> MessagingEvent {
    MessagingEvent {
        sender: Sender { id: sender.to_string() },
        message: Message { mid: String::new(), seq: 0, text: text.to_string() },
    }
}

/// Decodes JSON bytes into an event batch, the way the hosting layer does
/// for both body-acquisition strategies.
fn decode(bytes: &[u8]) -> Result<EventBatch, PayloadError> {
    let text = std::str::from_utf8(bytes).map_err(|_| PayloadError::InvalidUtf8)?;
    let value: serde_json::Value =
        serde_json::from_str(text).map_err(|_| PayloadError::MalformedStructure)?;
    let object = value
        .get("object")
        .and_then(|o| o.as_str())
        .ok_or(PayloadError::MalformedStructure)?
        .to_string();
    let mut entry = Vec::new();
    let entries = value
        .get("entry")
        .and_then(|e| e.as_array())
        .ok_or(PayloadError::MalformedStructure)?;
    for e in entries {
        let mut messaging = Vec::new();
        let events = e
            .get("messaging")
            .and_then(|m| m.as_array())
            .ok_or(PayloadError::MalformedStructure)?;
        for ev in events {
            let sender = ev
                .get("sender")
                .and_then(|s| s.get("id"))
                .and_then(|s| s.as_str())
                .ok_or(PayloadError::MalformedStructure)?
                .to_string();
            let message = ev.get("message").ok_or(PayloadError::MalformedStructure)?;
            let text = message
                .get("text")
                .and_then(|t| t.as_str())
                .ok_or(PayloadError::MalformedStructure)?
                .to_string();
            let mid = message
                .get("mid")
                .and_then(|m| m.as_str())
                .unwrap_or("")
                .to_string();
            let seq = message.get("seq").and_then(|s| s.as_i64()).unwrap_or(0) as i32;
            messaging.push(MessagingEvent {
                sender: Sender { id: sender },
                message: Message { mid, seq, text },
            });
        }
        entry.push(Entry { messaging });
    }
    Ok(EventBatch { object, entry })
}

#[test]
fn verification_echoes_challenge_on_match() {
    let h = hub(Some("subscribe"), Some("sesame"), "challenge-77");
    let r = verify(&h, &SecretLoad::Loaded("sesame".to_string()));
    assert_eq!(r.status, 200);
    assert_eq!(r.body, "challenge-77");
}

#[test]
fn verification_trims_the_stored_secret() {
    let h = hub(Some("subscribe"), Some("sesame"), "C");
    let r = verify(&h, &SecretLoad::Loaded("  sesame\r\n".to_string()));
    assert_eq!(r.status, 200);
    assert_eq!(r.body, "C");
}

#[test]
fn verification_denies_wrong_token() {
    let h = hub(Some("subscribe"), Some("guess"), "C");
    let r = verify(&h, &SecretLoad::Loaded("sesame".to_string()));
    assert_eq!(r.status, 403);
    assert_eq!(r.body, "");
}

#[test]
fn verification_denies_wrong_mode() {
    let h = hub(Some("unsubscribe"), Some("sesame"), "C");
    let r = verify(&h, &SecretLoad::Loaded("sesame".to_string()));
    assert_eq!(r.status, 403);
}

#[test]
fn verification_denies_missing_mode() {
    let h = hub(None, Some("sesame"), "C");
    let r = verify(&h, &SecretLoad::Loaded("sesame".to_string()));
    assert_eq!(r.status, 403);
}

#[test]
fn verification_denies_missing_token() {
    let h = hub(Some("subscribe"), None, "C");
    let r = verify(&h, &SecretLoad::Loaded("sesame".to_string()));
    assert_eq!(r.status, 403);
}

#[test]
fn verification_fails_closed_without_secret() {
    let h = hub(Some("subscribe"), Some("sesame"), "C");
    let r = verify(&h, &SecretLoad::Unavailable);
    assert_eq!(r.status, 403);
    assert_eq!(r.body, "");
}

#[test]
fn trimming_removes_surrounding_whitespace_only() {
    assert_eq!(trim_secret("\t two words \n"), "two words");
    assert_eq!(trim_secret("bare"), "bare");
    assert_eq!(trim_secret(" \n\t "), "");
}

#[test]
fn page_batch_is_acknowledged() {
    let batch = EventBatch {
        object: "page".to_string(),
        entry: vec![Entry { messaging: vec![event("42", "hello")] }],
    };
    let out = dispatch(&batch);
    assert_eq!(out.response.status, 200);
    assert_eq!(out.response.body, "EVENT_RECEIVED");
    assert_eq!(out.emitted.len(), 1);
    assert_eq!(out.emitted[0].sender, "42");
    assert_eq!(out.emitted[0].text, "hello");
}

#[test]
fn empty_page_batch_is_acknowledged() {
    let batch = EventBatch { object: "page".to_string(), entry: Vec::new() };
    let out = dispatch(&batch);
    assert_eq!(out.response.status, 200);
    assert_eq!(out.response.body, "EVENT_RECEIVED");
    assert!(out.emitted.is_empty());
}

#[test]
fn non_page_batch_is_not_applicable() {
    let batch = EventBatch {
        object: "user".to_string(),
        entry: vec![Entry { messaging: vec![event("42", "hello")] }],
    };
    let out = dispatch(&batch);
    assert_eq!(out.response.status, 404);
    assert_eq!(out.response.body, "");
    assert!(out.emitted.is_empty());
}

#[test]
fn only_first_event_of_each_entry_is_emitted() {
    let batch = EventBatch {
        object: "page".to_string(),
        entry: vec![
            Entry { messaging: vec![event("1", "first"), event("2", "second"), event("3", "third")] },
            Entry { messaging: Vec::new() },
            Entry { messaging: vec![event("4", "fourth"), event("5", "fifth")] },
        ],
    };
    let out = dispatch(&batch);
    assert_eq!(out.response.status, 200);
    assert_eq!(out.emitted.len(), 2);
    assert_eq!(out.emitted[0].sender, "1");
    assert_eq!(out.emitted[0].text, "first");
    assert_eq!(out.emitted[1].sender, "4");
    assert_eq!(out.emitted[1].text, "fourth");
}

#[test]
fn both_acquisition_strategies_agree() {
    let bytes: &[u8] = br#"{"object":"page","entry":[{"messaging":[{"sender":{"id":"9"},"message":{"mid":"m-1","seq":7,"text":"hey"}}]}]}"#;

    // Pre-decoded: the bytes were already buffered and decoded upstream.
    let pre = ingest(decode(bytes));

    // Streamed: the chunks arrive one by one and are assembled first.
    let chunks: Vec<Vec<u8>> = bytes.chunks(13).map(|c| c.to_vec()).collect();
    let assembled = assemble_body(&chunks);
    assert_eq!(assembled, bytes);
    let streamed = ingest(decode(&assembled));

    assert_eq!(pre.response.status, streamed.response.status);
    assert_eq!(pre.response.body, streamed.response.body);
    assert_eq!(pre.response.status, 200);
    assert_eq!(pre.response.body, "EVENT_RECEIVED");
    assert_eq!(pre.emitted.len(), streamed.emitted.len());
}

#[test]
fn assembling_keeps_arrival_order() {
    let chunks: Vec<Vec<u8>> = vec![b"ab".to_vec(), Vec::new(), b"cde".to_vec(), b"f".to_vec()];
    assert_eq!(assemble_body(&chunks), b"abcdef");
    assert_eq!(assemble_body(&Vec::new()), Vec::<u8>::new());
}

#[test]
fn malformed_body_yields_client_error_and_service_survives() {
    let outcome = decode(b"{\"object\": oops");
    assert_eq!(outcome.as_ref().err(), Some(&PayloadError::MalformedStructure));
    let out = ingest(outcome);
    assert_eq!(out.response.status, 400);
    assert_eq!(out.response.body, "");
    assert!(out.emitted.is_empty());

    // The same dispatcher still serves the next request.
    let next = ingest(decode(br#"{"object":"page","entry":[]}"#));
    assert_eq!(next.response.status, 200);
    assert_eq!(next.response.body, "EVENT_RECEIVED");
}

#[test]
fn invalid_utf8_yields_client_error() {
    let out = ingest(decode(&[0xff, 0xfe, b'{']));
    assert_eq!(out.response.status, 400);
}

#[test]
fn stream_failure_yields_client_error() {
    let out = ingest(Err(PayloadError::StreamFailed));
    assert_eq!(out.response.status, 400);
    assert!(out.emitted.is_empty());
}

#[test]
fn documented_examples() {
    let ok = ingest(decode(
        br#"{"object":"page","entry":[{"messaging":[{"sender":{"id":"123"},"message":{"text":"hi"}}]}]}"#,
    ));
    assert_eq!(ok.response.status, 200);
    assert_eq!(ok.response.body, "EVENT_RECEIVED");
    assert_eq!(ok.emitted.len(), 1);
    assert_eq!(ok.emitted[0].sender, "123");
    assert_eq!(ok.emitted[0].text, "hi");

    let other = ingest(decode(br#"{"object":"group","entry":[]}"#));
    assert_eq!(other.response.status, 404);
    assert_eq!(other.response.body, "");
}

#[test]
fn greeting_is_fixed() {
    assert_eq!(greeting(), "Hello world!");
}
