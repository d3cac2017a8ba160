use base64::Engine;
use rf_snapshot_relay::config::{load_config, Config, WebhookTargets};
use rf_snapshot_relay::pipeline::{
    delivered, passes_filter, posts_after_fetch, posts_for_snapshot, snapshot_to_fetch, Post,
    RfReading, Telemetry,
};
use rf_snapshot_relay::push::push_body;
use rf_snapshot_relay::text::same_text;

fn config(rf_code: Option<&str>, chat: bool, push: bool) -> Config {
    let mut pairs = vec![
        ("MQTT_ID", "relay"),
        ("MQTT_HOST", "broker.local"),
        ("MQTT_TOPIC", "tele/rf/RESULT"),
        ("CAMERA_URL", "http://cam.local/snapshot.jpg"),
        ("DISCORD_MESSAGE", "Doorbell"),
    ];
    if chat {
        pairs.push(("DISCORD_URL", "https://chat.example/hook"));
    }
    if push {
        pairs.push(("GOTIFY_URL", "https://push.example/message"));
    }
    if let Some(code) = rf_code {
        pairs.push(("RF_CODE", code));
    }
    let vars: Vec<(String, String)> = pairs
        .iter()
        .map(|(k, v)| (k.to_string(), v.to_string()))
        .collect();
    load_config(&vars).unwrap()
}

fn telemetry(code: &str) -> Telemetry {
    Telemetry {
        time: "2024-02-03T23:16:58".to_string(),
        rf: RfReading {
            code: code.to_string(),
            bits: serde_json::Number::from(24u64),
            protocol: serde_json::Number::from(1u64),
            pulse: serde_json::Number::from(200u64),
        },
    }
}

fn count_chat_and_push(posts: &[Post]) -> (usize, usize) {
    let chat = posts.iter().filter(|p| matches!(p, Post::Chat(_))).count();
    (chat, posts.len() - chat)
}

#[test]
fn matching_code_fetches_once_and_posts_to_each_webhook() {
    let c = config(Some("0xE0F118"), true, true);
    let url = snapshot_to_fetch(&c, &Ok(telemetry("0xE0F118")));
    assert_eq!(url.as_deref(), Some("http://cam.local/snapshot.jpg"));
    let posts = posts_after_fetch(&c.webhooks, &Ok(vec![0xFF, 0xD8, 0xFF, 0xE0]));
    assert_eq!(count_chat_and_push(&posts), (1, 1));
}

#[test]
fn other_code_is_filtered_out() {
    let c = config(Some("0xDEADBEEF"), true, true);
    assert!(snapshot_to_fetch(&c, &Ok(telemetry("0xE0F118"))).is_none());
}

#[test]
fn payload_missing_fields_is_dropped() {
    let payload = r#"{"Time":"x","RfReceived":{"Data":"0xAA"}}"#;
    let value: serde_json::Value = serde_json::from_str(payload).unwrap();
    assert!(value["RfReceived"].get("Bits").is_none());
    let c = config(None, true, true);
    let decoded: Result<Telemetry, String> = Err("missing field `Bits`".to_string());
    assert!(snapshot_to_fetch(&c, &decoded).is_none());
}

#[test]
fn without_filter_every_record_fetches() {
    let c = config(None, true, false);
    for code in ["0xAA", "0xE0F118", ""] {
        let url = snapshot_to_fetch(&c, &Ok(telemetry(code)));
        assert_eq!(url.as_deref(), Some("http://cam.local/snapshot.jpg"));
    }
}

#[test]
fn filter_is_exact() {
    let f = Some("0xE0F118".to_string());
    assert!(passes_filter(&f, &"0xE0F118".to_string()));
    assert!(!passes_filter(&f, &"0xe0f118".to_string()));
    assert!(!passes_filter(&f, &"0xE0F1180".to_string()));
    assert!(!passes_filter(&f, &" 0xE0F118".to_string()));
    assert!(passes_filter(&None, &"anything".to_string()));
    assert!(same_text("é", "é"));
    assert!(!same_text("ab", "abc"));
}

#[test]
fn both_posts_carry_the_same_message_and_image() {
    let c = config(None, true, true);
    let image: Vec<u8> = (0u8..=255).collect();
    let posts = posts_for_snapshot(&c.webhooks, &image);
    assert_eq!(posts.len(), 2);
    match &posts[0] {
        Post::Chat(chat) => {
            assert_eq!(chat.url, "https://chat.example/hook");
            assert_eq!(chat.text_field, "content");
            assert_eq!(chat.content, "Doorbell");
            assert_eq!(chat.file_field, "files[0]");
            assert_eq!(chat.file_name, "files.jpg");
            assert_eq!(chat.mime, "image/jpeg");
            assert_eq!(chat.image, image);
        }
        Post::Push(_) => panic!("the chat post comes first"),
    }
    match &posts[1] {
        Post::Push(push) => {
            assert_eq!(push.url, "https://push.example/message");
            assert_eq!(push.body, push_body("Doorbell", &image));
            assert!(push.body.contains("\"title\": \"Doorbell\""));
        }
        Post::Chat(_) => panic!("the push post comes second"),
    }
}

#[test]
fn single_webhook_gets_single_post() {
    let targets = WebhookTargets {
        chat_url: None,
        push_url: Some("https://push.example/message".to_string()),
        camera_url: "http://cam".to_string(),
        message: "m".to_string(),
    };
    let posts = posts_for_snapshot(&targets, &vec![1, 2, 3]);
    assert_eq!(count_chat_and_push(&posts), (0, 1));
    let c = config(None, true, false);
    let posts = posts_for_snapshot(&c.webhooks, &vec![1, 2, 3]);
    assert_eq!(count_chat_and_push(&posts), (1, 0));
}

#[test]
fn failed_fetch_posts_nothing() {
    let c = config(None, true, true);
    let posts = posts_after_fetch(&c.webhooks, &Err("connection refused".to_string()));
    assert!(posts.is_empty());
}

#[test]
fn push_body_layout() {
    let body = push_body("Doorbell", b"abc");
    assert_eq!(
        body,
        "{\"message\": \"![](data:image/jpg;base64,YWJj)\", \"title\": \"Doorbell\", \"priority\": 5, \"extras\": {\"client::display\": {\"contentType\": \"text/markdown\"}, \"client::notification\": {\"bigImageUrl\": \"data:image/jpg;base64,YWJj\"}}}"
    );
    let value: serde_json::Value = serde_json::from_str(&body).unwrap();
    assert_eq!(value["priority"], 5);
    assert_eq!(value["title"], "Doorbell");
    assert_eq!(push_body("", b""), "{\"message\": \"![](data:image/jpg;base64,)\", \"title\": \"\", \"priority\": 5, \"extras\": {\"client::display\": {\"contentType\": \"text/markdown\"}, \"client::notification\": {\"bigImageUrl\": \"data:image/jpg;base64,\"}}}");
}

#[test]
fn push_body_round_trips_the_image() {
    let image: Vec<u8> = (0..1000u32).map(|i| (i * 7 % 256) as u8).collect();
    let body = push_body("Front door", &image);
    let value: serde_json::Value = serde_json::from_str(&body).unwrap();
    let embed = value["message"].as_str().unwrap();
    let inner = embed
        .strip_prefix("![](data:image/jpg;base64,")
        .and_then(|s| s.strip_suffix(')'))
        .unwrap();
    let big = value["extras"]["client::notification"]["bigImageUrl"]
        .as_str()
        .unwrap()
        .strip_prefix("data:image/jpg;base64,")
        .unwrap();
    let engine = base64::engine::general_purpose::STANDARD;
    assert_eq!(engine.decode(inner).unwrap(), image);
    assert_eq!(engine.decode(big).unwrap(), image);
}

#[test]
fn delivery_statuses_differ_by_webhook() {
    let c = config(None, true, true);
    let posts = posts_for_snapshot(&c.webhooks, &vec![9]);
    let (chat, push) = (&posts[0], &posts[1]);
    assert!(delivered(chat, 200));
    assert!(delivered(chat, 204));
    assert!(!delivered(chat, 201));
    assert!(!delivered(chat, 500));
    assert!(delivered(push, 200));
    assert!(!delivered(push, 204));
    assert!(!delivered(push, 404));
}
