use postmark_client::wire::{map_request, request_body};
use postmark_client::{Attachment, Email, OutboundEmailBody};

fn sender() -> Email {
    Email::parse("from@example.com").unwrap()
}

#[test]
fn mapped_request_has_expected_fields_and_no_absent_ones() {
    let to = Email::parse("r@example.com").unwrap();
    let cc = Email::parse("c@example.com").unwrap();
    let message = OutboundEmailBody::builder(to)
        .subject("Hi")
        .html_body("<p>x</p>")
        .cc(vec![cc])
        .build();

    let body = request_body(&sender(), &message, &None);
    assert_eq!(
        body,
        "{\"From\":\"from@example.com\",\"To\":\"r@example.com\",\"Cc\":[\"c@example.com\"],\
         \"Subject\":\"Hi\",\"HtmlBody\":\"<p>x</p>\",\"TrackOpens\":true,\
         \"TrackLinks\":\"HtmlAndText\"}"
    );
    assert!(!body.contains("Bcc"));
    assert!(!body.contains("Tag"));
    assert!(!body.contains("ReplyTo"));
    assert!(!body.contains("Metadata"));
    assert!(!body.contains("Attachments"));
}

#[test]
fn mapped_request_escapes_string_content() {
    let to = Email::parse("r@example.com").unwrap();
    let message = OutboundEmailBody::builder(to)
        .subject("He said \"hi\"\\now\n")
        .build();
    let body = request_body(&sender(), &message, &None);
    assert_eq!(
        body,
        "{\"From\":\"from@example.com\",\"To\":\"r@example.com\",\
         \"Subject\":\"He said \\\"hi\\\"\\\\now\\n\",\"TrackOpens\":true,\
         \"TrackLinks\":\"HtmlAndText\"}"
    );
}

#[test]
fn mapped_request_body_is_valid_json() {
    let to = Email::parse("r@example.com").unwrap();
    let message = OutboundEmailBody::builder(to)
        .subject("tab\there")
        .text_body("line\r\nbreak")
        .build();
    let body = request_body(&sender(), &message, &None);
    let parsed: serde_json::Value = serde_json::from_str(&body).unwrap();
    assert_eq!(
        parsed.get("Subject").unwrap().as_str().unwrap(),
        "tab\there"
    );
    assert_eq!(
        parsed.get("TextBody").unwrap().as_str().unwrap(),
        "line\r\nbreak"
    );
}

#[test]
fn mapped_request_includes_serialized_metadata() {
    let to = Email::parse("r@example.com").unwrap();
    let mut map = serde_json::Map::new();
    map.insert(
        "key".to_string(),
        serde_json::Value::String("value".to_string()),
    );
    let message = OutboundEmailBody::builder(to)
        .metadata(serde_json::Value::Object(map))
        .build();
    let body = map_request(&sender(), &message).unwrap();
    assert!(body.contains("\"Metadata\":{\"key\":\"value\"}"));
}

#[test]
fn mapped_request_lists_attachments_in_order() {
    let to = Email::parse("r@example.com").unwrap();
    let first = Attachment::builder()
        .name("a.txt")
        .content(vec![b'a'])
        .content_type("text/plain")
        .build()
        .unwrap();
    let second = Attachment::builder()
        .name("b.bin")
        .content(vec![0])
        .content_type("application/octet-stream")
        .content_id("cid:1")
        .build()
        .unwrap();
    let message = OutboundEmailBody::builder(to)
        .attachments(vec![first, second])
        .build();
    let body = request_body(&sender(), &message, &None);
    assert!(body.contains(
        "\"Attachments\":[{\"Name\":\"a.txt\",\"Content\":\"YQ==\",\
         \"ContentType\":\"text/plain\"},{\"Name\":\"b.bin\",\"Content\":\"AA==\",\
         \"ContentType\":\"application/octet-stream\",\"ContentID\":\"cid:1\"}]"
    ));
}

#[test]
fn empty_cc_and_bcc_lists_are_not_emitted() {
    let to = Email::parse("r@example.com").unwrap();
    let with_empty = OutboundEmailBody::builder(to)
        .subject("Hi")
        .cc(Vec::new())
        .bcc(Vec::new())
        .build();
    let body = request_body(&sender(), &with_empty, &None);
    assert!(!body.contains("Cc"));
    assert!(!body.contains("Bcc"));

    let to = Email::parse("r@example.com").unwrap();
    let without = OutboundEmailBody::builder(to).subject("Hi").build();
    assert_eq!(body, request_body(&sender(), &without, &None));
}

#[test]
fn mapped_request_emits_bcc_and_reply_to_when_present() {
    let to = Email::parse("r@example.com").unwrap();
    let bcc = Email::parse("b@example.com").unwrap();
    let reply = Email::parse("reply@example.com").unwrap();
    let message = OutboundEmailBody::builder(to)
        .bcc(vec![bcc])
        .reply_to(reply)
        .tag("newsletter")
        .track_opens(false)
        .build();
    let body = request_body(&sender(), &message, &None);
    assert!(body.contains("\"Bcc\":[\"b@example.com\"]"));
    assert!(body.contains("\"ReplyTo\":\"reply@example.com\""));
    assert!(body.contains("\"Tag\":\"newsletter\""));
    assert!(body.contains("\"TrackOpens\":false"));
}
