use postmark_client::{Attachment, ClientError, Email, OutboundEmailBody, TrackLink};

#[test]
fn test_email_request_builder() {
    let to = Email::parse("to@example.com").unwrap();
    let cc_email = Email::parse("cc@example.com").unwrap();
    let reply_to = Email::parse("reply@example.com").unwrap();

    let mut map = serde_json::Map::new();
    map.insert(
        "key".to_string(),
        serde_json::Value::String("value".to_string()),
    );
    let metadata = serde_json::Value::Object(map);

    let request = OutboundEmailBody::builder(to)
        .subject("Test Subject")
        .html_body("<p>HTML Content</p>")
        .text_body("Text Content")
        .cc(vec![cc_email])
        .reply_to(reply_to)
        .tag("test-tag")
        .track_opens(false)
        .track_links(TrackLink::HtmlOnly)
        .metadata(metadata)
        .build();

    assert_eq!(request.subject(), Some("Test Subject"));
    assert_eq!(request.to().as_str(), "to@example.com");
    assert_eq!(request.cc().unwrap()[0].as_str(), "cc@example.com");
    assert_eq!(request.reply_to().unwrap().as_str(), "reply@example.com");
    assert_eq!(request.tag(), Some("test-tag"));
    assert!(!request.track_opens());
    assert!(matches!(request.track_links(), TrackLink::HtmlOnly));
}

#[test]
fn message_builder_defaults() {
    let to = Email::parse("to@example.com").unwrap();
    let message = OutboundEmailBody::builder(to).build();
    assert!(message.subject().is_none());
    assert!(message.cc().is_none());
    assert!(message.bcc().is_none());
    assert!(message.tag().is_none());
    assert!(message.html_body().is_none());
    assert!(message.text_body().is_none());
    assert!(message.reply_to().is_none());
    assert!(message.metadata().is_none());
    assert!(message.track_opens());
    assert!(matches!(message.track_links(), TrackLink::HtmlAndText));
    assert!(message.attachments().is_none());
}

#[test]
fn message_builder_setters_overwrite() {
    let to = Email::parse("to@example.com").unwrap();
    let message = OutboundEmailBody::builder(to)
        .subject("first")
        .subject("second")
        .build();
    assert_eq!(message.subject(), Some("second"));
}

#[test]
fn track_link_wire_tags() {
    assert_eq!(TrackLink::NoTracking.as_str(), "None");
    assert_eq!(TrackLink::HtmlAndText.as_str(), "HtmlAndText");
    assert_eq!(TrackLink::HtmlOnly.as_str(), "HtmlOnly");
    assert_eq!(TrackLink::TextOnly.as_str(), "TextOnly");
}

#[test]
fn attachment_content_is_base64_never_raw() {
    let attachment = Attachment::builder()
        .name("letter.txt")
        .content(vec![b'a', b'b', b'c'])
        .content_type("text/plain")
        .build()
        .unwrap();
    assert_eq!(attachment.content(), "YWJj");
    assert_eq!(attachment.name(), "letter.txt");
    assert_eq!(attachment.content_type(), "text/plain");
    assert!(attachment.content_id().is_none());
}

#[test]
fn attachment_builder_requires_each_field() {
    let missing_name = Attachment::builder()
        .content(vec![1])
        .content_type("text/plain")
        .build();
    match missing_name {
        Err(ClientError::Configuration(m)) => assert_eq!(m, "attachment name is required"),
        other => panic!("unexpected result: {:?}", other),
    }

    let missing_content = Attachment::builder()
        .name("a")
        .content_type("text/plain")
        .build();
    match missing_content {
        Err(ClientError::Configuration(m)) => assert_eq!(m, "attachment content is required"),
        other => panic!("unexpected result: {:?}", other),
    }

    let missing_type = Attachment::builder().name("a").content(vec![1]).build();
    match missing_type {
        Err(ClientError::Configuration(m)) => {
            assert_eq!(m, "attachment content type is required")
        }
        other => panic!("unexpected result: {:?}", other),
    }
}

#[test]
fn attachment_from_png_file_gets_png_mime_type() {
    let attachment = Attachment::from_file_bytes("pic", "photo.png", vec![1, 2, 3]).unwrap();
    assert_eq!(attachment.content_type(), "image/png");
    assert_eq!(attachment.content(), "AQID");
}

#[test]
fn attachment_from_unknown_extension_falls_back_to_octet_stream() {
    let attachment = Attachment::from_file_bytes("blob", "data.zzzz", vec![0]).unwrap();
    assert_eq!(attachment.content_type(), "application/octet-stream");
}

#[test]
fn attachment_from_file_without_extension_fails() {
    let result = Attachment::from_file_bytes("m", "Makefile", vec![0]);
    match result {
        Err(ClientError::Configuration(m)) => assert_eq!(m, "Invalid file extension"),
        other => panic!("unexpected result: {:?}", other),
    }
    assert!(Attachment::from_file_bytes("h", "dir.d/hidden", vec![0]).is_err());
    assert!(Attachment::from_file_bytes("g", "a/.gitignore", vec![0]).is_err());
}
