use mail_composer::email::{
    decode_attachments, decoded_attachment, prepare_email, AttachmentPayload, DecodedAttachment,
    EmailComposerData,
};
use mail_composer::error::ErrorKind;
use mail_composer::settings::{Settings, Slot};

fn att(name: &str, content: &str) -> AttachmentPayload {
    AttachmentPayload { filename: name.to_string(), content: content.to_string() }
}

fn request(attachments: Vec<AttachmentPayload>) -> EmailComposerData {
    EmailComposerData {
        from: "me@example.com".to_string(),
        to: vec!["you@example.com".to_string()],
        subject: "Hi".to_string(),
        cc: vec!["c@example.com".to_string()],
        bcc: vec![],
        reply_to: Some("r@example.com".to_string()),
        content: "<p>hello</p>".to_string(),
        message_id: Some("<m1@example.com>".to_string()),
        attachments,
    }
}

fn configured() -> Settings {
    let mut st = Settings::new();
    st.save_api_key("re_key".to_string());
    st
}

#[test]
fn send_without_key_is_unconfigured() {
    let st = Settings::new();
    assert_eq!(prepare_email(&st, request(vec![])), Err(ErrorKind::Unconfigured));
}

#[test]
fn send_with_malformed_key_is_type_mismatch() {
    let mut st = Settings::new();
    st.api_key = Slot::Malformed;
    assert_eq!(prepare_email(&st, request(vec![])), Err(ErrorKind::TypeMismatch));
}

#[test]
fn send_with_bad_attachment_names_file() {
    let st = configured();
    let r = prepare_email(
        &st,
        request(vec![att("ok.txt", "aGk="), att("bad.bin", "%%%not base64"), att("x", "!!")]),
    );
    assert_eq!(r, Err(ErrorKind::AttachmentDecode { filename: "bad.bin".to_string() }));
}

#[test]
fn send_builds_message() {
    let st = configured();
    let m = prepare_email(&st, request(vec![att("hello.txt", "aGVsbG8=")])).unwrap();
    assert_eq!(m.api_key, "re_key");
    assert_eq!(m.from, "me@example.com");
    assert_eq!(m.to, vec!["you@example.com".to_string()]);
    assert_eq!(m.subject, "Hi");
    assert_eq!(m.html, "<p>hello</p>");
    assert_eq!(m.cc, vec!["c@example.com".to_string()]);
    assert!(m.bcc.is_empty());
    assert_eq!(m.reply_to, Some("r@example.com".to_string()));
    assert_eq!(m.in_reply_to, Some("<m1@example.com>".to_string()));
    assert_eq!(
        m.attachments,
        vec![DecodedAttachment { filename: "hello.txt".to_string(), bytes: b"hello".to_vec() }]
    );
}

#[test]
fn decode_attachments_decodes_each() {
    let r = decode_attachments(&vec![att("a", "aGk="), att("b", "")]).unwrap();
    assert_eq!(r[0].bytes, b"hi".to_vec());
    assert!(r[1].bytes.is_empty());
}

#[test]
fn decoded_attachment_from_outcome() {
    let a = att("f.pdf", "ignored");
    assert_eq!(
        decoded_attachment(&a, Some(vec![1, 2])),
        Ok(DecodedAttachment { filename: "f.pdf".to_string(), bytes: vec![1, 2] })
    );
    assert_eq!(
        decoded_attachment(&a, None),
        Err(ErrorKind::AttachmentDecode { filename: "f.pdf".to_string() })
    );
}
