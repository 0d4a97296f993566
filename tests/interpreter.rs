use email_lib::interpreter::{FilterHeaders, FilterParts, InterpreterError, MimeBodyInterpreter, MimeInterpreterBuilder};
use mail_builder::MessageBuilder;

fn msg_builder() -> MessageBuilder<'static> {
    MessageBuilder::new()
        .message_id("id@localhost")
        .in_reply_to("reply-id@localhost")
        .date(0 as u64)
        .from("from@localhost")
        .to("to@localhost")
        .subject("subject")
        .text_body("Hello, world!")
}

fn bytes(builder: MessageBuilder<'_>) -> Vec<u8> {
    builder.write_to_vec().unwrap()
}

fn headers(names: &[&str]) -> Vec<String> {
    names.iter().map(|n| n.to_string()).collect()
}

#[test]
fn only_headers() {
    let mml = MimeInterpreterBuilder::new()
        .with_show_only_headers(headers(&["From", "Subject"]))
        .build()
        .from_bytes(&bytes(msg_builder()))
        .unwrap();

    assert_eq!(mml, "From: from@localhost\nSubject: subject\n\nHello, world!\n");
}

#[test]
fn only_headers_duplicated() {
    let mml = MimeInterpreterBuilder::new()
        .with_show_only_headers(headers(&["From", "Subject", "From"]))
        .build()
        .from_bytes(&bytes(msg_builder()))
        .unwrap();

    assert_eq!(mml, "From: from@localhost\nSubject: subject\n\nHello, world!\n");
}

#[test]
fn no_headers() {
    let mml = MimeInterpreterBuilder::new()
        .with_hide_all_headers()
        .build()
        .from_bytes(&bytes(msg_builder()))
        .unwrap();

    assert_eq!(mml, "Hello, world!\n");
}

#[test]
fn mml_markup_escaped() {
    let msg_builder = MessageBuilder::new()
        .message_id("id@localhost")
        .in_reply_to("reply-id@localhost")
        .date(0 as u64)
        .from("from@localhost")
        .to("to@localhost")
        .subject("subject")
        .text_body("<#part>Should be escaped.<#/part>");

    let mml = MimeInterpreterBuilder::new()
        .with_show_only_headers(headers(&["From", "Subject"]))
        .build()
        .from_bytes(&bytes(msg_builder))
        .unwrap();

    assert_eq!(
        mml,
        "From: from@localhost\nSubject: subject\n\n<#!part>Should be escaped.<#!/part>\n"
    );
}

#[test]
fn excluded_headers_keep_message_order() {
    let mml = MimeInterpreterBuilder::new()
        .with_show_headers(FilterHeaders::Exclude(headers(&[
            "Message-ID",
            "In-Reply-To",
            "Date",
            "Content-Type",
            "Content-Transfer-Encoding",
            "MIME-Version",
        ])))
        .build()
        .from_bytes(&bytes(msg_builder()))
        .unwrap();

    assert_eq!(mml, "From: from@localhost\nTo: to@localhost\nSubject: subject\n\nHello, world!\n");
}

#[test]
fn include_order_is_the_list_order() {
    let mml = MimeInterpreterBuilder::new()
        .with_show_only_headers(headers(&["Subject", "X-Missing", "To"]))
        .build()
        .from_bytes(&bytes(msg_builder()))
        .unwrap();

    assert_eq!(mml, "Subject: subject\nTo: to@localhost\n\nHello, world!\n");
}

#[test]
fn address_display_name_wins() {
    let builder = MessageBuilder::new()
        .from(("Alice", "alice@localhost"))
        .to("bob@localhost")
        .subject("hi")
        .text_body("Line one\r\nLine two\r\n\r\n");
    let mml = MimeInterpreterBuilder::new()
        .with_show_only_headers(headers(&["From", "To"]))
        .build()
        .from_bytes(&bytes(builder))
        .unwrap();

    assert_eq!(mml, "From: Alice\nTo: bob@localhost\n\nLine one\nLine two\n");
}

#[test]
fn unparsable_message_is_an_error() {
    let r = MimeInterpreterBuilder::new().build().from_bytes(b"");
    assert_eq!(r, Err(InterpreterError::ParseRawEmailError));
}

#[test]
fn additional_headers_extend_the_include_list() {
    let b = MimeInterpreterBuilder::new()
        .with_show_only_headers(headers(&["From"]))
        .with_show_additional_headers(headers(&["Subject", "From", "Subject"]));
    assert_eq!(b.show_headers, FilterHeaders::Include(headers(&["From", "Subject"])));

    let b = MimeInterpreterBuilder::new().with_show_additional_headers(headers(&["To", "To"]));
    assert_eq!(b.show_headers, FilterHeaders::Include(headers(&["To"])));
}

#[test]
fn filter_headers_contains() {
    assert!(!FilterHeaders::All.contains(&"From".to_string()));
    assert!(FilterHeaders::Include(headers(&["From"])).contains(&"From".to_string()));
    assert!(!FilterHeaders::Exclude(headers(&["From"])).contains(&"From".to_string()));
    assert!(FilterHeaders::Exclude(headers(&["From"])).contains(&"To".to_string()));
}

#[test]
fn build_keeps_every_option() {
    let i = MimeInterpreterBuilder::new()
        .with_show_multiparts(true)
        .with_filter_parts(FilterParts::Only("text/html".into()))
        .with_save_attachments_dir("/tmp/att".into())
        .with_show_only_headers(headers(&["From"]))
        .with_hide_all_headers()
        .build();
    assert_eq!(i.show_headers, FilterHeaders::Include(vec![]));
    assert_eq!(
        i.mime_body_interpreter,
        MimeBodyInterpreter {
            show_multiparts: true,
            filter_parts: FilterParts::Only("text/html".into()),
            show_plain_texts_signature: true,
            show_attachments: true,
            show_inline_attachments: true,
            save_attachments: false,
            save_attachments_dir: Some("/tmp/att".into()),
        }
    );
}
