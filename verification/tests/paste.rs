use roder_tui::paste::{
    expand_home_path, hex_value, image_attachments_from_paste, image_data_url,
    image_path_candidate, image_path_from_token, is_image_path, mime_type_for_image_path,
    path_from_file_uri, percent_decode, shell_escape_char, shell_like_tokens,
    transcript_message_with_image_attachments, ImageAttachment,
};

fn none_on_disk() -> Vec<String> {
    Vec::new()
}

#[test]
fn image_paste_detects_absolute_and_escaped_image_paths() {
    let paste = "/tmp/first.png /tmp/second\\ image.jpg";
    let attachments = image_attachments_from_paste(paste, None, &none_on_disk())
        .expect("expected image attachments");

    assert_eq!(attachments.len(), 2);
    assert_eq!(attachments[0].path, "/tmp/first.png");
    assert_eq!(attachments[1].path, "/tmp/second image.jpg");
}

#[test]
fn image_paste_detects_file_uris() {
    let attachments =
        image_attachments_from_paste("file:///tmp/Screen%20Shot.webp", None, &none_on_disk())
            .expect("expected image attachment");

    assert_eq!(attachments[0].path, "/tmp/Screen Shot.webp");
}

#[test]
fn image_paste_ignores_mixed_text() {
    assert!(
        image_attachments_from_paste("look at /tmp/image.png please", None, &none_on_disk())
            .is_none()
    );
}

#[test]
fn image_paste_attaches_a_repeated_path_once_and_expands_home() {
    let attachments = image_attachments_from_paste(
        "~/a.PNG '/tmp/b c.gif' ~/a.PNG",
        Some("/home/me"),
        &none_on_disk(),
    )
    .unwrap();
    let paths = attachments.iter().map(|a| a.path.as_str()).collect::<Vec<_>>();
    assert_eq!(paths, ["/home/me/a.PNG", "/tmp/b c.gif"]);
    assert!(image_attachments_from_paste("   ", None, &none_on_disk()).is_none());
}

#[test]
fn relative_image_paths_need_to_exist() {
    let existing = vec!["shots/x.png".to_string()];
    assert_eq!(
        image_path_from_token("shots/x.png", None, &existing).as_deref(),
        Some("shots/x.png")
    );
    assert_eq!(image_path_from_token("shots/y.png", None, &existing), None);
    assert_eq!(
        image_path_from_token("./y.png", None, &existing).as_deref(),
        Some("./y.png")
    );
    assert!(is_image_path("/x/y.JpEg", false));
    assert!(!is_image_path("/x/y.txt", true));
    assert!(!is_image_path("y.png", false));
    assert!(is_image_path("~y.png", false));
}

#[test]
fn shell_tokens_honour_quotes_and_escapes() {
    assert_eq!(
        shell_like_tokens("  a\\ b 'c d' \"e\"f  g\\\\ "),
        vec!["a b".to_string(), "c d".to_string(), "ef".to_string(), "g\\".to_string()]
    );
    assert!(shell_escape_char(' '));
    assert!(shell_escape_char('"'));
    assert!(!shell_escape_char('a'));
}

#[test]
fn percent_escapes_decode_to_utf8_or_fail() {
    assert_eq!(percent_decode("a%20b%2F").as_deref(), Some("a b/"));
    assert_eq!(percent_decode("%C3%A9").as_deref(), Some("é"));
    assert_eq!(percent_decode("%zz"), None);
    assert_eq!(percent_decode("%4"), None);
    assert_eq!(percent_decode("%FF"), None);
    assert_eq!(hex_value(b'a'), Some(10));
    assert_eq!(hex_value(b'F'), Some(15));
    assert_eq!(hex_value(b'g'), None);
    assert_eq!(path_from_file_uri("/tmp/a%20b.png").as_deref(), Some("/tmp/a b.png"));
}

#[test]
fn home_is_expanded_only_for_a_leading_tilde_slash() {
    assert_eq!(expand_home_path("~/x.png", Some("/home/me")), "/home/me/x.png");
    assert_eq!(expand_home_path("~/x.png", None), "~/x.png");
    assert_eq!(expand_home_path("~x.png", Some("/home/me")), "~x.png");
    assert_eq!(
        image_path_candidate("file:///a%2", None),
        None
    );
    assert_eq!(
        image_path_candidate("file:///a.png", None).as_deref(),
        Some("/a.png")
    );
}

#[test]
fn prompt_images_are_encoded_as_data_urls() {
    let attachments = vec![ImageAttachment::new("/tmp/roder-image.png".to_string())];
    assert_eq!(
        image_data_url(&attachments[0].path, b"abc"),
        "data:image/png;base64,YWJj"
    );
    assert_eq!(mime_type_for_image_path("/tmp/diagram.webp"), "image/webp");
    assert_eq!(
        transcript_message_with_image_attachments("", &attachments),
        "attached image: roder-image.png"
    );
}

#[test]
fn transcript_messages_list_attached_image_names() {
    let attachments = vec![
        ImageAttachment::new("/tmp/a.png".to_string()),
        ImageAttachment::new("/tmp/b.jpg".to_string()),
    ];
    assert_eq!(
        transcript_message_with_image_attachments("look", &attachments),
        "look\nattached images: a.png, b.jpg"
    );
    assert_eq!(transcript_message_with_image_attachments("plain", &Vec::new()), "plain");
    assert_eq!(attachments[1].label(), "b.jpg");
    assert_eq!(mime_type_for_image_path("x.JPG"), "image/jpeg");
    assert_eq!(mime_type_for_image_path("x"), "application/octet-stream");
    assert_eq!(image_data_url("x.svg", b""), "data:image/svg+xml;base64,");
}

#[test]
fn data_urls_use_padded_standard_base64() {
    assert_eq!(image_data_url("a.png", b"Man"), "data:image/png;base64,TWFu");
    assert_eq!(image_data_url("a.png", b"Ma"), "data:image/png;base64,TWE=");
    assert_eq!(image_data_url("a.png", b"M"), "data:image/png;base64,TQ==");
    assert_eq!(image_data_url("a.png", &[0xfb, 0xff]), "data:image/png;base64,+/8=");
    assert_eq!(image_data_url("a.png", b"hello!!"), "data:image/png;base64,aGVsbG8hIQ==");
}
