use agent_core::ingest::{
    classify_mime, classify_upload, guess_mime, section_for, IngestBuffer, UploadKind,
};

#[test]
fn media_type_is_guessed_from_the_extension() {
    assert_eq!(guess_mime("photo.png"), "image/png");
    assert_eq!(guess_mime("photo.JPG"), "image/jpeg");
    assert_eq!(guess_mime("voice.mp3"), "audio/mpeg");
    assert_eq!(guess_mime("report.pdf"), "application/pdf");
    assert_eq!(guess_mime("notes.txt"), "text/plain");
}

#[test]
fn media_type_is_unknown_without_a_known_extension() {
    assert_eq!(guess_mime("archivo.bin"), "application/octet-stream");
    assert_eq!(guess_mime("README"), "application/octet-stream");
    assert_eq!(guess_mime(".png"), "application/octet-stream");
    assert_eq!(guess_mime("a.unknownext"), "application/octet-stream");
    assert_eq!(guess_mime(""), "application/octet-stream");
}

#[test]
fn upload_kind_follows_the_media_type() {
    assert_eq!(classify_mime("image/png"), UploadKind::Image);
    assert_eq!(classify_mime("image/"), UploadKind::Image);
    assert_eq!(classify_mime("audio/mpeg"), UploadKind::Audio);
    assert_eq!(classify_mime("application/pdf"), UploadKind::Document);
    assert_eq!(classify_mime("text/plain"), UploadKind::Document);
    assert_eq!(classify_mime("image"), UploadKind::Document);
    assert_eq!(classify_mime("Image/png"), UploadKind::Document);
    assert_eq!(classify_mime(""), UploadKind::Document);
}

#[test]
fn upload_kind_follows_the_file_name() {
    assert_eq!(classify_upload("photo.png"), UploadKind::Image);
    assert_eq!(classify_upload("voice.wav"), UploadKind::Audio);
    assert_eq!(classify_upload("report.pdf"), UploadKind::Document);
    assert_eq!(classify_upload("archivo.bin"), UploadKind::Document);
}

#[test]
fn picture_and_recording_are_framed_with_the_file_name() {
    let r = section_for(UploadKind::Image, "a.png", Ok("a drawing".to_string()));
    assert_eq!(r.unwrap(), "--- [IMG: a.png] ---\na drawing\n---");
    let r = section_for(UploadKind::Audio, "a.mp3", Ok("hello".to_string()));
    assert_eq!(r.unwrap(), "--- [AUDIO: a.mp3] ---\nhello\n---");
}

#[test]
fn document_text_is_taken_as_it_is() {
    let r = section_for(UploadKind::Document, "a.pdf", Ok("the text".to_string()));
    assert_eq!(r.unwrap(), "the text");
}

#[test]
fn failure_is_said_by_kind() {
    let r = section_for(UploadKind::Image, "a.png", Err("x".to_string()));
    assert_eq!(r.unwrap_err(), "Error Visión: x");
    let r = section_for(UploadKind::Audio, "a.mp3", Err("y".to_string()));
    assert_eq!(r.unwrap_err(), "Error Audio: y");
    let r = section_for(UploadKind::Document, "a.pdf", Err("z".to_string()));
    assert_eq!(r.unwrap_err(), "Error Formato: z");
}

#[test]
fn buffer_gathers_sections_with_a_break_after_each() {
    let mut b = IngestBuffer::new();
    assert!(!b.is_ready());
    b.add_section("one");
    b.add_section("two");
    assert_eq!(b.content, "one\n\ntwo\n\n");
    assert!(b.found);
    assert!(b.is_ready());
}

#[test]
fn buffer_takes_a_content_field_unless_blank() {
    let mut b = IngestBuffer::new();
    b.add_field("   \n");
    assert_eq!(b.content, "");
    assert!(!b.found);
    b.add_field(" some text ");
    assert_eq!(b.content, " some text ");
    assert!(b.found);
    assert!(b.is_ready());
}

#[test]
fn content_must_be_longer_than_five_bytes() {
    let mut b = IngestBuffer::new();
    b.add_field("12345");
    assert!(b.found);
    assert!(!b.is_ready());
    b.add_field("6");
    assert!(b.is_ready());
    let mut b = IngestBuffer::new();
    b.add_field("ééé");
    assert!(b.is_ready());
    let mut b = IngestBuffer::new();
    b.add_section("a");
    assert!(!b.is_ready());
}

#[test]
fn media_type_of_a_name_that_ends_in_a_slash_is_that_of_its_last_component() {
    assert_eq!(guess_mime("x.png/"), "image/png");
    assert_eq!(guess_mime("x.png/."), "image/png");
    assert_eq!(classify_upload("x.png/"), UploadKind::Image);
    assert_eq!(classify_upload("x.mp3/./"), UploadKind::Audio);
    assert_eq!(guess_mime("x.png/.."), "application/octet-stream");
}

#[test]
fn media_type_agrees_with_the_guess_from_the_path() {
    let paths = [
        "", ".", "..", "/", "a", "a.", ".png", "x.png", "x.PNG", "x.png/", "x.png/.", "x.png//",
        "x.png/./", "x.png/..", "dir/x.mp3", "dir.png/x", "x.tar.gz/", "x.unknownext", "a b.pdf",
        "x.jpeg/.", "./x.wav", "../x.html/",
    ];
    for path in paths {
        let expected = mime_guess::from_path(path).first_or_octet_stream().to_string();
        assert_eq!(guess_mime(path), expected, "path {:?}", path);
    }
}
