use tui_diagnostics::text::json_string;

fn read_back(text: &str) -> String {
    let mut quoted = String::from("\"");
    quoted.push_str(text);
    quoted.push('"');
    let value: serde_json::Value = serde_json::from_str(&quoted).unwrap();
    String::from(value.as_str().unwrap())
}

#[test]
fn plain_text_is_written_as_it_is() {
    assert_eq!(json_string("refresh"), "refresh");
    assert_eq!(json_string(""), "");
    assert_eq!(json_string("a b/c'd"), "a b/c'd");
    assert_eq!(json_string("\u{e9}t\u{e9} \u{1f600}"), "\u{e9}t\u{e9} \u{1f600}");
    assert_eq!(json_string("\u{7f}"), "\u{7f}");
}

#[test]
fn quote_and_backslash_get_a_backslash_in_front() {
    assert_eq!(json_string("\""), "\\\"");
    assert_eq!(json_string("\\"), "\\\\");
    assert_eq!(json_string("say \"hi\""), "say \\\"hi\\\"");
    assert_eq!(json_string("c:\\dir"), "c:\\\\dir");
}

#[test]
fn control_characters_are_written_by_their_number() {
    assert_eq!(json_string("\u{0}"), "\\u0000");
    assert_eq!(json_string("\n"), "\\u000a");
    assert_eq!(json_string("\t"), "\\u0009");
    assert_eq!(json_string("\r"), "\\u000d");
    assert_eq!(json_string("\u{1f}"), "\\u001f");
    assert_eq!(json_string("\u{10}"), "\\u0010");
    assert_eq!(json_string(" "), " ");
    assert_eq!(json_string("a\nb"), "a\\u000ab");
}

#[test]
fn written_text_is_read_back_unchanged() {
    let mut every_control = String::new();
    for code in 0u32..0x20 {
        every_control.push(char::from_u32(code).unwrap());
    }
    let samples = [
        every_control.as_str(),
        "say \"hi\"",
        "\\\"\\",
        "\\u0041",
        "tab\there",
        "\u{e9}\u{4e2d}\u{1f600}",
        "",
    ];
    for sample in samples {
        assert_eq!(read_back(&json_string(sample)), sample);
    }
}

#[test]
fn written_text_holds_no_bare_quote_or_control_character() {
    let written = json_string("a\"b\nc\\\"");
    assert_eq!(written, "a\\\"b\\u000ac\\\\\\\"");
    assert!(written.chars().all(|c| (c as u32) >= 0x20));
}
