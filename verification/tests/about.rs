use tui_diagnostics::about::{version, version_info};

#[test]
fn version_text_lists_version_authors_and_directories() {
    let text = version_info(
        "1.2.3",
        "Ada <ada@example.org>",
        "/home/ada/.config/systemctl-tui",
        "/home/ada/.local/share/systemctl-tui",
    );
    assert_eq!(
        text,
        "1.2.3\n\nAuthors: Ada <ada@example.org>\n\nConfig directory: /home/ada/.config/systemctl-tui\nData directory: /home/ada/.local/share/systemctl-tui"
    );
}

#[test]
fn version_uses_the_overrides_as_given() {
    let text = version(
        "0.9.0",
        "A:B",
        Some(String::from("/cfg")),
        Some(String::from("/dat")),
    );
    assert_eq!(
        text,
        Ok(String::from("0.9.0\n\nAuthors: A:B\n\nConfig directory: /cfg\nData directory: /dat"))
    );
}

#[test]
fn version_resolves_directories_like_the_resolvers() {
    let config = tui_diagnostics::get_config_dir(None);
    let data = tui_diagnostics::get_data_dir(None);
    let text = tui_diagnostics::version("1.0.0", "X", None, None);
    match (config, data) {
        (Ok(config), Ok(data)) => {
            assert_eq!(
                text,
                Ok(version_info("1.0.0", "X", &config.display_text(), &data.display_text()))
            );
        }
        (Err(e), _) => assert_eq!(text, Err(e)),
        (Ok(_), Err(e)) => assert_eq!(text, Err(e)),
    }
}

#[test]
fn version_with_empty_fields_keeps_its_layout() {
    assert_eq!(
        version_info("", "", "", ""),
        "\n\nAuthors: \n\nConfig directory: \nData directory: "
    );
}

#[test]
fn version_shows_an_override_as_it_was_given() {
    let text = version(
        "2.0.0",
        "Ada",
        Some(String::from("/cfg/\u{e9}t\u{e9}")),
        Some(String::from("")),
    );
    assert_eq!(
        text,
        Ok(String::from(
            "2.0.0\n\nAuthors: Ada\n\nConfig directory: /cfg/\u{e9}t\u{e9}\nData directory: "
        ))
    );
}
