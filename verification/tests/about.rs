use autopilot::about::{about_dialog, AboutDialog, License};

#[test]
fn about_dialog_holds_the_fixed_metadata() {
    let dialog = about_dialog("2.0.1", "Jane Doe <jane@example.org>".to_string());
    assert_eq!(
        dialog,
        AboutDialog {
            application_name: "Autopilot".to_string(),
            application_icon: "io.github.v81d.Autopilot".to_string(),
            developer_name: "v81d".to_string(),
            version: "2.0.1".to_string(),
            developers: vec!["v81d".to_string()],
            translator_credits: "Jane Doe <jane@example.org>".to_string(),
            copyright: "\u{c2}\u{a9} 2026 v81d".to_string(),
            license_type: License::Gpl30,
            website: "https://github.com/v81d/autopilot".to_string(),
        }
    );
}

#[test]
fn about_dialog_takes_version_and_credits_as_given() {
    let dialog = about_dialog("", String::new());
    assert_eq!(dialog.version, "");
    assert_eq!(dialog.translator_credits, "");
    assert_eq!(dialog.application_name, "Autopilot");

    let other = about_dialog("1.0", "translator-credits".to_string());
    assert_eq!(other.version, "1.0");
    assert_eq!(other.translator_credits, "translator-credits");
    assert_ne!(dialog, other);
}
