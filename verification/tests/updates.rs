use sovereign_desktop::updates::{update_message, update_prompt};

#[test]
fn message_without_notes() {
    assert_eq!(
        update_message("1.2.0", "1.1.0", None),
        "Sovereign 1.2.0 is available — you're on 1.1.0."
    );
    assert_eq!(
        update_message("1.2.0", "1.1.0", Some("  \n\t ")),
        "Sovereign 1.2.0 is available — you're on 1.1.0."
    );
}

#[test]
fn message_with_notes() {
    assert_eq!(
        update_message("1.2.0", "1.1.0", Some(" Fixes.\n")),
        "Sovereign 1.2.0 is available — you're on 1.1.0.\n\n Fixes.\n"
    );
}

#[test]
fn prompt_labels() {
    let prompt = update_prompt("2.0.0", "1.0.0", Some("Notes"));
    assert_eq!(prompt.title, "Update available");
    assert_eq!(prompt.install_label, "Update Now");
    assert_eq!(prompt.later_label, "Later");
    assert_eq!(prompt.message, "Sovereign 2.0.0 is available — you're on 1.0.0.\n\nNotes");
}
