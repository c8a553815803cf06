use scrotto::deliver::{
    clipboard_chain, delivery_report, extract_text, no_text_report, notify_chain,
    notify_send_argv, preview_of, readback_confirms, wl_copy_argv, wl_paste_argv,
    ClipboardMethod, NotifyMethod, NOTIFY_TIMEOUT_MS,
};

#[test]
fn extracts_trimmed_text() {
    assert_eq!(extract_text("  hello world \n"), Some("hello world".to_string()));
    assert_eq!(extract_text("line1\nline2\n"), Some("line1\nline2".to_string()));
}

#[test]
fn whitespace_only_output_yields_no_text() {
    assert_eq!(extract_text(""), None);
    assert_eq!(extract_text("   \n\t  \n"), None);
}

#[test]
fn short_preview_passes_unchanged() {
    let text: String = "a".repeat(100);
    assert_eq!(preview_of(&text), text);
    assert_eq!(preview_of("hi"), "hi".to_string());
}

#[test]
fn long_preview_is_truncated_with_ellipsis() {
    let text: String = "a".repeat(101);
    let preview = preview_of(&text);
    let expected = format!("{}...", "a".repeat(100));
    assert_eq!(preview, expected);
    assert_eq!(preview.chars().count(), 103);
}

#[test]
fn preview_counts_characters_not_bytes() {
    let text: String = "é".repeat(101);
    let preview = preview_of(&text);
    let expected = format!("{}...", "é".repeat(100));
    assert_eq!(preview, expected);
    assert_eq!(preview.chars().count(), 103);
}

#[test]
fn readback_compares_trimmed_values() {
    assert!(readback_confirms("hello", "hello\n"));
    assert!(readback_confirms(" hello ", "hello"));
    assert!(!readback_confirms("hello", "other"));
    assert!(!readback_confirms("hello", ""));
}

#[test]
fn clipboard_chain_prefers_native_utility() {
    assert_eq!(
        clipboard_chain(true),
        vec![ClipboardMethod::WlCopy, ClipboardMethod::Provider]
    );
    assert_eq!(clipboard_chain(false), vec![ClipboardMethod::Provider]);
}

#[test]
fn notify_chain_prefers_library_binding() {
    assert_eq!(
        notify_chain(true),
        vec![NotifyMethod::Library, NotifyMethod::NotifySend]
    );
    assert_eq!(notify_chain(false), vec![NotifyMethod::Library]);
}

#[test]
fn notification_timeout_is_fixed() {
    assert_eq!(NOTIFY_TIMEOUT_MS, 5000);
}

#[test]
fn no_text_report_says_so_and_cleans_up() {
    let r = no_text_report();
    assert_eq!(r.console, "❌ No text detected in the selected area.");
    assert_eq!(r.notify_title, "Scrotto");
    assert!(r.notify_body.contains("No text found in selected area"));
    assert!(r.remove_artifact);
}

#[test]
fn success_report_carries_text_and_cleans_up() {
    let r = delivery_report("hello", true);
    assert_eq!(r.console, "✅ Text copied to clipboard:\nhello");
    assert_eq!(r.notify_title, "Scrotto");
    assert_eq!(r.notify_body, "✅ Text copied to clipboard:\n\nhello");
    assert!(r.remove_artifact);
}

#[test]
fn failure_report_still_delivers_full_text() {
    let text: String = "x".repeat(150);
    let r = delivery_report(&text, false);
    assert!(r.console.contains(&text));
    assert_eq!(
        r.console,
        format!(
            "❌ Failed to copy to clipboard, but text extracted:\n{}\n💡 You can manually copy this text from the terminal",
            text
        )
    );
    let expected_preview = format!("{}...", "x".repeat(100));
    assert_eq!(
        r.notify_body,
        format!("❌ Clipboard failed, but text extracted:\n\n{}", expected_preview)
    );
    assert!(r.remove_artifact);
}

#[test]
fn short_failure_report_body_holds_whole_text() {
    let r = delivery_report("short text", false);
    assert_eq!(
        r.notify_body,
        "❌ Clipboard failed, but text extracted:\n\nshort text"
    );
    assert!(r.console.contains("short text"));
}

#[test]
fn delivery_command_lines_are_exact() {
    let text = "payload".to_string();
    assert_eq!(wl_copy_argv(&text), vec!["wl-copy", "payload"]);
    assert_eq!(wl_paste_argv(), vec!["wl-paste"]);
    let title = "Scrotto".to_string();
    let body = "done".to_string();
    assert_eq!(
        notify_send_argv(&title, &body),
        vec!["notify-send", "Scrotto", "done"]
    );
}
