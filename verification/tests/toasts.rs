use chatty_factory::toasts::{prune_toasts, push_toast, ToastKind, UiToast};

fn messages(toasts: &[UiToast]) -> Vec<String> {
    toasts.iter().map(|t| t.message.clone()).collect()
}

#[test]
fn pruning_drops_notices_older_than_four_seconds() {
    let mut toasts = Vec::new();
    push_toast(&mut toasts, "old".to_string(), ToastKind::Success, 1_000);
    push_toast(&mut toasts, "edge".to_string(), ToastKind::Error, 6_000);
    push_toast(&mut toasts, "new".to_string(), ToastKind::Success, 9_000);
    prune_toasts(&mut toasts, 10_000);
    assert_eq!(messages(&toasts), vec!["new".to_string()]);
    assert_eq!(toasts[0].kind, ToastKind::Success);
}

#[test]
fn pruning_keeps_the_four_newest_fresh_notices() {
    let mut toasts = Vec::new();
    for (i, name) in ["a", "b", "c", "d", "e", "f"].iter().enumerate() {
        push_toast(&mut toasts, name.to_string(), ToastKind::Success, 100 * i as u64);
    }
    prune_toasts(&mut toasts, 600);
    assert_eq!(
        messages(&toasts),
        vec!["c".to_string(), "d".to_string(), "e".to_string(), "f".to_string()]
    );
}

#[test]
fn a_notice_stamped_later_than_now_counts_as_new() {
    let mut toasts = Vec::new();
    push_toast(&mut toasts, "future".to_string(), ToastKind::Error, 50_000);
    prune_toasts(&mut toasts, 10);
    assert_eq!(messages(&toasts), vec!["future".to_string()]);
}
