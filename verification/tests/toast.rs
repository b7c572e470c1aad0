use ludusavi::gui::toast::{
    layout, portion_weights, Accessory, Bar, Chip, Easing, PortionWeights, Toast, ToastKind,
};

fn kind_progress() -> ToastKind {
    ToastKind::Progress { title: "Backing up".to_string(), subtitle: "12 games".to_string(), percent: 42 }
}

#[test]
fn width_hint_takes_longer_line() {
    let kind = ToastKind::Done { title: "Backup complete".to_string(), subtitle: "3 games".to_string() };
    assert_eq!(kind.width_hint(), 15);
    let kind = ToastKind::Error { title: "Oops".to_string(), subtitle: "Could not write file".to_string() };
    assert_eq!(kind.width_hint(), 20);
}

#[test]
fn width_hint_counts_characters_not_bytes() {
    let kind = ToastKind::NoChanges { title: "Größe".to_string(), subtitle: "日本".to_string() };
    assert_eq!(kind.width_hint(), 5);
}

#[test]
fn width_hint_of_empty_lines_is_zero() {
    let kind = ToastKind::NoChanges { title: String::new(), subtitle: String::new() };
    assert_eq!(kind.width_hint(), 0);
}

#[test]
fn new_toast_keeps_kind() {
    let toast = Toast::new(kind_progress());
    match toast.kind {
        ToastKind::Progress { title, subtitle, percent } => {
            assert_eq!(title, "Backing up");
            assert_eq!(subtitle, "12 games");
            assert_eq!(percent, 42);
        }
        _ => panic!("kind changed"),
    }
    assert!(toast.created.elapsed().as_secs() < 60);
}

#[test]
fn layout_of_progress() {
    let plan = layout(&kind_progress());
    assert_eq!(plan.chip, Chip::Spinner);
    assert_eq!(plan.title, "Backing up");
    assert_eq!(plan.subtitle, "12 games");
    assert_eq!(plan.accessory, Some(Accessory::Percent(42)));
    assert_eq!(
        plan.bar,
        Some(Bar::Progress { percent: 42, fill: Easing { delay_ms: 400, duration_ms: 1200 } })
    );
    assert_eq!(plan.timer, None);
}

#[test]
fn layout_of_done() {
    let plan = layout(&ToastKind::Done { title: "a".to_string(), subtitle: "b".to_string() });
    assert_eq!(plan.chip, Chip::Done);
    assert_eq!(plan.accessory, Some(Accessory::CheckCircle(Easing { delay_ms: 550, duration_ms: 350 })));
    assert_eq!(plan.bar, Some(Bar::Complete { fill: Easing { delay_ms: 500, duration_ms: 1000 } }));
    assert_eq!(plan.timer, None);
}

#[test]
fn layout_of_no_changes_has_only_timer() {
    let plan = layout(&ToastKind::NoChanges { title: "a".to_string(), subtitle: "b".to_string() });
    assert_eq!(plan.chip, Chip::NoChanges);
    assert_eq!(plan.accessory, None);
    assert_eq!(plan.bar, None);
    assert_eq!(plan.timer, Some(Easing { delay_ms: 500, duration_ms: 2500 }));
}

#[test]
fn layout_of_error() {
    let plan = layout(&ToastKind::Error { title: "a".to_string(), subtitle: "b".to_string() });
    assert_eq!(plan.chip, Chip::Error);
    assert_eq!(plan.accessory, Some(Accessory::ErrorBadge));
    assert_eq!(plan.bar, None);
    assert_eq!(plan.timer, None);
    assert_eq!(plan.title, "a");
    assert_eq!(plan.subtitle, "b");
}

#[test]
fn portion_weights_split_track() {
    assert_eq!(portion_weights(250), PortionWeights { filled: Some(250), empty: Some(750) });
    assert_eq!(portion_weights(0), PortionWeights { filled: None, empty: Some(1000) });
    assert_eq!(portion_weights(1000), PortionWeights { filled: Some(1000), empty: None });
}

#[test]
fn portion_weights_beyond_track_leave_nothing_empty() {
    assert_eq!(portion_weights(1200), PortionWeights { filled: Some(1200), empty: None });
}

#[test]
fn portion_weights_always_cover_track() {
    for filled in 0..=1000u16 {
        let w = portion_weights(filled);
        let total = w.filled.unwrap_or(0) + w.empty.unwrap_or(0);
        assert_eq!(total, 1000);
    }
}

#[test]
fn opened_at_keeps_kind_and_moment() {
    let moment = std::time::Instant::now();
    let toast = Toast::opened_at(kind_progress(), moment);
    assert_eq!(toast.created, moment);
    assert_eq!(toast.kind.width_hint(), 10);
}

#[test]
fn new_toast_is_stamped_with_current_time() {
    let before = std::time::Instant::now();
    let toast = Toast::new(kind_progress());
    let after = std::time::Instant::now();
    assert!(before <= toast.created && toast.created <= after);
}
