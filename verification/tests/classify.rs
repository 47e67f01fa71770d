use ql_core::ListEntry;
use ql_core::ListEntryKind;
use ql_core::guess_if_supports_server;

#[test]
fn prefix_wins_over_declared_type() {
    assert_eq!(ListEntryKind::calculate("b1.7.3", "release"), ListEntryKind::Beta);
}

#[test]
fn declared_snapshot_is_snapshot() {
    assert_eq!(ListEntryKind::calculate("24w10a", "snapshot"), ListEntryKind::Snapshot);
}

#[test]
fn guessing_uses_the_w_heuristic() {
    assert_eq!(ListEntryKind::guess("24w10a"), ListEntryKind::Snapshot);
}

#[test]
fn guessing_defaults_to_release() {
    assert_eq!(ListEntryKind::guess("1.20.1"), ListEntryKind::Release);
}

#[test]
fn guess_prefix_rules() {
    assert_eq!(ListEntryKind::guess("b1.7.3"), ListEntryKind::Beta);
    assert_eq!(ListEntryKind::guess("a1.2.6"), ListEntryKind::Alpha);
    assert_eq!(ListEntryKind::guess("inf-20100618"), ListEntryKind::Infdev);
    assert_eq!(ListEntryKind::guess("in-20100206"), ListEntryKind::Indev);
    assert_eq!(ListEntryKind::guess("pc-132211"), ListEntryKind::Preclassic);
    assert_eq!(ListEntryKind::guess("c0.30_01c"), ListEntryKind::Classic);
}

#[test]
fn declared_special_and_april_fools_win_over_prefixes() {
    assert_eq!(ListEntryKind::calculate("b1.7.3", "special"), ListEntryKind::Special);
    assert_eq!(
        ListEntryKind::calculate("a1.2.6", "april-fools"),
        ListEntryKind::AprilFools,
    );
}

#[test]
fn calculate_ignores_the_w_heuristic_for_plain_types() {
    // In calculate mode a declared type is authoritative: an identifier
    // containing `w` is not taken as a snapshot on that account alone.
    assert_eq!(ListEntryKind::calculate("24w10a", "release"), ListEntryKind::Release);
}

#[test]
fn old_kinds() {
    assert!(ListEntryKind::Alpha.is_old());
    assert!(ListEntryKind::Beta.is_old());
    assert!(ListEntryKind::Classic.is_old());
    assert!(ListEntryKind::Preclassic.is_old());
    assert!(ListEntryKind::Indev.is_old());
    assert!(ListEntryKind::Infdev.is_old());
    assert!(!ListEntryKind::Release.is_old());
    assert!(!ListEntryKind::Snapshot.is_old());
    assert!(!ListEntryKind::AprilFools.is_old());
    assert!(!ListEntryKind::Special.is_old());
}

#[test]
fn default_selection_excludes_snapshots_and_specials() {
    let selected = ListEntryKind::default_selected();
    assert_eq!(selected.len(), 8);
    assert!(!selected.contains(&ListEntryKind::Snapshot));
    assert!(!selected.contains(&ListEntryKind::Special));
    assert!(selected.contains(&ListEntryKind::Release));
    assert!(selected.contains(&ListEntryKind::Beta));
}

#[test]
fn kind_display_names() {
    assert_eq!(ListEntryKind::Release.display_name(), "Release");
    assert_eq!(ListEntryKind::Preclassic.display_name(), "Pre-classic");
    assert_eq!(ListEntryKind::AprilFools.display_name(), "April Fools");
}

#[test]
fn list_entry_guesses_its_kind() {
    let e = ListEntry::new("b1.7.3".to_owned());
    assert_eq!(e.name, "b1.7.3");
    assert_eq!(e.kind, ListEntryKind::Beta);
    assert!(e.supports_server);
}

#[test]
fn list_entry_with_declared_kind() {
    let e = ListEntry::with_kind("24w10a".to_owned(), "snapshot");
    assert_eq!(e.name, "24w10a");
    assert_eq!(e.kind, ListEntryKind::Snapshot);
    assert!(e.supports_server);
}

#[test]
fn in_development_versions_have_no_server() {
    assert!(!guess_if_supports_server("inf-20100618"));
    assert!(!guess_if_supports_server("in-20100206"));
    assert!(!guess_if_supports_server("pc-132211"));
    assert!(guess_if_supports_server("1.20.1"));
    assert!(guess_if_supports_server("b1.7.3"));
}
