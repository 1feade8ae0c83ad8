//! The statements that change version pins.
use packybara::db::update::versionpins::{UpdateVersionPins, VersionPinChange};

#[test]
fn changes_become_update_statements() {
    let mut more = vec![VersionPinChange::new(9, None, None)];
    let mut up = UpdateVersionPins::new()
        .change(VersionPinChange::new(22, Some(3), None))
        .change_from_components(23, None, Some(84))
        .change_from_components(24, Some(5), Some(6))
        .changes(&mut more);
    assert!(more.is_empty());
    let stmts = up.take_statements();
    assert!(up.changes.is_empty());
    assert_eq!(stmts.len(), 3);
    assert_eq!(stmts[0].0, "UPDATE versionpin SET distribution = $2 WHERE id = $1");
    assert_eq!(stmts[0].1, vec![22, 3]);
    assert_eq!(stmts[1].0, "UPDATE versionpin SET coord = $2 WHERE id = $1");
    assert_eq!(stmts[1].1, vec![23, 84]);
    assert_eq!(stmts[2].0, "UPDATE versionpin SET distribution = $2,SET coord = $3 WHERE id = $1");
    assert_eq!(stmts[2].1, vec![24, 5, 6]);
}

#[test]
fn change_without_change() {
    assert!(!VersionPinChange::new(1, None, None).has_changes());
    assert!(VersionPinChange::new(1, None, Some(2)).has_changes());
    let mut up = UpdateVersionPins::new().change_from_components(1, None, None);
    assert!(up.take_statements().is_empty());
    assert_eq!(up.get_result_cnt(), 0);
}
