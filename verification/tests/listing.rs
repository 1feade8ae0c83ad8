//! What the version pin listing shows: the order asked for, the pins of a
//! package and the withs column.
use packybara::cmd::versionpins::{order_attributes, pins_of_package, withs_column};
use packybara::db::find_all::versionpins::FindAllVersionPinsRow;
use packybara::db::search_attribute::SearchAttribute;

fn pin(id: i32, dist: &str) -> FindAllVersionPinsRow {
    FindAllVersionPinsRow::try_from_parts(id, 1, 1, dist, "facility", None, "any", "any", "any", None).unwrap()
}

#[test]
fn order_names_become_attributes() {
    assert_eq!(
        order_attributes("role,PACKAGE,sight"),
        vec![SearchAttribute::Role, SearchAttribute::Package, SearchAttribute::Unknown]
    );
    assert_eq!(order_attributes("site"), vec![SearchAttribute::Site]);
    assert_eq!(order_attributes(""), vec![SearchAttribute::Unknown]);
}

#[test]
fn only_the_pins_of_the_package_are_kept() {
    let pins = vec![pin(1, "maya-1.0"), pin(2, "houdini-17.5"), pin(3, "maya-2.0")];
    let kept = pins_of_package(pins, Some("maya"));
    let ids: Vec<i32> = kept.iter().map(|p| p.versionpin_id).collect();
    assert_eq!(ids, vec![1, 3]);
    let pins = vec![pin(1, "maya-1.0"), pin(2, "houdini-17.5")];
    assert_eq!(pins_of_package(pins, None).len(), 2);
    let pins = vec![pin(1, "mayapy-1.0")];
    assert_eq!(pins_of_package(pins, Some("maya")).len(), 0);
}

#[test]
fn withs_column_text() {
    assert_eq!(withs_column(&None, false), "[]");
    assert_eq!(withs_column(&Some(vec![]), true), "[]");
    let withs = Some(vec!["xerces".to_string(), "mayapipeline".to_string()]);
    assert_eq!(withs_column(&withs, true), "[xerces,mayapipeline]");
    assert_eq!(withs_column(&withs, false), "[xerces,mayapipeline...]");
    let long = Some(vec!["a".repeat(30), "b".repeat(30)]);
    assert_eq!(withs_column(&long, false), format!("[{},{}...]", "a".repeat(30), "b".repeat(9)));
    assert_eq!(withs_column(&long, true), format!("[{},{}]", "a".repeat(30), "b".repeat(30)));
}
