//! Levels: the facility, or a show, sequence or shot. The levelspec that
//! reads a level name is given as its parts, as levelspec makes them.
use packybara::level::{Level, LevelSpec};

fn levelspec(name: &str) -> Option<LevelSpec> {
    let parts: Vec<String> = name.split('.').map(|p| p.to_string()).collect();
    Some(LevelSpec { show: Some(parts[0].clone()), parts })
}

#[test]
fn can_construct_facility() {
    let level = Level::from_str("facility", None).unwrap();
    assert_eq!(level, Level::Facility);
}

#[test]
fn can_construct_show() {
    let level = Level::from_str("dev01", levelspec("dev01")).unwrap();
    assert_eq!(level, Level::LevelSpec(levelspec("dev01").unwrap()));
}

#[test]
fn can_construct_sequence() {
    let level = Level::from_str("dev01.rd", levelspec("dev01.rd")).unwrap();
    assert_eq!(level, Level::LevelSpec(levelspec("dev01.rd").unwrap()));
}

#[test]
fn can_construct_shot() {
    let level = Level::from_str("dev01.rd.0001", levelspec("dev01.rd.0001")).unwrap();
    assert_eq!(level, Level::LevelSpec(levelspec("dev01.rd.0001").unwrap()));
}

#[test]
fn can_convert_facility_to_string() {
    let level = Level::from_str("facility", None).unwrap();
    assert_eq!(level.to_string(), "facility".to_string());
}

#[test]
fn can_convert_shot_to_string() {
    let level = Level::from_str("dev01.rd.0001", levelspec("dev01.rd.0001")).unwrap();
    assert_eq!(level.to_string(), "dev01.rd.0001".to_string());
}

#[test]
fn can_get_show_from_shot() {
    let level = Level::from_str("dev01.rd.0001", levelspec("dev01.rd.0001")).unwrap();
    assert_eq!(level.show(), "dev01");
}

#[test]
fn can_get_show_from_facility() {
    let level = Level::from_str("facility", None).unwrap();
    assert_eq!(level.show(), "facility");
}

#[test]
fn can_test_for_facility() {
    let level = Level::from_str("facility", None).unwrap();
    assert_eq!(level.is_facility(), true);
}

#[test]
fn facility_in_any_case_is_the_facility() {
    let level = Level::from_str("FACILITY", None).unwrap();
    assert!(level.is_facility());
}

#[test]
fn refused_level_name_is_an_error() {
    assert!(Level::from_str("dev01", None).is_err());
    assert!(Level::try_from_str("dev01", None).is_err());
}

#[test]
fn same_levels_compare_equal() {
    let a = Level::from_str("dev01", levelspec("dev01")).unwrap();
    let b = Level::from_str("dev01", levelspec("dev01")).unwrap();
    let c = Level::from_str("dev02", levelspec("dev02")).unwrap();
    assert!(a.same_as(&b));
    assert!(!a.same_as(&c));
    assert!(!a.same_as(&Level::Facility));
}
