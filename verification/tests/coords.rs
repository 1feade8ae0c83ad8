//! Coordinates: a level, role, platform and site.
use packybara::coords::Coords;
use packybara::coords_error::CoordsError;
use packybara::level::{Level, LevelSpec};
use packybara::platform::Platform;
use packybara::role::Role;
use packybara::site::Site;

fn levelspec(name: &str) -> Option<LevelSpec> {
    let parts: Vec<String> = name.split('.').map(|p| p.to_string()).collect();
    Some(LevelSpec { show: Some(parts[0].clone()), parts })
}

#[test]
fn coords_can_construct_from_strs() {
    let pin =
        Coords::try_from_parts("dev01", levelspec("dev01"), "model", "cent7_64", "portland").unwrap();
    assert_eq!(
        pin,
        Coords {
            level: Level::from_str("dev01", levelspec("dev01")).unwrap(),
            role: Role::from_str("model").unwrap(),
            platform: Platform::from_str("cent7_64").unwrap(),
            site: Site::from_str("portland").unwrap(),
        }
    );
}

#[test]
fn coords_can_construct_from_builder() {
    let pin = Coords::new()
        .level("dev01", levelspec("dev01"))
        .unwrap()
        .role("model")
        .unwrap()
        .build();
    assert_eq!(
        pin,
        Coords {
            level: Level::from_str("dev01", levelspec("dev01")).unwrap(),
            role: Role::from_str("model").unwrap(),
            platform: Platform::from_str("any").unwrap(),
            site: Site::from_str("any").unwrap(),
        }
    );
}

#[test]
fn coords_can_construct_all_from_builder() {
    let pin = Coords::new()
        .level("dev01", levelspec("dev01"))
        .unwrap()
        .role("model")
        .unwrap()
        .platform("cent7_64")
        .unwrap()
        .site("portland")
        .unwrap()
        .build();
    assert_eq!(
        pin,
        Coords {
            level: Level::from_str("dev01", levelspec("dev01")).unwrap(),
            role: Role::from_str("model").unwrap(),
            platform: Platform::from_str("cent7_64").unwrap(),
            site: Site::from_str("portland").unwrap(),
        }
    );
}

#[test]
fn empty_builder_gives_facility_and_any() {
    let pin = Coords::new().build();
    assert_eq!(pin.level, Level::Facility);
    assert_eq!(pin.role, Role::Any);
    assert_eq!(pin.platform, Platform::Any);
    assert_eq!(pin.site, Site::Any);
    assert_eq!(
        pin.to_string(),
        "(level:'facility' role:'any' platform:'any' site:'any')"
    );
}

#[test]
fn bad_parts_are_reported_in_order() {
    match Coords::try_from_parts("dev01", None, "model", "cent7_64", "portland") {
        Err(CoordsError::InvalidLevel { input }) => assert_eq!(input, "dev01"),
        other => panic!("unexpected {:?}", other),
    }
    match Coords::try_from_parts("facility", None, "bad role", "cent7_64", "portland") {
        Err(CoordsError::FromStrToRoleError { input }) => assert_eq!(input, "bad role"),
        other => panic!("unexpected {:?}", other),
    }
    match Coords::try_from_parts("facility", None, "model", "cent7.64", "portland") {
        Err(CoordsError::FromStrToPlatformError { input }) => assert_eq!(input, "cent7.64"),
        other => panic!("unexpected {:?}", other),
    }
    match Coords::try_from_parts("facility", None, "model", "cent7_64", "") {
        Err(CoordsError::FromStrToSiteError { input }) => assert_eq!(input, ""),
        other => panic!("unexpected {:?}", other),
    }
}

#[test]
fn role_names_are_checked() {
    assert_eq!(Role::from_str("any").unwrap(), Role::Any);
    assert!(Role::from_str("fx__beta").is_err());
    assert!(Role::from_str("fx.beta").is_err());
    assert!(Role::from_str("").is_err());
    assert_eq!(Role::from_str("fx_beta").unwrap().to_string(), "fx_beta");
}
