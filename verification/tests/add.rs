//! The statements and parameters that add names, pins and withs.
use packybara::db::add::levels::{AddLevels, AddLevelsError, InvalidLevelKind};
use packybara::db::add::packages::{AddPackages, AddPackagesError};
use packybara::db::add::platforms::{AddPlatforms, AddPlatformsError, InvalidPlatformKind};
use packybara::db::add::roles::{AddRoles, AddRolesError, InvalidRoleKind};
use packybara::db::add::sites::{AddSites, AddSitesError, InvalidSiteKind};
use packybara::db::add::versionpins::{AddVersionPins, AddVersionPinsError};
use packybara::db::add::withs::{AddWiths, AddWithsError};
use packybara::db::packrat::{PBAdd, PBUpdate, PackratDb};
use packybara::level::{Level, LevelSpec};

#[test]
fn levels_expand_to_every_level_above() {
    let (stmt, params) = AddLevels::new().level("DEV01.rd.0001").level("dev02").prepare().unwrap();
    assert_eq!(
        params,
        vec![
            "facility.dev01",
            "facility.dev01.rd",
            "facility.dev01.rd.0001",
            "facility.dev02"
        ]
    );
    assert_eq!(
        stmt,
        "INSERT INTO level (path) VALUES  (text2ltree($1)), (text2ltree($2)), (text2ltree($3)), (text2ltree($4)) ON CONFLICT (path) DO NOTHING"
    );
}

#[test]
fn levels_are_added_once() {
    let mut more = vec!["dev01".to_string(), "dev01".to_string()];
    let adder = AddLevels::new().levels(&mut more);
    assert!(more.is_empty());
    let (_, params) = adder.prepare().unwrap();
    assert_eq!(params, vec!["facility.dev01"]);
}

#[test]
fn no_level_names_is_an_error() {
    assert!(matches!(AddLevels::new().prepare(), Err(AddLevelsError::NoLevelNamesError)));
}

#[test]
fn too_deep_level_is_refused() {
    match AddLevels::new().level("dev01").level("a.b.c.d").prepare() {
        Err(AddLevelsError::InvalidLevel { level, kind }) => {
            assert_eq!(level, "a.b.c.d");
            assert_eq!(kind, InvalidLevelKind::TooManyLevels);
        }
        other => panic!("unexpected {:?}", other.is_ok()),
    }
}

#[test]
fn levels_count_is_recorded() {
    let adder = AddLevels::new().record_result(3);
    assert_eq!(adder.get_result_cnt(), 3);
    let mut adder = adder;
    adder.reset_result_cnt();
    assert_eq!(adder.get_result_cnt(), 0);
}

#[test]
fn roles_expand_by_underscore() {
    let (stmt, params) = AddRoles::new().role("fx_beta").role("Model").prepare().unwrap();
    assert_eq!(params, vec!["any.fx", "any.fx.beta", "any.model"]);
    assert_eq!(
        stmt,
        "INSERT INTO role (path) VALUES  (text2ltree($1)), (text2ltree($2)), (text2ltree($3)) ON CONFLICT (path) DO NOTHING"
    );
}

#[test]
fn role_errors() {
    assert!(matches!(AddRoles::new().prepare(), Err(AddRolesError::NoRoleNamesError)));
    for bad in ["fx.beta", "fx beta", "fx__beta"] {
        match AddRoles::new().role("model").role(bad).prepare() {
            Err(AddRolesError::InvalidRole { role, kind }) => {
                assert_eq!(role, bad);
                assert_eq!(kind, InvalidRoleKind::InvalidCharacter);
            }
            _ => panic!("{} was accepted", bad),
        }
    }
}

#[test]
fn platforms_go_under_any() {
    let mut names = vec!["Cent7_64".to_string(), "cent7_64".to_string()];
    let (stmt, params) = AddPlatforms::new().platforms(&mut names).prepare().unwrap();
    assert_eq!(params, vec!["any.cent7_64", "any.cent7_64"]);
    assert_eq!(
        stmt,
        "INSERT INTO platform (path) VALUES  (text2ltree($1)), (text2ltree($2)) ON CONFLICT (path) DO NOTHING"
    );
}

#[test]
fn platform_errors() {
    assert!(matches!(AddPlatforms::new().prepare(), Err(AddPlatformsError::NoPlatformNamesError)));
    match AddPlatforms::new().platform("cent.7.64").prepare() {
        Err(AddPlatformsError::InvalidPlatform { platform, kind }) => {
            assert_eq!(platform, "any.cent.7.64");
            assert_eq!(kind, InvalidPlatformKind::InvalidCharacter);
        }
        _ => panic!("accepted"),
    }
}

#[test]
fn sites_go_under_any() {
    let (_, params) = AddSites::new().site("Montreal").site("portland").prepare().unwrap();
    assert_eq!(params, vec!["any.montreal", "any.portland"]);
    assert!(matches!(AddSites::new().prepare(), Err(AddSitesError::NoSiteNamesError)));
    match AddSites::new().site("new york").prepare() {
        Err(AddSitesError::InvalidSite { site, kind }) => {
            assert_eq!(site, "any.new york");
            assert_eq!(kind, InvalidSiteKind::InvalidCharacter);
        }
        _ => panic!("accepted"),
    }
}

#[test]
fn packages_are_added_once_in_order() {
    let (stmt, params) =
        AddPackages::new().package("maya").package("houdini").package("maya").prepare().unwrap();
    assert_eq!(params, vec!["maya", "houdini"]);
    assert_eq!(stmt, "INSERT INTO package (name) VALUES  ($1), ($2) ON CONFLICT (name) DO NOTHING");
    assert!(matches!(AddPackages::new().prepare(), Err(AddPackagesError::NoPackageNamesError)));
}

#[test]
fn pins_cover_every_combination() {
    let dev01 = Some(LevelSpec { show: Some("dev01".to_string()), parts: vec!["dev01".to_string()] });
    let pins = AddVersionPins::new("maya".to_string(), "2018.sp3".to_string())
        .role("model")
        .role("anim")
        .role("model")
        .level("dev01", dev01)
        .platform("cent7_64")
        .site("portland")
        .site("montreal");
    let rows = pins.prepare().unwrap();
    assert_eq!(rows.len(), 4);
    assert_eq!(rows[0], vec!["maya-2018.sp3", "dev01", "portland", "model", "cent7_64"]);
    assert_eq!(rows[1], vec!["maya-2018.sp3", "dev01", "montreal", "model", "cent7_64"]);
    assert_eq!(rows[2], vec!["maya-2018.sp3", "dev01", "portland", "anim", "cent7_64"]);
    assert_eq!(rows[3], vec!["maya-2018.sp3", "dev01", "montreal", "anim", "cent7_64"]);
    assert_eq!(
        AddVersionPins::insert_statement(),
        "SELECT * from INSERT_VERSIONPIN($1, level_n => $2, site_n => $3, role_n => $4, platform_n => $5)"
    );
}

#[test]
fn bad_names_pin_at_any() {
    let mut levels = vec![Level::Facility, Level::Facility];
    let rows = AddVersionPins::new("maya".to_string(), "1".to_string())
        .role("bad role")
        .levels(&mut levels)
        .platform("cent 7")
        .site("")
        .prepare()
        .unwrap();
    assert!(levels.is_empty());
    assert_eq!(rows, vec![vec!["maya-1", "facility", "any", "any", "any"]]);
}

#[test]
fn missing_coordinates_are_reported_in_order() {
    let base = || AddVersionPins::new("maya".to_string(), "1".to_string());
    assert!(matches!(base().prepare(), Err(AddVersionPinsError::NoPlatformsError)));
    assert!(matches!(
        base().platform("cent7_64").prepare(),
        Err(AddVersionPinsError::NoRolesError)
    ));
    assert!(matches!(
        base().platform("cent7_64").role("model").prepare(),
        Err(AddVersionPinsError::NoLevelsError)
    ));
    assert!(matches!(
        base().platform("cent7_64").role("model").level("facility", None).prepare(),
        Err(AddVersionPinsError::NoSitesError)
    ));
}

#[test]
fn withs_are_numbered_in_order() {
    let withs = vec!["xerces".to_string(), "mayapipeline".to_string()];
    let rows = AddWiths::new().prepare(22, &withs).unwrap();
    assert_eq!(rows, vec![(22, "xerces".to_string(), 0), (22, "mayapipeline".to_string(), 1)]);
    assert!(matches!(AddWiths::new().prepare(22, &Vec::new()), Err(AddWithsError::NoUpdatesError)));
    assert_eq!(AddWiths::delete_statement(), "DELETE FROM withpackage WHERE versionpin = $1");
    assert_eq!(
        AddWiths::insert_statement(),
        "INSERT INTO withpackage (versionpin, package, pinorder) values ($1,$2,$3)"
    );
    assert_eq!(AddWiths::new().record_result(2).get_result_cnt(), 2);
}

#[test]
fn database_handle_starts_empty_additions_and_updates() {
    let pins = <PackratDb as PBAdd>::add_versionpins("maya".to_string(), "1.0".to_string());
    assert!(matches!(pins.prepare(), Err(AddVersionPinsError::NoPlatformsError)));
    assert_eq!(pins.get_result_cnt(), 0);
    let withs = <PackratDb as PBAdd>::add_withs();
    assert!(matches!(withs.prepare(1, &vec![]), Err(AddWithsError::NoUpdatesError)));
    let mut update = <PackratDb as PBUpdate>::update_versionpins();
    assert!(update.take_statements().is_empty());
    assert_eq!(update.get_result_cnt(), 0);
    let packages = <PackratDb as PBAdd>::add_packages();
    assert_eq!(packages.get_result_cnt(), 0);
}
