//! Contexts: a level, role, platform and site.
use packybara::ctx::Ctx;
use packybara::level::{Level, LevelSpec};
use packybara::platform::Platform;
use packybara::role::Role;
use packybara::site::Site;

fn levelspec(name: &str) -> Option<LevelSpec> {
    let parts: Vec<String> = name.split('.').map(|p| p.to_string()).collect();
    Some(LevelSpec { show: Some(parts[0].clone()), parts })
}

#[test]
fn ctx_can_construct_from_strs() {
    let pin =
        Ctx::try_from_parts("dev01", levelspec("dev01"), "model", "cent7_64", "portland").unwrap();
    assert_eq!(
        pin,
        Ctx::from_parts(
            Level::from_str("dev01", levelspec("dev01")).unwrap(),
            Role::from_str("model").unwrap(),
            Platform::from_str("cent7_64").unwrap(),
            Site::from_str("portland").unwrap(),
        )
    );
}

#[test]
fn ctx_can_construct_from_builder() {
    let pin = Ctx::new()
        .level("dev01", levelspec("dev01"))
        .unwrap()
        .role("model")
        .unwrap()
        .build();
    assert_eq!(
        pin,
        Ctx::from_parts(
            Level::from_str("dev01", levelspec("dev01")).unwrap(),
            Role::from_str("model").unwrap(),
            Platform::from_str("any").unwrap(),
            Site::from_str("any").unwrap(),
        )
    );
}

#[test]
fn ctx_can_construct_all_from_builder() {
    let pin = Ctx::new()
        .level("dev01", levelspec("dev01"))
        .unwrap()
        .role("model")
        .unwrap()
        .platform("cent7_64")
        .unwrap()
        .site("portland")
        .unwrap()
        .build();
    assert_eq!(
        pin,
        Ctx::from_parts(
            Level::from_str("dev01", levelspec("dev01")).unwrap(),
            Role::from_str("model").unwrap(),
            Platform::from_str("cent7_64").unwrap(),
            Site::from_str("portland").unwrap(),
        )
    );
}
