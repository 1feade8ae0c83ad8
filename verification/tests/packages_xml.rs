//! The structure of packages.xml, and how version pins fill it.
use packybara::coords::Coords;
use packybara::db::find_all::versionpins::FindAllVersionPinsRow;
use packybara::io::packages_xml::{show_from_pins, Package, Role, Roles, Show, ToXml, With};

fn pin(dist: &str, role: &str, platform: &str, site: &str, withs: Option<Vec<&str>>) -> FindAllVersionPinsRow {
    FindAllVersionPinsRow::try_from_parts(
        1,
        1,
        1,
        dist,
        "facility",
        None,
        role,
        platform,
        site,
        withs.map(|w| w.into_iter().map(|x| x.to_string()).collect()),
    )
    .unwrap()
}

#[test]
fn package_from_distribution() {
    let p = Package::from_dist("maya-2018.5.1").unwrap();
    assert_eq!(p.name, "maya");
    assert_eq!(p.version, "2018.5.1");
    assert!(Package::from_dist("maya").is_none());
    assert!(Package::from_dist("maya-1-2").is_none());
}

#[test]
fn package_builder() {
    let p = Package::new("maya", "2018.5.1", None, None)
        .set_os_owned(Some("cent7_64"))
        .set_site_owned(Some("portland"))
        .add_with_owned(With::new("xerces"));
    assert_eq!(p.os.as_deref(), Some("cent7_64"));
    assert_eq!(p.site.as_deref(), Some("portland"));
    assert_eq!(p.withs.len(), 1);
    assert_eq!(p.withs[0].package, "xerces");
}

#[test]
fn last_role_of_roles() {
    let mut roles = Roles::new();
    assert_eq!(roles.last_role(), None);
    roles.push(Role::new("model"));
    roles.push(Role::new("anim").add_package_owned(Package::from_name_and_version("maya", "1")));
    assert_eq!(roles.last_role(), Some("anim"));
    let show = Show::new("dev01").add_role_owned(Role::new("fx"));
    assert_eq!(show.roles.last_role(), Some("fx"));
    assert!(ToXml::new().prune_closed);
}

#[test]
fn pins_are_grouped_by_role() {
    let pins = vec![
        pin("maya-1", "any", "cent7_64", "any", Some(vec!["xerces"])),
        pin("houdini-17", "model", "any", "portland", None),
        pin("zbrush-14", "model", "any", "any", None),
        pin("nuke-12", "comp", "any", "any", None),
        pin("katana-3", "any", "any", "any", None),
        pin("mari-4", "paint", "any", "any", None),
    ];
    let show = show_from_pins("dev01", &pins);
    assert_eq!(show.name, "dev01");
    let own: Vec<&str> = show.packages.package.iter().map(|p| p.name.as_str()).collect();
    assert_eq!(own, vec!["maya", "katana"]);
    assert_eq!(show.packages.package[0].os.as_deref(), Some("cent7_64"));
    assert_eq!(show.packages.package[0].withs[0].package, "xerces");
    let roles: Vec<&str> = show.roles.role.iter().map(|r| r.name.as_str()).collect();
    assert_eq!(roles, vec!["model", "comp"]);
    assert_eq!(show.roles.role[0].packages.package.len(), 2);
    assert_eq!(show.roles.role[0].packages.package[0].site.as_deref(), Some("portland"));
    let coords = Coords::new().build();
    assert_eq!(coords.to_string(), "(level:'facility' role:'any' platform:'any' site:'any')");
}
