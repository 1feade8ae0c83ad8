//! The query text and parameters of the searches over whole tables, and
//! the rows they read.
use packybara::coords::Coords;
use packybara::db::find_all::changes::{ChangeAction, FindAllChangesError, FindAllChangesRow};
use packybara::db::find_all::distributions::{FindAllDistributionsError, FindAllDistributionsRow};
use packybara::db::find_all::levels::OrderLevelBy;
use packybara::db::find_all::packages::{FindAllPackages, FindAllPackagesRow};
use packybara::db::find_all::revisions::{FindAllRevisionsRow, OrderRevisionBy};
use packybara::db::find_all::roles::{Categories, FindAllRoles, FindAllRolesRow, OrderRoleBy};
use packybara::db::find_all::sites::{FindAllSites, FindAllSitesRow};
use packybara::db::find_all::versionpin_withs::{FindAllWiths, FindAllWithsRow};
use packybara::db::find_all::versionpins::{FindAllVersionPinsError, FindAllVersionPinsRow};
use packybara::db::search_attribute::OrderDirection;
use packybara::distribution::Distribution;
use packybara::level::LevelSpec;

const SITES: &str = "SELECT DISTINCT 
                name
            FROM 
                site_view WHERE name <> 'any'";
const PACKAGES: &str = "SELECT 
                name
            FROM 
                package";
const ROLES: &str = "SELECT DISTINCT 
                name,
                category
            FROM 
                role_view WHERE name <> 'any'";
const WITHS: &str = "SELECT id, versionpin, package, pinorder
        FROM withpackage WHERE versionpin = $1 ORDER BY pinorder";

#[test]
fn sites_query_without_name() {
    let (q, p) = FindAllSites::new().get_query_str();
    assert_eq!(q, format!("{}  ORDER BY name", SITES));
    assert!(p.is_empty());
}

#[test]
fn sites_query_with_name_and_like() {
    let mut f = FindAllSites::new();
    f.name("portland");
    let (q, p) = f.get_query_str();
    assert_eq!(q, format!("{} AND name = $1  ORDER BY name", SITES));
    assert_eq!(p, vec!["portland"]);
    f.name_opt(Some("port%"));
    let (q, p) = f.get_query_str();
    assert_eq!(q, format!("{} AND name LIKE $1  ORDER BY name", SITES));
    assert_eq!(p, vec!["port%"]);
    assert_eq!(FindAllSitesRow::from_parts("portland").to_string(), "portland");
}

#[test]
fn packages_query() {
    let mut f = FindAllPackages::new();
    assert_eq!(f.get_query_str().0, format!("{}  ORDER BY name", PACKAGES));
    f.name("maya");
    let (q, p) = f.get_query_str();
    assert_eq!(q, format!("{} WHERE name = $1  ORDER BY name", PACKAGES));
    assert_eq!(p, vec!["maya"]);
    assert_eq!(FindAllPackagesRow::try_from_parts("maya").unwrap().name, "maya");
}

#[test]
fn roles_query_by_category() {
    let mut f = FindAllRoles::new();
    assert_eq!(f.get_query_str().0, format!("{}  ORDER BY name", ROLES));
    f.category("subrole");
    let (q, p) = f.get_query_str();
    assert_eq!(q, format!("{} AND category = $1  ORDER BY name", ROLES));
    assert_eq!(p, vec!["subrole"]);
    f.category("any");
    assert!(f.get_query_str().1.is_empty());
    f.category("nonsense");
    assert!(f.get_query_str().1.is_empty());
    f.category("ANY").order_by(vec![OrderRoleBy::Category, OrderRoleBy::Name]);
    let (q, p) = f.get_query_str();
    assert_eq!(q, format!("{} AND category = $1 ORDER BY category,name", ROLES));
    assert_eq!(p, vec!["ANY"]);
    assert_eq!(FindAllRolesRow::from_parts("model", "role").to_string(), "model  (role)");
    assert_eq!(Categories::from_str("Subrole").unwrap(), Categories::Subrole);
}

#[test]
fn enum_names_round_trip() {
    for d in [OrderDirection::Asc, OrderDirection::Desc] {
        assert_eq!(OrderDirection::from_str(d.as_str()).unwrap(), d);
    }
    for o in [OrderLevelBy::Name, OrderLevelBy::Category] {
        assert_eq!(OrderLevelBy::from_str(o.as_str()).unwrap(), o);
    }
    for o in [OrderRevisionBy::Id, OrderRevisionBy::Author] {
        assert_eq!(OrderRevisionBy::from_str(&o.to_string()).unwrap(), o);
    }
    for a in [ChangeAction::Insert, ChangeAction::Update, ChangeAction::Truncate] {
        assert_eq!(ChangeAction::from_str(a.as_str()).unwrap(), a);
    }
    assert!(ChangeAction::from_str("Truncate").is_err());
}

#[test]
fn revision_row_text() {
    let row = FindAllRevisionsRow::from_parts(3, -4000000000, "jon", "first");
    assert_eq!(row.to_string(), "3 -4000000000 jon first");
}

#[test]
fn distributions_rows() {
    let row = FindAllDistributionsRow::try_from(7, "maya-2018.sp3").unwrap();
    assert_eq!(row.package, "maya");
    assert_eq!(row.version, "2018.sp3");
    assert_eq!(row.to_string(), "maya-2018.sp3");
    let back = FindAllDistributionsRow::try_from(7, &row.to_string()).unwrap();
    assert_eq!(back, row);
    match FindAllDistributionsRow::try_from(7, "maya-2018-sp3") {
        Err(FindAllDistributionsError::DistributionError { distribution }) => {
            assert_eq!(distribution, "maya-2018-sp3")
        }
        _ => panic!("accepted"),
    }
    assert!(FindAllDistributionsRow::try_from(7, "maya").is_err());
}

#[test]
fn versionpin_withs_query_and_row() {
    let (q, id) = FindAllWiths::new(5).get_query_str();
    assert_eq!(q, WITHS);
    assert_eq!(id, 5);
    let row = FindAllWithsRow::from_parts(1, 5, "xerces".to_string(), 0);
    assert_eq!(row.to_string(), "xerces order: 0 (id:1 vpin id:5 )");
}

#[test]
fn changes_rows() {
    let row = FindAllChangesRow::try_from_parts(
        1, 20, "update", "facility", None, "model", "cent7_64", "any", "maya", "maya-1.0", "maya-2.0",
    )
    .unwrap();
    assert_eq!(row.action, ChangeAction::Update);
    assert_eq!(row.to_string(), "1 20 UPDATE (facility model cent7_64 any) maya-1.0 maya-2.0");
    let first = FindAllChangesRow::from_parts(
        2, 20, "INSERT", "facility", None, "any", "any", "any", "maya", "", "maya-1.0",
    );
    assert!(first.old.is_none());
    assert_eq!(first.to_string(), "2 20 INSERT (facility any any any)  maya-1.0");
    match FindAllChangesRow::try_from_parts(
        1, 20, "delete", "facility", None, "model", "cent7_64", "any", "maya", "", "maya-2.0",
    ) {
        Err(FindAllChangesError::ChangeActionError { input, .. }) => assert_eq!(input, "delete"),
        _ => panic!("accepted"),
    }
    match FindAllChangesRow::try_from_parts(
        1, 20, "update", "facility", None, "model", "cent7_64", "any", "maya", "", "maya2.0",
    ) {
        Err(FindAllChangesError::CoordsTryFromPartsError { coords, .. }) => {
            assert_eq!(coords, "unable to create from supplied str")
        }
        _ => panic!("accepted"),
    }
}

#[test]
fn versionpins_rows() {
    let spec = Some(LevelSpec { show: Some("dev01".to_string()), parts: vec!["dev01".to_string()] });
    let row = FindAllVersionPinsRow::try_from_parts(
        1,
        2,
        3,
        "maya-2018",
        "dev01",
        spec,
        "model",
        "cent7_64",
        "portland",
        Some(vec!["xerces".to_string(), "mayapipeline".to_string()]),
    )
    .unwrap();
    assert_eq!(
        row.to_string(),
        "maya-2018 (vp id:1 dist id:2 pkgcoord id:3) (level:'dev01' role:'model' platform:'cent7_64' site:'portland') [xerces, mayapipeline]"
    );
    match FindAllVersionPinsRow::try_from_parts(
        1, 2, 3, "maya", "facility", None, "model", "cent7_64", "portland", None,
    ) {
        Err(FindAllVersionPinsError::VersionPinNewError { msg, .. }) => assert_eq!(msg, "maya"),
        _ => panic!("accepted"),
    }
    match FindAllVersionPinsRow::try_from_parts(
        1, 2, 3, "maya-1", "facility", None, "mod el", "cent7_64", "portland", None,
    ) {
        Err(FindAllVersionPinsError::CoordsTryFromPartsError { coords, .. }) => assert_eq!(
            coords,
            "(level:'facility' role:'mod el' platform:'cent7_64' site:'portland')"
        ),
        _ => panic!("accepted"),
    }
    let plain = FindAllVersionPinsRow::new(
        1,
        2,
        3,
        Distribution::new("maya-1").unwrap(),
        Coords::new().build(),
        None,
    );
    assert!(plain.to_string().ends_with(" []"));
}
