//! Finding one version pin, and the rows of the package searches.
use packybara::db::find::distributions::{FindDistributionsError, FindDistributionsRow};
use packybara::db::find::pkgcoords::FindPkgCoordsRow;
use packybara::db::find::versionpin::{FindVersionPin, FindVersionPinError};
use packybara::db::find::versionpins::{FindVersionPinsError, FindVersionPinsRow};
use packybara::db::find::withs::FindWithsRow;

const VERSIONPIN: &str = "SELECT 
            versionpin_id, 
            distribution, 
            level_name, 
            role_name, 
            site_name, 
            platform_name,
            withs
        FROM find_distribution_and_withs(
            $1, 
            role => $2, 
            platform => $3, 
            level=>$4, 
            site => $5)";

#[test]
fn versionpin_query_defaults_to_facility_and_any() {
    let f = FindVersionPin::new("maya");
    let (q, p) = f.get_query_str();
    assert_eq!(q, VERSIONPIN);
    assert_eq!(p, vec!["maya", "any", "any", "facility", "any"]);
}

#[test]
fn versionpin_query_with_coordinates() {
    let mut f = FindVersionPin::new("maya");
    f.level("dev01").role("model").platform("cent7_64").site_opt(Some("portland"));
    let (_, p) = f.get_query_str();
    assert_eq!(p, vec!["maya", "model", "cent7_64", "dev01", "portland"]);
    f.role_opt(None);
    assert_eq!(f.get_query_str().1[1], "any");
}

#[test]
fn versionpin_result_from_last_row() {
    let none = FindVersionPin::from_last_row(None);
    assert!(matches!(none, Err(FindVersionPinError::NoQueryResults)));
    let row = FindVersionPinsRow::try_from_parts(
        4, "maya-1", "facility", None, "any", "any", "any", None,
    )
    .unwrap();
    assert_eq!(row.to_string(), "maya-1 (level:'facility' role:'any' platform:'any' site:'any') []");
    let found = FindVersionPin::from_last_row(Some(Ok(row))).unwrap();
    assert_eq!(found.versionpin_id, 4);
    let bad = FindVersionPinsRow::try_from_parts(4, "maya", "facility", None, "any", "any", "any", None);
    assert!(matches!(bad, Err(FindVersionPinsError::DistributionNewError { .. })));
    let wrapped = FindVersionPin::from_last_row(Some(bad));
    assert!(matches!(wrapped, Err(FindVersionPinError::FindVersionPinsRowError { .. })));
}

#[test]
fn distribution_rows() {
    let row = FindDistributionsRow::try_from_parts(1, "maya-1", "facility", None, "model", "any", "any")
        .unwrap();
    assert_eq!(row.to_string(), "maya-1 (level:'facility' role:'model' platform:'any' site:'any')");
    match FindDistributionsRow::try_from_parts(1, "maya-1", "facility", None, "mo del", "any", "any") {
        Err(FindDistributionsError::CoordsTryFromPartsError { coords, .. }) => assert_eq!(
            coords,
            "(level:'facility' role:'mo del' platform:'any' site:'any')"
        ),
        _ => panic!("accepted"),
    }
    let w = FindWithsRow::from_parts(9, "maya-1", "facility", None, "any", "any", "any");
    assert_eq!(w.to_string(), "9 maya-1 (level:'facility' role:'any' platform:'any' site:'any')");
}

#[test]
fn pkgcoords_row_text() {
    let row = FindPkgCoordsRow::from_parts(3, "maya", "facility", "any", "any", "any");
    assert_eq!(row.to_string(), "maya (facility any any any)");
}
