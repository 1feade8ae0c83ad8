//! Search modes, the fragments they make, and the errors of reading rows.
use packybara::coords_error::CoordsError;
use packybara::ctx::Ctx;
use packybara::ctx_error::CtxError;
use packybara::db::find::distribution::{FindDistribution, FindDistributionError};
use packybara::db::find::distributions::{FindDistributionsError, FindDistributionsRow};
use packybara::db::find::roles::{FindRolesError, FindRolesRow};
use packybara::db::search_attribute::{
    JoinMode, LtreeSearchMode, SearchAttribute, SearchMode, SearchModeError,
};
use packybara::db::utils::{prep_query_str, search_mode_name_to_op};
use packybara::level::Level;

#[test]
fn search_modes_by_name() {
    assert_eq!(SearchMode::try_from_str("EQ").unwrap(), SearchMode::Equal);
    assert_eq!(SearchMode::try_from_str("~").unwrap(), SearchMode::Like);
    assert_eq!(
        SearchMode::try_from_str("Down").unwrap(),
        SearchMode::Ltree(LtreeSearchMode::Ancestor)
    );
    assert_eq!(SearchMode::try_from_str(".").unwrap(), SearchMode::Ltree(LtreeSearchMode::Exact));
    assert_eq!(
        SearchMode::try_from_str("@>").unwrap(),
        SearchMode::Ltree(LtreeSearchMode::Descendant)
    );
    match SearchMode::try_from_str("sideways") {
        Err(SearchModeError::InvalidLtreeSearchMode { mode }) => assert_eq!(mode, "sideways"),
        _ => panic!("accepted"),
    }
    assert!(SearchMode::Equal.is_equal());
    assert!(SearchMode::Like.is_like());
    assert_eq!(SearchMode::Ltree(LtreeSearchMode::Descendant).as_str(), "@>");
}

#[test]
fn search_fragments() {
    assert_eq!(
        SearchMode::search_string("name", &SearchMode::Equal, 1),
        " WHERE name = $1"
    );
    assert_eq!(
        SearchMode::search_string("name", &SearchMode::Like, 2),
        " AND name LIKE $2"
    );
    assert_eq!(
        SearchMode::search_string("level", &SearchMode::Ltree(LtreeSearchMode::Ancestor), 3),
        " AND text2ltree($3) <@ level"
    );
}

#[test]
fn names_and_symbols() {
    assert_eq!(search_mode_name_to_op("exact"), "=");
    assert_eq!(search_mode_name_to_op("ancestor"), "@>");
    assert_eq!(search_mode_name_to_op("descendant"), "<@");
    assert_eq!(search_mode_name_to_op("anything"), "<@");
    assert_eq!(LtreeSearchMode::Exact.to_symbol(), "=");
    assert_eq!(LtreeSearchMode::from_str("ancestor").unwrap(), LtreeSearchMode::Ancestor);
    assert_eq!(LtreeSearchMode::Descendant.to_string(), "descendant");
    assert_eq!(SearchAttribute::from_str("SITE").unwrap(), SearchAttribute::Site);
    assert!(SearchAttribute::from_str("sight").is_err());
    assert_eq!(JoinMode::Where.as_str(), "WHERE");
    assert_eq!(JoinMode::from_str("WHERE").unwrap(), JoinMode::Where);
    assert_eq!(JoinMode::from_str("where").unwrap(), JoinMode::Where);
    assert_eq!(JoinMode::from_str("AND").unwrap(), JoinMode::And);
    assert_eq!(JoinMode::from_str("and").unwrap(), JoinMode::And);
    assert!(JoinMode::from_str("And").is_err());
}

#[test]
fn query_values_under_their_root() {
    assert_eq!(prep_query_str("any", "any", true), "any");
    assert_eq!(prep_query_str("any", "fx_beta", true), "any.fx.beta");
    assert_eq!(prep_query_str("any", "fx_beta", false), "any.fx_beta");
    assert_eq!(prep_query_str("facility", "dev%", false), "dev%");
}

#[test]
fn level_refused_by_levelspec() {
    match Level::from_str("dev01", None) {
        Err(CoordsError::NewLevelspecError { level }) => assert_eq!(level, "dev01"),
        _ => panic!("accepted"),
    }
    match Level::try_from_str("dev01", None) {
        Err(CoordsError::InvalidLevel { input }) => assert_eq!(input, "dev01"),
        _ => panic!("accepted"),
    }
}

#[test]
fn ctx_errors_name_the_part() {
    match Ctx::try_from_parts("facility", None, "model", "cent7_64", "new york") {
        Err(CtxError::FromStrToSiteError { input }) => assert_eq!(input, "new york"),
        other => panic!("unexpected {:?}", other),
    }
    match Ctx::try_from_parts("dev01", None, "model", "cent7_64", "portland") {
        Err(CtxError::InvalidLevel { input }) => assert_eq!(input, "dev01"),
        other => panic!("unexpected {:?}", other),
    }
}

#[test]
fn role_rows() {
    let row = FindRolesRow::try_from_parts("model", "facility", None, "any", "portland").unwrap();
    assert_eq!(row.to_string(), "model @ (level:facility platform:any site:portland)");
    match FindRolesRow::try_from_parts("mod el", "facility", None, "any", "portland") {
        Err(FindRolesError::CoordsTryFromPartsError { coords, .. }) => assert_eq!(
            coords,
            "(level:'facility' role:'mod el' platform:'any' site:'portland')"
        ),
        _ => panic!("accepted"),
    }
}

#[test]
fn distribution_errors() {
    match FindDistributionsRow::try_from_parts(1, "maya", "facility", None, "any", "any", "any") {
        Err(FindDistributionsError::DistributionInitError { msg, .. }) => assert_eq!(msg, "maya"),
        _ => panic!("accepted"),
    }
    assert!(matches!(
        FindDistribution::from_last_row(None),
        Err(FindDistributionError::NoQueryResults)
    ));
    let bad = FindDistributionsRow::try_from_parts(1, "maya", "facility", None, "any", "any", "any");
    assert!(matches!(
        FindDistribution::from_last_row(Some(bad)),
        Err(FindDistributionError::FindDistributionsRowError { .. })
    ));
}
