//! The query text and parameters of package coordinate searches.
use packybara::db::find_all::pkgcoords::FindAllPkgCoords;

#[test]
fn get_query_string_default_works() {
    let mut fpc = FindAllPkgCoords::new(None);
    let (qs, ps) = fpc.get_query_str();
    assert_eq!(
        qs.as_str(),
        "SELECT \n\
    pkgcoord_id, \n\
    package, \n\
    level_name, \n\
    role_name, \n\
    platform_name, \n\
    site_name \n\
FROM pkgcoord_view WHERE text2ltree($1) <@ level AND text2ltree($2) <@ role AND text2ltree($3) <@ platform AND text2ltree($4) <@ site"
    );
    assert_eq!(ps, &["facility", "any", "any", "any"]);
}
#[test]
fn get_query_string_with_level() {
    let mut fpc = FindAllPkgCoords::new(None);
    fpc.level("bayou");
    let (qs, ps) = fpc.get_query_str();
    assert_eq!(
        qs.as_str(),
        "SELECT \n\
    pkgcoord_id, \n\
    package, \n\
    level_name, \n\
    role_name, \n\
    platform_name, \n\
    site_name \n\
FROM pkgcoord_view WHERE text2ltree($1) <@ level AND text2ltree($2) <@ role AND text2ltree($3) <@ platform AND text2ltree($4) <@ site"
    );
    assert_eq!(ps, &["facility.bayou", "any", "any", "any"]);
}
#[test]
fn get_query_string_with_like_level() {
    let mut fpc = FindAllPkgCoords::new(None);
    fpc.level("bayou%");
    let (qs, ps) = fpc.get_query_str();
    assert_eq!(
        qs.as_str(),
        "SELECT \n\
    pkgcoord_id, \n\
    package, \n\
    level_name, \n\
    role_name, \n\
    platform_name, \n\
    site_name \n\
FROM pkgcoord_view WHERE level_name LIKE $1 AND text2ltree($2) <@ role AND text2ltree($3) <@ platform AND text2ltree($4) <@ site"
    );
    assert_eq!(ps, &["bayou%", "any", "any", "any"]);
}
#[test]
fn get_query_string_with_subrole() {
    let mut fpc = FindAllPkgCoords::new(None);
    fpc.role("fx_beta");
    let (qs, ps) = fpc.get_query_str();
    assert_eq!(
        qs.as_str(),
        "SELECT \n\
    pkgcoord_id, \n\
    package, \n\
    level_name, \n\
    role_name, \n\
    platform_name, \n\
    site_name \n\
FROM pkgcoord_view WHERE text2ltree($1) <@ level AND text2ltree($2) <@ role AND text2ltree($3) <@ platform AND text2ltree($4) <@ site"
    );
    assert_eq!(ps, &["facility", "any.fx.beta", "any", "any"]);
}
#[test]
fn get_query_string_with_like_role() {
    let mut fpc = FindAllPkgCoords::new(None);
    fpc.role("fx%");
    let (qs, ps) = fpc.get_query_str();
    assert_eq!(
        qs.as_str(),
        "SELECT \n\
    pkgcoord_id, \n\
    package, \n\
    level_name, \n\
    role_name, \n\
    platform_name, \n\
    site_name \n\
FROM pkgcoord_view WHERE text2ltree($1) <@ level AND role_name LIKE $2 AND text2ltree($3) <@ platform AND text2ltree($4) <@ site"
    );
    assert_eq!(ps, &["facility", "fx%", "any", "any"]);
}
#[test]
fn get_query_string_with_platform() {
    let mut fpc = FindAllPkgCoords::new(None);
    fpc.platform("cent7_64");
    let (qs, ps) = fpc.get_query_str();
    assert_eq!(
        qs.as_str(),
        "SELECT \n\
    pkgcoord_id, \n\
    package, \n\
    level_name, \n\
    role_name, \n\
    platform_name, \n\
    site_name \n\
FROM pkgcoord_view WHERE text2ltree($1) <@ level AND text2ltree($2) <@ role AND text2ltree($3) <@ platform AND text2ltree($4) <@ site"
    );
    assert_eq!(ps, &["facility", "any", "any.cent7_64", "any"]);
}
#[test]
fn get_query_string_with_like_platform() {
    let mut fpc = FindAllPkgCoords::new(None);
    fpc.platform("cent7%");
    let (qs, ps) = fpc.get_query_str();
    assert_eq!(
        qs.as_str(),
        "SELECT \n\
    pkgcoord_id, \n\
    package, \n\
    level_name, \n\
    role_name, \n\
    platform_name, \n\
    site_name \n\
FROM pkgcoord_view WHERE text2ltree($1) <@ level AND text2ltree($2) <@ role AND platform_name LIKE $3 AND text2ltree($4) <@ site"
    );
    assert_eq!(ps, &["facility", "any", "cent7%", "any"]);
}
#[test]
fn get_query_string_with_site() {
    let mut fpc = FindAllPkgCoords::new(None);
    fpc.site("montreal");
    let (qs, ps) = fpc.get_query_str();
    assert_eq!(
        qs.as_str(),
        "SELECT \n\
    pkgcoord_id, \n\
    package, \n\
    level_name, \n\
    role_name, \n\
    platform_name, \n\
    site_name \n\
FROM pkgcoord_view WHERE text2ltree($1) <@ level AND text2ltree($2) <@ role AND text2ltree($3) <@ platform AND text2ltree($4) <@ site"
    );
    assert_eq!(ps, &["facility", "any", "any", "any.montreal"]);
}
#[test]
fn get_query_string_with_like_site() {
    let mut fpc = FindAllPkgCoords::new(None);
    fpc.site("montreal%");
    let (qs, ps) = fpc.get_query_str();
    assert_eq!(
        qs.as_str(),
        "SELECT \n\
    pkgcoord_id, \n\
    package, \n\
    level_name, \n\
    role_name, \n\
    platform_name, \n\
    site_name \n\
FROM pkgcoord_view WHERE text2ltree($1) <@ level AND text2ltree($2) <@ role AND text2ltree($3) <@ platform AND site_name LIKE $4"
    );
    assert_eq!(ps, &["facility", "any", "any", "montreal%"]);
}
#[test]
fn get_query_string_with_level_like_and_package() {
    let mut fpc = FindAllPkgCoords::new(None);
    fpc.level("bayou%").package("maya");
    let (qs, ps) = fpc.get_query_str();
    assert_eq!(
        qs.as_str(),
        "SELECT \n\
    pkgcoord_id, \n\
    package, \n\
    level_name, \n\
    role_name, \n\
    platform_name, \n\
    site_name \n\
FROM pkgcoord_view WHERE package = $1 AND level_name LIKE $2 AND text2ltree($3) <@ role AND text2ltree($4) <@ platform AND text2ltree($5) <@ site"
    );
    assert_eq!(ps, &["maya", "bayou%", "any", "any", "any"]);
}

// this one is important as it verifies that the subrole is being
// appropriately transformed
#[test]
fn get_query_string_with_level_like_and_package_and_role() {
    let mut fpc = FindAllPkgCoords::new(None);
    fpc.level("bayou%").package("maya").role("fx_beta");
    let (qs, ps) = fpc.get_query_str();
    assert_eq!(
        qs.as_str(),
        "SELECT \n\
    pkgcoord_id, \n\
    package, \n\
    level_name, \n\
    role_name, \n\
    platform_name, \n\
    site_name \n\
FROM pkgcoord_view WHERE package = $1 AND level_name LIKE $2 AND text2ltree($3) <@ role AND text2ltree($4) <@ platform AND text2ltree($5) <@ site"
    );
    assert_eq!(ps, &["maya", "bayou%", "any.fx.beta", "any", "any"]);
}
#[test]
fn get_query_string_with_level_like_and_package_role_and_platform() {
    let mut fpc = FindAllPkgCoords::new(None);
    fpc.level("bayou%")
        .package("maya")
        .role("fx_beta")
        .platform("cent7_64");
    let (qs, ps) = fpc.get_query_str();
    assert_eq!(
        qs.as_str(),
        "SELECT \n\
    pkgcoord_id, \n\
    package, \n\
    level_name, \n\
    role_name, \n\
    platform_name, \n\
    site_name \n\
FROM pkgcoord_view WHERE package = $1 AND level_name LIKE $2 AND text2ltree($3) <@ role AND text2ltree($4) <@ platform AND text2ltree($5) <@ site"
    );
    assert_eq!(
        ps,
        &["maya", "bayou%", "any.fx.beta", "any.cent7_64", "any"]
    );
}
#[test]
fn get_query_string_with_level_like_and_package_role_platform_and_site() {
    let mut fpc = FindAllPkgCoords::new(None);
    fpc.level("bayou%")
        .package("maya")
        .role("fx_beta")
        .platform("cent7_64")
        .site("montreal");
    let (qs, ps) = fpc.get_query_str();
    assert_eq!(
        qs.as_str(),
        "SELECT \n\
    pkgcoord_id, \n\
    package, \n\
    level_name, \n\
    role_name, \n\
    platform_name, \n\
    site_name \n\
FROM pkgcoord_view WHERE package = $1 AND level_name LIKE $2 AND text2ltree($3) <@ role AND text2ltree($4) <@ platform AND text2ltree($5) <@ site"
    );
    assert_eq!(
        ps,
        &[
            "maya",
            "bayou%",
            "any.fx.beta",
            "any.cent7_64",
            "any.montreal"
        ]
    );
}
