//! The defaults of the command line coordinates.
use packybara::cmd::utils::extract_coords;

#[test]
fn coordinates_default_to_facility_and_any() {
    let (l, r, p, s, m) = extract_coords(&None, &None, &None, &None, &None);
    assert_eq!((l.as_str(), r.as_str(), p.as_str(), s.as_str(), m.as_str()), ("facility", "any", "any", "any", "ancestor"));
    let (l, r, p, s, m) = extract_coords(
        &Some("dev01".to_string()),
        &Some("model".to_string()),
        &Some("cent7_64".to_string()),
        &Some("portland".to_string()),
        &Some("exact".to_string()),
    );
    assert_eq!((l.as_str(), r.as_str(), p.as_str(), s.as_str(), m.as_str()), ("dev01", "model", "cent7_64", "portland", "exact"));
}
