//! Distributions: their parts and the naming rules.
use packybara::coords_error::CoordsError;
use packybara::distribution::Distribution;

#[test]
fn can_return_dist_name() {
    let distribution = Distribution::new("maya-2018.sp3").unwrap();
    let name = distribution.package();
    assert_eq!(name, "maya");
}

#[test]
fn can_return_dist_namec() {
    fn inner() -> Result<String, CoordsError> {
        let distribution = Distribution::new("maya-2018.sp3")?;
        let name = distribution.package();
        Ok(name.to_string())
    }
    let name = inner().unwrap();
    assert_eq!(name, "maya");
}

#[test]
fn validation_should_catch_spaces() {
    let d = Distribution::new("foo bar-1.0.0");
    assert_eq!(d.is_err(), true);
    if let CoordsError::DistributionConstructionError { ref problem } = d.unwrap_err() {
        assert_eq!(problem, &"Contains space in name: 'foo bar-1.0.0'");
    } else {
        panic!("error not of type CoordsError::DistributionConstructionError");
    }
}

#[test]
fn validation_should_catch_double_underscores() {
    let d = Distribution::new("foobar-1.0__0");
    assert_eq!(d.is_err(), true);
    if let CoordsError::DistributionConstructionError { ref problem } = d.unwrap_err() {
        assert_eq!(problem, &"double underscore in name not permitted: 'foobar-1.0__0'");
    } else {
        panic!("error not of type CoordsError::DistributionConstructionError");
    }
}

#[test]
fn validation_should_catch_names_starting_with_underscores() {
    let d = Distribution::new("_foobar-1.0.0");
    assert_eq!(d.is_err(), true);
    if let CoordsError::DistributionConstructionError { ref problem } = d.unwrap_err() {
        assert_eq!(problem, &"name not allowed to start with underscore: '_foobar-1.0.0'");
    } else {
        panic!("error not of type CoordsError::DistributionConstructionError");
    }
}

#[test]
fn validation_should_catch_names_with_more_than_one_dash() {
    let d = Distribution::new("foobar--1.0.0");
    assert_eq!(d.is_err(), true);
    if let CoordsError::DistributionConstructionError { ref problem } = d.unwrap_err() {
        assert_eq!(problem, &"distribution name must have a single dash in it: 'foobar--1.0.0'");
    } else {
        panic!("error not of type CoordsError::DistributionConstructionError");
    }
}

#[test]
fn validation_should_catch_names_without_one_dash() {
    let d = Distribution::new("foobar.1.0.0");
    assert_eq!(d.is_err(), true);
    if let CoordsError::DistributionConstructionError { ref problem } = d.unwrap_err() {
        assert_eq!(problem, &"distribution name must have a single dash in it: 'foobar.1.0.0'");
    } else {
        panic!("error not of type CoordsError::DistributionConstructionError");
    }
}

#[test]
fn blank_distribution_is_refused() {
    match Distribution::new("") {
        Err(CoordsError::DistributionConstructionError { problem }) => {
            assert_eq!(problem, "name is blank")
        }
        _ => panic!("a blank name was accepted"),
    }
}

#[test]
fn version_and_whole_name_of_distribution() {
    let d = Distribution::new("houdini-17.5.432").unwrap();
    assert_eq!(d.package(), "houdini");
    assert_eq!(d.version(), "17.5.432");
    assert_eq!(d.distribution(), "houdini-17.5.432");
    assert_eq!(d.to_string(), "houdini-17.5.432");
}

#[test]
fn package_dash_version_gives_the_name_back() {
    let d = Distribution::new("maya-2018.sp3").unwrap();
    let joined = format!("{}-{}", d.package(), d.version());
    assert_eq!(joined, d.distribution());
}
