use zero2prod2::configuration::Environment;

#[test]
fn environment_names_round_trip() {
    assert_eq!(Environment::Local.as_str(), "local");
    assert_eq!(Environment::Production.as_str(), "production");
    assert_eq!(Environment::parse(Environment::Local.as_str()), Ok(Environment::Local));
    assert_eq!(Environment::parse(Environment::Production.as_str()), Ok(Environment::Production));
}

#[test]
fn environment_parse_ignores_case() {
    assert_eq!(Environment::parse("LOCAL"), Ok(Environment::Local));
    assert_eq!(Environment::parse("Production"), Ok(Environment::Production));
}

#[test]
fn an_unknown_environment_is_rejected() {
    assert!(Environment::parse("staging").is_err());
    assert!(Environment::parse("").is_err());
}
