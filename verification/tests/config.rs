use jwt_session::config::AuthConfigMiddleware;

#[test]
fn configuration_keeps_secret_and_parameters() {
    let config =
        AuthConfigMiddleware::new("s3cret".to_string(), "redis://127.0.0.1:6379/1".to_string());
    assert_eq!(config.secret, "s3cret");
    assert_eq!(config.redis_params, "redis://127.0.0.1:6379/1");
}

#[test]
fn parameters_that_parse_are_taken() {
    for params in ["redis://127.0.0.1", "redis://127.0.0.1:6379", "redis://:secret@store:7000/2"]
    {
        let config = AuthConfigMiddleware::try_new("s3cret".to_string(), params.to_string());
        let config = config.unwrap();
        assert_eq!(config.secret, "s3cret");
        assert_eq!(config.redis_params, params);
    }
}

#[test]
fn parameters_that_do_not_parse_are_refused() {
    for params in ["", "no uri at all", "http://127.0.0.1:6379", "redis://", "redis://host/notanumber"]
    {
        assert!(AuthConfigMiddleware::try_new("s3cret".to_string(), params.to_string()).is_none());
    }
}

#[test]
fn copy_of_a_configuration_holds_the_same() {
    let config =
        AuthConfigMiddleware::new("s3cret".to_string(), "redis://127.0.0.1:6379".to_string());
    let copy = config.clone();
    assert_eq!(copy.secret, config.secret);
    assert_eq!(copy.redis_params, config.redis_params);
}
