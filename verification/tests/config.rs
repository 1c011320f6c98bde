use auth_core::config::{get_config, AppConfig, ConfigError};
use auth_core::utils::decimal::{parse_i64, parse_u16};

fn text(s: &str) -> Option<String> {
    Some(s.to_string())
}

#[test]
fn config_from_all_four_values() {
    let config = get_config(text("users.db"), text("secret"), text("8080"), text("15"));
    assert_eq!(
        config,
        Ok(AppConfig {
            database_url: "users.db".to_string(),
            jwt_secret: "secret".to_string(),
            port: 8080,
            jwt_expiration: 15,
        })
    );
    assert!(config.unwrap().is_valid());
}

#[test]
fn from_env_and_get_config_agree() {
    assert_eq!(
        AppConfig::from_env(text("users.db"), text("secret"), text("8080"), text("15")),
        get_config(text("users.db"), text("secret"), text("8080"), text("15"))
    );
    assert_eq!(
        AppConfig::from_env(None, text("secret"), None, None),
        get_config(None, text("secret"), None, None)
    );
}

#[test]
fn port_and_lifetime_have_defaults() {
    let config = get_config(text("users.db"), text("secret"), None, None).unwrap();
    assert_eq!(config.port, 3000);
    assert_eq!(config.jwt_expiration, 3600);
}

#[test]
fn database_url_is_required() {
    let e = get_config(None, text("secret"), text("8080"), text("15")).unwrap_err();
    assert_eq!(e, ConfigError::MissingDatabaseUrl);
    assert_eq!(e.message(), "DATABASE_URL must be set");
}

#[test]
fn secret_is_required() {
    let e = get_config(text("users.db"), None, text("8080"), text("15")).unwrap_err();
    assert_eq!(e, ConfigError::MissingJwtSecret);
    assert_eq!(e.message(), "JWT_SECRET must be set");
}

#[test]
fn secret_must_not_be_empty() {
    let e = get_config(text("users.db"), text(""), text("8080"), text("15")).unwrap_err();
    assert_eq!(e, ConfigError::EmptyJwtSecret);
    assert_eq!(e.message(), "JWT_SECRET must not be empty");
}

#[test]
fn port_must_be_a_number() {
    for port in ["", "abc", "65536", "-1", "+", "80 ", " 80", "8o", "0x50", "١٢٣"] {
        let e = get_config(text("users.db"), text("secret"), text(port), text("15")).unwrap_err();
        assert_eq!(e, ConfigError::InvalidPort);
        assert_eq!(e.message(), "PORT must be a number");
    }
    for (port, number) in [("0", 0), ("80", 80), ("+80", 80), ("0080", 80), ("65535", 65535)] {
        let config = get_config(text("users.db"), text("secret"), text(port), None).unwrap();
        assert_eq!(config.port, number);
    }
}

#[test]
fn lifetime_must_be_a_number() {
    for minutes in ["", "abc", "1.5", "9223372036854775808", "-", "--1", "1e3"] {
        let e = get_config(text("users.db"), text("secret"), None, text(minutes)).unwrap_err();
        assert_eq!(e, ConfigError::InvalidJwtExpiration);
        assert_eq!(e.message(), "JWT_EXPIRATION must be a number");
    }
    for (minutes, number) in [("1", 1), ("+60", 60), ("0060", 60), ("9223372036854775807", i64::MAX)] {
        let config = get_config(text("users.db"), text("secret"), None, text(minutes)).unwrap();
        assert_eq!(config.jwt_expiration, number);
    }
}

#[test]
fn lifetime_must_be_positive() {
    for minutes in ["0", "-0", "-1", "-9223372036854775808"] {
        let e = get_config(text("users.db"), text("secret"), None, text(minutes)).unwrap_err();
        assert_eq!(e, ConfigError::NonPositiveJwtExpiration);
        assert_eq!(e.message(), "JWT_EXPIRATION must be positive");
    }
}

#[test]
fn first_failure_is_reported() {
    assert_eq!(get_config(None, None, text("x"), text("x")), Err(ConfigError::MissingDatabaseUrl));
    assert_eq!(
        get_config(text("users.db"), None, text("x"), text("x")),
        Err(ConfigError::MissingJwtSecret)
    );
    assert_eq!(
        get_config(text("users.db"), text(""), text("x"), text("x")),
        Err(ConfigError::EmptyJwtSecret)
    );
    assert_eq!(
        get_config(text("users.db"), text("secret"), text("x"), text("x")),
        Err(ConfigError::InvalidPort)
    );
    assert_eq!(
        get_config(text("users.db"), text("secret"), text("1"), text("x")),
        Err(ConfigError::InvalidJwtExpiration)
    );
}

#[test]
fn validity_is_a_secret_and_a_positive_lifetime() {
    let valid = AppConfig {
        database_url: String::new(),
        jwt_secret: "s".to_string(),
        port: 0,
        jwt_expiration: 1,
    };
    assert!(valid.is_valid());
    let mut no_secret = valid.clone();
    no_secret.jwt_secret = String::new();
    assert!(!no_secret.is_valid());
    let mut no_lifetime = valid.clone();
    no_lifetime.jwt_expiration = 0;
    assert!(!no_lifetime.is_valid());
    let mut negative_lifetime = valid;
    negative_lifetime.jwt_expiration = -1;
    assert!(!negative_lifetime.is_valid());
}

#[test]
fn parse_u16_reads_decimal() {
    assert_eq!(parse_u16("3000"), Some(3000));
    assert_eq!(parse_u16("0"), Some(0));
    assert_eq!(parse_u16("00000000000000000000000007"), Some(7));
    assert_eq!(parse_u16("+65535"), Some(65535));
    assert_eq!(parse_u16("65535"), Some(65535));
    assert_eq!(parse_u16("65536"), None);
    assert_eq!(parse_u16("99999999999999999999999999999999999999999"), None);
    assert_eq!(parse_u16(""), None);
    assert_eq!(parse_u16("+"), None);
    assert_eq!(parse_u16("-"), None);
    assert_eq!(parse_u16("-0"), None);
    assert_eq!(parse_u16("++1"), None);
    assert_eq!(parse_u16("1+"), None);
    assert_eq!(parse_u16("12a"), None);
    assert_eq!(parse_u16("１２"), None);
}

#[test]
fn parse_i64_reads_decimal() {
    assert_eq!(parse_i64("3600"), Some(3600));
    assert_eq!(parse_i64("-3600"), Some(-3600));
    assert_eq!(parse_i64("+3600"), Some(3600));
    assert_eq!(parse_i64("-0"), Some(0));
    assert_eq!(parse_i64("9223372036854775807"), Some(i64::MAX));
    assert_eq!(parse_i64("9223372036854775808"), None);
    assert_eq!(parse_i64("-9223372036854775808"), Some(i64::MIN));
    assert_eq!(parse_i64("-9223372036854775809"), None);
    assert_eq!(parse_i64("-00000000000000000000009223372036854775808"), Some(i64::MIN));
    assert_eq!(parse_i64("18446744073709551616"), None);
    assert_eq!(parse_i64("340282366920938463463374607431768211456"), None);
    assert_eq!(parse_i64(""), None);
    assert_eq!(parse_i64("-"), None);
    assert_eq!(parse_i64("+-1"), None);
    assert_eq!(parse_i64("- 1"), None);
    assert_eq!(parse_i64("1_000"), None);
}

#[test]
fn parsing_agrees_with_the_standard_library() {
    let texts = [
        "", "0", "7", "42", "+42", "-42", "+", "-", "+-1", "-+1", "00", "007", "65535", "65536",
        "+65535", "-65535", "2147483647", "9223372036854775807", "9223372036854775808",
        "-9223372036854775808", "-9223372036854775809", "99999999999999999999", "1 ", " 1",
        "1\n", "1.0", "1e3", "0x10", "١", "１", "1\u{0}", "\u{7f}", "é", "12é", "--1", "++1",
        "3000", "3600",
    ];
    for s in texts {
        assert_eq!(parse_u16(s), s.parse::<u16>().ok(), "u16 of {:?}", s);
        assert_eq!(parse_i64(s), s.parse::<i64>().ok(), "i64 of {:?}", s);
    }
}
