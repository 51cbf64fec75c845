use rithmic_rs::{ConfigError, RithmicAccount, RithmicConfig, RithmicConfigBuilder, RithmicEnv};

fn some(s: &str) -> Option<String> {
    Some(s.to_string())
}

#[test]
fn test_rithmic_env_display() {
    assert_eq!(RithmicEnv::Demo.to_display_string(), "demo");
    assert_eq!(RithmicEnv::Live.to_display_string(), "live");
    assert_eq!(RithmicEnv::Test.to_display_string(), "test");
}

#[test]
fn test_rithmic_env_from_str() {
    assert_eq!("demo".parse::<RithmicEnv>().unwrap(), RithmicEnv::Demo);
    assert_eq!("development".parse::<RithmicEnv>().unwrap(), RithmicEnv::Demo);
    assert_eq!("live".parse::<RithmicEnv>().unwrap(), RithmicEnv::Live);
    assert_eq!("production".parse::<RithmicEnv>().unwrap(), RithmicEnv::Live);
    assert_eq!("test".parse::<RithmicEnv>().unwrap(), RithmicEnv::Test);

    let result = "invalid".parse::<RithmicEnv>();
    assert!(result.is_err());
    if let Err(ConfigError::InvalidEnvironment(env)) = result {
        assert_eq!(env, "invalid");
    } else {
        panic!("Expected InvalidEnvironment error");
    }
}

#[test]
fn env_names_parse_back() {
    for env in [RithmicEnv::Demo, RithmicEnv::Live, RithmicEnv::Test] {
        assert_eq!(RithmicEnv::parse(&env.to_display_string()).unwrap(), env);
    }
    assert_eq!(RithmicEnv::default(), RithmicEnv::Demo);
}

#[test]
fn test_config_error_display() {
    let err = ConfigError::MissingEnvVar("TEST_VAR".to_string());
    assert_eq!(err.to_display_string(), "Missing environment variable: TEST_VAR");

    let err = ConfigError::InvalidEnvironment("bad_env".to_string());
    assert_eq!(err.to_display_string(), "Invalid environment: bad_env");

    let err = ConfigError::InvalidValue {
        var: "TEST".to_string(),
        reason: "too short".to_string(),
    };
    assert_eq!(err.to_display_string(), "Invalid value for TEST: too short");

    let err = ConfigError::MissingField("field".to_string());
    assert_eq!(err.to_display_string(), "Missing required field: field");
}

#[test]
fn test_account_from_env_demo_success() {
    let names = RithmicAccount::env_var_names(RithmicEnv::Demo);
    assert_eq!(
        names,
        ("RITHMIC_DEMO_ACCOUNT_ID", "RITHMIC_DEMO_FCM_ID", "RITHMIC_DEMO_IB_ID")
    );
    let account = RithmicAccount::from_env_values(
        RithmicEnv::Demo,
        some("test_account"),
        some("test_fcm"),
        some("test_ib"),
    )
    .unwrap();

    assert_eq!(account.account_id, "test_account");
    assert_eq!(account.fcm_id, "test_fcm");
    assert_eq!(account.ib_id, "test_ib");
}

#[test]
fn test_account_from_env_missing_account_id() {
    let result =
        RithmicAccount::from_env_values(RithmicEnv::Demo, None, some("test_fcm"), some("test_ib"));
    assert!(result.is_err());

    if let Err(ConfigError::MissingEnvVar(var)) = result {
        assert_eq!(var, "RITHMIC_DEMO_ACCOUNT_ID");
    } else {
        panic!("Expected MissingEnvVar error");
    }
}

#[test]
fn account_reports_the_first_missing_variable() {
    let result = RithmicAccount::from_env_values(RithmicEnv::Live, some("a"), None, None);
    assert_eq!(
        result.unwrap_err(),
        ConfigError::MissingEnvVar("RITHMIC_LIVE_FCM_ID".to_string())
    );
    let result = RithmicAccount::from_env_values(RithmicEnv::Test, some("a"), some("f"), None);
    assert_eq!(
        result.unwrap_err(),
        ConfigError::MissingEnvVar("RITHMIC_TEST_IB_ID".to_string())
    );
}

#[test]
fn test_from_env_demo_success() {
    let config = RithmicConfig::from_env_values(
        RithmicEnv::Demo,
        some("wss://test-demo.example.com:443"),
        some("wss://test-demo-alt.example.com:443"),
        some("demo_user"),
        some("demo_password"),
        some("test_app"),
        some("1"),
    )
    .unwrap();

    assert_eq!(config.user, "demo_user");
    assert_eq!(config.password, "demo_password");
    assert_eq!(config.url, "wss://test-demo.example.com:443");
    assert_eq!(config.beta_url, "wss://test-demo-alt.example.com:443");
    assert_eq!(config.system_name, "Rithmic Paper Trading");
    assert_eq!(config.env, RithmicEnv::Demo);
}

#[test]
fn test_from_env_live_success() {
    let config = RithmicConfig::from_env_values(
        RithmicEnv::Live,
        some("wss://test-live.example.com:443"),
        some("wss://test-live-alt.example.com:443"),
        some("live_user"),
        some("live_password"),
        some("test_app"),
        some("1"),
    )
    .unwrap();

    assert_eq!(config.user, "live_user");
    assert_eq!(config.password, "live_password");
    assert_eq!(config.system_name, "Rithmic 01");
    assert_eq!(config.env, RithmicEnv::Live);
}

#[test]
fn test_from_env_missing_credentials() {
    let result = RithmicConfig::from_env_values(
        RithmicEnv::Demo,
        some("wss://test-demo.example.com:443"),
        some("wss://test-demo-alt.example.com:443"),
        None,
        None,
        None,
        None,
    );
    assert!(result.is_err());

    if let Err(ConfigError::MissingEnvVar(var)) = result {
        assert_eq!(var, "RITHMIC_DEMO_USER");
    } else {
        panic!("Expected MissingEnvVar error");
    }
}

#[test]
fn test_from_env_missing_url() {
    let result = RithmicConfig::from_env_values(
        RithmicEnv::Demo,
        None,
        None,
        some("demo_user"),
        some("demo_password"),
        None,
        None,
    );
    assert!(result.is_err());

    if let Err(ConfigError::MissingEnvVar(var)) = result {
        assert_eq!(var, "RITHMIC_DEMO_URL");
    } else {
        panic!("Expected MissingEnvVar error");
    }
}

#[test]
fn config_reports_missing_app_fields_after_the_environment_ones() {
    let result = RithmicConfig::from_env_values(
        RithmicEnv::Test,
        some("u"),
        some("b"),
        some("user"),
        some("pw"),
        None,
        None,
    );
    assert_eq!(
        result.err(),
        Some(ConfigError::MissingEnvVar("RITHMIC_APP_NAME".to_string()))
    );
    let result = RithmicConfig::from_env_values(
        RithmicEnv::Test,
        some("u"),
        some("b"),
        some("user"),
        some("pw"),
        some("app"),
        None,
    );
    assert_eq!(
        result.err(),
        Some(ConfigError::MissingEnvVar("RITHMIC_APP_VERSION".to_string()))
    );
    assert_eq!(
        RithmicConfig::env_var_names(RithmicEnv::Test),
        (
            "RITHMIC_TEST_URL",
            "RITHMIC_TEST_ALT_URL",
            "RITHMIC_TEST_USER",
            "RITHMIC_TEST_PW"
        )
    );
}

#[test]
fn test_account_new_complete() {
    let account = RithmicAccount::new("my_fcm", "my_ib", "my_account");

    assert_eq!(account.account_id, "my_account");
    assert_eq!(account.fcm_id, "my_fcm");
    assert_eq!(account.ib_id, "my_ib");
}

#[test]
fn test_builder_complete() {
    let config = RithmicConfig::builder(RithmicEnv::Demo)
        .user("my_user")
        .password("my_password")
        .url("wss://test.example.com:443")
        .beta_url("wss://test-alt.example.com:443")
        .app_name("test_app")
        .app_version("1")
        .build()
        .unwrap();

    assert_eq!(config.user, "my_user");
    assert_eq!(config.password, "my_password");
    assert_eq!(config.env, RithmicEnv::Demo);
    assert_eq!(config.url, "wss://test.example.com:443");
    assert_eq!(config.beta_url, "wss://test-alt.example.com:443");
    assert_eq!(config.system_name, "Rithmic Paper Trading");
}

#[test]
fn test_builder_custom_urls() {
    let config = RithmicConfig::builder(RithmicEnv::Demo)
        .user("my_user")
        .password("my_password")
        .url("wss://custom.example.com:443")
        .beta_url("wss://custom-beta.example.com:443")
        .system_name("Custom System")
        .app_name("test_app")
        .app_version("1")
        .build()
        .unwrap();

    assert_eq!(config.url, "wss://custom.example.com:443");
    assert_eq!(config.beta_url, "wss://custom-beta.example.com:443");
    assert_eq!(config.system_name, "Custom System");
}

#[test]
fn test_builder_missing_user() {
    let result = RithmicConfig::builder(RithmicEnv::Demo)
        .password("my_password")
        .url("wss://test.example.com:443")
        .beta_url("wss://test-alt.example.com:443")
        .build();

    assert!(result.is_err());
    if let Err(ConfigError::MissingField(field)) = result {
        assert_eq!(field, "user");
    } else {
        panic!("Expected MissingField error");
    }
}

#[test]
fn builder_reports_the_first_missing_field() {
    let result = RithmicConfig::builder(RithmicEnv::Demo).build();
    assert_eq!(
        result.err(),
        Some(ConfigError::MissingField("url".to_string()))
    );
    let result = RithmicConfig::builder(RithmicEnv::Demo)
        .url("u")
        .beta_url("b")
        .user("x")
        .password("p")
        .app_name("a")
        .build();
    assert_eq!(
        result.err(),
        Some(ConfigError::MissingField("app_version".to_string()))
    );
}

#[test]
fn test_builder_demo_defaults() {
    let builder = RithmicConfigBuilder::new(RithmicEnv::Demo);
    let config = builder
        .user("test")
        .password("test")
        .url("wss://test.example.com:443")
        .beta_url("wss://test-alt.example.com:443")
        .app_name("test_app")
        .app_version("1")
        .build()
        .unwrap();

    assert_eq!(config.system_name, "Rithmic Paper Trading");
}

#[test]
fn test_builder_live_defaults() {
    let builder = RithmicConfigBuilder::new(RithmicEnv::Live);
    let config = builder
        .user("test")
        .password("test")
        .url("wss://test.example.com:443")
        .beta_url("wss://test-alt.example.com:443")
        .app_name("test_app")
        .app_version("1")
        .build()
        .unwrap();

    assert_eq!(config.system_name, "Rithmic 01");
}

#[test]
fn test_builder_test_defaults() {
    let builder = RithmicConfigBuilder::new(RithmicEnv::Test);
    let config = builder
        .user("test")
        .password("test")
        .url("wss://test.example.com:443")
        .beta_url("wss://test-alt.example.com:443")
        .app_name("test_app")
        .app_version("1")
        .build()
        .unwrap();

    assert_eq!(config.system_name, "Rithmic Test");
}

#[test]
fn test_builder_into_string_conversions() {
    let user = String::from("my_user");
    let config = RithmicConfig::builder(RithmicEnv::Demo)
        .user(&user)
        .password(&String::from("my_password"))
        .url(&String::from("wss://test.example.com:443"))
        .beta_url(&String::from("wss://test-alt.example.com:443"))
        .app_name("test_app")
        .app_version("1")
        .build()
        .unwrap();

    assert_eq!(config.user, "my_user");
}

#[test]
fn test_debug_redacts_password() {
    let config = RithmicConfig::builder(RithmicEnv::Demo)
        .user("my_user")
        .password("super_secret_password")
        .url("wss://test.example.com:443")
        .beta_url("wss://test-alt.example.com:443")
        .app_name("test_app")
        .app_version("1")
        .build()
        .unwrap();

    let debug_output = config.to_debug_string();
    assert!(
        !debug_output.contains("super_secret_password"),
        "Debug output should not contain the actual password"
    );
    assert!(
        debug_output.contains("[REDACTED]"),
        "Debug output should contain [REDACTED] for the password"
    );
    // Other fields should still be visible
    assert!(debug_output.contains("my_user"));
}

#[test]
fn the_debug_text_lists_every_field_in_order() {
    let config = RithmicConfig::builder(RithmicEnv::Live)
        .user("u\"q")
        .password("pw")
        .url("a")
        .beta_url("b")
        .app_name("n")
        .app_version("2")
        .build()
        .unwrap();

    assert_eq!(
        config.to_debug_string(),
        "RithmicConfig { url: \"a\", beta_url: \"b\", user: \"u\\\"q\", password: \"[REDACTED]\", \
         system_name: \"Rithmic 01\", env: Live, app_name: \"n\", app_version: \"2\" }"
    );
}

#[test]
fn the_debug_text_is_the_same_whatever_the_password() {
    let with = |password: &str| {
        RithmicConfig::builder(RithmicEnv::Test)
            .user("u")
            .password(password)
            .url("a")
            .beta_url("b")
            .app_name("n")
            .app_version("1")
            .build()
            .unwrap()
            .to_debug_string()
    };
    assert_eq!(with("first"), with("second"));
}
