use influxdb_sink::{
    encode_uri, healthcheck_request_uri, healthcheck_status, influxdb_settings, ConfigError,
    HealthcheckError, HealthcheckSetupError, InfluxDB1Settings, InfluxDB2Settings,
    InfluxDBSettings,
};

fn v1(database: &str) -> InfluxDB1Settings {
    InfluxDB1Settings {
        database: database.to_owned(),
        consistency: None,
        retention_policy_name: None,
        username: None,
        password: None,
    }
}

fn v2() -> InfluxDB2Settings {
    InfluxDB2Settings {
        org: "my-org".to_owned(),
        bucket: "my-bucket".to_owned(),
        token: "my-token".to_owned(),
    }
}

#[test]
fn test_influxdb_settings_both() {
    let settings = influxdb_settings(Some(v1("my-database")), Some(v2()));
    match settings {
        Ok(_) => assert!(false, "Expected error"),
        Err(ConfigError::BothConfiguration {
            v1_settings,
            v2_settings,
        }) => assert_eq!(
            format!(
                "Unclear settings. Both version configured v1: {:?}, v2: {:?}.",
                v1_settings, v2_settings
            ),
            "Unclear settings. Both version configured v1: InfluxDB1Settings { database: \"my-database\", consistency: None, retention_policy_name: None, username: None, password: None }, v2: InfluxDB2Settings { org: \"my-org\", bucket: \"my-bucket\", token: \"my-token\" }.".to_owned()
        ),
        Err(e) => panic!("unexpected error {:?}", e),
    }
}

#[test]
fn test_influxdb_settings_missing() {
    let settings = influxdb_settings(None, None);
    match settings {
        Ok(_) => assert!(false, "Expected error"),
        Err(e) => assert!(matches!(e, ConfigError::MissingConfiguration)),
    }
}

#[test]
fn test_influxdb1_settings() {
    let settings = influxdb_settings(Some(v1("my-database")), None).unwrap();
    assert!(matches!(settings, InfluxDBSettings::V1(_)));
}

#[test]
fn test_influxdb2_settings() {
    let settings = influxdb_settings(None, Some(v2())).unwrap();
    assert!(matches!(settings, InfluxDBSettings::V2(_)));
}

fn full_v1() -> InfluxDB1Settings {
    InfluxDB1Settings {
        consistency: Some("quorum".to_owned()),
        database: "vector_db".to_owned(),
        retention_policy_name: Some("autogen".to_owned()),
        username: Some("writer".to_owned()),
        password: Some("secret".to_owned()),
    }
}

#[test]
fn test_influxdb1_test_write_uri() {
    let settings = full_v1();

    let uri = settings
        .write_uri("http://localhost:8086".to_owned())
        .unwrap();
    assert_eq!("http://localhost:8086/write?consistency=quorum&db=vector_db&rp=autogen&p=secret&u=writer&precision=ns", uri.to_string())
}

#[test]
fn test_influxdb2_test_write_uri() {
    let settings = v2();

    let uri = settings
        .write_uri("http://localhost:9999".to_owned())
        .unwrap();
    assert_eq!(
        "http://localhost:9999/api/v2/write?org=my-org&bucket=my-bucket&precision=ns",
        uri.to_string()
    )
}

#[test]
fn test_influxdb1_test_healthcheck_uri() {
    let settings = full_v1();

    let uri = settings
        .healthcheck_uri("http://localhost:8086".to_owned())
        .unwrap();
    assert_eq!("http://localhost:8086/ping", uri.to_string())
}

#[test]
fn test_influxdb2_test_healthcheck_uri() {
    let settings = v2();

    let uri = settings
        .healthcheck_uri("http://localhost:9999".to_owned())
        .unwrap();
    assert_eq!("http://localhost:9999/health", uri.to_string())
}

#[test]
fn test_encode_uri_valid() {
    let uri = encode_uri(
        "http://localhost:9999",
        "api/v2/write",
        &[
            ("org", Some("my-org".to_owned())),
            ("bucket", Some("my-bucket".to_owned())),
            ("precision", Some("ns".to_owned())),
        ],
    )
    .unwrap();
    assert_eq!(
        uri,
        "http://localhost:9999/api/v2/write?org=my-org&bucket=my-bucket&precision=ns"
    );

    let uri = encode_uri(
        "http://localhost:9999/",
        "api/v2/write",
        &[
            ("org", Some("my-org".to_owned())),
            ("bucket", Some("my-bucket".to_owned())),
        ],
    )
    .unwrap();
    assert_eq!(
        uri,
        "http://localhost:9999/api/v2/write?org=my-org&bucket=my-bucket"
    );

    let uri = encode_uri(
        "http://localhost:9999",
        "api/v2/write",
        &[
            ("org", Some("Orgazniation name".to_owned())),
            ("bucket", Some("Bucket=name".to_owned())),
            ("none", None),
        ],
    )
    .unwrap();
    assert_eq!(
        uri,
        "http://localhost:9999/api/v2/write?org=Orgazniation+name&bucket=Bucket%3Dname"
    );
}

#[test]
fn test_encode_uri_invalid() {
    encode_uri(
        "localhost:9999",
        "api/v2/write",
        &[
            ("org", Some("my-org".to_owned())),
            ("bucket", Some("my-bucket".to_owned())),
        ],
    )
    .unwrap_err();
}

#[test]
fn write_uri_omits_absent_values() {
    let settings = InfluxDB1Settings {
        database: "db name".to_owned(),
        consistency: None,
        retention_policy_name: Some("rp/1".to_owned()),
        username: Some("u".to_owned()),
        password: None,
    };
    assert_eq!(
        settings.write_uri_string("http://h:8086/".to_owned()),
        "http://h:8086/write?db=db+name&rp=rp%2F1&u=u&precision=ns"
    );
}

#[test]
fn profile_dispatches_by_generation() {
    let legacy = influxdb_settings(Some(v1("d")), None).unwrap();
    let current = influxdb_settings(None, Some(v2())).unwrap();
    assert_eq!(legacy.token(), "");
    assert_eq!(current.token(), "my-token");
    assert_eq!(
        legacy.write_uri_string("http://h".to_owned()),
        "http://h/write?db=d&precision=ns"
    );
    assert_eq!(
        current.write_uri("http://h".to_owned()).unwrap().to_string(),
        "http://h/api/v2/write?org=my-org&bucket=my-bucket&precision=ns"
    );
    assert_eq!(
        current.healthcheck_uri("http://h/".to_owned()).unwrap().to_string(),
        "http://h/health"
    );
}

#[test]
fn trailing_slash_gives_same_uri() {
    let settings = v2();
    assert_eq!(
        settings.write_uri_string("http://localhost:9999/".to_owned()),
        settings.write_uri_string("http://localhost:9999".to_owned())
    );
    assert!(settings.write_uri("localhost:9999".to_owned()).is_err());
}

#[test]
fn healthcheck_status_classification() {
    assert!(healthcheck_status(200).is_ok());
    assert!(healthcheck_status(204).is_ok());
    match healthcheck_status(500) {
        Err(HealthcheckError::UnexpectedStatus { status }) => assert_eq!(status, 500),
        Ok(()) => panic!("500 is no success"),
    }
    assert!(healthcheck_status(201).is_err());
}

#[test]
fn healthcheck_request_uri_cases() {
    let uri = healthcheck_request_uri("http://localhost:8086".to_owned(), Some(v1("d")), None)
        .unwrap();
    assert_eq!(uri.to_string(), "http://localhost:8086/ping");
    assert!(matches!(
        healthcheck_request_uri("http://h".to_owned(), None, None),
        Err(HealthcheckSetupError::Config(ConfigError::MissingConfiguration))
    ));
    assert!(matches!(
        healthcheck_request_uri("localhost:9999".to_owned(), None, Some(v2())),
        Err(HealthcheckSetupError::Uri(_))
    ));
}
