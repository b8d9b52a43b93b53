use blobstore_s3_provider::config::{
    BackendConfig, ClientPlan, ConfigError, CredentialSource, RegionChoice,
};
use blobstore_s3_provider::factory::{build_client, client_for_config, proxy_address};

fn config(pairs: &[(&str, &str)]) -> BackendConfig {
    let mut c = BackendConfig::new();
    for (k, v) in pairs.iter() {
        c.set(k, v);
    }
    c
}

fn plan_with_proxy(proxy: Option<&str>) -> ClientPlan {
    ClientPlan {
        region: RegionChoice::Standard,
        credentials: CredentialSource::Static {
            access_key: "k".to_string(),
            secret_key: "s".to_string(),
            token: None,
            valid_for: None,
        },
        proxy: proxy.map(|p| p.to_string()),
        keep_idle_connections: false,
    }
}

#[test]
fn empty_config_builds_a_client_with_ambient_credentials() {
    let client = client_for_config(&config(&[])).ok().unwrap();
    assert_eq!(
        client.plan(),
        &ClientPlan {
            region: RegionChoice::Standard,
            credentials: CredentialSource::Ambient,
            proxy: None,
            keep_idle_connections: true,
        }
    );
}

#[test]
fn region_alone_builds_a_client() {
    let client = client_for_config(&config(&[("REGION", "us-west-2")])).ok().unwrap();
    assert_eq!(
        client.plan().region,
        RegionChoice::Custom {
            name: "us-west-2".to_string(),
            endpoint: "s3.us-east-1.amazonaws.com".to_string(),
        }
    );
    assert_eq!(client.plan().credentials, CredentialSource::Ambient);
}

#[test]
fn built_client_remembers_its_plan() {
    for proxy in [None, Some("http://127.0.0.1:8080")] {
        let plan = plan_with_proxy(proxy);
        let client = build_client(plan.clone()).ok().unwrap();
        assert_eq!(client.plan(), &plan);
    }
    let ambient = ClientPlan {
        region: RegionChoice::Custom { name: "r".to_string(), endpoint: "http://e".to_string() },
        credentials: CredentialSource::Ambient,
        proxy: Some("http://proxy:1".to_string()),
        keep_idle_connections: true,
    };
    assert_eq!(build_client(ambient.clone()).ok().unwrap().plan(), &ambient);
}

#[test]
fn static_credentials_build_a_client() {
    let c = config(&[
        ("REGION", "local"),
        ("ENDPOINT", "http://localhost:9000"),
        ("AWS_ACCESS_KEY", "AKIA"),
        ("AWS_SECRET_ACCESS_KEY", "s3cr3t"),
        ("AWS_TOKEN", "tok"),
        ("TOKEN_VALID_FOR", "3600"),
    ]);
    let client = client_for_config(&c).ok().unwrap();
    assert_eq!(
        client.plan(),
        &ClientPlan {
            region: RegionChoice::Custom {
                name: "local".to_string(),
                endpoint: "http://localhost:9000".to_string(),
            },
            credentials: CredentialSource::Static {
                access_key: "AKIA".to_string(),
                secret_key: "s3cr3t".to_string(),
                token: Some("tok".to_string()),
                valid_for: Some(3600),
            },
            proxy: None,
            keep_idle_connections: false,
        }
    );
}

#[test]
fn proxied_clients_are_built_with_either_kind_of_credentials() {
    assert!(client_for_config(&config(&[("HTTP_PROXY", "http://proxy.example:3128")])).is_ok());
    assert!(client_for_config(&config(&[
        ("AWS_ACCESS_KEY", "k"),
        ("AWS_SECRET_ACCESS_KEY", "s"),
        ("HTTP_PROXY", "https://proxy.example:3128"),
    ]))
    .is_ok());
}

#[test]
fn access_key_without_secret_fails_client_construction() {
    assert_eq!(
        client_for_config(&config(&[("AWS_ACCESS_KEY", "x")])).err(),
        Some(ConfigError::MissingSecretKey)
    );
}

#[test]
fn malformed_token_lifetime_fails_client_construction() {
    assert_eq!(
        client_for_config(&config(&[("TOKEN_VALID_FOR", "abc")])).err(),
        Some(ConfigError::InvalidTokenLifetime("abc".to_string()))
    );
}

#[test]
fn unparsable_proxy_fails_client_construction() {
    for bad in ["", "http://[::1", "not an address", "http://exa mple.com"] {
        assert_eq!(
            client_for_config(&config(&[("HTTP_PROXY", bad)])).err(),
            Some(ConfigError::InvalidProxy(bad.to_string())),
            "{:?}",
            bad
        );
        assert_eq!(
            build_client(plan_with_proxy(Some(bad))).err(),
            Some(ConfigError::InvalidProxy(bad.to_string())),
            "{:?}",
            bad
        );
    }
}

#[test]
fn token_lifetime_is_checked_before_the_proxy() {
    assert_eq!(
        client_for_config(&config(&[("TOKEN_VALID_FOR", "soon"), ("HTTP_PROXY", "")])).err(),
        Some(ConfigError::InvalidTokenLifetime("soon".to_string()))
    );
}

#[test]
fn plans_build_with_and_without_proxy() {
    assert!(build_client(plan_with_proxy(None)).is_ok());
    assert!(build_client(plan_with_proxy(Some("http://127.0.0.1:8080"))).is_ok());
}

#[test]
fn proxy_address_passes_a_parsed_address_on() {
    let parsed = "http://proxy:3128".parse::<hyper::Uri>().ok();
    let address = proxy_address("http://proxy:3128", parsed).unwrap();
    assert_eq!(address.host(), Some("proxy"));
    assert_eq!(address.port_u16(), Some(3128));
}

#[test]
fn proxy_address_names_the_text_that_did_not_parse() {
    assert_eq!(
        proxy_address("nonsense here", None),
        Err(ConfigError::InvalidProxy("nonsense here".to_string()))
    );
}
