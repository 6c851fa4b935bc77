use session_broker::config::{
    AdminDatabaseConfiguration, AdminDatabaseSetupUserConfig, CreateServer,
    SearchIndexFactoryConfig, SecretsManagerConfig, Server, ServerConfig, ServerConfigData,
    StorageLayerFactoryConfig,
};
use session_broker::encryption::encrypt;
use session_broker::server::{
    finish_db_credentials, finish_parsed_config, finish_remote_config, pool_cache_params,
    resolve_config_step, resolve_db_credentials_step, ConfigResolution, CredentialFetch,
    CredentialResolution, LoadServerError, RemoteConfigFetch,
};

fn sample_db_config(
    setup_user: Option<AdminDatabaseSetupUserConfig>,
    setup_user_secret_name: Option<String>,
) -> AdminDatabaseConfiguration {
    AdminDatabaseConfiguration {
        host: "db.example.com".to_string(),
        port: 5432,
        setup_user,
        setup_user_secret_name,
        root_secret_name: "root-secret".to_string(),
    }
}

fn sample_config_data() -> ServerConfigData {
    ServerConfigData {
        api_url: "https://api.example.com".to_string(),
        database: sample_db_config(
            Some(AdminDatabaseSetupUserConfig {
                username: "admin".to_string(),
                password: "hunter2".to_string(),
            }),
            None,
        ),
        secrets: SecretsManagerConfig::Aws,
        search: SearchIndexFactoryConfig { endpoint: "https://search.example.com".to_string() },
        storage: StorageLayerFactoryConfig { endpoint: "https://storage.example.com".to_string() },
    }
}

#[test]
fn inline_config_resolves_as_is() {
    let data = sample_config_data();
    let r = resolve_config_step(ServerConfig::Config { data }, None);
    match r {
        Ok(ConfigResolution::Ready(out)) => {
            assert_eq!(out.api_url, "https://api.example.com");
            assert_eq!(out.database.host, "db.example.com");
        }
        _ => panic!("inline config did not resolve directly"),
    }
}

#[test]
fn remote_secret_yields_its_name() {
    let r = resolve_config_step(
        ServerConfig::AwsSecret { secret_name: "cfg-secret".to_string() },
        None,
    );
    match r {
        Ok(ConfigResolution::NeedRemoteSecret(name)) => assert_eq!(name, "cfg-secret"),
        _ => panic!("remote secret variant did not ask for a fetch"),
    }
}

#[test]
fn encrypted_without_password_is_missing_password() {
    let ec = encrypt(b"pw", b"{}").expect("encrypt failed");
    let r = resolve_config_step(
        ServerConfig::Encrypted { salt: ec.salt, nonce: ec.nonce, data: ec.data },
        None,
    );
    assert!(matches!(r, Err(LoadServerError::MissingPassword)));
}

#[test]
fn encrypted_with_wrong_password_is_incorrect_password() {
    let ec = encrypt(b"right", b"{}").expect("encrypt failed");
    let r = resolve_config_step(
        ServerConfig::Encrypted { salt: ec.salt, nonce: ec.nonce, data: ec.data },
        Some("wrong".to_string()),
    );
    assert!(matches!(r, Err(LoadServerError::IncorrectPassword)));
}

#[test]
fn encrypted_with_right_password_yields_plaintext() {
    let blob = b"{\"api_url\":\"https://api.example.com\"}";
    let ec = encrypt(b"right", blob).expect("encrypt failed");
    let r = resolve_config_step(
        ServerConfig::Encrypted { salt: ec.salt, nonce: ec.nonce, data: ec.data },
        Some("right".to_string()),
    );
    match r {
        Ok(ConfigResolution::NeedParse(bytes)) => assert_eq!(bytes, blob.to_vec()),
        _ => panic!("decryption under the right password failed"),
    }
}

#[test]
fn remote_fetch_outcomes_map_to_exact_errors() {
    match finish_remote_config(RemoteConfigFetch::Found(sample_config_data())) {
        Ok(d) => assert_eq!(d.api_url, "https://api.example.com"),
        Err(_) => panic!("found secret was rejected"),
    }
    assert!(matches!(
        finish_remote_config(RemoteConfigFetch::NotFound),
        Err(LoadServerError::MissingSecret)
    ));
    assert!(matches!(
        finish_remote_config(RemoteConfigFetch::Failed),
        Err(LoadServerError::SecretManager)
    ));
    assert!(matches!(
        finish_remote_config(RemoteConfigFetch::Malformed),
        Err(LoadServerError::Deserialize)
    ));
}

#[test]
fn parse_outcomes_map_to_exact_errors() {
    match finish_parsed_config(Some(sample_config_data())) {
        Ok(d) => assert_eq!(d.api_url, "https://api.example.com"),
        Err(_) => panic!("parsed config was rejected"),
    }
    assert!(matches!(finish_parsed_config(None), Err(LoadServerError::Deserialize)));
}

#[test]
fn setup_user_takes_precedence_over_secret_name() {
    let config = sample_db_config(
        Some(AdminDatabaseSetupUserConfig {
            username: "inline-user".to_string(),
            password: "inline-pass".to_string(),
        }),
        Some("credential-secret".to_string()),
    );
    match resolve_db_credentials_step(&config) {
        Ok(CredentialResolution::UseInline(u)) => {
            assert_eq!(u.username, "inline-user");
            assert_eq!(u.password, "inline-pass");
        }
        _ => panic!("inline credentials were not preferred"),
    }
}

#[test]
fn secret_name_is_used_when_no_inline_user() {
    let config = sample_db_config(None, Some("credential-secret".to_string()));
    match resolve_db_credentials_step(&config) {
        Ok(CredentialResolution::NeedSecret(name)) => assert_eq!(name, "credential-secret"),
        _ => panic!("credential secret was not requested"),
    }
}

#[test]
fn neither_credential_source_is_missing_setup_user() {
    let config = sample_db_config(None, None);
    assert!(matches!(
        resolve_db_credentials_step(&config),
        Err(LoadServerError::MissingSetupUser)
    ));
}

#[test]
fn credential_fetch_outcomes_map_to_exact_errors() {
    let config = sample_db_config(None, Some("credential-secret".to_string()));
    match finish_db_credentials(
        &config,
        CredentialFetch::Found(AdminDatabaseSetupUserConfig {
            username: "fetched-user".to_string(),
            password: "fetched-pass".to_string(),
        }),
    ) {
        Ok(p) => {
            assert_eq!(p.username, "fetched-user");
            assert_eq!(p.password, "fetched-pass");
            assert_eq!(p.config.host, "db.example.com");
            assert_eq!(p.config.port, 5432);
        }
        Err(_) => panic!("fetched credentials were rejected"),
    }
    assert!(matches!(
        finish_db_credentials(&config, CredentialFetch::NotFound),
        Err(LoadServerError::MissingDatabaseSecret)
    ));
    assert!(matches!(
        finish_db_credentials(&config, CredentialFetch::Failed),
        Err(LoadServerError::SecretManager)
    ));
}

#[test]
fn connection_params_carry_provider_fields() {
    let config = sample_db_config(None, Some("credential-secret".to_string()));
    let provider = match finish_db_credentials(
        &config,
        CredentialFetch::Found(AdminDatabaseSetupUserConfig {
            username: "u".to_string(),
            password: "p".to_string(),
        }),
    ) {
        Ok(p) => p,
        Err(_) => panic!("provider construction failed"),
    };
    let params = provider.connection_params("docbox".to_string());
    assert_eq!(params.host, "db.example.com");
    assert_eq!(params.port, 5432);
    assert_eq!(params.username, "u");
    assert_eq!(params.password, "p");
    assert_eq!(params.database, "docbox");
}

#[test]
fn pool_cache_params_follow_config() {
    let config = sample_db_config(None, None);
    let params = pool_cache_params(&config);
    assert_eq!(params.host, "db.example.com");
    assert_eq!(params.port, 5432);
    assert_eq!(params.root_secret_name, "root-secret");
    assert!(params.max_connections.is_none());
}

#[test]
fn created_record_keeps_all_fields() {
    let create = CreateServer {
        id: 42,
        name: "staging".to_string(),
        config: ServerConfig::AwsSecret { secret_name: "cfg".to_string() },
        order: 3,
    };
    let server = Server::from_create(create);
    assert_eq!(server.id, 42);
    assert_eq!(server.name, "staging");
    assert_eq!(server.order, 3);
    assert!(matches!(server.config, ServerConfig::AwsSecret { secret_name } if secret_name == "cfg"));
}
