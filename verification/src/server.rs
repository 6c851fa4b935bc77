use vstd::prelude::*;

use crate::config::{
    AdminDatabaseConfiguration, AdminDatabaseSetupUserConfig, Server, ServerConfig,
    ServerConfigData, ServerConfigDataView, ServerConfigView, ServerId,
};
use crate::encryption::{decrypt, decryption_of, derivable};
use vstd::utf8::encode_utf8;

verus! {

/// Ephemeral input to one load call; never persisted. The password is
/// present only when the record's configuration is an encrypted blob.
#[derive(Debug, Clone)]
pub struct LoadServerConfig {
    pub password: Option<String>,
}

/// Why a load failed. Credential errors are distinct, user-actionable kinds;
/// they are never conflated with generic transport failures.
#[derive(Debug, Clone, Copy, PartialEq, Eq, Structural)]
pub enum LoadServerError {
    /// The configuration is an encrypted blob and no password was supplied.
    MissingPassword,
    /// The supplied password did not decrypt the blob.
    IncorrectPassword,
    /// The secret store failed while fetching a secret.
    SecretManager,
    /// The named configuration secret does not exist.
    MissingSecret,
    /// The named database setup-user secret does not exist.
    MissingDatabaseSecret,
    /// Neither inline credentials nor a credential secret name was given.
    MissingSetupUser,
    /// The search-index factory could not be created.
    CreateSearchFactory,
    /// The fetched or decrypted configuration did not parse.
    Deserialize,
}

/// The next step of resolving a record's configuration: either the data is
/// already at hand, or an external collaborator must produce it first.
pub enum ConfigResolution {
    /// The configuration is resolved.
    Ready(ServerConfigData),
    /// The named secret must be fetched from the secret store and parsed.
    NeedRemoteSecret(String),
    /// The decrypted bytes must be parsed as configuration data.
    NeedParse(Vec<u8>),
}

/// Resolve a record's configuration variant as far as local data allows.
/// An inline configuration is returned as-is; a remote secret yields the name
/// to fetch; an encrypted blob is decrypted here, which requires the
/// password. A decryption failure is reported as the single opaque
/// `IncorrectPassword`, never in more detail.
pub fn resolve_config_step(config: ServerConfig, password: Option<String>) -> (r: Result<
    ConfigResolution,
    LoadServerError,
>)
    ensures
        config@ matches ServerConfigView::AwsSecret { secret_name } ==> (r matches Ok(
            ConfigResolution::NeedRemoteSecret(n),
        ) && n@ == secret_name),
        config@ matches ServerConfigView::Config { data } ==> (r matches Ok(
            ConfigResolution::Ready(d),
        ) && d@ == data),
        config@ matches ServerConfigView::Encrypted { salt, nonce, data } ==> {
            &&& password is None ==> r == Err::<ConfigResolution, LoadServerError>(
                LoadServerError::MissingPassword,
            )
            &&& password matches Some(p) ==> {
                &&& r matches Ok(cr) ==> (cr matches ConfigResolution::NeedParse(b)
                    && decryption_of(encode_utf8(p@), salt, nonce, data) == Some(b@))
                &&& r is Err ==> r == Err::<ConfigResolution, LoadServerError>(
                    LoadServerError::IncorrectPassword,
                )
                &&& decryption_of(encode_utf8(p@), salt, nonce, data) is None ==> r == Err::<
                    ConfigResolution,
                    LoadServerError,
                >(LoadServerError::IncorrectPassword)
                &&& !derivable(encode_utf8(p@), salt) ==> r == Err::<
                    ConfigResolution,
                    LoadServerError,
                >(LoadServerError::IncorrectPassword)
            }
        },
{
    match config {
        ServerConfig::AwsSecret { secret_name } => Ok(
            ConfigResolution::NeedRemoteSecret(secret_name),
        ),
        ServerConfig::Config { data } => Ok(ConfigResolution::Ready(data)),
        ServerConfig::Encrypted { salt, nonce, data } => {
            let password = match password {
                Some(value) => value,
                None => {
                    return Err(LoadServerError::MissingPassword);
                },
            };
            match decrypt(
                password.as_str().as_bytes(),
                salt.as_slice(),
                nonce.as_slice(),
                data.as_slice(),
            ) {
                Ok(value) => Ok(ConfigResolution::NeedParse(value)),
                Err(_) => Err(LoadServerError::IncorrectPassword),
            }
        },
    }
}

/// What the secret store returned for a named configuration secret, after
/// the fetch and the parse have happened outside this library.
pub enum RemoteConfigFetch {
    /// The secret exists and parsed as configuration data.
    Found(ServerConfigData),
    /// The secret does not exist.
    NotFound,
    /// The store itself failed.
    Failed,
    /// The secret exists but did not parse as configuration data.
    Malformed,
}

/// Turn the outcome of a remote configuration fetch into the resolved data
/// or the exact error the load reports for it.
pub fn finish_remote_config(fetch: RemoteConfigFetch) -> (r: Result<
    ServerConfigData,
    LoadServerError,
>)
    ensures
        fetch matches RemoteConfigFetch::Found(d) ==> (r matches Ok(out) && out@ == d@),
        fetch is NotFound ==> r == Err::<ServerConfigData, LoadServerError>(
            LoadServerError::MissingSecret,
        ),
        fetch is Failed ==> r == Err::<ServerConfigData, LoadServerError>(
            LoadServerError::SecretManager,
        ),
        fetch is Malformed ==> r == Err::<ServerConfigData, LoadServerError>(
            LoadServerError::Deserialize,
        ),
{
    match fetch {
        RemoteConfigFetch::Found(data) => Ok(data),
        RemoteConfigFetch::NotFound => Err(LoadServerError::MissingSecret),
        RemoteConfigFetch::Failed => Err(LoadServerError::SecretManager),
        RemoteConfigFetch::Malformed => Err(LoadServerError::Deserialize),
    }
}

/// Turn the outcome of parsing decrypted configuration bytes into the
/// resolved data or the exact error the load reports for it.
pub fn finish_parsed_config(parsed: Option<ServerConfigData>) -> (r: Result<
    ServerConfigData,
    LoadServerError,
>)
    ensures
        parsed matches Some(d) ==> (r matches Ok(out) && out@ == d@),
        parsed is None ==> r == Err::<ServerConfigData, LoadServerError>(
            LoadServerError::Deserialize,
        ),
{
    match parsed {
        Some(data) => Ok(data),
        None => Err(LoadServerError::Deserialize),
    }
}

/// A capability that can open a connection to any named database on the
/// configured backend, using the resolved administrator credentials.
#[derive(Debug, Clone)]
pub struct DatabaseProvider {
    pub config: AdminDatabaseConfiguration,
    pub username: String,
    pub password: String,
}

/// Mathematical model of `DatabaseProvider`.
pub struct DatabaseProviderView {
    pub config: crate::config::AdminDatabaseConfigurationView,
    pub username: Seq<char>,
    pub password: Seq<char>,
}

impl View for DatabaseProvider {
    type V = DatabaseProviderView;

    open spec fn view(&self) -> DatabaseProviderView {
        DatabaseProviderView {
            config: self.config@,
            username: self.username@,
            password: self.password@,
        }
    }
}

/// Everything an external connection factory needs to open one named
/// database on the backend.
#[derive(Debug, Clone)]
pub struct ConnectionParams {
    pub host: String,
    pub port: u16,
    pub username: String,
    pub password: String,
    pub database: String,
}

impl DatabaseProvider {
    /// The connection parameters for one named database: the provider's
    /// host, port and credentials, with the requested database name.
    pub fn connection_params(&self, database: String) -> (r: ConnectionParams)
        ensures
            r.host@ == self@.config.host,
            r.port == self@.config.port,
            r.username@ == self@.username,
            r.password@ == self@.password,
            r.database == database,
    {
        ConnectionParams {
            host: self.config.host.clone(),
            port: self.config.port,
            username: self.username.clone(),
            password: self.password.clone(),
            database,
        }
    }
}

/// The next step of resolving administrator credentials: inline ones win
/// over a named secret; with neither, the load fails.
pub enum CredentialResolution {
    /// Use these inline credentials.
    UseInline(AdminDatabaseSetupUserConfig),
    /// Fetch the named credential secret from the secret store.
    NeedSecret(String),
}

/// Decide where the database administrator credentials come from.
/// Inline `setup_user` credentials take precedence over
/// `setup_user_secret_name` whenever both are present; with neither present
/// the load fails with `MissingSetupUser`.
pub fn resolve_db_credentials_step(config: &AdminDatabaseConfiguration) -> (r: Result<
    CredentialResolution,
    LoadServerError,
>)
    ensures
        config@.setup_user matches Some(u) ==> (r matches Ok(CredentialResolution::UseInline(c))
            && c@ == u),
        config@.setup_user is None ==> (config@.setup_user_secret_name matches Some(n) ==> (
        r matches Ok(CredentialResolution::NeedSecret(s)) && s@ == n)),
        config@.setup_user is None && config@.setup_user_secret_name is None ==> r == Err::<
            CredentialResolution,
            LoadServerError,
        >(LoadServerError::MissingSetupUser),
{
    match (&config.setup_user, &config.setup_user_secret_name) {
        (Some(setup_user), _) => Ok(CredentialResolution::UseInline(setup_user.duplicate())),
        (None, Some(name)) => Ok(CredentialResolution::NeedSecret(name.clone())),
        (None, None) => Err(LoadServerError::MissingSetupUser),
    }
}

/// What the secret store returned for a named credential secret, after the
/// fetch and the parse have happened outside this library.
pub enum CredentialFetch {
    /// The secret exists and parsed as credentials.
    Found(AdminDatabaseSetupUserConfig),
    /// The secret does not exist.
    NotFound,
    /// The store itself failed.
    Failed,
}

/// Build the database provider from resolved credentials.
pub fn make_database_provider(
    config: &AdminDatabaseConfiguration,
    credentials: AdminDatabaseSetupUserConfig,
) -> (r: DatabaseProvider)
    ensures
        r@.config == config@,
        r@.username == credentials@.username,
        r@.password == credentials@.password,
{
    DatabaseProvider {
        config: config.duplicate(),
        username: credentials.username,
        password: credentials.password,
    }
}

/// Turn the outcome of a credential-secret fetch into the database provider
/// or the exact error the load reports for it.
pub fn finish_db_credentials(
    config: &AdminDatabaseConfiguration,
    fetch: CredentialFetch,
) -> (r: Result<DatabaseProvider, LoadServerError>)
    ensures
        fetch matches CredentialFetch::Found(u) ==> (r matches Ok(p) && p@.config == config@
            && p@.username == u@.username && p@.password == u@.password),
        fetch is NotFound ==> r == Err::<DatabaseProvider, LoadServerError>(
            LoadServerError::MissingDatabaseSecret,
        ),
        fetch is Failed ==> r == Err::<DatabaseProvider, LoadServerError>(
            LoadServerError::SecretManager,
        ),
{
    match fetch {
        CredentialFetch::Found(credentials) => Ok(make_database_provider(config, credentials)),
        CredentialFetch::NotFound => Err(LoadServerError::MissingDatabaseSecret),
        CredentialFetch::Failed => Err(LoadServerError::SecretManager),
    }
}

/// Parameters for the external database pool cache: the backend's host and
/// port, the root secret that the pool refreshes credentials from, and no
/// cap on connections.
#[derive(Debug, Clone)]
pub struct PoolCacheParams {
    pub host: String,
    pub port: u16,
    pub root_secret_name: String,
    pub max_connections: Option<u32>,
}

/// The pool-cache parameters that a resolved configuration prescribes.
pub fn pool_cache_params(config: &AdminDatabaseConfiguration) -> (r: PoolCacheParams)
    ensures
        r.host@ == config@.host,
        r.port == config@.port,
        r.root_secret_name@ == config@.root_secret_name,
        r.max_connections is None,
{
    PoolCacheParams {
        host: config.host.clone(),
        port: config.port,
        root_secret_name: config.root_secret_name.clone(),
        max_connections: None,
    }
}

/// One fully resolved, live deployment. Created only by a successful load;
/// immutable afterwards for the session's lifetime.
#[derive(Debug, Clone)]
pub struct ActiveServer {
    pub id: ServerId,
    pub name: String,
    pub config: ServerConfigData,
    pub db_provider: DatabaseProvider,
}

/// Mathematical model of `ActiveServer`.
pub struct ActiveServerView {
    pub id: ServerId,
    pub name: Seq<char>,
    pub config: ServerConfigDataView,
    pub db_provider: DatabaseProviderView,
}

impl View for ActiveServer {
    type V = ActiveServerView;

    open spec fn view(&self) -> ActiveServerView {
        ActiveServerView {
            id: self.id,
            name: self.name@,
            config: self.config@,
            db_provider: self.db_provider@,
        }
    }
}

/// Assemble the session for a record whose configuration and credentials
/// have been resolved.
pub fn assemble_active_server(
    server: Server,
    config: ServerConfigData,
    db_provider: DatabaseProvider,
) -> (r: ActiveServer)
    ensures
        r.id == server.id,
        r@.name == server@.name,
        r@.config == config@,
        r@.db_provider == db_provider@,
{
    ActiveServer { id: server.id, name: server.name, config, db_provider }
}

} // verus!
