use vstd::prelude::*;

verus! {

/// Identity of a deployment record, the 128-bit value of its UUID.
pub type ServerId = u128;

/// Inline administrator credentials for the backend database.
#[derive(Debug, Clone)]
pub struct AdminDatabaseSetupUserConfig {
    pub username: String,
    pub password: String,
}

/// Mathematical model of `AdminDatabaseSetupUserConfig`.
pub struct AdminDatabaseSetupUserConfigView {
    pub username: Seq<char>,
    pub password: Seq<char>,
}

impl View for AdminDatabaseSetupUserConfig {
    type V = AdminDatabaseSetupUserConfigView;

    open spec fn view(&self) -> AdminDatabaseSetupUserConfigView {
        AdminDatabaseSetupUserConfigView {
            username: self.username@,
            password: self.password@,
        }
    }
}

impl AdminDatabaseSetupUserConfig {
    /// Field-wise copy.
    pub fn duplicate(&self) -> (r: Self)
        ensures
            r@ == self@,
    {
        AdminDatabaseSetupUserConfig {
            username: self.username.clone(),
            password: self.password.clone(),
        }
    }
}

/// How to reach the backend's database and which administrator credentials
/// to use: inline ones, ones held in a named secret, or none (an error).
#[derive(Debug, Clone)]
pub struct AdminDatabaseConfiguration {
    pub host: String,
    pub port: u16,
    pub setup_user: Option<AdminDatabaseSetupUserConfig>,
    pub setup_user_secret_name: Option<String>,
    pub root_secret_name: String,
}

/// Mathematical model of `AdminDatabaseConfiguration`.
pub struct AdminDatabaseConfigurationView {
    pub host: Seq<char>,
    pub port: u16,
    pub setup_user: Option<AdminDatabaseSetupUserConfigView>,
    pub setup_user_secret_name: Option<Seq<char>>,
    pub root_secret_name: Seq<char>,
}

impl View for AdminDatabaseConfiguration {
    type V = AdminDatabaseConfigurationView;

    open spec fn view(&self) -> AdminDatabaseConfigurationView {
        AdminDatabaseConfigurationView {
            host: self.host@,
            port: self.port,
            setup_user: match self.setup_user {
                Some(u) => Some(u@),
                None => None,
            },
            setup_user_secret_name: match self.setup_user_secret_name {
                Some(n) => Some(n@),
                None => None,
            },
            root_secret_name: self.root_secret_name@,
        }
    }
}

impl AdminDatabaseConfiguration {
    /// Field-wise copy.
    pub fn duplicate(&self) -> (r: Self)
        ensures
            r@ == self@,
    {
        AdminDatabaseConfiguration {
            host: self.host.clone(),
            port: self.port,
            setup_user: match &self.setup_user {
                Some(u) => Some(u.duplicate()),
                None => None,
            },
            setup_user_secret_name: match &self.setup_user_secret_name {
                Some(n) => Some(n.clone()),
                None => None,
            },
            root_secret_name: self.root_secret_name.clone(),
        }
    }
}

/// Which secret-manager backend a session talks to.
#[derive(Debug, Clone, Copy, PartialEq, Eq, Structural)]
pub enum SecretsManagerConfig {
    Aws,
}

/// Configuration handed to the search-index factory.
#[derive(Debug, Clone)]
pub struct SearchIndexFactoryConfig {
    pub endpoint: String,
}

/// Mathematical model of `SearchIndexFactoryConfig`.
pub struct SearchIndexFactoryConfigView {
    pub endpoint: Seq<char>,
}

impl View for SearchIndexFactoryConfig {
    type V = SearchIndexFactoryConfigView;

    open spec fn view(&self) -> SearchIndexFactoryConfigView {
        SearchIndexFactoryConfigView { endpoint: self.endpoint@ }
    }
}

/// Configuration handed to the storage-layer factory.
#[derive(Debug, Clone)]
pub struct StorageLayerFactoryConfig {
    pub endpoint: String,
}

/// Mathematical model of `StorageLayerFactoryConfig`.
pub struct StorageLayerFactoryConfigView {
    pub endpoint: Seq<char>,
}

impl View for StorageLayerFactoryConfig {
    type V = StorageLayerFactoryConfigView;

    open spec fn view(&self) -> StorageLayerFactoryConfigView {
        StorageLayerFactoryConfigView { endpoint: self.endpoint@ }
    }
}

/// Fully resolved configuration of one deployment: where its remote API
/// lives and how to reach its database, secrets, search and storage.
/// Immutable for the lifetime of a session once resolved.
#[derive(Debug, Clone)]
pub struct ServerConfigData {
    pub api_url: String,
    pub database: AdminDatabaseConfiguration,
    pub secrets: SecretsManagerConfig,
    pub search: SearchIndexFactoryConfig,
    pub storage: StorageLayerFactoryConfig,
}

/// Mathematical model of `ServerConfigData`.
pub struct ServerConfigDataView {
    pub api_url: Seq<char>,
    pub database: AdminDatabaseConfigurationView,
    pub secrets: SecretsManagerConfig,
    pub search: SearchIndexFactoryConfigView,
    pub storage: StorageLayerFactoryConfigView,
}

impl View for ServerConfigData {
    type V = ServerConfigDataView;

    open spec fn view(&self) -> ServerConfigDataView {
        ServerConfigDataView {
            api_url: self.api_url@,
            database: self.database@,
            secrets: self.secrets,
            search: self.search@,
            storage: self.storage@,
        }
    }
}

/// Where a record's configuration lives: in a remote secret, inline, or in a
/// password-encrypted blob. Exactly one form is active per record.
#[derive(Debug, Clone)]
#[allow(inconsistent_fields)]
pub enum ServerConfig {
    /// Configuration is stored in a named secret of the external store.
    AwsSecret { secret_name: String },
    /// Configuration is embedded directly.
    Config { data: ServerConfigData },
    /// Configuration is an authenticated-encrypted serialized blob; a
    /// runtime-supplied password is needed to decrypt it.
    Encrypted { salt: Vec<u8>, nonce: Vec<u8>, data: Vec<u8> },
}

/// Mathematical model of `ServerConfig`.
#[allow(inconsistent_fields)]
pub enum ServerConfigView {
    AwsSecret { secret_name: Seq<char> },
    Config { data: ServerConfigDataView },
    Encrypted { salt: Seq<u8>, nonce: Seq<u8>, data: Seq<u8> },
}

impl View for ServerConfig {
    type V = ServerConfigView;

    open spec fn view(&self) -> ServerConfigView {
        match self {
            ServerConfig::AwsSecret { secret_name } => ServerConfigView::AwsSecret {
                secret_name: secret_name@,
            },
            ServerConfig::Config { data } => ServerConfigView::Config { data: data@ },
            ServerConfig::Encrypted { salt, nonce, data } => ServerConfigView::Encrypted {
                salt: salt@,
                nonce: nonce@,
                data: data@,
            },
        }
    }
}

/// A persisted deployment record. The `id` is immutable and globally unique;
/// `order` only affects display.
#[derive(Debug, Clone)]
pub struct Server {
    pub id: ServerId,
    pub name: String,
    pub config: ServerConfig,
    pub order: u32,
}

/// Mathematical model of `Server`.
pub struct ServerView {
    pub id: ServerId,
    pub name: Seq<char>,
    pub config: ServerConfigView,
    pub order: u32,
}

impl View for Server {
    type V = ServerView;

    open spec fn view(&self) -> ServerView {
        ServerView { id: self.id, name: self.name@, config: self.config@, order: self.order }
    }
}

/// The fields a caller supplies to create a deployment record.
#[derive(Debug, Clone)]
pub struct CreateServer {
    pub id: ServerId,
    pub name: String,
    pub config: ServerConfig,
    pub order: u32,
}

/// Mathematical model of `CreateServer`.
pub struct CreateServerView {
    pub id: ServerId,
    pub name: Seq<char>,
    pub config: ServerConfigView,
    pub order: u32,
}

impl View for CreateServer {
    type V = CreateServerView;

    open spec fn view(&self) -> CreateServerView {
        CreateServerView { id: self.id, name: self.name@, config: self.config@, order: self.order }
    }
}

impl Server {
    /// The record that creating from `create` persists: same identity, name,
    /// configuration and display order.
    pub fn from_create(create: CreateServer) -> (r: Server)
        ensures
            r.id == create.id,
            r.name == create.name,
            r.config == create.config,
            r.order == create.order,
    {
        Server { id: create.id, name: create.name, config: create.config, order: create.order }
    }
}

} // verus!
