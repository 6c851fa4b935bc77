use std::sync::Arc;

use session_broker::config::{
    AdminDatabaseConfiguration, AdminDatabaseSetupUserConfig, SearchIndexFactoryConfig,
    SecretsManagerConfig, ServerConfigData, StorageLayerFactoryConfig,
};
use session_broker::gateway::{
    build_gateway_response, cors_preflight_response, parse_gateway_target, plan_gateway_request,
    GatewayError, GatewayPlan, GatewayRequest, HttpMethod,
};
use session_broker::registry::ServerStore;
use session_broker::server::{ActiveServer, DatabaseProvider};

const DEPLOYMENT_ID: u128 = 0x11111111_1111_1111_1111_111111111111;

fn sample_session(id: u128, api_url: &str) -> ActiveServer {
    let database = AdminDatabaseConfiguration {
        host: "db.example.com".to_string(),
        port: 5432,
        setup_user: Some(AdminDatabaseSetupUserConfig {
            username: "admin".to_string(),
            password: "pw".to_string(),
        }),
        setup_user_secret_name: None,
        root_secret_name: "root-secret".to_string(),
    };
    ActiveServer {
        id,
        name: "s".to_string(),
        config: ServerConfigData {
            api_url: api_url.to_string(),
            database: database.clone(),
            secrets: SecretsManagerConfig::Aws,
            search: SearchIndexFactoryConfig { endpoint: "https://search.example.com".to_string() },
            storage: StorageLayerFactoryConfig {
                endpoint: "https://storage.example.com".to_string(),
            },
        },
        db_provider: DatabaseProvider {
            config: database,
            username: "admin".to_string(),
            password: "pw".to_string(),
        },
    }
}

#[test]
fn parses_full_target() {
    let t = parse_gateway_target(
        "/11111111-1111-1111-1111-111111111111/tenantX/prod/box/abc/search?q=1",
    )
    .expect("parse failed");
    assert_eq!(t.server_id, DEPLOYMENT_ID);
    assert_eq!(t.tenant_id, "tenantX");
    assert_eq!(t.env, "prod");
    assert_eq!(t.remaining, "box/abc/search");
    assert_eq!(t.query, Some("q=1".to_string()));
}

#[test]
fn parses_target_without_query_or_remaining() {
    let t = parse_gateway_target("/11111111-1111-1111-1111-111111111111/t/e")
        .expect("parse failed");
    assert_eq!(t.server_id, DEPLOYMENT_ID);
    assert_eq!(t.tenant_id, "t");
    assert_eq!(t.env, "e");
    assert_eq!(t.remaining, "");
    assert_eq!(t.query, None);
}

#[test]
fn parses_simple_form_uuid() {
    let t = parse_gateway_target("/11111111111111111111111111111111/t/e/p")
        .expect("parse failed");
    assert_eq!(t.server_id, DEPLOYMENT_ID);
}

#[test]
fn rejects_bad_uuid() {
    let r = parse_gateway_target("/not-a-uuid/t/e/p");
    assert!(matches!(r, Err(GatewayError::InvalidServerId)));
}

#[test]
fn rejects_missing_tenant() {
    let r = parse_gateway_target("/11111111-1111-1111-1111-111111111111");
    assert!(matches!(r, Err(GatewayError::MissingTenant)));
}

#[test]
fn rejects_missing_env() {
    let r = parse_gateway_target("/11111111-1111-1111-1111-111111111111/tenantX");
    assert!(matches!(r, Err(GatewayError::MissingEnv)));
}

#[test]
fn options_short_circuits_with_cors() {
    let store = ServerStore::new();
    let request = GatewayRequest {
        method: HttpMethod::Options,
        target: "/anything/at/all".to_string(),
        headers: vec![("origin".to_string(), "https://ui.example.com".to_string())],
        body: vec![1, 2, 3],
    };
    match plan_gateway_request(&store, request) {
        Ok(GatewayPlan::Preflight(resp)) => {
            assert_eq!(resp.status, 200);
            assert!(resp.body.is_empty());
            assert_eq!(resp.headers.len(), 3);
            assert_eq!(
                resp.headers[0],
                ("access-control-allow-origin".to_string(), "*".to_string())
            );
            assert_eq!(
                resp.headers[1],
                (
                    "access-control-allow-methods".to_string(),
                    "GET, POST, PUT, PATCH, DELETE, OPTIONS".to_string()
                )
            );
            assert_eq!(
                resp.headers[2],
                ("access-control-allow-headers".to_string(), "*".to_string())
            );
        }
        _ => panic!("OPTIONS was not answered immediately"),
    }
}

#[test]
fn preflight_response_is_the_cors_response() {
    let resp = cors_preflight_response();
    assert_eq!(resp.status, 200);
    assert!(resp.body.is_empty());
    assert_eq!(resp.headers.len(), 3);
}

#[test]
fn forwards_with_allow_listed_and_routing_headers() {
    let mut store = ServerStore::new();
    store.install_server(Arc::new(sample_session(DEPLOYMENT_ID, "https://api.example.com")));
    let request = GatewayRequest {
        method: HttpMethod::Post,
        target: "/11111111-1111-1111-1111-111111111111/tenantX/prod/box/abc/search?q=1"
            .to_string(),
        headers: vec![
            ("accept".to_string(), "application/json".to_string()),
            ("authorization".to_string(), "Bearer SECRET-REDACTED".to_string()),
            ("content-type".to_string(), "application/json".to_string()),
            ("content-length".to_string(), "2".to_string()),
        ],
        body: vec![b'{', b'}'],
    };
    match plan_gateway_request(&store, request) {
        Ok(GatewayPlan::Forward(ob)) => {
            assert_eq!(ob.method, HttpMethod::Post);
            assert_eq!(ob.url, "https://api.example.com/box/abc/search?q=1");
            assert_eq!(ob.body, vec![b'{', b'}']);
            assert_eq!(
                ob.headers,
                vec![
                    ("accept".to_string(), "application/json".to_string()),
                    ("content-type".to_string(), "application/json".to_string()),
                    ("content-length".to_string(), "2".to_string()),
                    ("x-tenant-id".to_string(), "tenantX".to_string()),
                    ("x-tenant-env".to_string(), "prod".to_string()),
                ]
            );
        }
        _ => panic!("request was not forwarded"),
    }
}

#[test]
fn forward_omits_absent_allow_listed_headers() {
    let mut store = ServerStore::new();
    store.install_server(Arc::new(sample_session(DEPLOYMENT_ID, "https://api.example.com")));
    let request = GatewayRequest {
        method: HttpMethod::Get,
        target: "/11111111-1111-1111-1111-111111111111/t/e".to_string(),
        headers: vec![],
        body: vec![],
    };
    match plan_gateway_request(&store, request) {
        Ok(GatewayPlan::Forward(ob)) => {
            assert_eq!(ob.url, "https://api.example.com/");
            assert_eq!(
                ob.headers,
                vec![
                    ("x-tenant-id".to_string(), "t".to_string()),
                    ("x-tenant-env".to_string(), "e".to_string()),
                ]
            );
        }
        _ => panic!("request was not forwarded"),
    }
}

#[test]
fn unknown_deployment_is_rejected() {
    let store = ServerStore::new();
    let request = GatewayRequest {
        method: HttpMethod::Get,
        target: "/11111111-1111-1111-1111-111111111111/t/e/p".to_string(),
        headers: vec![],
        body: vec![],
    };
    let r = plan_gateway_request(&store, request);
    assert!(matches!(r, Err(GatewayError::UnknownServer)));
}

#[test]
fn malformed_path_is_rejected_before_lookup() {
    let store = ServerStore::new();
    let request = GatewayRequest {
        method: HttpMethod::Get,
        target: "/nope/t/e/p".to_string(),
        headers: vec![],
        body: vec![],
    };
    let r = plan_gateway_request(&store, request);
    assert!(matches!(r, Err(GatewayError::InvalidServerId)));
}

#[test]
fn response_overlays_cors_then_upstream_headers() {
    let upstream = vec![
        ("content-type".to_string(), "application/json".to_string()),
        ("x-request-id".to_string(), "abc".to_string()),
    ];
    let resp = build_gateway_response(404, upstream, vec![b'n', b'o']);
    assert_eq!(resp.status, 404);
    assert_eq!(resp.body, vec![b'n', b'o']);
    assert_eq!(resp.headers.len(), 5);
    assert_eq!(resp.headers[0].0, "access-control-allow-origin");
    assert_eq!(resp.headers[1].0, "access-control-allow-methods");
    assert_eq!(resp.headers[2].0, "access-control-allow-headers");
    assert_eq!(
        resp.headers[3],
        ("content-type".to_string(), "application/json".to_string())
    );
    assert_eq!(resp.headers[4], ("x-request-id".to_string(), "abc".to_string()));
}
