use edgedb_cli::context::{config_file_name, needs_project, Context, ProjectConfig};
use edgedb_cli::ops::{CloudInstance, DEFAULT_PORT};
use edgedb_cli::status::{
    collect, credentials_from, fetch_failure_text, fetched, list, ConnectionStatus, Credentials,
    CredentialsError, Endpoint, ListError, Probe, ProbeError, RemoteStatus, RemoteType,
};
use edgedb_cli::ver::{Channel, Query};

fn instance(org: &str, name: &str) -> CloudInstance {
    CloudInstance {
        id: format!("id-{}", name),
        name: name.to_string(),
        org_slug: org.to_string(),
        dsn: "edgedb://host".to_string(),
        status: "available".to_string(),
        version: "2.0".to_string(),
        tls_ca: Some("-----BEGIN CERTIFICATE-----".to_string()),
    }
}

fn credentials(host: &str) -> Credentials {
    Credentials {
        host: Some(host.to_string()),
        port: 5656,
        user: "edgedb".to_string(),
        database: Some("edgedb".to_string()),
        secret_key: Some("token-of-acme".to_string()),
        tls_ca: Some("-----BEGIN CERTIFICATE-----".to_string()),
    }
}

#[test]
fn credentials_come_from_host_and_secret() {
    let c = instance("acme", "db1").as_credentials("db1--acme.example", "token-of-acme").unwrap();
    assert_eq!(c, credentials("db1--acme.example"));
    assert_eq!(c.port, DEFAULT_PORT);
    let mut bare = instance("acme", "db2");
    bare.tls_ca = None;
    let c = bare.as_credentials("h", "k").unwrap();
    assert_eq!(c.tls_ca, None);
    assert_eq!(c.host, Some("h".to_string()));
    assert_eq!(c.secret_key, Some("k".to_string()));
}

#[test]
fn credentials_or_refusal() {
    let endpoint = Endpoint {
        host: Some("h".to_string()),
        port: 10701,
        user: "u".to_string(),
        database: None,
    };
    assert_eq!(
        credentials_from(Ok(endpoint), "k".to_string(), None),
        Ok(Credentials {
            host: Some("h".to_string()),
            port: 10701,
            user: "u".to_string(),
            database: None,
            secret_key: Some("k".to_string()),
            tls_ca: None,
        })
    );
    assert_eq!(
        credentials_from(Err("no".to_string()), "k".to_string(), None),
        Err(CredentialsError { message: "no".to_string() })
    );
}

#[test]
fn status_of_one_instance() {
    let i = instance("acme", "db1");
    assert_eq!(i.full_name(), "acme/db1");
    let status = RemoteStatus::from_cloud_instance(
        &i,
        Probe {
            credentials: credentials("h"),
            version: Some("2.0+abcdef0".to_string()),
            connection: ConnectionStatus::Connected,
        },
    );
    assert_eq!(
        status,
        RemoteStatus {
            name: "acme/db1".to_string(),
            type_: RemoteType::Cloud { instance_id: "id-db1".to_string() },
            credentials: credentials("h"),
            version: Some("2.0+abcdef0".to_string()),
            connection: Some(ConnectionStatus::Connected),
            instance_status: Some("available".to_string()),
        }
    );
}

#[test]
fn listing_isolates_a_failed_probe() {
    let instances = vec![instance("acme", "a"), instance("acme", "b")];
    let probes = vec![
        Err("cannot build credentials".to_string()),
        Ok(Probe {
            credentials: credentials("b-host"),
            version: None,
            connection: ConnectionStatus::Refused,
        }),
    ];
    let mut errors = Vec::new();
    let answer: Option<Result<Vec<CloudInstance>, String>> = Some(Ok(instances));
    let statuses = list(true, answer, &probes, &mut errors).unwrap();
    assert_eq!(statuses.len(), 1);
    assert_eq!(statuses[0].name, "acme/b");
    assert_eq!(statuses[0].credentials, credentials("b-host"));
    assert_eq!(statuses[0].connection, Some(ConnectionStatus::Refused));
    assert_eq!(
        errors,
        vec![ProbeError {
            context: "probing acme/a".to_string(),
            cause: "cannot build credentials".to_string(),
        }]
    );
}

#[test]
fn listing_keeps_order_and_earlier_errors() {
    let instances = vec![instance("o", "a"), instance("o", "b"), instance("p", "c")];
    let probes = vec![
        Ok(Probe { credentials: credentials("a"), version: None, connection: ConnectionStatus::Connected }),
        Err("x".to_string()),
        Ok(Probe {
            credentials: credentials("c"),
            version: None,
            connection: ConnectionStatus::Error("tls".to_string()),
        }),
    ];
    let earlier = ProbeError { context: "earlier".to_string(), cause: "y".to_string() };
    let mut errors = vec![earlier.clone()];
    let statuses = collect(&instances, &probes, &mut errors);
    assert_eq!(statuses.iter().map(|s| s.name.clone()).collect::<Vec<_>>(), vec!["o/a", "p/c"]);
    assert_eq!(statuses[1].connection, Some(ConnectionStatus::Error("tls".to_string())));
    assert_eq!(
        errors,
        vec![earlier, ProbeError { context: "probing o/b".to_string(), cause: "x".to_string() }]
    );
    let mut none = Vec::new();
    assert!(collect(&Vec::new(), &Vec::new(), &mut none).is_empty());
    assert!(none.is_empty());
}

#[test]
fn listing_needs_the_whole_list_in_time() {
    let ok: Option<Result<Vec<u8>, String>> = Some(Ok(vec![1, 2]));
    assert_eq!(fetched(true, ok.clone()), Ok(vec![1, 2]));
    assert_eq!(fetched(false, ok), Err(ListError::NotAuthenticated));
    let late: Option<Result<Vec<u8>, String>> = None;
    assert_eq!(fetched(true, late), Err(ListError::TimedOut));
    let failed: Option<Result<Vec<u8>, String>> = Some(Err("503".to_string()));
    assert_eq!(fetched(true, failed), Err(ListError::Failed("503".to_string())));
    assert_eq!(fetch_failure_text(&ListError::<String>::TimedOut), "timed out with Cloud API");
    assert_eq!(
        fetch_failure_text(&ListError::Failed("503".to_string())),
        "failed with Cloud API"
    );
    assert_eq!(fetch_failure_text(&ListError::<String>::NotAuthenticated), "not authenticated");
}

#[test]
fn context_prefers_the_explicit_schema_dir() {
    let project = ProjectConfig {
        server_version: Query::from(Channel::Nightly),
        schema_dir: "proj/schema".to_string(),
    };
    let c = Context::from_project_or_config(Some("given".to_string()), Some(project), true);
    assert_eq!(c.schema_dir, "given");
    assert_eq!(c.edgedb_version, None);
    assert!(c.quiet);
    assert!(needs_project(&None));
    assert!(!needs_project(&Some("given".to_string())));
    assert_eq!(config_file_name(), "edgedb.toml");
}

#[test]
fn context_falls_back_to_project_then_default() {
    let project = ProjectConfig {
        server_version: Query::from(Channel::Nightly),
        schema_dir: "proj/schema".to_string(),
    };
    let c = Context::from_project_or_config(None, Some(project), false);
    assert_eq!(c.schema_dir, "proj/schema");
    assert_eq!(c.edgedb_version, Some(Query::from(Channel::Nightly)));
    assert!(!c.quiet);
    let d = Context::from_project_or_config(None, None, true);
    assert_eq!(d.schema_dir, "./dbschema");
    assert_eq!(d.edgedb_version, None);
    assert!(d.quiet);
}

#[test]
fn context_for_watch_is_never_quiet() {
    let c = Context::for_watch(ProjectConfig {
        server_version: Query::stable(),
        schema_dir: "dbschema".to_string(),
    });
    assert_eq!(c.schema_dir, "dbschema");
    assert_eq!(c.edgedb_version, Some(Query::stable()));
    assert!(!c.quiet);
}

#[test]
fn listing_fails_as_a_whole() {
    let probes = vec![Ok(Probe {
        credentials: credentials("a"),
        version: None,
        connection: ConnectionStatus::Connected,
    })];
    let earlier = ProbeError { context: "earlier".to_string(), cause: "y".to_string() };
    let mut errors = vec![earlier.clone()];

    let unauthenticated: Option<Result<Vec<CloudInstance>, String>> =
        Some(Ok(vec![instance("o", "a")]));
    assert_eq!(list(false, unauthenticated, &probes, &mut errors), Err(ListError::NotAuthenticated));
    let late: Option<Result<Vec<CloudInstance>, String>> = None;
    assert_eq!(list(true, late, &probes, &mut errors), Err(ListError::TimedOut));
    let failed: Option<Result<Vec<CloudInstance>, String>> = Some(Err("503".to_string()));
    assert_eq!(
        list(true, failed, &probes, &mut errors),
        Err(ListError::Failed("503".to_string()))
    );
    assert_eq!(errors, vec![earlier.clone()]);

    let fine: Option<Result<Vec<CloudInstance>, String>> = Some(Ok(vec![instance("o", "a")]));
    let statuses = list(true, fine, &probes, &mut errors).unwrap();
    assert_eq!(statuses.len(), 1);
    assert_eq!(statuses[0].name, "o/a");
    assert_eq!(errors, vec![earlier]);
}
