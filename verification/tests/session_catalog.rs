use std::sync::Arc;

use iceberg_datafusion::catalog_access::CatalogCall;
use iceberg_datafusion::error::{DataFusionError, Error, ErrorKind};
use iceberg_datafusion::ident::{NamespaceIdent, TableIdent};
use iceberg_datafusion::metadata_table::MetadataTableType;
use iceberg_datafusion::options::{IcebergOptions, SensitiveString, SessionContext};
use iceberg_datafusion::references::{SessionConfig, TableReference};
use iceberg_datafusion::session_catalog::{
    load_table_provider, IcebergSessionCatalogProvider, ResolveProgress, ResolvedCatalog, TableLoad,
};
use iceberg_datafusion::source::{IcebergTableSource, PlanningTable};
use iceberg_datafusion::string_map::StringMap;

type Resolver = IcebergSessionCatalogProvider<str>;
type Source = IcebergTableSource<str, str, String>;

fn resolver() -> Resolver {
    IcebergSessionCatalogProvider::new(Arc::from("rest"))
}

fn config(context: Option<Arc<SessionContext>>) -> SessionConfig {
    SessionConfig {
        default_catalog: "datafusion".to_string(),
        default_schema: "public".to_string(),
        context,
    }
}

fn reference(catalog: &str) -> TableReference {
    full(catalog, "test_ns", "test_table")
}

fn full(catalog: &str, schema: &str, table: &str) -> TableReference {
    TableReference::Full {
        catalog: catalog.to_string(),
        schema: schema.to_string(),
        table: table.to_string(),
    }
}

fn identified(identity: &str) -> Arc<SessionContext> {
    Arc::new(
        IcebergOptions {
            identity: Some(identity.to_string()),
            ..Default::default()
        }
        .to_session_context(),
    )
}

fn resolve(
    references: Vec<TableReference>,
    config: &SessionConfig,
    loads: &mut Vec<TableLoad<str>>,
) -> Result<ResolvedCatalog<String>, DataFusionError> {
    let mut progress = resolver().resolve::<String>(&references, config, "iceberg")?;
    loop {
        match progress {
            ResolveProgress::Ready(catalog) => return Ok(catalog),
            ResolveProgress::Load(resolution) => {
                let load = resolution.next_load()?;
                let provider = match load.metadata {
                    Some(metadata) => format!("{}/{}", load.ident.to_text(), metadata.as_str()),
                    None => load.ident.to_text(),
                };
                loads.push(load);
                progress = resolution.table_loaded(Ok(Arc::new(provider)))?;
            }
        }
    }
}

#[test]
fn resolve_requires_session_context_for_referenced_catalog() {
    let mut loads = Vec::new();
    let error = resolve(vec![reference("iceberg")], &config(None), &mut loads)
        .err()
        .unwrap();

    match error {
        DataFusionError::Configuration(message) => {
            assert!(message.contains("SessionContext"));
            assert_eq!(
                message,
                "Iceberg SessionContext is required to resolve a session catalog"
            );
        }
        other => panic!("expected a configuration error, got {other:?}"),
    }
    assert!(loads.is_empty());
}

#[test]
fn resolve_loads_only_references_with_exact_context() {
    let mut properties = StringMap::new();
    properties.insert("org".to_string(), "123".to_string());
    let mut credentials = StringMap::new();
    credentials.insert(
        "jwt".to_string(),
        SensitiveString::from("secret".to_string()),
    );
    let context = Arc::new(
        IcebergOptions {
            identity: Some("alice".to_string()),
            properties,
            credentials,
        }
        .to_session_context(),
    );
    let config = config(Some(Arc::clone(&context)));
    assert!(Arc::ptr_eq(&context, config.context.as_ref().unwrap()));

    let mut loads = Vec::new();
    let provider = resolve(vec![reference("iceberg")], &config, &mut loads)
        .ok()
        .unwrap();
    assert_eq!(provider.schema_names(), vec!["test_ns"]);
    assert_eq!(provider.table_names("test_ns").unwrap(), vec!["test_table"]);

    assert_eq!(loads.len(), 1);
    let load = loads.pop().unwrap();
    assert_eq!(load.ident.to_text(), "test_ns.test_table");
    assert_eq!(load.catalog.as_ref(), "rest");
    assert!(Arc::ptr_eq(&load.context, &context));

    let source: Source =
        IcebergTableSource::resolved_session(load.catalog, load.context, "table".to_string());
    match source.table_for_planning() {
        PlanningTable::Resolved(table) => assert_eq!(table, "table"),
        PlanningTable::Load { .. } => panic!("a resolved table is not loaded again"),
    }
    match source.commit("INSERT INTO iceberg.test_ns.test_table VALUES (1, 'test')") {
        CatalogCall::Session {
            context: used,
            catalog,
            operation,
        } => {
            assert_eq!(catalog.as_ref(), "rest");
            assert_eq!(
                operation,
                "INSERT INTO iceberg.test_ns.test_table VALUES (1, 'test')"
            );
            assert_eq!(used.session_id(), context.session_id());
            assert_eq!(used.identity(), Some("alice"));
            assert_eq!(used.properties(), context.properties());
            assert!(used.credentials() == context.credentials());
            assert_eq!(used.credentials().get("jwt").unwrap().expose(), "secret");
            assert_eq!(used.properties().get("org").unwrap(), "123");
        }
        CatalogCall::Plain { .. } => panic!("the commit goes with the context"),
    }
}

#[test]
fn concurrent_resolutions_keep_contexts_isolated() {
    let alice = identified("alice");
    let bob = identified("bob");
    let resolver = resolver();
    let begin = |context: &Arc<SessionContext>| match resolver.resolve::<String>(
        &vec![reference("iceberg")],
        &config(Some(Arc::clone(context))),
        "iceberg",
    ) {
        Ok(ResolveProgress::Load(resolution)) => resolution,
        _ => panic!("there is a table to load"),
    };
    let for_alice = begin(&alice);
    let for_bob = begin(&bob);

    let calls = [for_alice.next_load().ok().unwrap(), for_bob.next_load().ok().unwrap()];
    assert_eq!(calls.len(), 2);
    assert!(calls.iter().any(|call| {
        call.context.session_id() == alice.session_id()
            && call.context.identity() == Some("alice")
    }));
    assert!(calls.iter().any(|call| {
        call.context.session_id() == bob.session_id() && call.context.identity() == Some("bob")
    }));
}

#[test]
fn unrelated_references_do_not_require_context_or_load_tables() {
    let mut loads = Vec::new();
    let provider = resolve(vec![reference("other")], &config(None), &mut loads)
        .ok()
        .unwrap();

    assert!(provider.schema_names().is_empty());
    assert!(loads.is_empty());
}

#[test]
fn each_table_is_loaded_once() {
    let references = vec![
        full("iceberg", "b", "t"),
        full("iceberg", "a", "u"),
        full("other", "a", "v"),
        full("iceberg", "b", "t"),
        full("iceberg", "a", "t$snapshots"),
    ];
    let mut loads = Vec::new();
    let catalog = resolve(references, &config(Some(identified("alice"))), &mut loads)
        .ok()
        .unwrap();
    assert_eq!(loads.len(), 3);
    assert_eq!(catalog.schema_names(), ["a", "b"]);
    assert_eq!(catalog.table_names("a").unwrap(), ["t$snapshots", "u"]);
    assert_eq!(catalog.table_names("b").unwrap(), ["t"]);
    assert!(catalog.table_names("c").is_none());
    assert_eq!(*catalog.table("a", "u").unwrap(), "a.u");
    assert_eq!(*catalog.table("b", "t").unwrap(), "b.t");
    assert_eq!(
        *catalog.table("a", "t$snapshots").unwrap(),
        "a.t/snapshots"
    );
    assert!(catalog.table("a", "v").is_none());
    assert!(catalog.table("c", "t").is_none());
    for load in &loads {
        assert_eq!(load.context.session_id(), loads[0].context.session_id());
        assert_eq!(load.catalog.as_ref(), "rest");
    }
}

#[test]
fn defaults_fill_in_what_a_reference_leaves_out() {
    let mut config = config(Some(identified("alice")));
    config.default_catalog = "iceberg".to_string();
    let bare = TableReference::Bare {
        table: "t".to_string(),
    };
    let partial = TableReference::Partial {
        schema: "s".to_string(),
        table: "t".to_string(),
    };
    assert_eq!(bare.catalog(), None);
    assert_eq!(bare.schema(), None);
    assert_eq!(partial.schema(), Some("s"));
    assert_eq!(partial.table(), "t");
    assert_eq!(reference("c").catalog(), Some("c"));
    let mut loads = Vec::new();
    let catalog = resolve(vec![bare, partial], &config, &mut loads)
        .ok()
        .unwrap();
    assert_eq!(catalog.schema_names(), ["public", "s"]);
    assert_eq!(*catalog.table("public", "t").unwrap(), "public.t");
    assert_eq!(*catalog.table("s", "t").unwrap(), "s.t");

    config.default_catalog = "elsewhere".to_string();
    let bare = TableReference::Bare {
        table: "t".to_string(),
    };
    let catalog = resolve(vec![bare], &config, &mut Vec::new()).ok().unwrap();
    assert!(catalog.schema_names().is_empty());
}

#[test]
fn an_unknown_metadata_table_fails_the_resolution() {
    let mut loads = Vec::new();
    let error = resolve(
        vec![full("iceberg", "s", "t$what$snapshots")],
        &config(Some(identified("alice"))),
        &mut loads,
    )
    .err()
    .unwrap();
    match error {
        DataFusionError::Plan(message) => {
            assert_eq!(message, "invalid metadata table type: what$snapshots")
        }
        other => panic!("expected a plan error, got {other:?}"),
    }
    assert!(loads.is_empty());
}

#[test]
fn a_table_that_cannot_be_loaded_fails_the_resolution() {
    let progress = resolver().resolve::<String>(
        &vec![reference("iceberg")],
        &config(Some(identified("alice"))),
        "iceberg",
    );
    let resolution = match progress {
        Ok(ResolveProgress::Load(resolution)) => resolution,
        _ => panic!("there is a table to load"),
    };
    let missing = Error::new(ErrorKind::TableNotFound, "no such table".to_string());
    match resolution.table_loaded(Err(missing)) {
        Err(DataFusionError::External(error)) => {
            assert_eq!(error.kind(), ErrorKind::TableNotFound);
            assert_eq!(error.message, "no such table");
        }
        _ => panic!("expected the catalog's error"),
    }
}

#[test]
fn a_metadata_table_is_taken_of_its_table() {
    let load = load_table_provider::<str>(
        Arc::from("rest"),
        identified("alice"),
        NamespaceIdent::new("ns".to_string()),
        "t$manifests",
    )
    .ok()
    .unwrap();
    assert_eq!(load.ident.to_text(), "ns.t");
    assert_eq!(load.metadata, Some(MetadataTableType::Manifests));
}

#[test]
fn schemas_cannot_be_had_by_name() {
    match resolver().schema::<String>("test_ns") {
        Err(DataFusionError::NotImplemented(message)) => assert_eq!(
            message,
            "Iceberg session catalogs require resolve() with a SessionConfig"
        ),
        other => panic!("expected a refusal, got {other:?}"),
    }
}

#[test]
fn a_refreshing_source_loads_and_commits_without_a_context() {
    let ident = TableIdent::new(NamespaceIdent::new("ns".to_string()), "t".to_string());
    let source: Source = IcebergTableSource::refreshing(Arc::from("plain"), ident.clone());
    for source in [source.clone(), source] {
        match source.table_for_planning() {
            PlanningTable::Load {
                catalog,
                table_ident,
            } => {
                assert_eq!(catalog.as_ref(), "plain");
                assert_eq!(table_ident, &ident);
            }
            PlanningTable::Resolved(_) => panic!("nothing was loaded yet"),
        }
        match source.commit(5) {
            CatalogCall::Plain { catalog, operation } => {
                assert_eq!(catalog.as_ref(), "plain");
                assert_eq!(operation, 5);
            }
            CatalogCall::Session { .. } => panic!("there is no context"),
        }
    }
}
