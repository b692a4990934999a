use std::sync::{Arc, Mutex};

use datafusion::execution::config::SessionConfig;
use datafusion::prelude::SessionContext as DFSessionContext;

use iceberg_datafusion::binding::SessionBindingCatalogAdapter;
use iceberg_datafusion::catalog_access::{CatalogCall, IcebergCatalogAccess};
use iceberg_datafusion::catalog_provider::{
    CatalogDiscovery, CatalogEvent, CatalogProgress, CatalogStep, IcebergCatalogProvider,
    IcebergSessionCatalogProvider,
};
use iceberg_datafusion::discovery::{
    DiscoveryEvent, DiscoveryProgress, DiscoveryStep, SchemaDiscovery,
};
use iceberg_datafusion::error::{Error, ErrorKind};
use iceberg_datafusion::ident::{NamespaceIdent, TableIdent};
use iceberg_datafusion::options::{IcebergOptions, SensitiveString, Session, SessionContext};
use iceberg_datafusion::registration::{
    DropOutcome, RegistrationEvent, RegistrationStep, TableScan,
};
use iceberg_datafusion::schema::{IcebergSchemaProvider, TableLookup};
use iceberg_datafusion::string_map::StringMap;

type Adapter = SessionBindingCatalogAdapter<Plain, Recording>;
type Access = IcebergCatalogAccess<Plain, Recording>;
type Catalog = IcebergCatalogProvider<Schema>;

struct Plain {
    namespaces: Vec<NamespaceIdent>,
}

struct Call {
    operation: &'static str,
    session_id: String,
    identity: Option<String>,
    properties: StringMap<String>,
    credentials: StringMap<SensitiveString>,
}

impl Call {
    fn is_anonymous(&self) -> bool {
        self.identity.is_none() && self.properties.is_empty() && self.credentials.is_empty()
    }

    fn carries(&self, options: &IcebergOptions) -> bool {
        self.identity == options.identity
            && self.properties == options.properties
            && self.credentials == options.credentials
    }

    fn same_context(&self, other: &Call) -> bool {
        self.session_id == other.session_id
            && self.identity == other.identity
            && self.properties == other.properties
            && self.credentials == other.credentials
    }
}

struct Recording {
    scoped: bool,
    calls: Mutex<Vec<Call>>,
}

impl Recording {
    fn record(&self, operation: &'static str, context: &SessionContext) {
        self.calls.lock().unwrap().push(Call {
            operation,
            session_id: context.session_id().to_string(),
            identity: context.identity().map(|identity| identity.to_string()),
            properties: context.properties().clone(),
            credentials: context.credentials().clone(),
        });
    }

    fn take_calls(&self) -> Vec<Call> {
        std::mem::take(&mut *self.calls.lock().unwrap())
    }

    fn namespaces(&self, context: &SessionContext) -> Result<Vec<NamespaceIdent>, Error> {
        if !self.scoped {
            return Ok(vec![NamespaceIdent::new("test_ns".to_string())]);
        }
        match context.identity() {
            Some(identity) => Ok(vec![NamespaceIdent::new(format!("{identity}_ns"))]),
            None => Err(Error::new(
                ErrorKind::DataInvalid,
                "anonymous access is not permitted".to_string(),
            )),
        }
    }

    fn table_of(namespace: &NamespaceIdent) -> TableIdent {
        let name = namespace.to_text().replace("_ns", "_table");
        TableIdent::new(namespace.clone(), name)
    }
}

fn recording_catalog() -> Arc<Recording> {
    Arc::new(Recording {
        scoped: false,
        calls: Mutex::new(Vec::new()),
    })
}

fn identity_scoped_catalog() -> Arc<Recording> {
    Arc::new(Recording {
        scoped: true,
        calls: Mutex::new(Vec::new()),
    })
}

fn operations(calls: &[Call]) -> Vec<&'static str> {
    calls.iter().map(|call| call.operation).collect()
}

struct Table {
    catalog: Arc<Adapter>,
    ident: TableIdent,
}

fn load(access: &Access, ident: &TableIdent) {
    match access.load_table(ident) {
        CatalogCall::Session {
            catalog,
            context,
            operation,
        } => {
            assert_eq!(operation, ident);
            catalog.record("load_table", &context)
        }
        CatalogCall::Plain { operation, .. } => assert_eq!(operation, ident),
    }
}

impl Table {
    fn scan(&self, session: &Session) {
        load(&self.catalog.access_for(session), &self.ident);
    }

    fn insert(&self, session: &Session) {
        let access = self.catalog.access_for(session);
        load(&access, &self.ident);
        match access.clone().commit("append") {
            CatalogCall::Session {
                catalog,
                context,
                operation,
            } => {
                assert_eq!(operation, "append");
                catalog.record("update_table", &context)
            }
            CatalogCall::Plain { .. } => panic!("a session catalog was bound"),
        }
    }

    fn metadata_table(&self) {
        load(&self.catalog.access(), &self.ident);
    }
}

struct Schema {
    schema: Mutex<IcebergSchemaProvider<Adapter, u8>>,
    tables: Vec<Table>,
}

impl Schema {
    fn table(&self, name: &str) -> &Table {
        match self.schema.lock().unwrap().table(name) {
            Ok(TableLookup::Table(provider)) => &self.tables[provider as usize],
            Ok(TableLookup::Metadata { table, .. }) => {
                let table = &self.tables[table as usize];
                table.metadata_table();
                table
            }
            other => panic!("no such table: {other:?}"),
        }
    }

    fn perform(&self, operation: &'static str) {
        let schema = self.schema.lock().unwrap();
        match schema.catalog().access().call(operation) {
            CatalogCall::Session {
                catalog,
                context,
                operation,
            } => catalog.record(operation, &context),
            CatalogCall::Plain { .. } => panic!("a session catalog was bound"),
        }
    }
}

fn discover_schema(mut discovery: SchemaDiscovery<Adapter, u8>) -> Result<Schema, Error> {
    let mut tables = Vec::new();
    loop {
        let event = match discovery.step() {
            DiscoveryStep::ListTables => match discovery.catalog().access() {
                IcebergCatalogAccess::Session { catalog, context } => {
                    catalog.record("list_tables", &context);
                    DiscoveryEvent::TablesListed(Ok(vec![Recording::table_of(
                        discovery.namespace(),
                    )]))
                }
                IcebergCatalogAccess::Plain(_) => DiscoveryEvent::TablesListed(Ok(vec![])),
            },
            DiscoveryStep::ListViews => DiscoveryEvent::ViewsListed(Err(Error::new(
                ErrorKind::FeatureUnsupported,
                "views are not supported".to_string(),
            ))),
            DiscoveryStep::LoadProviders => {
                let mut providers = Vec::new();
                for request in discovery.provider_requests() {
                    load(&request.catalog.access(), &request.ident);
                    providers.push(tables.len() as u64);
                    tables.push(Table {
                        catalog: request.catalog,
                        ident: request.ident,
                    });
                }
                DiscoveryEvent::ProvidersLoaded(Ok(providers))
            }
        };
        match discovery.advance(event)? {
            DiscoveryProgress::Continue(next) => discovery = next,
            DiscoveryProgress::Ready(schema) => {
                return Ok(Schema {
                    schema: Mutex::new(schema),
                    tables,
                })
            }
        }
    }
}

fn discover(mut discovery: CatalogDiscovery<Plain, Recording, u8>) -> Result<Catalog, Error> {
    loop {
        let event = match discovery.step() {
            CatalogStep::ListNamespaces => match discovery.access() {
                IcebergCatalogAccess::Session { catalog, context } => {
                    catalog.record("list_namespaces", &context);
                    CatalogEvent::NamespacesListed(catalog.namespaces(&context))
                }
                IcebergCatalogAccess::Plain(catalog) => {
                    CatalogEvent::NamespacesListed(Ok(catalog.namespaces.clone()))
                }
            },
            CatalogStep::LoadSchemas => CatalogEvent::SchemasLoaded(
                discovery
                    .schema_discoveries()
                    .into_iter()
                    .map(|schema| discover_schema(schema).map(Arc::new))
                    .collect(),
            ),
        };
        match discovery.advance(event)? {
            CatalogProgress::Continue(next) => discovery = next,
            CatalogProgress::Ready(provider) => return Ok(provider),
        }
    }
}

fn iceberg_options() -> IcebergOptions {
    let mut properties = StringMap::new();
    properties.insert("test-property".to_string(), "property-value".to_string());
    let mut credentials = StringMap::new();
    credentials.insert(
        "test-token".to_string(),
        SensitiveString::from("secret-value".to_string()),
    );
    IcebergOptions {
        identity: Some("test-user".to_string()),
        properties,
        credentials,
    }
}

fn identified(identity: &str) -> IcebergOptions {
    IcebergOptions {
        identity: Some(identity.to_string()),
        ..Default::default()
    }
}

fn session_with(options: Option<IcebergOptions>) -> Session {
    let config = match options {
        Some(options) => SessionConfig::new().with_extension(Arc::new(options)),
        None => SessionConfig::new(),
    };
    let session = DFSessionContext::new_with_config(config);
    let state = session.state();
    Session {
        session_id: session.session_id(),
        options: state.config().get_extension::<IcebergOptions>(),
    }
}

fn with_session_catalog(catalog: &Arc<Recording>) -> Result<Catalog, Error> {
    discover(Catalog::try_new_with_session_catalog(Arc::clone(catalog)))
}

fn for_session(
    factory: &IcebergSessionCatalogProvider<Recording>,
    options: IcebergOptions,
) -> Result<Catalog, Error> {
    discover(factory.for_session(options))
}

#[test]
fn test_session_aware_scan_uses_resolved_context() {
    let session_catalog = recording_catalog();
    let provider = with_session_catalog(&session_catalog).ok().unwrap();

    let bootstrap_calls = session_catalog.take_calls();
    assert_eq!(
        operations(&bootstrap_calls),
        vec!["list_namespaces", "list_tables", "load_table"]
    );

    let fallback_session_id = bootstrap_calls[0].session_id.as_str();
    assert!(bootstrap_calls
        .iter()
        .all(|call| call.session_id == fallback_session_id && call.is_anonymous()));

    let schema = provider.schema("test_ns").unwrap();
    let table = schema.table("test_table");

    let first_options = iceberg_options();
    let first_session = session_with(Some(first_options.clone()));
    table.scan(&first_session);

    let mut properties = StringMap::new();
    properties.insert("another-property".to_string(), "another-value".to_string());
    let mut credentials = StringMap::new();
    credentials.insert(
        "another-token".to_string(),
        SensitiveString::from("another-secret".to_string()),
    );
    let second_options = IcebergOptions {
        identity: Some("another-user".to_string()),
        properties,
        credentials,
    };
    let second_session = session_with(Some(second_options.clone()));
    table.scan(&second_session);

    let calls = session_catalog.take_calls();
    assert_eq!(calls.len(), 2);
    assert_eq!(calls[0].operation, "load_table");
    assert_eq!(calls[0].session_id, first_session.session_id);
    assert_eq!(calls[0].identity, first_options.identity);
    assert_eq!(calls[0].properties, first_options.properties);
    assert!(calls[0].credentials == first_options.credentials);

    assert_eq!(calls[1].operation, "load_table");
    assert_eq!(calls[1].session_id, second_session.session_id);
    assert_eq!(calls[1].identity, second_options.identity);
    assert_eq!(calls[1].properties, second_options.properties);
    assert!(calls[1].credentials == second_options.credentials);
}

#[test]
fn test_session_aware_scan_without_options_uses_fallback_context() {
    let session_catalog = recording_catalog();
    let provider = with_session_catalog(&session_catalog).ok().unwrap();
    let fallback_session_id = session_catalog.take_calls()[0].session_id.clone();
    let schema = provider.schema("test_ns").unwrap();
    let table = schema.table("test_table");

    let session = session_with(None);
    table.scan(&session);

    let calls = session_catalog.take_calls();
    assert_eq!(calls.len(), 1);
    assert_eq!(calls[0].operation, "load_table");
    assert_eq!(calls[0].session_id, fallback_session_id);
    assert_ne!(calls[0].session_id, session.session_id);
    assert!(calls[0].identity.is_none());
    assert!(calls[0].properties.is_empty());
    assert!(calls[0].credentials.is_empty());
}

#[test]
fn test_session_aware_insert_reuses_resolved_context_for_commit() {
    let session_catalog = recording_catalog();
    let provider = with_session_catalog(&session_catalog).ok().unwrap();
    let schema = provider.schema("test_ns").unwrap();
    let table = schema.table("test_table");
    session_catalog.take_calls();

    let session = session_with(Some(iceberg_options()));
    table.insert(&session);

    let calls = session_catalog.take_calls();
    let load = calls
        .iter()
        .find(|call| call.operation == "load_table")
        .unwrap();
    let update = calls
        .iter()
        .find(|call| call.operation == "update_table")
        .unwrap();
    assert_eq!(update.session_id, load.session_id);
    assert_eq!(update.identity, load.identity);
    assert_eq!(update.properties, load.properties);
    assert!(update.credentials == load.credentials);
    assert_eq!(load.session_id, session.session_id);
    assert_eq!(load.identity, iceberg_options().identity);
    assert_eq!(load.properties, iceberg_options().properties);
    assert!(load.credentials == iceberg_options().credentials);
}

#[test]
fn test_sessionless_schema_operations_share_fallback_context() {
    let session_catalog = recording_catalog();
    let provider = with_session_catalog(&session_catalog).ok().unwrap();
    let schema = provider.schema("test_ns").unwrap();
    session_catalog.take_calls();

    schema.table("test_table$snapshots");

    let metadata_calls = session_catalog.take_calls();
    assert_eq!(metadata_calls.len(), 1);
    assert_eq!(metadata_calls[0].operation, "load_table");
    let fallback_session_id = metadata_calls[0].session_id.clone();
    assert!(metadata_calls
        .iter()
        .all(|call| call.session_id == fallback_session_id && call.is_anonymous()));

    let mut registration = schema
        .schema
        .lock()
        .unwrap()
        .register_table("registered_table")
        .unwrap();
    loop {
        let event = match registration.step() {
            RegistrationStep::ConvertSchema => RegistrationEvent::SchemaConverted(Ok(())),
            RegistrationStep::CheckEmpty => {
                RegistrationEvent::Scanned(TableScan::Batches(vec![Ok(0)]))
            }
            RegistrationStep::CreateTable => {
                schema.perform("create_table");
                RegistrationEvent::TableCreated(Ok(()))
            }
            RegistrationStep::LoadProvider => {
                let request = registration.provider_request();
                load(&request.catalog.access(), &request.ident);
                RegistrationEvent::ProviderLoaded(Ok(1))
            }
        };
        let progress = schema
            .schema
            .lock()
            .unwrap()
            .advance_registration(registration, event)
            .unwrap();
        match progress {
            Some(next) => registration = next,
            None => break,
        }
    }
    let dropped = schema
        .schema
        .lock()
        .unwrap()
        .deregister_table("registered_table")
        .unwrap();
    assert!(dropped.is_some());
    schema.perform("drop_table");
    let removed = schema
        .schema
        .lock()
        .unwrap()
        .table_dropped("registered_table", DropOutcome::Dropped)
        .unwrap();
    assert_eq!(removed, Some(1));

    let calls = session_catalog.take_calls();
    assert!(calls.iter().any(|call| call.operation == "create_table"));
    assert!(calls.iter().any(|call| call.operation == "drop_table"));
    assert!(calls
        .iter()
        .all(|call| call.session_id == fallback_session_id && call.is_anonymous()));
}

#[test]
fn test_factory_construction_performs_no_catalog_io() {
    let session_catalog = identity_scoped_catalog();

    let _factory = IcebergSessionCatalogProvider::new(session_catalog.clone());

    assert!(
        session_catalog.take_calls().is_empty(),
        "constructing the factory must not touch the catalog"
    );
}

#[test]
fn test_for_session_binds_identity_before_first_discovery_call() {
    let session_catalog = identity_scoped_catalog();
    let factory = IcebergSessionCatalogProvider::new(session_catalog.clone());

    let mut properties = StringMap::new();
    properties.insert("region".to_string(), "us-east".to_string());
    let mut credentials = StringMap::new();
    credentials.insert(
        "token".to_string(),
        SensitiveString::from("alice-secret".to_string()),
    );
    let options = IcebergOptions {
        identity: Some("alice".to_string()),
        properties,
        credentials,
    };

    let provider = for_session(&factory, options.clone()).ok().unwrap();

    let calls = session_catalog.take_calls();
    assert_eq!(
        operations(&calls),
        vec!["list_namespaces", "list_tables", "load_table"]
    );
    assert!(calls.iter().all(|call| call.carries(&options)));

    assert_eq!(provider.schema_names(), vec!["alice_ns".to_string()]);
    let schema = provider.schema("alice_ns").unwrap();
    assert!(schema.schema.lock().unwrap().table_exist("alice_table"));
}

#[test]
fn test_for_session_rejects_anonymous_catalog_by_default_but_allows_binding() {
    let session_catalog = identity_scoped_catalog();
    let factory = IcebergSessionCatalogProvider::new(session_catalog.clone());

    let error = for_session(&factory, IcebergOptions::default())
        .err()
        .unwrap();
    assert_eq!(error.kind(), ErrorKind::DataInvalid);
    assert!(error.message.contains("anonymous access is not permitted"));

    let provider = for_session(&factory, identified("bob")).ok().unwrap();
    assert_eq!(provider.schema_names(), vec!["bob_ns".to_string()]);
}

#[test]
fn test_two_bindings_do_not_share_discovered_visibility() {
    let session_catalog = identity_scoped_catalog();
    let factory = IcebergSessionCatalogProvider::new(session_catalog.clone());

    let alice_provider = for_session(&factory, identified("alice")).ok().unwrap();
    let bob_provider = for_session(&factory.clone(), identified("bob"))
        .ok()
        .unwrap();

    assert_eq!(alice_provider.schema_names(), vec!["alice_ns".to_string()]);
    assert_eq!(bob_provider.schema_names(), vec!["bob_ns".to_string()]);

    assert!(alice_provider.schema("bob_ns").is_none());
    assert!(bob_provider.schema("alice_ns").is_none());
}

#[test]
fn test_explicit_binding_survives_scan_without_datafusion_options() {
    let session_catalog = identity_scoped_catalog();
    let factory = IcebergSessionCatalogProvider::new(session_catalog.clone());

    let provider = for_session(&factory, identified("alice")).ok().unwrap();
    let bound_session_id = session_catalog.take_calls()[0].session_id.clone();

    let schema = provider.schema("alice_ns").unwrap();
    schema.table("alice_table").scan(&session_with(None));

    let calls = session_catalog.take_calls();
    assert_eq!(calls.len(), 1);
    assert_eq!(calls[0].operation, "load_table");
    assert_eq!(calls[0].session_id, bound_session_id);
    assert_eq!(calls[0].identity, Some("alice".to_string()));
}

#[test]
fn test_explicit_binding_survives_scan_with_conflicting_datafusion_options() {
    let session_catalog = identity_scoped_catalog();
    let factory = IcebergSessionCatalogProvider::new(session_catalog.clone());

    let provider = for_session(&factory, identified("alice")).ok().unwrap();
    let bound_session_id = session_catalog.take_calls()[0].session_id.clone();

    let schema = provider.schema("alice_ns").unwrap();
    let session = session_with(Some(identified("bob")));
    schema.table("alice_table").scan(&session);

    let calls = session_catalog.take_calls();
    assert_eq!(calls.len(), 1);
    assert_eq!(calls[0].operation, "load_table");
    assert_eq!(calls[0].session_id, bound_session_id);
    assert_ne!(calls[0].session_id, session.session_id);
    assert_eq!(
        calls[0].identity,
        Some("alice".to_string()),
        "explicit binding must not be overwritten by conflicting DataFusion IcebergOptions"
    );
}

#[test]
fn test_explicit_binding_survives_metadata_lookup_and_sql_commit() {
    let session_catalog = recording_catalog();
    let factory = IcebergSessionCatalogProvider::new(session_catalog.clone());
    let options = iceberg_options();
    let provider = for_session(&factory, options.clone()).ok().unwrap();
    let bound_session_id = session_catalog.take_calls()[0].session_id.clone();

    let schema = provider.schema("test_ns").unwrap();
    schema.table("test_table$snapshots");
    let metadata_calls = session_catalog.take_calls();
    assert_eq!(metadata_calls.len(), 1);
    assert_eq!(metadata_calls[0].operation, "load_table");

    let session = session_with(Some(identified("conflicting-user")));
    schema.table("test_table").insert(&session);

    let calls = session_catalog.take_calls();
    assert!(calls.iter().any(|call| call.operation == "load_table"));
    assert!(calls.iter().any(|call| call.operation == "update_table"));
    assert!(metadata_calls
        .iter()
        .chain(calls.iter())
        .all(|call| call.session_id == bound_session_id && call.carries(&options)));
}

#[test]
fn test_binding_uses_one_context_id_throughout_and_distinct_ids_between_bindings() {
    let session_catalog = identity_scoped_catalog();
    let factory = IcebergSessionCatalogProvider::new(session_catalog.clone());

    let first_provider = for_session(&factory, identified("alice")).ok().unwrap();
    let first_bootstrap_calls = session_catalog.take_calls();

    let _second_provider = for_session(&factory, identified("alice")).ok().unwrap();
    let second_bootstrap_calls = session_catalog.take_calls();

    let first_session_id = first_bootstrap_calls[0].session_id.clone();
    let second_session_id = second_bootstrap_calls[0].session_id.clone();
    assert!(first_bootstrap_calls
        .iter()
        .all(|call| call.session_id == first_session_id));
    assert!(second_bootstrap_calls
        .iter()
        .all(|call| call.session_id == second_session_id));
    assert_ne!(
        first_session_id, second_session_id,
        "distinct bindings must get distinct context ids even with identical options"
    );

    let schema = first_provider.schema("alice_ns").unwrap();
    schema.table("alice_table").scan(&session_with(None));
    let calls = session_catalog.take_calls();
    assert_eq!(calls.last().unwrap().session_id, first_session_id);
}

#[test]
fn each_namespace_is_one_schema() {
    let catalog = Arc::new(Plain {
        namespaces: vec![
            NamespaceIdent::from_strs(vec!["outer".to_string(), "inner".to_string()]).unwrap(),
            NamespaceIdent::new("alone".to_string()),
            NamespaceIdent::new("inner".to_string()),
        ],
    });
    let provider = discover(Catalog::try_new(catalog)).ok().unwrap();
    assert_eq!(provider.schema_names(), ["alone", "inner", "outer.inner"]);
    assert!(provider.schema("outer.inner").is_some());
    assert!(provider.schema("outer").is_none());
}

#[test]
fn a_refused_list_of_schemas_is_handed_on() {
    let catalog = Arc::new(Plain { namespaces: vec![] });
    let discovery: CatalogDiscovery<Plain, Recording, u8> = Catalog::try_new(catalog);
    let discovery = match discovery.advance::<Schema>(CatalogEvent::NamespacesListed(Ok(vec![
        NamespaceIdent::new("a".to_string()),
        NamespaceIdent::new("b".to_string()),
    ]))) {
        Ok(CatalogProgress::Continue(discovery)) => discovery,
        _ => panic!("there are schemas to load"),
    };
    assert_eq!(discovery.step(), CatalogStep::LoadSchemas);
    let error = discovery
        .advance::<Schema>(CatalogEvent::SchemasLoaded(Err(Error::new(
            ErrorKind::NamespaceNotFound,
            "b is gone".to_string(),
        ))))
        .err()
        .unwrap();
    assert_eq!(error.kind(), ErrorKind::NamespaceNotFound);
    assert_eq!(error.message, "b is gone");
}

#[test]
fn a_bound_catalog_and_runtime_reach_every_schema() {
    let context = iceberg_options().to_session_context();
    let adapter: Arc<Adapter> = Arc::new(SessionBindingCatalogAdapter::new_explicit(
        context,
        recording_catalog(),
    ));
    let discovery = Catalog::try_new_with_runtime(Arc::clone(&adapter), Some(Arc::new(8u8)));
    let nested = NamespaceIdent::from_strs(vec!["b".to_string(), "c".to_string()]).unwrap();
    let discovery = match discovery.advance::<Schema>(CatalogEvent::NamespacesListed(Ok(vec![
        NamespaceIdent::new("a".to_string()),
        nested.clone(),
    ]))) {
        Ok(CatalogProgress::Continue(discovery)) => discovery,
        _ => panic!("there are schemas to load"),
    };
    let schemas = discovery.schema_discoveries();
    assert_eq!(schemas.len(), 2);
    let namespaces = [NamespaceIdent::new("a".to_string()), nested];
    for (schema, namespace) in schemas.into_iter().zip(namespaces) {
        assert!(Arc::ptr_eq(schema.catalog(), &adapter));
        assert_eq!(schema.namespace(), &namespace);
        let schema = match schema.advance(DiscoveryEvent::TablesListed(Ok(vec![
            Recording::table_of(&namespace),
        ]))) {
            Ok(DiscoveryProgress::Continue(schema)) => schema,
            _ => panic!("there are views to list"),
        };
        let requests = schema.provider_requests();
        assert_eq!(requests.len(), 1);
        assert_eq!(requests[0].runtime.as_deref(), Some(&8));
    }
}

#[test]
fn bindings_choose_the_context() {
    let catalog = recording_catalog();
    let session = session_with(Some(iceberg_options()));
    let context_id = |access: Access| match access {
        IcebergCatalogAccess::Session { context, .. } => context.session_id().to_string(),
        IcebergCatalogAccess::Plain(_) => "plain".to_string(),
    };

    let plain: Adapter = SessionBindingCatalogAdapter::new_without_context(Arc::new(Plain {
        namespaces: vec![],
    }));
    assert_eq!(context_id(plain.access()), "plain");
    assert_eq!(context_id(plain.access_for(&session)), "plain");

    let context = SessionContext::empty();
    let id = context.session_id().to_string();
    let fallback: Adapter = SessionBindingCatalogAdapter::new(context, catalog.clone());
    assert_eq!(context_id(fallback.access()), id);
    assert_eq!(context_id(fallback.access_for(&session)), session.session_id);
    assert_eq!(context_id(fallback.access_for(&session_with(None))), id);

    let context = SessionContext::empty();
    let id = context.session_id().to_string();
    let explicit: Adapter = SessionBindingCatalogAdapter::new_explicit(context, catalog);
    assert_eq!(context_id(explicit.access()), id);
    assert_eq!(context_id(explicit.access_for(&session)), id);
}

#[test]
fn all_that_is_found_goes_with_one_context() {
    let session_catalog = recording_catalog();
    let factory = IcebergSessionCatalogProvider::new(session_catalog.clone());
    for_session(&factory, iceberg_options()).ok().unwrap();
    let calls = session_catalog.take_calls();
    assert!(calls.iter().all(|call| call.same_context(&calls[0])));
}
