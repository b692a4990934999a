use std::collections::HashMap;
use std::sync::Arc;

use datafusion::arrow::array::{Int32Array, StringArray};
use datafusion::arrow::datatypes::{DataType, Field, Schema as ArrowSchema};
use datafusion::arrow::record_batch::RecordBatch;
use datafusion::catalog::TableProvider;
use datafusion::datasource::MemTable;
use datafusion::execution::TaskContext;
use datafusion::physical_plan::ExecutionPlanProperties;
use datafusion::prelude::SessionContext;
use futures::StreamExt;

use iceberg_datafusion::discovery::{
    DiscoveryEvent, DiscoveryProgress, DiscoveryStep, SchemaDiscovery,
};
use iceberg_datafusion::error::{DataFusionError, Error, ErrorKind};
use iceberg_datafusion::ident::{NamespaceIdent, TableIdent};
use iceberg_datafusion::metadata_table::MetadataTableType;
use iceberg_datafusion::registration::{
    ensure_table_is_empty, DropOutcome, RegistrationEvent, RegistrationStep, TableScan,
};
use iceberg_datafusion::schema::{IcebergSchemaProvider, TableLookup};
use iceberg_datafusion::view::{
    Schema, SqlViewRepresentation, View, ViewMetadata, ViewRepresentation, ViewVersion,
};
use iceberg_datafusion::view_plan::plan_view;

type Discovery = SchemaDiscovery<str, u8>;
type SchemaProvider = IcebergSchemaProvider<str, u8>;

fn namespace() -> NamespaceIdent {
    NamespaceIdent::new("test_ns".to_string())
}

fn ident(name: &str) -> TableIdent {
    TableIdent::new(namespace(), name.to_string())
}

fn go_on(discovery: Discovery, event: DiscoveryEvent) -> Discovery {
    match discovery.advance(event).unwrap() {
        DiscoveryProgress::Continue(discovery) => discovery,
        DiscoveryProgress::Ready(_) => panic!("ready too soon"),
    }
}

fn begin() -> Discovery {
    SchemaProvider::try_new(Arc::from("memory"), namespace())
}

fn listed(tables: &[&str], views: &[&str]) -> Discovery {
    let discovery = begin();
    assert_eq!(discovery.step(), DiscoveryStep::ListTables);
    let tables = tables.iter().map(|name| ident(name)).collect();
    let discovery = go_on(discovery, DiscoveryEvent::TablesListed(Ok(tables)));
    assert_eq!(discovery.step(), DiscoveryStep::ListViews);
    let views = views.iter().map(|name| ident(name)).collect();
    let discovery = go_on(discovery, DiscoveryEvent::ViewsListed(Ok(views)));
    assert_eq!(discovery.step(), DiscoveryStep::LoadProviders);
    discovery
}

fn ready(discovery: Discovery, providers: Vec<u64>) -> SchemaProvider {
    match discovery
        .advance(DiscoveryEvent::ProvidersLoaded(Ok(providers)))
        .unwrap()
    {
        DiscoveryProgress::Ready(schema) => schema,
        DiscoveryProgress::Continue(_) => panic!("not ready"),
    }
}

fn create_test_schema_provider() -> SchemaProvider {
    ready(listed(&[], &[]), vec![])
}

fn create_test_schema_provider_with_view() -> SchemaProvider {
    ready(listed(&["tbl1"], &["view1"]), vec![11])
}

fn scan_of(table: &MemTable) -> TableScan {
    let runtime = tokio::runtime::Builder::new_current_thread().build().unwrap();
    runtime.block_on(async {
        let session = SessionContext::new();
        let plan = match table.scan(&session.state(), None, &[], Some(1)).await {
            Ok(plan) => plan,
            Err(error) => return TableScan::ScanFailed(error.to_string()),
        };
        let mut batches = Vec::new();
        for partition in 0..plan.output_partitioning().partition_count() {
            let mut stream = match plan.execute(partition, Arc::new(TaskContext::default())) {
                Ok(stream) => stream,
                Err(error) => return TableScan::ExecutionFailed(error.to_string()),
            };
            while let Some(batch) = stream.next().await {
                batches.push(match batch {
                    Ok(batch) => Ok(batch.num_rows()),
                    Err(error) => Err(error.to_string()),
                });
            }
        }
        TableScan::Batches(batches)
    })
}

fn empty_table(fields: Vec<Field>) -> MemTable {
    let schema = Arc::new(ArrowSchema::new(fields));
    let batch = RecordBatch::new_empty(schema.clone());
    MemTable::try_new(schema, vec![vec![batch]]).unwrap()
}

fn register(
    schema: &mut SchemaProvider,
    name: &str,
    table: &MemTable,
    provider: u64,
) -> Result<(), DataFusionError> {
    let mut registration = schema.register_table(name)?;
    let mut steps = Vec::new();
    loop {
        steps.push(registration.step());
        let event = match registration.step() {
            RegistrationStep::ConvertSchema => RegistrationEvent::SchemaConverted(Ok(())),
            RegistrationStep::CheckEmpty => RegistrationEvent::Scanned(scan_of(table)),
            RegistrationStep::CreateTable => {
                assert_eq!(registration.table_ident(), &ident(name));
                assert_eq!(registration.catalog().as_ref(), "memory");
                RegistrationEvent::TableCreated(Ok(()))
            }
            RegistrationStep::LoadProvider => {
                let request = registration.provider_request();
                assert_eq!(request.ident, ident(name));
                assert_eq!(request.catalog.as_ref(), "memory");
                RegistrationEvent::ProviderLoaded(Ok(provider))
            }
        };
        match schema.advance_registration(registration, event)? {
            Some(next) => registration = next,
            None => break,
        }
    }
    assert_eq!(
        steps,
        [
            RegistrationStep::ConvertSchema,
            RegistrationStep::CheckEmpty,
            RegistrationStep::CreateTable,
            RegistrationStep::LoadProvider,
        ]
    );
    Ok(())
}

fn message(error: DataFusionError) -> String {
    match error {
        DataFusionError::Plan(message)
        | DataFusionError::Execution(message)
        | DataFusionError::Configuration(message)
        | DataFusionError::NotImplemented(message) => message,
        DataFusionError::External(error) => error.message,
    }
}

fn id_field() -> Vec<Field> {
    vec![Field::new("id", DataType::Int32, false)]
}

#[test]
fn test_register_table_with_data_fails() {
    let mut schema_provider = create_test_schema_provider();

    let arrow_schema = Arc::new(ArrowSchema::new(vec![
        Field::new("id", DataType::Int32, false),
        Field::new("name", DataType::Utf8, true),
    ]));
    let batch = RecordBatch::try_new(
        arrow_schema.clone(),
        vec![
            Arc::new(Int32Array::from(vec![1, 2, 3])),
            Arc::new(StringArray::from(vec!["Alice", "Bob", "Charlie"])),
        ],
    )
    .unwrap();
    let mem_table = MemTable::try_new(arrow_schema, vec![vec![batch]]).unwrap();

    let result = register(&mut schema_provider, "test_table", &mem_table, 1);

    assert!(result.is_err());
    let err = message(result.unwrap_err());
    assert!(
        err.contains("register_table does not support tables with data."),
        "Expected error about tables with data, got: {err}",
    );
    assert!(!schema_provider.table_exist("test_table"));
}

#[test]
fn test_register_empty_table_succeeds() {
    let mut schema_provider = create_test_schema_provider();

    let mem_table = empty_table(vec![
        Field::new("id", DataType::Int32, false),
        Field::new("name", DataType::Utf8, true),
    ]);
    let result = register(&mut schema_provider, "empty_table", &mem_table, 5);

    assert!(result.is_ok(), "Expected success, got: {result:?}");

    assert!(schema_provider.table_exist("empty_table"));
    assert!(matches!(
        schema_provider.table("empty_table"),
        Ok(TableLookup::Table(5))
    ));
}

#[test]
fn test_register_duplicate_table_fails() {
    let mut schema_provider = create_test_schema_provider();

    let mem_table1 = empty_table(id_field());
    let mem_table2 = empty_table(id_field());

    let result1 = register(&mut schema_provider, "dup_table", &mem_table1, 1);
    assert!(result1.is_ok());

    let result2 = register(&mut schema_provider, "dup_table", &mem_table2, 2);
    assert!(result2.is_err());
    let err = message(result2.unwrap_err());
    assert!(
        err.contains("already exists"),
        "Expected error about table already existing, got: {err}",
    );
    assert_eq!(err, "Table dup_table already exists");
}

#[test]
fn test_deregister_table_succeeds() {
    let mut schema_provider = create_test_schema_provider();

    let result = register(&mut schema_provider, "drop_me", &empty_table(id_field()), 9);
    assert!(result.is_ok());
    assert!(schema_provider.table_exist("drop_me"));

    let dropped = schema_provider.deregister_table("drop_me").unwrap();
    assert_eq!(dropped, Some(ident("drop_me")));
    assert!(schema_provider.table_exist("drop_me"));
    let result = schema_provider.table_dropped("drop_me", DropOutcome::Dropped);
    assert!(result.is_ok());
    assert_eq!(result.unwrap(), Some(9));

    assert!(!schema_provider.table_exist("drop_me"));
    assert!(!schema_provider.table_exist("drop_me$snapshots"));
}

#[test]
fn test_deregister_nonexistent_table_returns_none() {
    let schema_provider = create_test_schema_provider();

    let result = schema_provider.deregister_table("nonexistent");
    assert!(result.is_ok());
    assert!(result.unwrap().is_none());
}

#[test]
fn test_table_names_include_views() {
    let schema_provider = create_test_schema_provider_with_view();

    let table_names = schema_provider.table_names();

    assert!(table_names.contains(&"tbl1".to_string()));
    assert!(table_names.contains(&"view1".to_string()));
    assert_eq!(
        table_names,
        ["tbl1", "tbl1$manifests", "tbl1$snapshots", "view1"]
    );
}

#[test]
fn a_view_is_found_loaded_and_kept() {
    let mut schema_provider = create_test_schema_provider_with_view();

    let loaded = match schema_provider.table("view1") {
        Ok(TableLookup::LoadView(ident)) => ident,
        other => panic!("expected a view to load, got {other:?}"),
    };
    assert_eq!(loaded, ident("view1"));
    let view = View::builder()
        .identifier(loaded)
        .metadata(Arc::new(ViewMetadata {
            location: "memory/test_ns/view1".to_string(),
            current_version: Arc::new(ViewVersion {
                default_catalog: Some("datafusion".to_string()),
                default_namespace: namespace(),
                representations: vec![ViewRepresentation::Sql(SqlViewRepresentation {
                    sql: "SELECT foo FROM tbl1".to_string(),
                    dialect: "datafusion".to_string(),
                })],
            }),
            current_schema: Arc::new(Schema {
                schema_id: 0,
                fields: vec![],
            }),
            properties: HashMap::new(),
        }))
        .build()
        .unwrap();
    let plan = plan_view(&view).unwrap();
    assert_eq!(plan.sql, "SELECT foo FROM tbl1");
    assert_eq!(plan.default_catalog, "datafusion");
    assert_eq!(plan.default_schema, "test_ns");

    let outcome: Result<u64, DataFusionError> = Ok(77);
    assert_eq!(schema_provider.view_planned("view1", outcome).unwrap(), 77);
    assert!(matches!(
        schema_provider.table("view1"),
        Ok(TableLookup::View(77))
    ));
}

#[test]
fn what_is_no_view_is_not_kept() {
    let mut schema = create_test_schema_provider();
    let outcome: Result<u64, DataFusionError> = Ok(5);
    assert_eq!(schema.view_planned("x", outcome).unwrap(), 5);
    assert!(!schema.table_exist("x"));
    assert!(matches!(schema.table("x"), Ok(TableLookup::Missing)));
    assert!(schema.table_names().is_empty());
    assert!(schema.deregister_table("x").unwrap().is_none());
}

#[test]
fn rows_in_any_partition_are_refused() {
    let arrow_schema = Arc::new(ArrowSchema::new(id_field()));
    let empty = RecordBatch::new_empty(arrow_schema.clone());
    let rows = RecordBatch::try_new(
        arrow_schema.clone(),
        vec![Arc::new(Int32Array::from(vec![7]))],
    )
    .unwrap();
    let table = MemTable::try_new(arrow_schema, vec![vec![empty], vec![rows]]).unwrap();
    let mut schema = create_test_schema_provider();
    let error = register(&mut schema, "t", &table, 1).unwrap_err();
    assert_eq!(
        message(error),
        "register_table does not support tables with data."
    );
    assert!(!schema.table_exist("t"));
}

#[test]
fn test_deregister_view_is_not_supported() {
    let schema_provider = create_test_schema_provider_with_view();

    let result = schema_provider.deregister_table("view1");

    assert!(result.is_err());
    let err = message(result.unwrap_err());
    assert!(err.contains("not supported"));
    assert_eq!(err, "Dropping Iceberg view view1 is not supported");
}

#[test]
fn metadata_tables_are_found_by_name() {
    let schema = create_test_schema_provider_with_view();
    assert!(schema.table_exist("tbl1$snapshots"));
    assert!(schema.table_exist("tbl1$manifests"));
    assert!(!schema.table_exist("tbl1$other"));
    assert!(!schema.table_exist("view1$snapshots"));
    assert!(!schema.table_exist("missing$snapshots"));
    assert!(!schema.table_exist("missing"));
    assert!(matches!(
        schema.table("tbl1$manifests"),
        Ok(TableLookup::Metadata {
            table: 11,
            metadata: MetadataTableType::Manifests
        })
    ));
    assert!(matches!(
        schema.table("missing$snapshots"),
        Ok(TableLookup::Missing)
    ));
    assert!(matches!(schema.table("missing"), Ok(TableLookup::Missing)));
    match schema.table("missing$what") {
        Err(DataFusionError::Plan(message)) => {
            assert_eq!(message, "invalid metadata table type: what")
        }
        other => panic!("expected a plan error, got {other:?}"),
    }
}

#[test]
fn every_listed_name_exists() {
    let schema = ready(listed(&["b", "a"], &["v", "a"]), vec![2, 1]);
    let names = schema.table_names();
    assert_eq!(
        names,
        [
            "a",
            "a$manifests",
            "a$snapshots",
            "b",
            "b$manifests",
            "b$snapshots",
            "v"
        ]
    );
    for name in &names {
        assert!(schema.table_exist(name));
    }
    assert!(matches!(schema.table("a"), Ok(TableLookup::Table(1))));
    assert!(matches!(schema.table("b"), Ok(TableLookup::Table(2))));
}

#[test]
fn a_table_with_a_dollar_in_its_name_is_listed_but_does_not_exist() {
    let schema = ready(listed(&["a$b"], &[]), vec![3]);
    assert!(schema.table_names().contains(&"a$b".to_string()));
    assert!(!schema.table_exist("a$b"));
    assert!(schema.table("a$b").is_err());
    assert_eq!(schema.deregister_table("a$b").unwrap(), Some(ident("a$b")));
}

#[test]
fn the_last_of_two_tables_of_one_name_holds() {
    let schema = ready(listed(&["t", "t"], &[]), vec![1, 2]);
    assert!(matches!(schema.table("t"), Ok(TableLookup::Table(2))));
}

#[test]
fn a_catalog_without_views_has_none() {
    let discovery = go_on(
        begin(),
        DiscoveryEvent::TablesListed(Ok(vec![ident("tbl1")])),
    );
    let unsupported = Error::new(ErrorKind::FeatureUnsupported, "no views".to_string());
    let discovery = go_on(discovery, DiscoveryEvent::ViewsListed(Err(unsupported)));
    let schema = ready(discovery, vec![4]);
    assert_eq!(
        schema.table_names(),
        ["tbl1", "tbl1$manifests", "tbl1$snapshots"]
    );
}

#[test]
fn a_refusal_ends_the_discovery() {
    let refused = |kind| Error::new(kind, "refused".to_string());
    let error = begin()
        .advance(DiscoveryEvent::TablesListed(Err(refused(
            ErrorKind::FeatureUnsupported,
        ))))
        .err()
        .unwrap();
    assert_eq!(error.kind(), ErrorKind::FeatureUnsupported);
    let discovery = go_on(begin(), DiscoveryEvent::TablesListed(Ok(vec![])));
    let error = discovery
        .advance(DiscoveryEvent::ViewsListed(Err(refused(
            ErrorKind::Unexpected,
        ))))
        .err()
        .unwrap();
    assert_eq!(error.kind(), ErrorKind::Unexpected);
    let error = listed(&["t"], &[])
        .advance(DiscoveryEvent::ProvidersLoaded(Err(refused(
            ErrorKind::TableNotFound,
        ))))
        .err()
        .unwrap();
    assert_eq!(error.kind(), ErrorKind::TableNotFound);
    assert_eq!(error.message, "refused");
}

#[test]
fn the_runtime_reaches_every_provider() {
    let discovery =
        SchemaProvider::try_new_with_runtime(Arc::from("memory"), namespace(), Some(Arc::new(42)));
    let discovery = go_on(
        discovery,
        DiscoveryEvent::TablesListed(Ok(vec![ident("x"), ident("y")])),
    );
    assert_eq!(discovery.namespace(), &namespace());
    assert_eq!(discovery.catalog().as_ref(), "memory");
    let requests = discovery.provider_requests();
    assert_eq!(requests.len(), 2);
    assert_eq!(requests[0].ident, ident("x"));
    assert_eq!(requests[1].ident, ident("y"));
    for request in &requests {
        assert_eq!(request.runtime.as_deref(), Some(&42));
        assert_eq!(request.catalog.as_ref(), "memory");
    }
    let discovery = go_on(discovery, DiscoveryEvent::ViewsListed(Ok(vec![])));
    let schema = ready(discovery, vec![1, 2]);
    assert_eq!(schema.runtime().as_deref(), Some(&42));
    assert_eq!(schema.catalog().as_ref(), "memory");
    let registration = schema.register_table("z").unwrap();
    assert_eq!(
        registration.provider_request().runtime.as_deref(),
        Some(&42)
    );
}

#[test]
fn a_failed_registration_changes_nothing() {
    let refused = || Error::new(ErrorKind::Unexpected, "refused".to_string());
    let mut schema = create_test_schema_provider_with_view();
    let before = schema.table_names();

    let registration = schema.register_table("new").unwrap();
    let error = schema
        .advance_registration(
            registration,
            RegistrationEvent::SchemaConverted(Err(refused())),
        )
        .err()
        .unwrap();
    assert!(matches!(error, DataFusionError::External(_)));
    assert_eq!(message(error), "refused");

    for last in 0..3 {
        let events = vec![
            RegistrationEvent::SchemaConverted(Ok(())),
            RegistrationEvent::Scanned(TableScan::Batches(vec![])),
            RegistrationEvent::TableCreated(Ok(())),
        ];
        let mut registration = schema.register_table("new").unwrap();
        for event in events.into_iter().take(last + 1) {
            registration = schema
                .advance_registration(registration, event)
                .unwrap()
                .unwrap();
        }
        let event = match last {
            0 => RegistrationEvent::TaskFailed("lost".to_string()),
            1 => RegistrationEvent::TableCreated(Err(refused())),
            _ => RegistrationEvent::ProviderLoaded(Err(refused())),
        };
        let error = schema
            .advance_registration(registration, event)
            .err()
            .unwrap();
        match last {
            0 => assert_eq!(message(error), "Failed to create Iceberg table: lost"),
            _ => assert_eq!(message(error), "refused"),
        }
    }
    assert_eq!(schema.table_names(), before);
}

#[test]
fn a_failed_drop_changes_nothing() {
    let mut schema = create_test_schema_provider_with_view();
    let refused = Error::new(ErrorKind::TableNotFound, "gone".to_string());
    match schema.table_dropped("tbl1", DropOutcome::Refused(refused)) {
        Err(DataFusionError::External(error)) => {
            assert_eq!(error.kind(), ErrorKind::TableNotFound);
            assert_eq!(error.message, "gone");
        }
        other => panic!("expected the catalog's error, got {other:?}"),
    }
    let error = schema
        .table_dropped("tbl1", DropOutcome::TaskFailed("lost".to_string()))
        .unwrap_err();
    assert_eq!(message(error), "Failed to drop Iceberg table: lost");
    assert!(schema.table_exist("tbl1"));
    assert_eq!(
        schema.table_dropped("other", DropOutcome::Dropped).unwrap(),
        None
    );
    assert!(schema.table_exist("tbl1"));
}

#[test]
fn registering_and_dropping_leaves_the_schema_as_it_was() {
    let mut schema = create_test_schema_provider_with_view();
    let before = schema.table_names();
    register(&mut schema, "t", &empty_table(id_field()), 3).unwrap();
    assert_ne!(schema.table_names(), before);
    assert!(matches!(
        schema.table("t$snapshots"),
        Ok(TableLookup::Metadata {
            table: 3,
            metadata: MetadataTableType::Snapshots
        })
    ));
    assert!(matches!(schema.table("tbl1"), Ok(TableLookup::Table(11))));
    schema.table_dropped("t", DropOutcome::Dropped).unwrap();
    assert_eq!(schema.table_names(), before);
    assert!(matches!(schema.table("tbl1"), Ok(TableLookup::Table(11))));
}

#[test]
fn a_name_in_use_cannot_be_registered() {
    let schema = create_test_schema_provider_with_view();
    for name in ["tbl1", "view1", "tbl1$snapshots"] {
        let error = schema.register_table(name).err().unwrap();
        assert_eq!(message(error), format!("Table {name} already exists"));
    }
}

#[test]
fn a_view_that_could_not_be_planned_is_loaded_again() {
    let mut schema = create_test_schema_provider_with_view();
    let error = schema
        .view_planned("view1", Err(DataFusionError::Plan("no such table".to_string())))
        .unwrap_err();
    assert_eq!(message(error), "no such table");
    assert!(matches!(
        schema.table("view1"),
        Ok(TableLookup::LoadView(_))
    ));
}

#[test]
fn only_rows_that_were_read_count() {
    let unread = || Err("unreadable".to_string());
    assert!(ensure_table_is_empty(&TableScan::Batches(vec![])).is_ok());
    assert!(ensure_table_is_empty(&TableScan::Batches(vec![Ok(0), unread(), Ok(0)])).is_ok());
    let error = ensure_table_is_empty(&TableScan::Batches(vec![unread(), Ok(1)])).unwrap_err();
    assert_eq!(error.kind(), ErrorKind::Unexpected);
    assert_eq!(
        error.message,
        "register_table does not support tables with data."
    );
    let error = ensure_table_is_empty(&TableScan::ScanFailed("x".to_string())).unwrap_err();
    assert_eq!(error.message, "Failed to scan table: x");
    let error = ensure_table_is_empty(&TableScan::ExecutionFailed("y".to_string())).unwrap_err();
    assert_eq!(error.message, "Failed to execute scan: y");
    assert_eq!(error.kind(), ErrorKind::Unexpected);
}
