use std::collections::HashMap;
use std::sync::Arc;

use iceberg_datafusion::discovery::{DiscoveryEvent, DiscoveryProgress};
use iceberg_datafusion::error::{DataFusionError, Error, ErrorKind};
use iceberg_datafusion::ident::{NamespaceIdent, TableIdent};
use iceberg_datafusion::schema::IcebergSchemaProvider;
use iceberg_datafusion::view::{
    first_match, Schema, SchemaField, SqlViewRepresentation, View, ViewMetadata, ViewMetadataRef,
    ViewRepresentation, ViewVersion,
};
use iceberg_datafusion::view_load::{ViewLoadEvent, ViewLoadStep};
use iceberg_datafusion::view_plan::{plan_view, select_view_sql, ViewPlan};

fn metadata(queries: &[(&str, &str)], default_catalog: Option<&str>) -> ViewMetadataRef {
    let representations = queries
        .iter()
        .map(|(dialect, sql)| {
            ViewRepresentation::Sql(SqlViewRepresentation {
                sql: sql.to_string(),
                dialect: dialect.to_string(),
            })
        })
        .collect();
    Arc::new(ViewMetadata {
        location: "s3://warehouse/test_ns/view1".to_string(),
        current_version: Arc::new(ViewVersion {
            default_catalog: default_catalog.map(|name| name.to_string()),
            default_namespace: NamespaceIdent::from_strs(vec!["a".to_string(), "b".to_string()])
                .unwrap(),
            representations,
        }),
        current_schema: Arc::new(Schema {
            schema_id: 3,
            fields: vec![SchemaField {
                id: 1,
                name: "foo".to_string(),
                required: true,
                field_type: "int".to_string(),
            }],
        }),
        properties: HashMap::from([("owner".to_string(), "alice".to_string())]),
    })
}

fn ident() -> TableIdent {
    TableIdent::new(
        NamespaceIdent::new("test_ns".to_string()),
        "view1".to_string(),
    )
}

fn view(queries: &[(&str, &str)]) -> View {
    View::builder()
        .metadata(metadata(queries, None))
        .identifier(ident())
        .build()
        .unwrap()
}

#[test]
fn builder_asks_for_metadata_first() {
    let error = View::builder().build().unwrap_err();
    assert_eq!(error.kind(), ErrorKind::DataInvalid);
    assert_eq!(
        error.message,
        "ViewMetadata must be provided with ViewBuilder.metadata()"
    );
    let error = View::builder().identifier(ident()).build().unwrap_err();
    assert_eq!(
        error.message,
        "ViewMetadata must be provided with ViewBuilder.metadata()"
    );
}

#[test]
fn builder_asks_for_an_identifier() {
    let error = View::builder()
        .metadata(metadata(&[], None))
        .metadata_location("s3://m.json".to_string())
        .build()
        .unwrap_err();
    assert_eq!(error.kind(), ErrorKind::DataInvalid);
    assert_eq!(
        error.message,
        "TableIdent must be provided with ViewBuilder.identifier()"
    );
}

#[test]
fn a_view_gives_back_what_it_was_built_of() {
    let given = metadata(&[("spark", "SELECT 1")], None);
    let view = View::builder()
        .metadata_location("s3://first.json".to_string())
        .metadata_location("s3://m.json".to_string())
        .metadata(Arc::clone(&given))
        .identifier(ident())
        .build()
        .unwrap();
    for view in [view.clone(), view] {
        assert_eq!(view.identifier(), &ident());
        assert_eq!(view.metadata(), given.as_ref());
        assert!(Arc::ptr_eq(&view.metadata_ref(), &given));
        assert_eq!(view.metadata_location(), Some("s3://m.json"));
        assert_eq!(view.metadata_location_result().unwrap(), "s3://m.json");
        assert!(Arc::ptr_eq(&view.current_schema(), &given.current_schema));
        assert!(Arc::ptr_eq(view.current_version(), &given.current_version));
        assert_eq!(view.properties().get("owner").unwrap(), "alice");
        assert_eq!(view.location(), "s3://warehouse/test_ns/view1");
    }
}

#[test]
fn a_missing_metadata_location_is_reported() {
    let view = view(&[]);
    assert_eq!(view.metadata_location(), None);
    let error = view.metadata_location_result().unwrap_err();
    assert_eq!(error.kind(), ErrorKind::DataInvalid);
    assert_eq!(
        error.message,
        "Metadata location does not exist for view: test_ns.view1"
    );
}

#[test]
fn dialects_are_matched_without_case() {
    let view = view(&[
        ("Spark", "first"),
        ("sPARK", "second"),
        ("\u{130}trino", "third"),
    ]);
    assert_eq!(view.sql_for("SPARK").unwrap().sql, "first");
    assert_eq!(view.sql_for("spark").unwrap().sql, "first");
    assert_eq!(view.sql_for("\u{130}TRINO").unwrap().sql, "third");
    assert!(view.sql_for("ansi").is_none());
}

#[test]
fn the_first_match_is_found() {
    let list = vec!["a".to_string(), "b".to_string(), "b".to_string()];
    assert_eq!(first_match(&list, "b"), Some(1));
    assert_eq!(first_match(&list, "a"), Some(0));
    assert_eq!(first_match(&list, "c"), None);
}

#[test]
fn preferred_dialects_come_in_order() {
    let all = [
        ("trino", "t"),
        ("ansi", "a"),
        ("spark", "s"),
        ("DataFusion", "d"),
    ];
    assert_eq!(select_view_sql(&view(&all)).unwrap().sql, "d");
    assert_eq!(select_view_sql(&view(&all[..3])).unwrap().sql, "s");
    assert_eq!(select_view_sql(&view(&all[..2])).unwrap().sql, "a");
    assert_eq!(select_view_sql(&view(&all[..1])).unwrap().sql, "t");
    assert!(select_view_sql(&view(&[])).is_none());
}

#[test]
fn a_view_is_planned_in_its_own_defaults() {
    let built = |default_catalog| {
        View::builder()
            .metadata(metadata(
                &[("datafusion", "SELECT foo FROM tbl1")],
                default_catalog,
            ))
            .identifier(ident())
            .build()
            .unwrap()
    };
    assert_eq!(
        plan_view(&built(None)).unwrap(),
        ViewPlan {
            sql: "SELECT foo FROM tbl1".to_string(),
            default_catalog: "datafusion".to_string(),
            default_schema: "a.b".to_string(),
        }
    );
    assert_eq!(
        plan_view(&built(Some("lake"))).unwrap().default_catalog,
        "lake"
    );
}

#[test]
fn a_view_without_queries_cannot_be_planned() {
    match plan_view(&view(&[])) {
        Err(DataFusionError::Plan(message)) => assert_eq!(
            message,
            "Iceberg view test_ns.view1 has no SQL representation"
        ),
        other => panic!("expected a plan error, got {other:?}"),
    }
}

fn schema_provider() -> IcebergSchemaProvider<str, u8> {
    let discovery = IcebergSchemaProvider::<str, u8>::try_new_with_runtime(
        Arc::from("memory"),
        NamespaceIdent::new("test_ns".to_string()),
        Some(Arc::new(6)),
    );
    let mut progress = DiscoveryProgress::Continue(discovery);
    for event in [
        DiscoveryEvent::TablesListed(Ok(vec![])),
        DiscoveryEvent::ViewsListed(Ok(vec![ident()])),
        DiscoveryEvent::ProvidersLoaded(Ok(vec![])),
    ] {
        progress = match progress {
            DiscoveryProgress::Continue(discovery) => discovery.advance(event).unwrap_or_else(
                |error| panic!("nothing was refused: {error:?}"),
            ),
            DiscoveryProgress::Ready(_) => panic!("ready too soon"),
        };
    }
    match progress {
        DiscoveryProgress::Ready(schema) => schema,
        DiscoveryProgress::Continue(_) => panic!("not ready"),
    }
}

#[test]
fn a_view_is_loaded_step_by_step() {
    let load = schema_provider().load_view_provider("view1");
    assert_eq!(load.step(), ViewLoadStep::LoadView);
    assert_eq!(load.ident(), &ident());
    assert!(load.plan().is_none());
    let loaded = view(&[("spark", "SELECT 1")]);
    let load = load
        .advance(ViewLoadEvent::ViewLoaded(Ok(loaded)))
        .ok()
        .unwrap();
    assert_eq!(load.step(), ViewLoadStep::DiscoverCatalog);
    assert_eq!(load.catalog().as_ref(), "memory");
    assert_eq!(load.runtime().as_deref(), Some(&6));
    assert_eq!(load.plan().unwrap().sql, "SELECT 1");
    let load = load
        .advance(ViewLoadEvent::CatalogDiscovered(Ok(())))
        .ok()
        .unwrap();
    assert_eq!(load.step(), ViewLoadStep::CreatePlan);
    assert_eq!(load.plan().unwrap().sql, "SELECT 1");
    assert_eq!(load.plan().unwrap().default_schema, "a.b");
}

#[test]
fn a_view_that_cannot_be_loaded_is_reported() {
    let gone = || Error::new(ErrorKind::Unexpected, "gone".to_string());
    let begin = || schema_provider().load_view_provider("view1");
    match begin().advance(ViewLoadEvent::ViewLoaded(Err(gone()))) {
        Err(DataFusionError::External(error)) => assert_eq!(error.message, "gone"),
        _ => panic!("expected the catalog's error"),
    }
    match begin().advance(ViewLoadEvent::ViewLoaded(Ok(view(&[])))) {
        Err(DataFusionError::Plan(message)) => assert_eq!(
            message,
            "Iceberg view test_ns.view1 has no SQL representation"
        ),
        _ => panic!("expected a plan error"),
    }
    let load = begin()
        .advance(ViewLoadEvent::ViewLoaded(Ok(view(&[("ansi", "x")]))))
        .ok()
        .unwrap();
    match load.advance(ViewLoadEvent::CatalogDiscovered(Err(gone()))) {
        Err(DataFusionError::External(error)) => assert_eq!(error.message, "gone"),
        _ => panic!("expected the catalog's error"),
    }
}

#[test]
fn names_are_written_with_dots() {
    let namespace =
        NamespaceIdent::from_strs(vec!["a".to_string(), "b".to_string(), "c".to_string()]).unwrap();
    assert_eq!(namespace.to_text(), "a.b.c");
    assert_eq!(namespace.parts().len(), 3);
    assert_eq!(
        TableIdent::new(namespace, "t".to_string()).to_text(),
        "a.b.c.t"
    );
    let error = NamespaceIdent::from_strs(vec![]).unwrap_err();
    assert_eq!(error.kind(), ErrorKind::DataInvalid);
    assert_eq!(error.message, "Namespace identifier can't be empty!");
}
