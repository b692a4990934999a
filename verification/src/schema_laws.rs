//! What holds of a schema whatever was done to it.
use vstd::prelude::*;

use crate::discovery;
use crate::discovery::{DiscoveryEvent, DiscoveryProgressView, DiscoveryStep, DiscoveryView};
use crate::error::{DataFusionError, DataFusionErrorView, Error, ErrorKind, ErrorView};
use crate::ident::{TableIdent, TableIdentView};
use crate::metadata_table;
use crate::metadata_table::MetadataTableType;
use crate::registration;
use crate::registration::{
    Registration, RegistrationEvent, RegistrationStep, RegistrationView, TableScan,
};
use crate::schema;
use crate::schema::{LookupView, SchemaView, TableLookup};
use crate::text;

verus! {

/// The table that a name is about: what stands before a `$`, or all of it.
pub open spec fn table_part(name: Seq<char>) -> Seq<char> {
    match text::split_at_first(name, '$') {
        Some((table, _)) => table,
        None => name,
    }
}

/// Something is found under the name.
pub open spec fn is_found(answer: Result<LookupView, DataFusionErrorView>) -> bool {
    answer matches Ok(found) && !(found is Missing)
}

/// The name of a metadata table splits into the table's and its own, if the
/// table's is plain.
proof fn lemma_metadata_name_splits(table: Seq<char>, metadata: MetadataTableType)
    requires
        !table.contains('$'),
    ensures
        text::split_at_first(schema::metadata_table_name(table, metadata), '$') == Some(
            (table, metadata.name()),
        ),
        metadata_table::metadata_table_named(metadata.name()) == Some(metadata),
{
    reveal_strlit("$");
    assert("$"@ =~= seq!['$']);
    text::lemma_split_joined(table, '$', metadata.name());
    metadata_table::law_metadata_table_names(metadata, metadata.name());
}

/// A name that can be read from is listed.
pub proof fn law_readable_names_are_listed<C: ?Sized, R: ?Sized>(
    schema: SchemaView<C, R>,
    name: Seq<char>,
)
    requires
        schema.has_table(name),
    ensures
        schema.lists(name),
{
    match text::split_at_first(name, '$') {
        Some((table, metadata_name)) => {
            let metadata = metadata_table::metadata_table_named(metadata_name)->Some_0;
            metadata_table::law_metadata_table_names(metadata, metadata_name);
            text::lemma_split_parts(name, '$');
            reveal_strlit("$");
            assert("$"@ =~= seq!['$']);
            assert(name == schema::metadata_table_name(table, metadata));
            assert(schema::names_of_table(table).contains(name));
        },
        None => {
            if schema.tables.contains_key(name) {
                assert(schema::names_of_table(name).contains(name));
            }
        },
    }
}

/// The names that are listed are those that can be read from, where no table or
/// view has a name with a `$`.
pub proof fn law_listed_names_are_readable<C: ?Sized, R: ?Sized>(
    schema: SchemaView<C, R>,
    name: Seq<char>,
)
    requires
        schema.plainly_named(),
    ensures
        schema.lists(name) <==> schema.has_table(name),
{
    if schema.has_table(name) {
        law_readable_names_are_listed(schema, name);
    }
    if schema.has_view(name) {
        text::lemma_split_absent(name, '$');
    } else if schema.lists(name) {
        let table = choose|table: Seq<char>| #[trigger]
            schema.tables.contains_key(table) && schema::names_of_table(table).contains(name);
        if name == table {
            text::lemma_split_absent(name, '$');
        } else {
            let metadata = choose|metadata: MetadataTableType|
                name == #[trigger] schema::metadata_table_name(table, metadata);
            lemma_metadata_name_splits(table, metadata);
        }
    }
}

/// A name exists exactly if looking it up finds something.
pub proof fn law_existing_names_are_found<C: ?Sized, R: ?Sized>(
    schema: SchemaView<C, R>,
    name: Seq<char>,
)
    ensures
        schema.has_table(name) <==> is_found(schema.lookup(name)),
{
}

/// The views of a schema are those that it was found with: none comes in and none
/// goes, whatever is registered, taken out or planned.
pub proof fn law_views_stay_known<C: ?Sized, R: ?Sized>(
    schema: SchemaView<C, R>,
    registration: RegistrationView<C, R>,
    event: RegistrationEvent,
    name: Seq<char>,
    provider: u64,
)
    ensures
        schema.with_view(name, provider).views.dom() == schema.views.dom(),
        schema.without_table(name).views == schema.views,
        schema::registration_step(schema, registration, event).0.views == schema.views,
{
    assert(schema.with_view(name, provider).views.dom() =~= schema.views.dom());
}

/// A view is loaded and planned once: from then on a lookup finds what was
/// planned. No other name is affected.
pub proof fn law_planned_views_are_kept<C: ?Sized, R: ?Sized>(
    schema: SchemaView<C, R>,
    name: Seq<char>,
    provider: u64,
    other: Seq<char>,
)
    ensures
        schema.lookup(name) matches Ok(found) && found is LoadView ==> schema.with_view(
            name,
            provider,
        ).lookup(name) == Ok::<_, DataFusionErrorView>(LookupView::View(provider)),
        other != name ==> schema.with_view(name, provider).lookup(other) == schema.lookup(other),
        schema.with_view(name, provider).lists(other) <==> schema.lists(other),
{
    let after = schema.with_view(name, provider);
    if schema.lists(other) && !schema.has_view(other) {
        let table = choose|table: Seq<char>| #[trigger]
            schema.tables.contains_key(table) && schema::names_of_table(table).contains(other);
        assert(after.tables.contains_key(table));
    }
    if after.lists(other) && !after.has_view(other) {
        let table = choose|table: Seq<char>| #[trigger]
            after.tables.contains_key(table) && schema::names_of_table(table).contains(other);
        assert(schema.tables.contains_key(table));
    }
}

/// A table that was registered under a plain name exists, is found with its
/// provider, and its metadata tables are found with it.
pub proof fn law_registered_tables_are_found<C: ?Sized, R: ?Sized>(
    schema: SchemaView<C, R>,
    name: Seq<char>,
    provider: u64,
    metadata: MetadataTableType,
)
    requires
        !name.contains('$'),
    ensures
        schema.with_table(name, provider).has_table(name),
        schema.with_table(name, provider).lookup(name) == Ok::<_, DataFusionErrorView>(
            LookupView::Table(provider),
        ),
        schema.with_table(name, provider).lookup(schema::metadata_table_name(name, metadata))
            == Ok::<_, DataFusionErrorView>(LookupView::Metadata { table: provider, metadata }),
{
    text::lemma_split_absent(name, '$');
    lemma_metadata_name_splits(name, metadata);
}

/// Registering or taking out a table affects no name that is about another.
pub proof fn law_other_tables_are_untouched<C: ?Sized, R: ?Sized>(
    schema: SchemaView<C, R>,
    name: Seq<char>,
    provider: u64,
    other: Seq<char>,
)
    requires
        table_part(other) != name,
    ensures
        schema.with_table(name, provider).lookup(other) == schema.lookup(other),
        schema.without_table(name).lookup(other) == schema.lookup(other),
{
}

/// A table that was taken out is gone, with its metadata tables: neither exists,
/// unless a view has the table's name.
pub proof fn law_dropped_tables_are_gone<C: ?Sized, R: ?Sized>(
    schema: SchemaView<C, R>,
    name: Seq<char>,
    metadata: MetadataTableType,
)
    requires
        !name.contains('$'),
    ensures
        schema.without_table(name).has_table(name) <==> schema.has_view(name),
        !schema.without_table(name).has_table(schema::metadata_table_name(name, metadata)),
{
    text::lemma_split_absent(name, '$');
    lemma_metadata_name_splits(name, metadata);
}

/// Taking out a table that was registered leaves the schema as it was.
pub proof fn law_drop_undoes_registration<C: ?Sized, R: ?Sized>(
    schema: SchemaView<C, R>,
    name: Seq<char>,
    provider: u64,
)
    requires
        !schema.tables.contains_key(name),
    ensures
        schema.with_table(name, provider).without_table(name) == schema,
{
    assert(schema.with_table(name, provider).without_table(name) =~= schema);
}

/// A registration changes the schema in one way only: by adding its own table
/// once that table's provider is loaded. One that fails, or is not yet complete,
/// changes nothing.
pub proof fn law_incomplete_registrations_change_nothing<C: ?Sized, R: ?Sized>(
    schema: SchemaView<C, R>,
    registration: RegistrationView<C, R>,
    event: RegistrationEvent,
)
    requires
        event.follows(registration.step),
    ensures
        ({
            let (after, progress) = schema::registration_step(schema, registration, event);
            match progress {
                Ok(None) => event matches RegistrationEvent::ProviderLoaded(Ok(provider)) && after
                    == schema.with_table(registration.table.ident.name, provider),
                _ => after == schema,
            }
        }),
{
}

/// The catalog is asked to create a table only once a scan has shown no rows in
/// it, and the provider is loaded only once the table is created. The table, its
/// catalog and its runtime stay what they were throughout.
pub proof fn law_registration_order<C: ?Sized, R: ?Sized>(
    schema: SchemaView<C, R>,
    registration: RegistrationView<C, R>,
    event: RegistrationEvent,
)
    requires
        event.follows(registration.step),
    ensures
        schema::registration_step(schema, registration, event).1 matches Ok(Some(next)) ==> {
            &&& next.table == registration.table
            &&& next.step == RegistrationStep::CheckEmpty ==> registration.step
                == RegistrationStep::ConvertSchema
            &&& next.step == RegistrationStep::CreateTable ==> registration.step
                == RegistrationStep::CheckEmpty && (event matches RegistrationEvent::Scanned(scan)
                && scan.objection() is None && !scan.shows_rows())
            &&& next.step == RegistrationStep::LoadProvider ==> registration.step
                == RegistrationStep::CreateTable && event is TableCreated
        },
{
}

/// What a registration and the schema come to by these events in turn.
pub open spec fn registration_run<C: ?Sized, R: ?Sized>(
    schema: SchemaView<C, R>,
    registration: RegistrationView<C, R>,
    events: Seq<RegistrationEvent>,
) -> (SchemaView<C, R>, Result<Option<RegistrationView<C, R>>, DataFusionErrorView>)
    decreases events.len(),
{
    if events.len() == 0 {
        (schema, Ok(Some(registration)))
    } else {
        match schema::registration_step(schema, registration, events[0]) {
            (after, Ok(Some(next))) => registration_run(after, next, events.drop_first()),
            ended => ended,
        }
    }
}

/// The registration of `name` of which nothing is done yet.
pub open spec fn registration_of<C: ?Sized, R: ?Sized>(
    schema: SchemaView<C, R>,
    name: Seq<char>,
) -> RegistrationView<C, R> {
    RegistrationView { table: schema.request(name), step: RegistrationStep::ConvertSchema }
}

/// A table in which a scan shows no rows is registered, if the catalog takes it.
pub proof fn law_empty_tables_are_registered<C: ?Sized, R: ?Sized>(
    schema: SchemaView<C, R>,
    name: Seq<char>,
    scan: TableScan,
    provider: u64,
)
    requires
        scan.objection() is None,
    ensures
        registration_run(
            schema,
            registration_of(schema, name),
            seq![
                RegistrationEvent::SchemaConverted(Ok(())),
                RegistrationEvent::Scanned(scan),
                RegistrationEvent::TableCreated(Ok(())),
                RegistrationEvent::ProviderLoaded(Ok(provider)),
            ],
        ) == (
            schema.with_table(name, provider),
            Ok::<Option<RegistrationView<C, R>>, DataFusionErrorView>(None),
        ),
{
    reveal_with_fuel(registration_run, 5);
}

/// A table in which a scan shows rows is refused, and the schema stays as it is,
/// before the catalog is asked for anything.
pub proof fn law_tables_with_rows_are_refused<C: ?Sized, R: ?Sized>(
    schema: SchemaView<C, R>,
    name: Seq<char>,
    scan: TableScan,
)
    requires
        scan.shows_rows(),
    ensures
        registration_run(
            schema,
            registration_of(schema, name),
            seq![RegistrationEvent::SchemaConverted(Ok(())), RegistrationEvent::Scanned(scan)],
        ) == (
            schema,
            Err::<Option<RegistrationView<C, R>>, _>(
                DataFusionErrorView::External(
                    registration::unexpected("register_table does not support tables with data."@),
                ),
            ),
        ),
{
    reveal_with_fuel(registration_run, 3);
}

/// A schema as it was found holds the tables that were listed, each with the
/// provider that was loaded for it last, and the views that were listed, none of
/// them planned.
pub proof fn law_discovered_schema<C: ?Sized, R: ?Sized>(
    discovery: DiscoveryView<C, R>,
    providers: Vec<u64>,
    i: int,
)
    requires
        discovery.step == DiscoveryStep::LoadProviders,
        providers@.len() == discovery.tables.len(),
        0 <= i < discovery.tables.len(),
        forall|j: int| i < j < discovery.tables.len() ==> discovery.tables[j] != discovery.tables[i],
    ensures
        discovery::discovery_step(discovery, DiscoveryEvent::ProvidersLoaded(Ok(providers))) matches Ok(
            DiscoveryProgressView::Ready(schema),
        ) && {
            &&& schema.namespace == discovery.namespace
            &&& schema.tables.dom() == discovery.tables.to_set()
            &&& schema.tables[discovery.tables[i]] == providers@[i]
            &&& schema.views.dom() == discovery.views.to_set()
            &&& forall|name: Seq<char>| #[trigger]
                schema.views.contains_key(name) ==> schema.views[name] is None
        },
{
    text::law_bound(discovery.tables, providers@);
    text::law_bound_last(discovery.tables, providers@, i);
}

/// A catalog that does not support views has a schema without views; any other
/// refusal ends the discovery.
pub proof fn law_unsupported_views<C: ?Sized, R: ?Sized>(
    discovery: DiscoveryView<C, R>,
    error: Error,
)
    requires
        discovery.step == DiscoveryStep::ListViews,
    ensures
        match discovery::discovery_step(discovery, DiscoveryEvent::ViewsListed(Err(error))) {
            Ok(DiscoveryProgressView::Continue(next)) => {
                &&& error.kind == ErrorKind::FeatureUnsupported
                &&& next.views.len() == 0
                &&& next.tables == discovery.tables
                &&& next.step == DiscoveryStep::LoadProviders
            },
            Ok(DiscoveryProgressView::Ready(_)) => false,
            Err(refusal) => error.kind != ErrorKind::FeatureUnsupported && refusal == error@,
        },
{
}

/// Every table provider of a schema is loaded from the catalog that the schema
/// was found in, and works on the runtime that was chosen then: those of the
/// discovery as well as those of later registrations.
pub proof fn law_catalog_and_runtime_are_propagated<C: ?Sized, R: ?Sized>(
    discovery: DiscoveryView<C, R>,
    event: DiscoveryEvent,
    name: Seq<char>,
)
    ensures
        match discovery::discovery_step(discovery, event) {
            Ok(DiscoveryProgressView::Continue(next)) => {
                &&& next.catalog == discovery.catalog
                &&& next.runtime == discovery.runtime
                &&& next.namespace == discovery.namespace
            },
            Ok(DiscoveryProgressView::Ready(schema)) => {
                &&& schema.request(name).catalog == discovery.catalog
                &&& schema.request(name).runtime == discovery.runtime
                &&& schema.request(name).ident.namespace == discovery.namespace
            },
            Err(_) => true,
        },
        forall|i: int|
            0 <= i < discovery.tables.len() ==> {
                let request = #[trigger] discovery.requests()[i];
                &&& request.catalog == discovery.catalog
                &&& request.runtime == discovery.runtime
                &&& request.ident.namespace == discovery.namespace
                &&& request.ident.name == discovery.tables[i]
            },
{
}

/// Under a name without a `$` the table of that name is found; where there is none, the
/// view of that name, with what was planned of it or to be loaded; else nothing.
pub proof fn law_plain_names<C: ?Sized, R: ?Sized>(schema: SchemaView<C, R>, name: Seq<char>)
    requires
        !name.contains('$'),
    ensures
        schema.has_table(name) <==> schema.tables.contains_key(name) || schema.views.contains_key(
            name,
        ),
        schema.lookup(name) == Ok::<_, DataFusionErrorView>(
            if schema.tables.contains_key(name) {
                LookupView::Table(schema.tables[name])
            } else if schema.views.contains_key(name) {
                match schema.views[name] {
                    Some(provider) => LookupView::View(provider),
                    None => LookupView::LoadView(
                        TableIdentView { namespace: schema.namespace, name },
                    ),
                }
            } else {
                LookupView::Missing
            },
        ),
        schema.has_view(name) <==> schema.views.contains_key(name),
{
    text::lemma_split_absent(name, '$');
}

/// A name with a `$` is that of a metadata table of the table before the first `$`,
/// whatever else bears it: of the snapshots or the manifests, and of nothing else.
pub proof fn law_names_of_metadata_tables<C: ?Sized, R: ?Sized>(
    schema: SchemaView<C, R>,
    table: Seq<char>,
    metadata: Seq<char>,
)
    requires
        !table.contains('$'),
    ensures
        ({
            let name = table + seq!['$'] + metadata;
            let held = schema.tables.contains_key(table);
            let found = |which: MetadataTableType|
                Ok::<_, DataFusionErrorView>(
                    if held {
                        LookupView::Metadata { table: schema.tables[table], metadata: which }
                    } else {
                        LookupView::Missing
                    },
                );
            &&& schema.has_table(name) <==> held && (metadata == "snapshots"@ || metadata
                == "manifests"@)
            &&& metadata == "snapshots"@ ==> schema.lookup(name) == found(
                MetadataTableType::Snapshots,
            )
            &&& metadata == "manifests"@ ==> schema.lookup(name) == found(
                MetadataTableType::Manifests,
            )
            &&& metadata != "snapshots"@ && metadata != "manifests"@ ==> schema.lookup(name)
                == Err::<LookupView, _>(
                DataFusionErrorView::Plan("invalid metadata table type: "@ + metadata),
            )
        }),
{
    text::lemma_split_joined(table, '$', metadata);
    metadata_table::law_metadata_tables(metadata);
}

/// The names listed are those of the views, and of the tables, each with its snapshots
/// and its manifests.
pub proof fn law_listed_names<C: ?Sized, R: ?Sized>(schema: SchemaView<C, R>, name: Seq<char>)
    ensures
        schema.lists(name) <==> schema.views.contains_key(name) || exists|table: Seq<char>|
            #[trigger] schema.tables.contains_key(table) && (name == table || name == table
                + "$snapshots"@ || name == table + "$manifests"@),
{
    reveal_strlit("$");
    reveal_strlit("snapshots");
    reveal_strlit("manifests");
    reveal_strlit("$snapshots");
    reveal_strlit("$manifests");
    assert forall|table: Seq<char>| #[trigger]
        schema.tables.contains_key(table) implies (schema::names_of_table(table).contains(name)
        <==> (name == table || name == table + "$snapshots"@ || name == table + "$manifests"@)) by {
        let snapshots = schema::metadata_table_name(table, MetadataTableType::Snapshots);
        let manifests = schema::metadata_table_name(table, MetadataTableType::Manifests);
        assert(snapshots =~= table + "$snapshots"@);
        assert(manifests =~= table + "$manifests"@);
        if schema::names_of_table(table).contains(name) && name != table {
            let metadata = choose|metadata: MetadataTableType|
                name == #[trigger] schema::metadata_table_name(table, metadata);
            assert(metadata == MetadataTableType::Snapshots || metadata
                == MetadataTableType::Manifests);
        }
    }
    if schema.lists(name) && !schema.views.contains_key(name) {
        let table = choose|table: Seq<char>| #[trigger]
            schema.tables.contains_key(table) && schema::names_of_table(table).contains(name);
        assert(schema.tables.contains_key(table) && (name == table || name == table + "$snapshots"@
            || name == table + "$manifests"@));
    }
    if exists|table: Seq<char>| #[trigger]
        schema.tables.contains_key(table) && (name == table || name == table + "$snapshots"@ || name
            == table + "$manifests"@) {
        let table = choose|table: Seq<char>| #[trigger]
            schema.tables.contains_key(table) && (name == table || name == table + "$snapshots"@
                || name == table + "$manifests"@);
        assert(schema.tables.contains_key(table) && schema::names_of_table(table).contains(name));
    }
}

/// A table added is there with its provider, one taken out is gone, and a view of the
/// schema that is planned has its provider. Every other table and view stays as it was,
/// and so do the namespace, the catalog and the runtime.
pub proof fn law_changes_touch_one_name<C: ?Sized, R: ?Sized>(
    schema: SchemaView<C, R>,
    name: Seq<char>,
    provider: u64,
)
    ensures
        ({
            let with = schema.with_table(name, provider);
            let without = schema.without_table(name);
            &&& with.tables == schema.tables.insert(name, provider)
            &&& without.tables == schema.tables.remove(name)
            &&& with.views == schema.views && without.views == schema.views
            &&& with.namespace == schema.namespace && without.namespace == schema.namespace
            &&& with.catalog == schema.catalog && without.catalog == schema.catalog
            &&& with.runtime == schema.runtime && without.runtime == schema.runtime
        }),
        ({
            let planned = schema.with_view(name, provider);
            &&& planned.views == if schema.views.contains_key(name) {
                schema.views.insert(name, Some(provider))
            } else {
                schema.views
            }
            &&& planned.tables == schema.tables
            &&& planned.namespace == schema.namespace
            &&& planned.catalog == schema.catalog
            &&& planned.runtime == schema.runtime
        }),
{
}

/// A table of a schema is one of its namespace, and its provider is on the schema's
/// catalog and runtime.
pub proof fn law_tables_belong_to_the_namespace<C: ?Sized, R: ?Sized>(
    schema: SchemaView<C, R>,
    name: Seq<char>,
)
    ensures
        schema.ident(name) == (TableIdentView { namespace: schema.namespace, name }),
        schema.request(name).ident == (TableIdentView { namespace: schema.namespace, name }),
        schema.request(name).catalog == schema.catalog,
        schema.request(name).runtime == schema.runtime,
{
}

/// A step that was done leads to the next: the schema converted to the scan, a scan
/// without objection to the creation, the creation to the provider, and the provider to
/// the end, with the table in the schema.
pub proof fn law_done_steps_lead_on<C: ?Sized, R: ?Sized>(
    schema: SchemaView<C, R>,
    registration: RegistrationView<C, R>,
    batches: Vec<Result<usize, String>>,
    provider: u64,
)
    ensures
        ({
            let at = |step: RegistrationStep|
                (
                    schema,
                    Ok::<_, DataFusionErrorView>(
                        Some(RegistrationView { table: registration.table, step }),
                    ),
                );
            &&& schema::registration_step(
                schema,
                registration,
                RegistrationEvent::SchemaConverted(Ok(())),
            ) == at(RegistrationStep::CheckEmpty)
            &&& (forall|i: int|
                0 <= i < batches@.len() ==> #[trigger] batches@[i] == Ok::<usize, String>(0)
                    || batches@[i] is Err) ==> schema::registration_step(
                schema,
                registration,
                RegistrationEvent::Scanned(TableScan::Batches(batches)),
            ) == at(RegistrationStep::CreateTable)
            &&& schema::registration_step(
                schema,
                registration,
                RegistrationEvent::TableCreated(Ok(())),
            ) == at(RegistrationStep::LoadProvider)
            &&& schema::registration_step(
                schema,
                registration,
                RegistrationEvent::ProviderLoaded(Ok(provider)),
            ) == (
                SchemaView {
                    tables: schema.tables.insert(registration.table.ident.name, provider),
                    ..schema
                },
                Ok::<Option<RegistrationView<C, R>>, DataFusionErrorView>(None),
            )
        }),
{
    if forall|i: int|
        0 <= i < batches@.len() ==> #[trigger] batches@[i] == Ok::<usize, String>(0)
            || batches@[i] is Err {
        registration::law_empty_batches_pass(batches);
    }
}

/// A step that failed ends the registration with its error, whatever its kind, and the
/// schema stays as it is: a refusal as the catalog's error, a scan that could not be
/// planned or started with its reason, a lost task as a failed creation.
pub proof fn law_failed_steps_end_a_registration<C: ?Sized, R: ?Sized>(
    schema: SchemaView<C, R>,
    registration: RegistrationView<C, R>,
    error: Error,
    reason: String,
)
    ensures
        ({
            let refused = (
                schema,
                Err::<Option<RegistrationView<C, R>>, _>(
                    DataFusionErrorView::External(
                        ErrorView { kind: error.kind, message: error.message@ },
                    ),
                ),
            );
            let unexpected = |message: Seq<char>|
                (
                    schema,
                    Err::<Option<RegistrationView<C, R>>, _>(
                        DataFusionErrorView::External(
                            ErrorView { kind: ErrorKind::Unexpected, message },
                        ),
                    ),
                );
            let after = |event: RegistrationEvent|
                schema::registration_step(schema, registration, event);
            &&& after(RegistrationEvent::SchemaConverted(Err(error))) == refused
            &&& after(RegistrationEvent::TableCreated(Err(error))) == refused
            &&& after(RegistrationEvent::ProviderLoaded(Err(error))) == refused
            &&& after(RegistrationEvent::Scanned(TableScan::ScanFailed(reason))) == unexpected(
                "Failed to scan table: "@ + reason@,
            )
            &&& after(RegistrationEvent::Scanned(TableScan::ExecutionFailed(reason)))
                == unexpected("Failed to execute scan: "@ + reason@)
            &&& after(RegistrationEvent::TaskFailed(reason)) == (
                schema,
                Err::<Option<RegistrationView<C, R>>, _>(
                    DataFusionErrorView::Execution("Failed to create Iceberg table: "@ + reason@),
                ),
            )
        }),
{
    registration::law_failed_scans_are_refused(reason);
}

/// A table in which any batch has rows is not registered, wherever the batch stands.
pub proof fn law_rows_end_a_registration<C: ?Sized, R: ?Sized>(
    schema: SchemaView<C, R>,
    registration: RegistrationView<C, R>,
    batches: Vec<Result<usize, String>>,
    i: int,
    rows: usize,
)
    requires
        0 <= i < batches@.len(),
        batches@[i] == Ok::<usize, String>(rows),
        rows > 0,
    ensures
        schema::registration_step(
            schema,
            registration,
            RegistrationEvent::Scanned(TableScan::Batches(batches)),
        ) == (
            schema,
            Err::<Option<RegistrationView<C, R>>, _>(
                DataFusionErrorView::External(
                    ErrorView {
                        kind: ErrorKind::Unexpected,
                        message: "register_table does not support tables with data."@,
                    },
                ),
            ),
        ),
{
    registration::law_rows_anywhere_are_refused(batches, i, rows);
}

/// An answer says what was found, with its number or its name, or why nothing can be.
pub proof fn law_answers_say_all(
    provider: u64,
    metadata: MetadataTableType,
    ident: TableIdent,
    error: DataFusionError,
)
    ensures
        ({
            let ok = |found: LookupView| Ok::<_, DataFusionErrorView>(found);
            &&& schema::answer_view(Ok(TableLookup::Missing)) == ok(LookupView::Missing)
            &&& schema::answer_view(Ok(TableLookup::Table(provider))) == ok(
                LookupView::Table(provider),
            )
            &&& schema::answer_view(Ok(TableLookup::View(provider))) == ok(
                LookupView::View(provider),
            )
            &&& schema::answer_view(Ok(TableLookup::Metadata { table: provider, metadata })) == ok(
                LookupView::Metadata { table: provider, metadata },
            )
            &&& schema::answer_view(Ok(TableLookup::LoadView(ident))) == ok(
                LookupView::LoadView(
                    TableIdentView { namespace: ident.namespace@, name: ident.name@ },
                ),
            )
            &&& schema::answer_view(Err(error)) == Err::<LookupView, _>(error@)
        }),
{
}

/// What a registration comes to says the registration that goes on, that there is
/// nothing more to do, or the error.
pub proof fn law_progress_says_all<C: ?Sized, R: ?Sized>(
    registration: Registration<C, R>,
    error: DataFusionError,
)
    ensures
        schema::progress_view(Ok(Some(registration))) == Ok::<_, DataFusionErrorView>(
            Some(registration@),
        ),
        schema::progress_view(Ok(None::<Registration<C, R>>)) == Ok::<_, DataFusionErrorView>(
            None::<RegistrationView<C, R>>,
        ),
        schema::progress_view(Err::<Option<Registration<C, R>>, _>(error)) == Err::<
            Option<RegistrationView<C, R>>,
            _,
        >(error@),
{
}

/// A schema is plainly named exactly if no table and no view of it has a `$` in its name.
pub proof fn law_plainly_named<C: ?Sized, R: ?Sized>(schema: SchemaView<C, R>)
    ensures
        schema.plainly_named() <==> forall|name: Seq<char>|
            #![trigger schema.tables.contains_key(name)]
            #![trigger schema.views.contains_key(name)]
            schema.tables.contains_key(name) || schema.views.contains_key(name) ==> !name.contains(
                '$',
            ),
{
}

} // verus!
