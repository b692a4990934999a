//! The tables and views of one namespace, as the query engine sees them.
use std::sync::Arc;

use dashmap::DashMap;
use vstd::prelude::*;

use crate::error::{to_datafusion_error, DataFusionError, DataFusionErrorView};
use crate::ident::{NamespaceIdent, TableIdent, TableIdentView};
use crate::known_views;
use crate::known_views::KnownViews;
use crate::metadata_table;
use crate::metadata_table::MetadataTableType;
use crate::provider_map;
use crate::provider_request;
use crate::provider_request::{RequestView, TableProviderRequest};
use crate::registration::{
    ensure_table_is_empty, DropOutcome, Registration, RegistrationEvent, RegistrationStep,
    RegistrationView,
};
use crate::string_map::StringMap;
use crate::text;

verus! {

/// What a schema provider holds.
#[verifier::ext_equal]
pub struct SchemaView<C: ?Sized, R: ?Sized> {
    /// The catalog that the namespace belongs to.
    pub catalog: Arc<C>,
    /// The runtime that the table providers work on, where one was chosen.
    pub runtime: Option<Arc<R>>,
    /// The namespace that the schema stands for.
    pub namespace: Seq<Seq<char>>,
    /// The tables, each with the provider that reads it.
    pub tables: Map<Seq<char>, u64>,
    /// The views, each with the provider that reads it once it is planned.
    pub views: Map<Seq<char>, Option<u64>>,
}

impl<C: ?Sized, R: ?Sized> SchemaView<C, R> {
    /// No table or view has a name that reads as that of a metadata table.
    pub open spec fn plainly_named(self) -> bool {
        &&& forall|name: Seq<char>| #[trigger]
            self.tables.contains_key(name) ==> !name.contains('$')
        &&& forall|name: Seq<char>| #[trigger]
            self.views.contains_key(name) ==> !name.contains('$')
    }

    /// The name is that of a view.
    pub open spec fn has_view(self, name: Seq<char>) -> bool {
        self.views.contains_key(name)
    }

    /// The name can be read from: it is that of a table, of a view, or of a
    /// metadata table of a table.
    pub open spec fn has_table(self, name: Seq<char>) -> bool {
        match text::split_at_first(name, '$') {
            Some((table, metadata)) => {
                &&& self.tables.contains_key(table)
                &&& metadata_table::metadata_table_named(metadata) is Some
            },
            None => self.tables.contains_key(name) || self.has_view(name),
        }
    }

    /// The name is among those that the schema lists.
    pub open spec fn lists(self, name: Seq<char>) -> bool {
        ||| self.has_view(name)
        ||| exists|table: Seq<char>| #[trigger]
            self.tables.contains_key(table) && names_of_table(table).contains(name)
    }

    /// The schema with a table added, or its provider replaced.
    pub open spec fn with_table(self, name: Seq<char>, provider: u64) -> Self {
        SchemaView { tables: self.tables.insert(name, provider), ..self }
    }

    /// The schema with a table taken out.
    pub open spec fn without_table(self, name: Seq<char>) -> Self {
        SchemaView { tables: self.tables.remove(name), ..self }
    }

    /// The schema with a view planned. Only a view of the schema can be.
    pub open spec fn with_view(self, name: Seq<char>, provider: u64) -> Self {
        if self.has_view(name) {
            SchemaView { views: self.views.insert(name, Some(provider)), ..self }
        } else {
            self
        }
    }

    /// The table `name` of this schema's namespace.
    pub open spec fn ident(self, name: Seq<char>) -> TableIdentView {
        TableIdentView { namespace: self.namespace, name }
    }

    /// The provider of the table `name`: on this schema's catalog and runtime.
    pub open spec fn request(self, name: Seq<char>) -> RequestView<C, R> {
        RequestView { catalog: self.catalog, ident: self.ident(name), runtime: self.runtime }
    }
}

/// The name under which a metadata table of `table` is read.
pub open spec fn metadata_table_name(table: Seq<char>, metadata: MetadataTableType) -> Seq<char> {
    table + "$"@ + metadata.name()
}

/// The names under which a table and its metadata tables are listed.
pub open spec fn names_of_table(table: Seq<char>) -> Set<Seq<char>> {
    Set::new(
        |name: Seq<char>|
            name == table || exists|metadata: MetadataTableType|
                name == #[trigger] metadata_table_name(table, metadata),
    )
}

/// What has to be done to answer for a name.
#[derive(Debug)]
pub enum TableLookup {
    /// Nothing has this name.
    Missing,
    /// A table, by its provider.
    Table(u64),
    /// A planned view, by its provider.
    View(u64),
    /// A metadata table, which the table's provider has to load.
    Metadata {
        /// The table's provider.
        table: u64,
        /// Which of its metadata tables.
        metadata: MetadataTableType,
    },
    /// A view that has to be loaded and planned.
    LoadView(TableIdent),
}

/// What a lookup finds.
pub enum LookupView {
    Missing,
    Table(u64),
    View(u64),
    Metadata { table: u64, metadata: MetadataTableType },
    LoadView(TableIdentView),
}

impl<C: ?Sized, R: ?Sized> SchemaView<C, R> {
    /// What is found under `name`.
    pub open spec fn lookup(self, name: Seq<char>) -> Result<LookupView, DataFusionErrorView> {
        match text::split_at_first(name, '$') {
            Some((table, metadata_name)) => match metadata_table::metadata_table_named(
                metadata_name,
            ) {
                None => Err(
                    DataFusionErrorView::Plan(metadata_table::unknown_metadata_table(metadata_name)),
                ),
                Some(metadata) => if self.tables.contains_key(table) {
                    Ok(LookupView::Metadata { table: self.tables[table], metadata })
                } else {
                    Ok(LookupView::Missing)
                },
            },
            None => if self.tables.contains_key(name) {
                Ok(LookupView::Table(self.tables[name]))
            } else if self.has_view(name) {
                match self.views[name] {
                    Some(provider) => Ok(LookupView::View(provider)),
                    None => Ok(LookupView::LoadView(self.ident(name))),
                }
            } else {
                Ok(LookupView::Missing)
            },
        }
    }
}

/// What the answer to a lookup says.
pub open spec fn answer_view(answer: Result<TableLookup, DataFusionError>) -> Result<
    LookupView,
    DataFusionErrorView,
> {
    match answer {
        Ok(TableLookup::Missing) => Ok(LookupView::Missing),
        Ok(TableLookup::Table(provider)) => Ok(LookupView::Table(provider)),
        Ok(TableLookup::View(provider)) => Ok(LookupView::View(provider)),
        Ok(TableLookup::Metadata { table, metadata }) => Ok(
            LookupView::Metadata { table, metadata },
        ),
        Ok(TableLookup::LoadView(ident)) => Ok(LookupView::LoadView(ident@)),
        Err(error) => Err(error@),
    }
}

/// What a registration comes to after a step.
pub open spec fn progress_view<C: ?Sized, R: ?Sized>(
    progress: Result<Option<Registration<C, R>>, DataFusionError>,
) -> Result<Option<RegistrationView<C, R>>, DataFusionErrorView> {
    match progress {
        Ok(Some(registration)) => Ok(Some(registration@)),
        Ok(None) => Ok(None),
        Err(error) => Err(error@),
    }
}

/// The registration goes on with `step`.
pub open spec fn go_on<C: ?Sized, R: ?Sized>(
    registration: RegistrationView<C, R>,
    step: RegistrationStep,
) -> Result<Option<RegistrationView<C, R>>, DataFusionErrorView> {
    Ok(Some(RegistrationView { step, ..registration }))
}

/// What a registration and the schema come to by `event`.
pub open spec fn registration_step<C: ?Sized, R: ?Sized>(
    schema: SchemaView<C, R>,
    registration: RegistrationView<C, R>,
    event: RegistrationEvent,
) -> (SchemaView<C, R>, Result<Option<RegistrationView<C, R>>, DataFusionErrorView>) {
    match event {
        RegistrationEvent::SchemaConverted(Ok(())) => (
            schema,
            go_on(registration, RegistrationStep::CheckEmpty),
        ),
        RegistrationEvent::Scanned(scan) => match scan.objection() {
            None => (schema, go_on(registration, RegistrationStep::CreateTable)),
            Some(error) => (schema, Err(DataFusionErrorView::External(error))),
        },
        RegistrationEvent::TableCreated(Ok(())) => (
            schema,
            go_on(registration, RegistrationStep::LoadProvider),
        ),
        RegistrationEvent::ProviderLoaded(Ok(provider)) => (
            schema.with_table(registration.table.ident.name, provider),
            Ok(None),
        ),
        RegistrationEvent::SchemaConverted(Err(error))
        | RegistrationEvent::TableCreated(Err(error))
        | RegistrationEvent::ProviderLoaded(Err(error)) => (
            schema,
            Err(DataFusionErrorView::External(error@)),
        ),
        RegistrationEvent::TaskFailed(reason) => (
            schema,
            Err(DataFusionErrorView::Execution("Failed to create Iceberg table: "@ + reason@)),
        ),
    }
}

/// The tables and views of one namespace.
///
/// A provider of a table or view is known here by a number that the caller
/// chose for it.
pub struct IcebergSchemaProvider<C: ?Sized, R: ?Sized> {
    catalog: Arc<C>,
    namespace: NamespaceIdent,
    tables: DashMap<String, u64>,
    views: KnownViews,
    runtime: Option<Arc<R>>,
}

impl<C: ?Sized, R: ?Sized> View for IcebergSchemaProvider<C, R> {
    type V = SchemaView<C, R>;

    closed spec fn view(&self) -> SchemaView<C, R> {
        SchemaView {
            catalog: self.catalog,
            runtime: self.runtime,
            namespace: self.namespace@,
            tables: provider_map::provider_entries(self.tables),
            views: self.views@,
        }
    }
}

/// Adds the names of a table and of its metadata tables.
fn list_table(names: &mut StringMap<()>, table: &String)
    ensures
        final(names)@.dom() == old(names)@.dom().union(names_of_table(table@)),
{
    names.insert(table.clone(), ());
    let types: Vec<MetadataTableType> = MetadataTableType::all_types();
    let ghost start = names@.dom();
    let mut i: usize = 0;
    while i < types.len()
        invariant
            types@ == seq![MetadataTableType::Snapshots, MetadataTableType::Manifests],
            i <= types.len(),
            forall|name: Seq<char>| #[trigger]
                names@.dom().contains(name) <==> start.contains(name) || exists|j: int|
                    0 <= j < i && name == #[trigger] metadata_table_name(table@, types@[j]),
        decreases types.len() - i,
    {
        let name: String = text::glue(table.as_str(), "$", types[i].as_str());
        assert(name@ == metadata_table_name(table@, types@[i as int]));
        let ghost before = names@.dom();
        names.insert(name, ());
        proof {
            assert(names@.dom() =~= before.insert(name@));
            assert forall|n: Seq<char>| #[trigger]
                names@.dom().contains(n) <==> start.contains(n) || exists|j: int|
                    0 <= j < i + 1 && n == #[trigger] metadata_table_name(table@, types@[j]) by {
                if n == name@ {
                    assert(n == metadata_table_name(table@, types@[i as int]));
                }
            }
        }
        i = i + 1;
    }
    proof {
        let expected = old(names)@.dom().union(names_of_table(table@));
        assert forall|n: Seq<char>| #[trigger]
            names@.dom().contains(n) == expected.contains(n) by {
            if names_of_table(table@).contains(n) && n != table@ {
                let metadata = choose|metadata: MetadataTableType|
                    n == #[trigger] metadata_table_name(table@, metadata);
                assert(types@[0] == MetadataTableType::Snapshots);
                assert(types@[1] == MetadataTableType::Manifests);
                let j: int = if metadata == MetadataTableType::Snapshots {
                    0
                } else {
                    1
                };
                assert(n == metadata_table_name(table@, types@[j]));
            }
        }
        assert(names@.dom() =~= expected);
    }
}

impl<C: ?Sized, R: ?Sized> IcebergSchemaProvider<C, R> {
    /// The schema of `namespace` with these tables, each read by the provider
    /// at the same place, and with these views, none of them planned.
    pub(crate) fn with_contents(
        catalog: Arc<C>,
        runtime: Option<Arc<R>>,
        namespace: NamespaceIdent,
        tables: Vec<String>,
        providers: Vec<u64>,
        views: Vec<String>,
    ) -> (res: Self)
        ensures
            res@ == (SchemaView {
                catalog,
                runtime,
                namespace: namespace@,
                tables: text::bound(text::texts(tables@), providers@),
                views: known_views::unplanned(text::texts(views@).to_set()),
            }),
    {
        let ghost names = text::texts(tables@);
        let mut bound: DashMap<String, u64> = provider_map::no_providers();
        assert(provider_map::provider_entries(bound) =~= Map::empty());
        let mut i: usize = 0;
        while i < tables.len() && i < providers.len()
            invariant
                names == text::texts(tables@),
                i <= tables.len(),
                i <= providers.len(),
                provider_map::provider_entries(bound) == text::bound_first(
                    names,
                    providers@,
                    i as nat,
                ),
            decreases tables.len() - i,
        {
            provider_map::insert_provider(&mut bound, tables[i].clone(), providers[i]);
            i = i + 1;
        }
        IcebergSchemaProvider {
            catalog,
            namespace,
            tables: bound,
            views: KnownViews::new(views),
            runtime,
        }
    }

    /// The catalog that the namespace belongs to.
    pub fn catalog(&self) -> (res: &Arc<C>)
        ensures
            *res == self@.catalog,
    {
        &self.catalog
    }

    /// The runtime that the table providers work on, where one was chosen.
    pub fn runtime(&self) -> (res: &Option<Arc<R>>)
        ensures
            *res == self@.runtime,
    {
        &self.runtime
    }

    /// Every name that can be read from, in ascending order: each table with
    /// its metadata tables, and each view.
    pub fn table_names(&self) -> (res: Vec<String>)
        ensures
            text::ascending(text::texts(res@)),
            forall|name: Seq<char>| #[trigger]
                text::texts(res@).to_set().contains(name) <==> self@.lists(name),
    {
        let mut names: StringMap<()> = StringMap::new();
        let tables: Vec<String> = provider_map::provider_names(&self.tables);
        let ghost table_texts = text::texts(tables@);
        let mut i: usize = 0;
        while i < tables.len()
            invariant
                i <= tables.len(),
                table_texts == text::texts(tables@),
                forall|name: Seq<char>| #[trigger]
                    names@.dom().contains(name) <==> exists|j: int|
                        0 <= j < i && names_of_table(#[trigger] table_texts[j]).contains(name),
            decreases tables.len() - i,
        {
            let ghost before = names@.dom();
            list_table(&mut names, &tables[i]);
            proof {
                assert(table_texts[i as int] == tables@[i as int]@);
                assert forall|name: Seq<char>| #[trigger]
                    names@.dom().contains(name) <==> exists|j: int|
                        0 <= j < i + 1 && names_of_table(#[trigger] table_texts[j]).contains(
                            name,
                        ) by {
                    if names_of_table(table_texts[i as int]).contains(name) {
                    }
                }
            }
            i = i + 1;
        }
        let ghost of_tables = names@.dom();
        let views: Vec<String> = self.views.names();
        let ghost view_texts = text::texts(views@);
        let mut k: usize = 0;
        while k < views.len()
            invariant
                k <= views.len(),
                view_texts == text::texts(views@),
                forall|name: Seq<char>| #[trigger]
                    names@.dom().contains(name) <==> of_tables.contains(name) || exists|j: int|
                        0 <= j < k && #[trigger] view_texts[j] == name,
            decreases views.len() - k,
        {
            let ghost before = names@.dom();
            names.insert(views[k].clone(), ());
            proof {
                assert(view_texts[k as int] == views@[k as int]@);
                assert(names@.dom() =~= before.insert(view_texts[k as int]));
                assert forall|name: Seq<char>| #[trigger]
                    names@.dom().contains(name) <==> of_tables.contains(name) || exists|j: int|
                        0 <= j < k + 1 && #[trigger] view_texts[j] == name by {
                    if name == view_texts[k as int] {
                    }
                }
            }
            k = k + 1;
        }
        let res: Vec<String> = names.keys();
        proof {
            assert forall|name: Seq<char>| #[trigger]
                text::texts(res@).to_set().contains(name) <==> self@.lists(name) by {
                if of_tables.contains(name) {
                    let j = choose|j: int|
                        0 <= j < tables@.len() && names_of_table(#[trigger] table_texts[j]).contains(
                            name,
                        );
                    assert(table_texts.to_set().contains(table_texts[j]));
                    assert(self@.tables.contains_key(table_texts[j]));
                }
                if exists|table: Seq<char>| #[trigger]
                    self@.tables.contains_key(table) && names_of_table(table).contains(name) {
                    let table = choose|table: Seq<char>| #[trigger]
                        self@.tables.contains_key(table) && names_of_table(table).contains(name);
                    assert(table_texts.to_set().contains(table));
                    let j = choose|j: int| 0 <= j < table_texts.len() && table_texts[j] == table;
                    assert(names_of_table(table_texts[j]).contains(name));
                }
                if self@.has_view(name) {
                    assert(view_texts.to_set().contains(name));
                }
                if exists|j: int| 0 <= j < view_texts.len() && #[trigger] view_texts[j] == name {
                    assert(view_texts.to_set().contains(name));
                }
            }
        }
        res
    }

    /// Whether something can be read under `name`.
    pub fn table_exist(&self, name: &str) -> (res: bool)
        ensures
            res == self@.has_table(name@),
    {
        match text::split_once(name, '$') {
            Some((table_name, metadata_table_name)) => {
                provider_map::has_provider(&self.tables, table_name)
                    && MetadataTableType::try_from(metadata_table_name).is_ok()
            },
            None => {
                provider_map::has_provider(&self.tables, name) || self.views.contains(name)
            },
        }
    }

    /// The table `name` of this namespace.
    fn ident(&self, name: &str) -> (res: TableIdent)
        ensures
            res@ == self@.ident(name@),
    {
        TableIdent::new(self.namespace.clone(), name.to_string())
    }

    /// The provider of the table `name`: on this schema's catalog and runtime.
    pub(crate) fn request(&self, name: &str) -> (res: TableProviderRequest<C, R>)
        ensures
            res@ == self@.request(name@),
    {
        TableProviderRequest {
            catalog: self.catalog.clone(),
            ident: self.ident(name),
            runtime: provider_request::share(&self.runtime),
        }
    }

    /// What is found under `name`.
    ///
    /// A name with a `$` is that of a metadata table, whatever else it could be.
    /// A table comes before a view of the same name.
    pub fn table(&self, name: &str) -> (res: Result<TableLookup, DataFusionError>)
        ensures
            answer_view(res) == self@.lookup(name@),
    {
        match text::split_once(name, '$') {
            Some((table_name, metadata_table_name)) => {
                match MetadataTableType::try_from(metadata_table_name) {
                    Err(message) => Err(DataFusionError::Plan(message)),
                    Ok(metadata) => match provider_map::get_provider(&self.tables, table_name) {
                        Some(table) => Ok(TableLookup::Metadata { table, metadata }),
                        None => Ok(TableLookup::Missing),
                    },
                }
            },
            None => {
                if let Some(provider) = provider_map::get_provider(&self.tables, name) {
                    return Ok(TableLookup::Table(provider));
                }
                if let Some(provider) = self.views.provider(name) {
                    return Ok(TableLookup::View(provider));
                }
                if self.views.contains(name) {
                    return Ok(TableLookup::LoadView(self.ident(name)));
                }
                Ok(TableLookup::Missing)
            },
        }
    }

    /// Takes note that the view `name` was planned, or hands on why not.
    ///
    /// A view that could not be planned stays known by name, and is loaded
    /// again when it is next looked up. What is no view of this schema is not
    /// kept.
    pub fn view_planned<E>(&mut self, name: &str, outcome: Result<u64, E>) -> (res: Result<u64, E>)
        ensures
            res == outcome,
            match outcome {
                Ok(provider) => final(self)@ == old(self)@.with_view(name@, provider),
                Err(_) => final(self)@ == old(self)@,
            },
    {
        match outcome {
            Ok(provider) => {
                self.views.plan(name, provider);
                Ok(provider)
            },
            Err(error) => Err(error),
        }
    }

    /// Begins to register a table under `name`, which must not be in use.
    pub fn register_table(&self, name: &str) -> (res: Result<Registration<C, R>, DataFusionError>)
        ensures
            match res {
                Ok(registration) => {
                    &&& !self@.has_table(name@)
                    &&& registration@ == (RegistrationView {
                        table: self@.request(name@),
                        step: RegistrationStep::ConvertSchema,
                    })
                },
                Err(error) => {
                    &&& self@.has_table(name@)
                    &&& error@ == DataFusionErrorView::Execution(
                        "Table "@ + name@ + " already exists"@,
                    )
                },
            },
    {
        if self.table_exist(name) {
            let message: String = text::glue("Table ", name, " already exists");
            return Err(DataFusionError::Execution(message));
        }
        Ok(Registration::begin(self.request(name)))
    }

    /// Takes a registration on by one step: what comes after `event`.
    ///
    /// There is nothing more to do when `Ok(None)` comes back: the table is
    /// registered.
    pub fn advance_registration(
        &mut self,
        registration: Registration<C, R>,
        event: RegistrationEvent,
    ) -> (res: Result<Option<Registration<C, R>>, DataFusionError>)
        requires
            event.follows(registration@.step),
        ensures
            registration_step(old(self)@, registration@, event) == (
                final(self)@,
                progress_view(res),
            ),
    {
        match event {
            RegistrationEvent::SchemaConverted(Ok(())) => Ok(
                Some(registration.at(RegistrationStep::CheckEmpty)),
            ),
            RegistrationEvent::SchemaConverted(Err(error)) => Err(to_datafusion_error(error)),
            RegistrationEvent::Scanned(scan) => match ensure_table_is_empty(&scan) {
                Ok(()) => Ok(Some(registration.at(RegistrationStep::CreateTable))),
                Err(error) => Err(to_datafusion_error(error)),
            },
            RegistrationEvent::TableCreated(Ok(())) => Ok(
                Some(registration.at(RegistrationStep::LoadProvider)),
            ),
            RegistrationEvent::TableCreated(Err(error)) => Err(to_datafusion_error(error)),
            RegistrationEvent::ProviderLoaded(Ok(provider)) => {
                let name: String = registration.table_ident().name().to_string();
                provider_map::insert_provider(&mut self.tables, name, provider);
                Ok(None)
            },
            RegistrationEvent::ProviderLoaded(Err(error)) => Err(to_datafusion_error(error)),
            RegistrationEvent::TaskFailed(reason) => {
                let mut message: String = "Failed to create Iceberg table: ".to_string();
                message.append(reason.as_str());
                Err(DataFusionError::Execution(message))
            },
        }
    }

    /// Begins to take the table `name` out: the table that the catalog has to
    /// drop, if there is one. A view cannot be taken out.
    pub fn deregister_table(&self, name: &str) -> (res: Result<Option<TableIdent>, DataFusionError>)
        ensures
            match res {
                Ok(Some(ident)) => {
                    &&& self@.tables.contains_key(name@)
                    &&& ident@ == self@.ident(name@)
                },
                Ok(None) => !self@.tables.contains_key(name@) && !self@.has_view(name@),
                Err(error) => {
                    &&& !self@.tables.contains_key(name@)
                    &&& self@.has_view(name@)
                    &&& error@ == DataFusionErrorView::Execution(
                        "Dropping Iceberg view "@ + name@ + " is not supported"@,
                    )
                },
            },
    {
        if !provider_map::has_provider(&self.tables, name) {
            if self.views.contains(name) {
                let message: String = text::glue(
                    "Dropping Iceberg view ",
                    name,
                    " is not supported",
                );
                return Err(DataFusionError::Execution(message));
            }
            return Ok(None);
        }
        Ok(Some(self.ident(name)))
    }

    /// Takes the table `name` out once the catalog has dropped it, and gives
    /// back the provider that read it.
    pub fn table_dropped(&mut self, name: &str, outcome: DropOutcome) -> (res: Result<
        Option<u64>,
        DataFusionError,
    >)
        ensures
            match outcome {
                DropOutcome::Dropped => {
                    &&& final(self)@ == old(self)@.without_table(name@)
                    &&& res == Ok::<_, DataFusionError>(
                        if old(self)@.tables.contains_key(name@) {
                            Some(old(self)@.tables[name@])
                        } else {
                            None
                        },
                    )
                },
                DropOutcome::Refused(error) => {
                    &&& final(self)@ == old(self)@
                    &&& res == Err::<Option<u64>, _>(DataFusionError::External(error))
                },
                DropOutcome::TaskFailed(reason) => {
                    &&& final(self)@ == old(self)@
                    &&& res matches Err(error)
                    &&& error@ == DataFusionErrorView::Execution(
                        "Failed to drop Iceberg table: "@ + reason@,
                    )
                },
            },
    {
        match outcome {
            DropOutcome::Dropped => Ok(provider_map::remove_provider(&mut self.tables, name)),
            DropOutcome::Refused(error) => Err(to_datafusion_error(error)),
            DropOutcome::TaskFailed(reason) => {
                let mut message: String = "Failed to drop Iceberg table: ".to_string();
                message.append(reason.as_str());
                Err(DataFusionError::Execution(message))
            },
        }
    }
}

} // verus!
