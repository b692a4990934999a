//! Resolving the tables that one query refers to.
use std::sync::Arc;

use vstd::prelude::*;

use crate::error::{to_datafusion_error, DataFusionError, DataFusionErrorView, Error};
use crate::ident::{NamespaceIdent, TableIdent, TableIdentView};
use crate::metadata_table;
use crate::metadata_table::MetadataTableType;
use crate::options::{ContextView, SessionContext};
use crate::references;
use crate::references::{SessionConfig, TableReference, Wanted, WantedTable};
use crate::string_map::StringMap;
use crate::text;

verus! {

/// A table to be loaded under a context.
pub struct TableLoad<S: ?Sized> {
    /// The catalog to load the table from.
    pub catalog: Arc<S>,
    /// The context to load it under.
    pub context: Arc<SessionContext>,
    /// The table.
    pub ident: TableIdent,
    /// The metadata table to take of it, if the table itself is not meant.
    pub metadata: Option<MetadataTableType>,
}

/// What a [`TableLoad`] says.
pub struct LoadView<S: ?Sized> {
    pub catalog: Arc<S>,
    pub context: ContextView,
    pub ident: TableIdentView,
    pub metadata: Option<MetadataTableType>,
}

impl<S: ?Sized> View for TableLoad<S> {
    type V = LoadView<S>;

    open spec fn view(&self) -> LoadView<S> {
        LoadView {
            catalog: self.catalog,
            context: self.context@,
            ident: self.ident@,
            metadata: self.metadata,
        }
    }
}

/// What is loaded for `name` of `namespace`: of a name with a `$` the table that
/// stands before it, for the metadata table that stands behind it.
pub open spec fn load_plan<S: ?Sized>(
    catalog: Arc<S>,
    context: ContextView,
    namespace: Seq<Seq<char>>,
    name: Seq<char>,
) -> Result<LoadView<S>, DataFusionErrorView> {
    match text::split_at_first(name, '$') {
        Some((table, metadata_name)) => match metadata_table::metadata_table_named(metadata_name) {
            Some(metadata) => Ok(
                LoadView {
                    catalog,
                    context,
                    ident: TableIdentView { namespace, name: table },
                    metadata: Some(metadata),
                },
            ),
            None => Err(
                DataFusionErrorView::Plan(metadata_table::unknown_metadata_table(metadata_name)),
            ),
        },
        None => Ok(
            LoadView {
                catalog,
                context,
                ident: TableIdentView { namespace, name },
                metadata: None,
            },
        ),
    }
}

/// What has to be loaded for `name` of `namespace`.
pub fn load_table_provider<S: ?Sized>(
    catalog: Arc<S>,
    context: Arc<SessionContext>,
    namespace: NamespaceIdent,
    name: &str,
) -> (res: Result<TableLoad<S>, DataFusionError>)
    ensures
        match res {
            Ok(load) => load_plan(catalog, context@, namespace@, name@) == Ok::<
                _,
                DataFusionErrorView,
            >(load@),
            Err(error) => load_plan(catalog, context@, namespace@, name@) == Err::<LoadView<S>, _>(
                error@,
            ),
        },
{
    match text::split_once(name, '$') {
        Some((table_name, metadata_name)) => match MetadataTableType::try_from(metadata_name) {
            Ok(metadata) => Ok(
                TableLoad {
                    catalog,
                    context,
                    ident: TableIdent::new(namespace, table_name.to_string()),
                    metadata: Some(metadata),
                },
            ),
            Err(message) => Err(DataFusionError::Plan(message)),
        },
        None => Ok(
            TableLoad {
                catalog,
                context,
                ident: TableIdent::new(namespace, name.to_string()),
                metadata: None,
            },
        ),
    }
}

/// Tables by schema and name, each with its provider.
pub type Tables<P> = Map<Seq<char>, Map<Seq<char>, Arc<P>>>;

/// The tables with one more.
pub open spec fn with_table<P: ?Sized>(tables: Tables<P>, wanted: Wanted, provider: Arc<P>) -> Tables<
    P,
> {
    let schema = if tables.contains_key(wanted.schema) {
        tables[wanted.schema]
    } else {
        Map::empty()
    };
    tables.insert(wanted.schema, schema.insert(wanted.table, provider))
}

/// The provider of a table, if it is there.
pub open spec fn table_of<P: ?Sized>(tables: Tables<P>, wanted: Wanted) -> Option<Arc<P>> {
    if tables.contains_key(wanted.schema) && tables[wanted.schema].contains_key(wanted.table) {
        Some(tables[wanted.schema][wanted.table])
    } else {
        None
    }
}

/// The schemas by what they hold.
pub open spec fn schema_contents<P: ?Sized>(
    schemas: Map<Seq<char>, StringMap<Arc<P>>>,
) -> Tables<P> {
    schemas.map_values(|schema: StringMap<Arc<P>>| schema@)
}

/// The tables that were resolved for one query.
pub struct ResolvedCatalog<P: ?Sized> {
    schemas: StringMap<StringMap<Arc<P>>>,
}

impl<P: ?Sized> View for ResolvedCatalog<P> {
    type V = Tables<P>;

    closed spec fn view(&self) -> Tables<P> {
        schema_contents(self.schemas@)
    }
}

impl<P: ?Sized> ResolvedCatalog<P> {
    /// A catalog without tables.
    fn empty() -> (res: Self)
        ensures
            res@ == Tables::<P>::empty(),
    {
        let schemas: StringMap<StringMap<Arc<P>>> = StringMap::new();
        assert(schema_contents(schemas@) =~= Tables::<P>::empty());
        ResolvedCatalog { schemas }
    }

    /// Adds a table.
    fn register_table(&mut self, wanted: &WantedTable, provider: Arc<P>)
        ensures
            final(self)@ == with_table(old(self)@, wanted@, provider),
    {
        let ghost before = self.schemas@;
        let mut tables: StringMap<Arc<P>> = match self.schemas.remove(wanted.schema.as_str()) {
            Some(tables) => tables,
            None => StringMap::new(),
        };
        tables.insert(wanted.table.clone(), provider);
        self.schemas.insert(wanted.schema.clone(), tables);
        assert(schema_contents(self.schemas@) =~= with_table(
            schema_contents(before),
            wanted@,
            provider,
        ));
    }

    /// The names of the schemas, in ascending order.
    pub fn schema_names(&self) -> (res: Vec<String>)
        ensures
            text::ascending(text::texts(res@)),
            text::texts(res@).to_set() == self@.dom(),
    {
        assert(self@.dom() =~= self.schemas@.dom());
        self.schemas.keys()
    }

    /// The names of the tables of a schema, in ascending order.
    pub fn table_names(&self, schema: &str) -> (res: Option<Vec<String>>)
        ensures
            match res {
                Some(names) => {
                    &&& self@.contains_key(schema@)
                    &&& text::ascending(text::texts(names@))
                    &&& text::texts(names@).to_set() == self@[schema@].dom()
                },
                None => !self@.contains_key(schema@),
            },
    {
        match self.schemas.get(schema) {
            Some(tables) => Some(tables.keys()),
            None => None,
        }
    }

    /// The provider of a table.
    pub fn table(&self, schema: &str, table: &str) -> (res: Option<Arc<P>>)
        ensures
            res == table_of(self@, Wanted { schema: schema@, table: table@ }),
    {
        match self.schemas.get(schema) {
            Some(tables) => match tables.get(table) {
                Some(provider) => Some(provider.clone()),
                None => None,
            },
            None => None,
        }
    }
}

/// A resolution of which at least one table is still to be loaded.
pub struct Resolution<S: ?Sized, P: ?Sized> {
    catalog: Arc<S>,
    context: Arc<SessionContext>,
    tables: Vec<WantedTable>,
    done: usize,
    loaded: ResolvedCatalog<P>,
}

/// What a [`Resolution`] says.
#[verifier::ext_equal]
pub struct ResolutionView<S: ?Sized, P: ?Sized> {
    /// The catalog that every table is loaded from.
    pub catalog: Arc<S>,
    /// The context that every table is loaded under.
    pub context: ContextView,
    /// The tables still to be loaded.
    pub pending: Seq<Wanted>,
    /// The tables loaded.
    pub loaded: Tables<P>,
}

impl<S: ?Sized, P: ?Sized> View for Resolution<S, P> {
    type V = ResolutionView<S, P>;

    closed spec fn view(&self) -> ResolutionView<S, P> {
        ResolutionView {
            catalog: self.catalog,
            context: self.context@,
            pending: references::wanted_list(self.tables@).skip(self.done as int),
            loaded: self.loaded@,
        }
    }
}

/// Where a resolution stands.
pub enum ResolveProgress<S: ?Sized, P: ?Sized> {
    /// A table has to be loaded.
    Load(Resolution<S, P>),
    /// Every table is loaded.
    Ready(ResolvedCatalog<P>),
}

/// What a [`ResolveProgress`] says.
pub enum ResolveProgressView<S: ?Sized, P: ?Sized> {
    Load(ResolutionView<S, P>),
    Ready(Tables<P>),
}

impl<S: ?Sized, P: ?Sized> View for ResolveProgress<S, P> {
    type V = ResolveProgressView<S, P>;

    open spec fn view(&self) -> ResolveProgressView<S, P> {
        match *self {
            ResolveProgress::Load(resolution) => ResolveProgressView::Load(resolution@),
            ResolveProgress::Ready(catalog) => ResolveProgressView::Ready(catalog@),
        }
    }
}

impl<S: ?Sized, P: ?Sized> ResolutionView<S, P> {
    /// What has to be loaded next.
    pub open spec fn next_load(self) -> Result<LoadView<S>, DataFusionErrorView> {
        load_plan(self.catalog, self.context, seq![self.pending[0].schema], self.pending[0].table)
    }

    /// Where the resolution stands once the next table is loaded.
    pub open spec fn after(self, provider: Arc<P>) -> ResolveProgressView<S, P> {
        let loaded = with_table(self.loaded, self.pending[0], provider);
        if self.pending.len() > 1 {
            ResolveProgressView::Load(
                ResolutionView { pending: self.pending.drop_first(), loaded, ..self },
            )
        } else {
            ResolveProgressView::Ready(loaded)
        }
    }
}

impl<S: ?Sized, P: ?Sized> Resolution<S, P> {
    #[verifier::type_invariant]
    spec fn unfinished(self) -> bool {
        self.done < self.tables@.len()
    }

    /// What has to be loaded next.
    pub fn next_load(&self) -> (res: Result<TableLoad<S>, DataFusionError>)
        ensures
            self@.pending.len() > 0,
            match res {
                Ok(load) => self@.next_load() == Ok::<_, DataFusionErrorView>(load@),
                Err(error) => self@.next_load() == Err::<LoadView<S>, _>(error@),
            },
    {
        proof {
            use_type_invariant(self);
        }
        let wanted: &WantedTable = &self.tables[self.done];
        load_table_provider(
            self.catalog.clone(),
            self.context.clone(),
            NamespaceIdent::new(wanted.schema.clone()),
            wanted.table.as_str(),
        )
    }

    /// Takes the resolution on: the table that had to be loaded next was loaded,
    /// or could not be.
    pub fn table_loaded(self, outcome: Result<Arc<P>, Error>) -> (res: Result<
        ResolveProgress<S, P>,
        DataFusionError,
    >)
        ensures
            match outcome {
                Ok(provider) => res matches Ok(progress) && progress@ == self@.after(provider),
                Err(error) => res == Err::<ResolveProgress<S, P>, _>(
                    DataFusionError::External(error),
                ),
            },
    {
        proof {
            use_type_invariant(&self);
        }
        let provider: Arc<P> = match outcome {
            Ok(provider) => provider,
            Err(error) => {
                return Err(to_datafusion_error(error));
            },
        };
        let ghost pending = self@.pending;
        let done: usize = self.done;
        let tables: Vec<WantedTable> = self.tables;
        let mut loaded: ResolvedCatalog<P> = self.loaded;
        loaded.register_table(&tables[done], provider);
        assert(references::wanted_list(tables@).skip(done + 1) =~= pending.drop_first());
        if tables.len() - done > 1 {
            Ok(
                ResolveProgress::Load(
                    Resolution {
                        catalog: self.catalog,
                        context: self.context,
                        tables,
                        done: done + 1,
                        loaded,
                    },
                ),
            )
        } else {
            Ok(ResolveProgress::Ready(loaded))
        }
    }
}

/// Resolves the tables of a session catalog for one query.
///
/// The context comes from the configuration of the query's session. Only the
/// tables that the query refers to are loaded; nothing is listed, and nothing is
/// kept once the query is done.
pub struct IcebergSessionCatalogProvider<S: ?Sized> {
    catalog: Arc<S>,
}

impl<S: ?Sized> View for IcebergSessionCatalogProvider<S> {
    type V = Arc<S>;

    closed spec fn view(&self) -> Arc<S> {
        self.catalog
    }
}

impl<S: ?Sized> IcebergSessionCatalogProvider<S> {
    /// Creates a reusable resolver over `catalog`.
    pub fn new(catalog: Arc<S>) -> (res: Self)
        ensures
            res@ == catalog,
    {
        IcebergSessionCatalogProvider { catalog }
    }

    /// A schema cannot be had by its name alone.
    pub fn schema<P: ?Sized>(&self, _name: &str) -> (res: Result<Option<Arc<P>>, DataFusionError>)
        ensures
            res matches Err(error) && error@ == DataFusionErrorView::NotImplemented(
                "Iceberg session catalogs require resolve() with a SessionConfig"@,
            ),
    {
        Err(
            DataFusionError::NotImplemented(
                "Iceberg session catalogs require resolve() with a SessionConfig".to_string(),
            ),
        )
    }

    /// Begins to resolve the tables of the catalog that `references` are to,
    /// where the catalog goes by the name `catalog_name`.
    ///
    /// A context is needed only if there is a table to load.
    pub fn resolve<P: ?Sized>(
        &self,
        references: &Vec<TableReference>,
        config: &SessionConfig,
        catalog_name: &str,
    ) -> (res: Result<ResolveProgress<S, P>, DataFusionError>)
        ensures
            match res {
                Ok(ResolveProgress::Load(resolution)) => {
                    &&& resolution@.catalog == self@
                    &&& config.context matches Some(context) && resolution@.context == context@
                    &&& resolution@.loaded == Tables::<P>::empty()
                    &&& resolution@.pending.len() > 0
                    &&& resolution@.pending.no_duplicates()
                    &&& forall|wanted: Wanted| #[trigger]
                        resolution@.pending.contains(wanted) <==> references::is_wanted(
                            references@,
                            *config,
                            catalog_name@,
                            wanted,
                        )
                },
                Ok(ResolveProgress::Ready(catalog)) => {
                    &&& catalog@ == Tables::<P>::empty()
                    &&& forall|wanted: Wanted|
                        !#[trigger] references::is_wanted(
                            references@,
                            *config,
                            catalog_name@,
                            wanted,
                        )
                },
                Err(error) => {
                    &&& config.context is None
                    &&& exists|wanted: Wanted| #[trigger]
                        references::is_wanted(references@, *config, catalog_name@, wanted)
                    &&& error@ == DataFusionErrorView::Configuration(
                        "Iceberg SessionContext is required to resolve a session catalog"@,
                    )
                },
            },
    {
        let tables: Vec<WantedTable> = references::requested_tables(
            references,
            config,
            catalog_name,
        );
        let ghost list = references::wanted_list(tables@);
        assert(list.skip(0) =~= list);
        if tables.len() == 0 {
            proof {
                assert forall|wanted: Wanted|
                    !#[trigger] references::is_wanted(
                        references@,
                        *config,
                        catalog_name@,
                        wanted,
                    ) by {
                    assert(!list.contains(wanted));
                }
            }
            return Ok(ResolveProgress::Ready(ResolvedCatalog::empty()));
        }
        match &config.context {
            Some(context) => Ok(
                ResolveProgress::Load(
                    Resolution {
                        catalog: self.catalog.clone(),
                        context: context.clone(),
                        tables,
                        done: 0,
                        loaded: ResolvedCatalog::empty(),
                    },
                ),
            ),
            None => {
                proof {
                    assert(list.contains(list[0]));
                    assert(references::is_wanted(references@, *config, catalog_name@, list[0]));
                }
                Err(
                    DataFusionError::Configuration(
                        "Iceberg SessionContext is required to resolve a session catalog".to_string(),
                    ),
                )
            },
        }
    }
}

/// The tables that a resolution ends with if each table that it asks for is
/// loaded, with these providers in turn.
pub open spec fn resolved<S: ?Sized, P: ?Sized>(
    resolution: ResolutionView<S, P>,
    providers: Seq<Arc<P>>,
) -> Tables<P>
    decreases resolution.pending.len(),
{
    match resolution.after(providers[0]) {
        ResolveProgressView::Load(next) => if resolution.pending.len() > 1 {
            resolved(next, providers.drop_first())
        } else {
            Map::empty()
        },
        ResolveProgressView::Ready(tables) => tables,
    }
}

/// A resolution ends with the tables that it has loaded and those that it set
/// out to load, each read by the provider that was loaded for it, and with
/// nothing else.
pub proof fn law_resolution_is_exact<S: ?Sized, P: ?Sized>(
    resolution: ResolutionView<S, P>,
    providers: Seq<Arc<P>>,
    wanted: Wanted,
)
    requires
        resolution.pending.len() > 0,
        resolution.pending.no_duplicates(),
        providers.len() == resolution.pending.len(),
    ensures
        forall|i: int|
            0 <= i < providers.len() && #[trigger] resolution.pending[i] == wanted ==> table_of(
                resolved(resolution, providers),
                wanted,
            ) == Some(providers[i]),
        !resolution.pending.contains(wanted) ==> table_of(resolved(resolution, providers), wanted)
            == table_of(resolution.loaded, wanted),
    decreases resolution.pending.len(),
{
    let pending = resolution.pending;
    let tables = with_table(resolution.loaded, pending[0], providers[0]);
    assert(table_of(tables, wanted) == if wanted == pending[0] {
        Some(providers[0])
    } else {
        table_of(resolution.loaded, wanted)
    });
    assert(pending.contains(pending[0]));
    if pending.len() > 1 {
        let next = ResolutionView {
            pending: pending.drop_first(),
            loaded: tables,
            ..resolution
        };
        let rest = providers.drop_first();
        assert(next.pending.no_duplicates());
        law_resolution_is_exact(next, rest, wanted);
        if wanted == pending[0] && next.pending.contains(wanted) {
            let j = choose|j: int| 0 <= j < next.pending.len() && next.pending[j] == wanted;
            assert(pending[j + 1] == pending[0]);
        }
        if next.pending.contains(wanted) {
            let j = choose|j: int| 0 <= j < next.pending.len() && next.pending[j] == wanted;
            assert(pending[j + 1] == wanted);
        }
        assert forall|i: int|
            0 <= i < providers.len() && #[trigger] pending[i] == wanted implies table_of(
            resolved(resolution, providers),
            wanted,
        ) == Some(providers[i]) by {
            if i > 0 {
                assert(next.pending[i - 1] == wanted);
                assert(rest[i - 1] == providers[i]);
            }
        }
    }
}

/// A resolution that has loaded nothing yet ends with the tables that it sets out
/// to load and no others, in the schemas of those tables and no others.
pub proof fn law_resolution_holds_what_was_wanted<S: ?Sized, P: ?Sized>(
    resolution: ResolutionView<S, P>,
    providers: Seq<Arc<P>>,
    wanted: Wanted,
)
    requires
        resolution.pending.len() > 0,
        resolution.pending.no_duplicates(),
        resolution.loaded == Tables::<P>::empty(),
        providers.len() == resolution.pending.len(),
    ensures
        table_of(resolved(resolution, providers), wanted) is Some <==> resolution.pending.contains(
            wanted,
        ),
        resolved(resolution, providers).contains_key(wanted.schema) <==> exists|i: int|
            0 <= i < resolution.pending.len() && (#[trigger] resolution.pending[i]).schema
                == wanted.schema,
{
    law_resolution_is_exact(resolution, providers, wanted);
    lemma_resolved_schemas(resolution, providers, wanted.schema);
    if resolution.pending.contains(wanted) {
        let i = choose|i: int|
            0 <= i < resolution.pending.len() && resolution.pending[i] == wanted;
        assert(table_of(resolved(resolution, providers), wanted) == Some(providers[i]));
    }
}

/// A resolution ends with the schemas that it has loaded from and those that it
/// has still to load from.
proof fn lemma_resolved_schemas<S: ?Sized, P: ?Sized>(
    resolution: ResolutionView<S, P>,
    providers: Seq<Arc<P>>,
    schema: Seq<char>,
)
    requires
        resolution.pending.len() > 0,
        providers.len() == resolution.pending.len(),
    ensures
        resolved(resolution, providers).contains_key(schema) <==> resolution.loaded.contains_key(
            schema,
        ) || exists|i: int|
            0 <= i < resolution.pending.len() && (#[trigger] resolution.pending[i]).schema == schema,
    decreases resolution.pending.len(),
{
    let pending = resolution.pending;
    let tables = with_table(resolution.loaded, pending[0], providers[0]);
    if pending.len() > 1 {
        let next = ResolutionView {
            pending: pending.drop_first(),
            loaded: tables,
            ..resolution
        };
        lemma_resolved_schemas(next, providers.drop_first(), schema);
        if exists|i: int| 0 <= i < pending.len() && (#[trigger] pending[i]).schema == schema {
            let i = choose|i: int| 0 <= i < pending.len() && (#[trigger] pending[i]).schema == schema;
            if i > 0 {
                assert(next.pending[i - 1].schema == schema);
            }
        }
        if exists|i: int|
            0 <= i < next.pending.len() && (#[trigger] next.pending[i]).schema == schema {
            let i = choose|i: int|
                0 <= i < next.pending.len() && (#[trigger] next.pending[i]).schema == schema;
            assert(pending[i + 1].schema == schema);
        }
    }
}

/// Every table of a resolution is loaded from one catalog and under one context,
/// whatever came of those before it.
pub proof fn law_resolution_keeps_context<S: ?Sized, P: ?Sized>(
    resolution: ResolutionView<S, P>,
    provider: Arc<P>,
)
    ensures
        resolution.next_load() matches Ok(load) ==> load.catalog == resolution.catalog
            && load.context == resolution.context,
        resolution.after(provider) matches ResolveProgressView::Load(next) ==> next.catalog
            == resolution.catalog && next.context == resolution.context,
{
}

/// A name without a `$` is loaded as it is, from the catalog and under the context given.
pub proof fn law_plain_names_are_loaded<S: ?Sized>(
    catalog: Arc<S>,
    context: ContextView,
    namespace: Seq<Seq<char>>,
    name: Seq<char>,
)
    requires
        !name.contains('$'),
    ensures
        load_plan(catalog, context, namespace, name) == Ok::<_, DataFusionErrorView>(
            LoadView {
                catalog,
                context,
                ident: TableIdentView { namespace, name },
                metadata: None,
            },
        ),
{
    text::lemma_split_absent(name, '$');
}

/// For a name with a `$` the table before the first `$` is loaded, for its snapshots or
/// its manifests; any other metadata table is refused by its name.
pub proof fn law_metadata_names_are_loaded<S: ?Sized>(
    catalog: Arc<S>,
    context: ContextView,
    namespace: Seq<Seq<char>>,
    table: Seq<char>,
    metadata: Seq<char>,
)
    requires
        !table.contains('$'),
    ensures
        ({
            let plan = load_plan(catalog, context, namespace, table + seq!['$'] + metadata);
            let loads = |which: MetadataTableType|
                Ok::<_, DataFusionErrorView>(
                    LoadView {
                        catalog,
                        context,
                        ident: TableIdentView { namespace, name: table },
                        metadata: Some(which),
                    },
                );
            &&& metadata == "snapshots"@ ==> plan == loads(MetadataTableType::Snapshots)
            &&& metadata == "manifests"@ ==> plan == loads(MetadataTableType::Manifests)
            &&& metadata != "snapshots"@ && metadata != "manifests"@ ==> plan == Err::<
                LoadView<S>,
                _,
            >(DataFusionErrorView::Plan("invalid metadata table type: "@ + metadata))
        }),
{
    text::lemma_split_joined(table, '$', metadata);
    metadata_table::law_metadata_tables(metadata);
}

/// A load says what it holds.
pub proof fn law_loads_say_what_they_hold<S: ?Sized>(load: TableLoad<S>)
    ensures
        load@.catalog == load.catalog,
        load@.context == load.context@,
        load@.ident.namespace == load.ident.namespace@,
        load@.ident.name == load.ident.name@,
        load@.metadata == load.metadata,
{
}

/// The provider of a table is the one that stands under its schema and its name.
pub proof fn law_table_of<P: ?Sized>(tables: Tables<P>, wanted: Wanted, provider: Arc<P>)
    ensures
        table_of(tables, wanted) == Some(provider) <==> tables.contains_key(wanted.schema)
            && tables[wanted.schema].contains_key(wanted.table)
            && tables[wanted.schema][wanted.table] == provider,
{
}

/// A table that is added is there with its provider, and every other table stays as it
/// was; its schema is there, and no other comes or goes.
pub proof fn law_added_tables<P: ?Sized>(
    tables: Tables<P>,
    added: Wanted,
    provider: Arc<P>,
    other: Wanted,
)
    ensures
        table_of(with_table(tables, added, provider), other) == if other == added {
            Some(provider)
        } else {
            table_of(tables, other)
        },
        with_table(tables, added, provider).contains_key(other.schema) <==> tables.contains_key(
            other.schema,
        ) || other.schema == added.schema,
        other.schema != added.schema && tables.contains_key(other.schema) ==> with_table(
            tables,
            added,
            provider,
        )[other.schema] == tables[other.schema],
{
}

/// The next table to load is the first of those pending, in the namespace that its schema
/// names, from the resolution's catalog and under its context.
pub proof fn law_pending_tables_are_loaded_in_turn<S: ?Sized, P: ?Sized>(
    resolution: ResolutionView<S, P>,
    wanted: Wanted,
    rest: Seq<Wanted>,
)
    requires
        resolution.pending == seq![wanted] + rest,
    ensures
        resolution.next_load() == load_plan(
            resolution.catalog,
            resolution.context,
            seq![wanted.schema],
            wanted.table,
        ),
        !wanted.table.contains('$') ==> (resolution.next_load() matches Ok(load) && {
            &&& load.catalog == resolution.catalog
            &&& load.context == resolution.context
            &&& load.ident.namespace == seq![wanted.schema]
            &&& load.ident.name == wanted.table
            &&& load.metadata is None
        }),
{
    if !wanted.table.contains('$') {
        law_plain_names_are_loaded(
            resolution.catalog,
            resolution.context,
            seq![wanted.schema],
            wanted.table,
        );
    }
}

/// A table that was loaded is added and no longer pending. The rest is loaded after it;
/// with nothing left, the resolution ends with all that was loaded.
pub proof fn law_loaded_tables_are_added<S: ?Sized, P: ?Sized>(
    resolution: ResolutionView<S, P>,
    wanted: Wanted,
    rest: Seq<Wanted>,
    provider: Arc<P>,
    other: Wanted,
)
    requires
        resolution.pending == seq![wanted] + rest,
    ensures
        ({
            let is_added = |tables: Tables<P>|
                table_of(tables, other) == if other == wanted {
                    Some(provider)
                } else {
                    table_of(resolution.loaded, other)
                };
            match resolution.after(provider) {
                ResolveProgressView::Load(next) => {
                    &&& rest.len() > 0
                    &&& next.pending == rest
                    &&& next.catalog == resolution.catalog
                    &&& next.context == resolution.context
                    &&& is_added(next.loaded)
                },
                ResolveProgressView::Ready(tables) => rest.len() == 0 && is_added(tables),
            }
        }),
{
    assert(resolution.pending.drop_first() =~= rest);
    law_added_tables(resolution.loaded, wanted, provider, other);
}

/// Where a resolution stands says what is to be loaded still, or what was loaded.
pub proof fn law_resolve_progress_says_all<S: ?Sized, P: ?Sized>(
    resolution: Resolution<S, P>,
    catalog: ResolvedCatalog<P>,
)
    ensures
        ResolveProgress::<S, P>::Load(resolution)@ == ResolveProgressView::<S, P>::Load(
            resolution@,
        ),
        ResolveProgress::<S, P>::Ready(catalog)@ == ResolveProgressView::<S, P>::Ready(catalog@),
{
}

} // verus!
