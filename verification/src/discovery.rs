//! The steps by which the tables and views of a namespace are found.
use std::sync::Arc;

use vstd::prelude::*;

use crate::error::{Error, ErrorKind, ErrorView};
use crate::ident::{NamespaceIdent, TableIdent, TableIdentView};
use crate::known_views;
use crate::provider_request;
use crate::provider_request::{RequestView, TableProviderRequest};
use crate::schema::{IcebergSchemaProvider, SchemaView};
use crate::text;

verus! {

/// What has to be done next to find the contents of a namespace.
#[derive(Clone, Copy, Debug, PartialEq, Eq, Structural)]
pub enum DiscoveryStep {
    /// List the tables of the namespace.
    ListTables,
    /// List the views of the namespace.
    ListViews,
    /// Load a provider for each table, in the order of their names here.
    LoadProviders,
}

/// How a step of a discovery went.
#[derive(Debug)]
pub enum DiscoveryEvent {
    /// The catalog listed the tables, or refused to.
    TablesListed(Result<Vec<TableIdent>, Error>),
    /// The catalog listed the views, or refused to.
    ViewsListed(Result<Vec<TableIdent>, Error>),
    /// The providers were loaded, in the order asked for, or one could not be.
    ProvidersLoaded(Result<Vec<u64>, Error>),
}

impl DiscoveryEvent {
    /// The event can come of doing `step`.
    pub open spec fn follows(self, step: DiscoveryStep) -> bool {
        match self {
            DiscoveryEvent::TablesListed(_) => step == DiscoveryStep::ListTables,
            DiscoveryEvent::ViewsListed(_) => step == DiscoveryStep::ListViews,
            DiscoveryEvent::ProvidersLoaded(_) => step == DiscoveryStep::LoadProviders,
        }
    }
}

/// The search for the contents of a namespace.
pub struct SchemaDiscovery<C: ?Sized, R: ?Sized> {
    catalog: Arc<C>,
    runtime: Option<Arc<R>>,
    namespace: NamespaceIdent,
    tables: Vec<String>,
    views: Vec<String>,
    step: DiscoveryStep,
}

/// What a [`SchemaDiscovery`] has found.
#[verifier::ext_equal]
pub struct DiscoveryView<C: ?Sized, R: ?Sized> {
    pub catalog: Arc<C>,
    pub runtime: Option<Arc<R>>,
    pub namespace: Seq<Seq<char>>,
    pub tables: Seq<Seq<char>>,
    pub views: Seq<Seq<char>>,
    pub step: DiscoveryStep,
}

impl<C: ?Sized, R: ?Sized> View for SchemaDiscovery<C, R> {
    type V = DiscoveryView<C, R>;

    closed spec fn view(&self) -> DiscoveryView<C, R> {
        DiscoveryView {
            catalog: self.catalog,
            runtime: self.runtime,
            namespace: self.namespace@,
            tables: text::texts(self.tables@),
            views: text::texts(self.views@),
            step: self.step,
        }
    }
}

impl<C: ?Sized, R: ?Sized> DiscoveryView<C, R> {
    /// The providers of the tables found.
    pub open spec fn requests(self) -> Seq<RequestView<C, R>> {
        self.tables.map_values(
            |name: Seq<char>|
                RequestView {
                    catalog: self.catalog,
                    ident: TableIdentView { namespace: self.namespace, name },
                    runtime: self.runtime,
                },
        )
    }
}

/// What the requests say.
pub open spec fn requests<C: ?Sized, R: ?Sized>(list: Seq<TableProviderRequest<C, R>>) -> Seq<
    RequestView<C, R>,
> {
    list.map_values(|request: TableProviderRequest<C, R>| request@)
}

/// The discovery of `namespace` of which nothing is done yet.
pub open spec fn discovery_of<C: ?Sized, R: ?Sized>(
    catalog: Arc<C>,
    namespace: Seq<Seq<char>>,
    runtime: Option<Arc<R>>,
) -> DiscoveryView<C, R> {
    DiscoveryView {
        catalog,
        runtime,
        namespace,
        tables: Seq::empty(),
        views: Seq::empty(),
        step: DiscoveryStep::ListTables,
    }
}

/// Where a discovery stands after a step.
pub enum DiscoveryProgress<C: ?Sized, R: ?Sized> {
    /// There is more to do.
    Continue(SchemaDiscovery<C, R>),
    /// The schema is complete.
    Ready(IcebergSchemaProvider<C, R>),
}

/// What a [`DiscoveryProgress`] says.
pub enum DiscoveryProgressView<C: ?Sized, R: ?Sized> {
    Continue(DiscoveryView<C, R>),
    Ready(SchemaView<C, R>),
}

/// The names of tables or views within their namespace.
pub open spec fn names(idents: Seq<TableIdent>) -> Seq<Seq<char>> {
    idents.map_values(|ident: TableIdent| ident.name@)
}

/// What a discovery comes to by `event`.
///
/// A catalog that does not support views has none.
pub open spec fn discovery_step<C: ?Sized, R: ?Sized>(
    discovery: DiscoveryView<C, R>,
    event: DiscoveryEvent,
) -> Result<DiscoveryProgressView<C, R>, ErrorView> {
    match event {
        DiscoveryEvent::TablesListed(Ok(idents)) => Ok(
            DiscoveryProgressView::Continue(
                DiscoveryView {
                    tables: names(idents@),
                    step: DiscoveryStep::ListViews,
                    ..discovery
                },
            ),
        ),
        DiscoveryEvent::TablesListed(Err(error)) => Err(error@),
        DiscoveryEvent::ViewsListed(Ok(idents)) => Ok(
            DiscoveryProgressView::Continue(
                DiscoveryView {
                    views: names(idents@),
                    step: DiscoveryStep::LoadProviders,
                    ..discovery
                },
            ),
        ),
        DiscoveryEvent::ViewsListed(Err(error)) => if error.kind == ErrorKind::FeatureUnsupported {
            Ok(
                DiscoveryProgressView::Continue(
                    DiscoveryView {
                        views: Seq::empty(),
                        step: DiscoveryStep::LoadProviders,
                        ..discovery
                    },
                ),
            )
        } else {
            Err(error@)
        },
        DiscoveryEvent::ProvidersLoaded(Ok(providers)) => Ok(
            DiscoveryProgressView::Ready(
                SchemaView {
                    catalog: discovery.catalog,
                    runtime: discovery.runtime,
                    namespace: discovery.namespace,
                    tables: text::bound(discovery.tables, providers@),
                    views: known_views::unplanned(discovery.views.to_set()),
                },
            ),
        ),
        DiscoveryEvent::ProvidersLoaded(Err(error)) => Err(error@),
    }
}

/// What the outcome of a step says.
pub open spec fn outcome_view<C: ?Sized, R: ?Sized>(
    outcome: Result<DiscoveryProgress<C, R>, Error>,
) -> Result<DiscoveryProgressView<C, R>, ErrorView> {
    match outcome {
        Ok(DiscoveryProgress::Continue(discovery)) => Ok(
            DiscoveryProgressView::Continue(discovery@),
        ),
        Ok(DiscoveryProgress::Ready(schema)) => Ok(DiscoveryProgressView::Ready(schema@)),
        Err(error) => Err(error@),
    }
}

/// The names of tables or views within their namespace, in the order listed.
fn names_of(idents: &Vec<TableIdent>) -> (res: Vec<String>)
    ensures
        text::texts(res@) == names(idents@),
{
    let mut res: Vec<String> = Vec::new();
    let mut i: usize = 0;
    while i < idents.len()
        invariant
            i <= idents.len(),
            text::texts(res@) =~= names(idents@).take(i as int),
        decreases idents.len() - i,
    {
        let name: String = idents[i].name().to_string();
        let ghost before = res@;
        res.push(name);
        assert(text::texts(res@) =~= text::texts(before).push(name@));
        i = i + 1;
    }
    assert(names(idents@).take(idents@.len() as int) =~= names(idents@));
    res
}

impl<C: ?Sized, R: ?Sized> IcebergSchemaProvider<C, R> {
    /// Begins to find the contents of `namespace`.
    pub fn try_new(client: Arc<C>, namespace: NamespaceIdent) -> (res: SchemaDiscovery<C, R>)
        ensures
            res@ == discovery_of(client, namespace@, None::<Arc<R>>),
    {
        Self::try_new_with_runtime(client, namespace, None)
    }

    /// Like [`Self::try_new`], propagating `runtime` to every table provider of
    /// the schema.
    pub fn try_new_with_runtime(
        client: Arc<C>,
        namespace: NamespaceIdent,
        runtime: Option<Arc<R>>,
    ) -> (res: SchemaDiscovery<C, R>)
        ensures
            res@ == discovery_of(client, namespace@, runtime),
    {
        let tables: Vec<String> = Vec::new();
        let views: Vec<String> = Vec::new();
        assert(text::texts(tables@) =~= Seq::empty());
        assert(text::texts(views@) =~= Seq::empty());
        SchemaDiscovery {
            catalog: client,
            runtime,
            namespace,
            tables,
            views,
            step: DiscoveryStep::ListTables,
        }
    }
}

impl<C: ?Sized, R: ?Sized> SchemaDiscovery<C, R> {
    /// The catalog that is asked.
    pub fn catalog(&self) -> (res: &Arc<C>)
        ensures
            *res == self@.catalog,
    {
        &self.catalog
    }

    /// The namespace that is looked into.
    pub fn namespace(&self) -> (res: &NamespaceIdent)
        ensures
            res@ == self@.namespace,
    {
        &self.namespace
    }

    /// The providers that have to be loaded: one for each table found, in the
    /// order listed, each on this discovery's catalog and runtime.
    pub fn provider_requests(&self) -> (res: Vec<TableProviderRequest<C, R>>)
        ensures
            requests(res@) == self@.requests(),
    {
        let mut res: Vec<TableProviderRequest<C, R>> = Vec::new();
        let mut i: usize = 0;
        while i < self.tables.len()
            invariant
                i <= self.tables.len(),
                requests(res@) =~= self@.requests().take(i as int),
            decreases self.tables.len() - i,
        {
            let request: TableProviderRequest<C, R> = TableProviderRequest {
                catalog: self.catalog.clone(),
                ident: TableIdent::new(self.namespace.clone(), self.tables[i].clone()),
                runtime: provider_request::share(&self.runtime),
            };
            let ghost before = res@;
            res.push(request);
            proof {
                assert(requests(res@) =~= requests(before).push(request@));
                assert(self@.tables[i as int] == self.tables@[i as int]@);
            }
            i = i + 1;
        }
        assert(self@.requests().take(self.tables@.len() as int) =~= self@.requests());
        res
    }

    /// What has to be done next.
    pub fn step(&self) -> (res: DiscoveryStep)
        ensures
            res == self@.step,
    {
        self.step
    }

    /// Takes the discovery on by one step: what comes after `event`.
    pub fn advance(self, event: DiscoveryEvent) -> (res: Result<DiscoveryProgress<C, R>, Error>)
        requires
            event.follows(self@.step),
        ensures
            outcome_view(res) == discovery_step(self@, event),
    {
        match event {
            DiscoveryEvent::TablesListed(Ok(idents)) => {
                let tables: Vec<String> = names_of(&idents);
                Ok(
                    DiscoveryProgress::Continue(
                        SchemaDiscovery { tables, step: DiscoveryStep::ListViews, ..self },
                    ),
                )
            },
            DiscoveryEvent::TablesListed(Err(error)) => Err(error),
            DiscoveryEvent::ViewsListed(Ok(idents)) => {
                let views: Vec<String> = names_of(&idents);
                Ok(
                    DiscoveryProgress::Continue(
                        SchemaDiscovery { views, step: DiscoveryStep::LoadProviders, ..self },
                    ),
                )
            },
            DiscoveryEvent::ViewsListed(Err(error)) => {
                if error.kind() == ErrorKind::FeatureUnsupported {
                    let views: Vec<String> = Vec::new();
                    assert(text::texts(views@) =~= Seq::empty());
                    return Ok(
                        DiscoveryProgress::Continue(
                            SchemaDiscovery { views, step: DiscoveryStep::LoadProviders, ..self },
                        ),
                    );
                }
                Err(error)
            },
            DiscoveryEvent::ProvidersLoaded(Ok(providers)) => Ok(
                DiscoveryProgress::Ready(
                    IcebergSchemaProvider::with_contents(
                        self.catalog,
                        self.runtime,
                        self.namespace,
                        self.tables,
                        providers,
                        self.views,
                    ),
                ),
            ),
            DiscoveryEvent::ProvidersLoaded(Err(error)) => Err(error),
        }
    }
}

/// Listing the tables loses none and adds none: each stands at its place under its
/// name. The views are still to be listed, and nothing else changes.
pub proof fn law_listed_tables<C: ?Sized, R: ?Sized>(
    discovery: DiscoveryView<C, R>,
    idents: Vec<TableIdent>,
)
    ensures
        discovery_step(discovery, DiscoveryEvent::TablesListed(Ok(idents))) matches Ok(
            DiscoveryProgressView::Continue(next),
        ) && {
            &&& next.tables.len() == idents@.len()
            &&& forall|i: int|
                0 <= i < idents@.len() ==> #[trigger] next.tables[i] == idents@[i].name@
            &&& next.views == discovery.views
            &&& next.step == DiscoveryStep::ListViews
            &&& next.catalog == discovery.catalog
            &&& next.runtime == discovery.runtime
            &&& next.namespace == discovery.namespace
        },
{
}

/// Listing the views loses none and adds none: each stands at its place under its
/// name. The providers are still to be loaded, and nothing else changes.
pub proof fn law_listed_views<C: ?Sized, R: ?Sized>(
    discovery: DiscoveryView<C, R>,
    idents: Vec<TableIdent>,
)
    ensures
        discovery_step(discovery, DiscoveryEvent::ViewsListed(Ok(idents))) matches Ok(
            DiscoveryProgressView::Continue(next),
        ) && {
            &&& next.views.len() == idents@.len()
            &&& forall|i: int|
                0 <= i < idents@.len() ==> #[trigger] next.views[i] == idents@[i].name@
            &&& next.tables == discovery.tables
            &&& next.step == DiscoveryStep::LoadProviders
            &&& next.catalog == discovery.catalog
            &&& next.runtime == discovery.runtime
            &&& next.namespace == discovery.namespace
        },
{
}

/// A refusal ends a discovery, and is handed on as it is, whatever its kind: a refusal
/// to list tables, to load a provider, and to list views, but for that of a catalog
/// that does not support views, which has none.
pub proof fn law_refusals_end_a_discovery<C: ?Sized, R: ?Sized>(
    discovery: DiscoveryView<C, R>,
    error: Error,
)
    ensures
        ({
            let refusal = Err::<DiscoveryProgressView<C, R>, _>(
                ErrorView { kind: error.kind, message: error.message@ },
            );
            &&& discovery_step(discovery, DiscoveryEvent::TablesListed(Err(error))) == refusal
            &&& discovery_step(discovery, DiscoveryEvent::ProvidersLoaded(Err(error))) == refusal
            &&& error.kind != ErrorKind::FeatureUnsupported ==> discovery_step(
                discovery,
                DiscoveryEvent::ViewsListed(Err(error)),
            ) == refusal
            &&& error.kind == ErrorKind::FeatureUnsupported ==> (discovery_step(
                discovery,
                DiscoveryEvent::ViewsListed(Err(error)),
            ) matches Ok(DiscoveryProgressView::Continue(next)) && next.views.len() == 0
                && next.step == DiscoveryStep::LoadProviders && next.tables == discovery.tables
                && next.catalog == discovery.catalog && next.runtime == discovery.runtime
                && next.namespace == discovery.namespace)
        }),
{
}

/// The schema that comes of a discovery has exactly the tables and the views that were
/// listed, in the namespace, on the catalog and the runtime of the discovery.
pub proof fn law_found_schema_is_as_listed<C: ?Sized, R: ?Sized>(
    discovery: DiscoveryView<C, R>,
    tables: Vec<TableIdent>,
    views: Vec<TableIdent>,
    providers: Vec<u64>,
    name: Seq<char>,
)
    requires
        providers@.len() == tables@.len(),
    ensures
        discovery_step(discovery, DiscoveryEvent::TablesListed(Ok(tables))) matches Ok(
            DiscoveryProgressView::Continue(listed),
        ) && (discovery_step(listed, DiscoveryEvent::ViewsListed(Ok(views))) matches Ok(
            DiscoveryProgressView::Continue(complete),
        ) && (discovery_step(complete, DiscoveryEvent::ProvidersLoaded(Ok(providers))) matches Ok(
            DiscoveryProgressView::Ready(schema),
        ) && {
            &&& schema.tables.contains_key(name) <==> exists|i: int|
                0 <= i < tables@.len() && (#[trigger] tables@[i]).name@ == name
            &&& schema.views.contains_key(name) <==> exists|i: int|
                0 <= i < views@.len() && (#[trigger] views@[i]).name@ == name
            &&& schema.views.contains_key(name) ==> schema.views[name] is None
            &&& schema.namespace == discovery.namespace
            &&& schema.catalog == discovery.catalog
            &&& schema.runtime == discovery.runtime
        })),
{
    let table_names = names(tables@);
    let view_names = names(views@);
    text::law_bound(table_names, providers@);
    known_views::law_unplanned(view_names.to_set(), name);
    if exists|i: int| 0 <= i < tables@.len() && (#[trigger] tables@[i]).name@ == name {
        let i = choose|i: int| 0 <= i < tables@.len() && (#[trigger] tables@[i]).name@ == name;
        assert(table_names[i] == name);
        assert(table_names.contains(name));
    }
    if table_names.to_set().contains(name) {
        let i = choose|i: int| 0 <= i < table_names.len() && table_names[i] == name;
        assert(tables@[i].name@ == name);
    }
    if exists|i: int| 0 <= i < views@.len() && (#[trigger] views@[i]).name@ == name {
        let i = choose|i: int| 0 <= i < views@.len() && (#[trigger] views@[i]).name@ == name;
        assert(view_names[i] == name);
        assert(view_names.contains(name));
    }
    if view_names.to_set().contains(name) {
        let i = choose|i: int| 0 <= i < view_names.len() && view_names[i] == name;
        assert(views@[i].name@ == name);
    }
}

/// A discovery begins by listing the tables of its namespace, with nothing found yet.
pub proof fn law_discoveries_begin_with_tables<C: ?Sized, R: ?Sized>(
    catalog: Arc<C>,
    namespace: Seq<Seq<char>>,
    runtime: Option<Arc<R>>,
)
    ensures
        discovery_of(catalog, namespace, runtime).step == DiscoveryStep::ListTables,
        discovery_of(catalog, namespace, runtime).tables.len() == 0,
        discovery_of(catalog, namespace, runtime).views.len() == 0,
        discovery_of(catalog, namespace, runtime).catalog == catalog,
        discovery_of(catalog, namespace, runtime).namespace == namespace,
        discovery_of(catalog, namespace, runtime).runtime == runtime,
{
}

/// There is a request for each table found, at its place, on the discovery's catalog
/// and runtime and in its namespace; and a list of requests says what each says.
pub proof fn law_one_request_for_each_table<C: ?Sized, R: ?Sized>(
    discovery: DiscoveryView<C, R>,
    list: Seq<TableProviderRequest<C, R>>,
)
    ensures
        discovery.requests().len() == discovery.tables.len(),
        forall|i: int|
            0 <= i < discovery.tables.len() ==> #[trigger] discovery.requests()[i] == (
            RequestView {
                catalog: discovery.catalog,
                ident: TableIdentView {
                    namespace: discovery.namespace,
                    name: discovery.tables[i],
                },
                runtime: discovery.runtime,
            }),
        requests(list).len() == list.len(),
        forall|i: int| 0 <= i < list.len() ==> #[trigger] requests(list)[i] == list[i]@,
{
}

/// Each outcome can come of the step that it is the outcome of, and of no other.
pub proof fn law_discovery_outcomes(
    step: DiscoveryStep,
    listed: Result<Vec<TableIdent>, Error>,
    loaded: Result<Vec<u64>, Error>,
)
    ensures
        DiscoveryEvent::TablesListed(listed).follows(step) <==> step == DiscoveryStep::ListTables,
        DiscoveryEvent::ViewsListed(listed).follows(step) <==> step == DiscoveryStep::ListViews,
        DiscoveryEvent::ProvidersLoaded(loaded).follows(step) <==> step
            == DiscoveryStep::LoadProviders,
{
}

/// An outcome says where the discovery stands: what is found so far, the schema, or
/// the refusal.
pub proof fn law_discovery_outcomes_say_all<C: ?Sized, R: ?Sized>(
    discovery: SchemaDiscovery<C, R>,
    schema: IcebergSchemaProvider<C, R>,
    error: Error,
)
    ensures
        outcome_view(Ok(DiscoveryProgress::Continue(discovery))) == Ok::<_, ErrorView>(
            DiscoveryProgressView::Continue(discovery@),
        ),
        outcome_view(Ok(DiscoveryProgress::Ready(schema))) == Ok::<_, ErrorView>(
            DiscoveryProgressView::Ready(schema@),
        ),
        outcome_view(Err::<DiscoveryProgress<C, R>, _>(error)) == Err::<
            DiscoveryProgressView<C, R>,
            _,
        >(ErrorView { kind: error.kind, message: error.message@ }),
{
}

} // verus!
