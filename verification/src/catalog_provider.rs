//! The schemas of a catalog, and the steps by which they are found.
use std::sync::Arc;

use vstd::prelude::*;

use crate::binding::{BindingView, SessionBindingCatalogAdapter};
use crate::catalog_access::{AccessView, IcebergCatalogAccess};
use crate::discovery;
use crate::discovery::{DiscoveryView, SchemaDiscovery};
use crate::error::{Error, ErrorView};
use crate::ident;
use crate::ident::NamespaceIdent;
use crate::options;
use crate::options::{IcebergOptions, SessionContext};
use crate::provider_request;
use crate::schema::IcebergSchemaProvider;
use crate::string_map::StringMap;
use crate::text;

verus! {

/// Provides the schemas of a catalog, each associated with a namespace of its
/// own.
pub struct IcebergCatalogProvider<P: ?Sized> {
    schemas: StringMap<Arc<P>>,
}

impl<P: ?Sized> View for IcebergCatalogProvider<P> {
    type V = Map<Seq<char>, Arc<P>>;

    closed spec fn view(&self) -> Map<Seq<char>, Arc<P>> {
        self.schemas@
    }
}

/// What has to be done next to find the schemas of a catalog.
#[derive(Clone, Copy, Debug, PartialEq, Eq, Structural)]
pub enum CatalogStep {
    /// List the namespaces of the catalog.
    ListNamespaces,
    /// Find the contents of each namespace, in the order of their names here.
    LoadSchemas,
}

/// How a step of a catalog discovery went.
pub enum CatalogEvent<P: ?Sized> {
    /// The catalog listed its namespaces, or refused to.
    NamespacesListed(Result<Vec<NamespaceIdent>, Error>),
    /// The schemas were loaded, in the order asked for, or one could not be.
    SchemasLoaded(Result<Vec<Arc<P>>, Error>),
}

impl<P: ?Sized> CatalogEvent<P> {
    /// The event can come of doing `step`.
    pub open spec fn follows(self, step: CatalogStep) -> bool {
        match self {
            CatalogEvent::NamespacesListed(_) => step == CatalogStep::ListNamespaces,
            CatalogEvent::SchemasLoaded(_) => step == CatalogStep::LoadSchemas,
        }
    }
}

/// The search for the schemas of a catalog.
pub struct CatalogDiscovery<C: ?Sized, S: ?Sized, R: ?Sized> {
    catalog: Arc<SessionBindingCatalogAdapter<C, S>>,
    runtime: Option<Arc<R>>,
    namespaces: Vec<NamespaceIdent>,
    step: CatalogStep,
}

/// What a [`CatalogDiscovery`] has found.
#[verifier::ext_equal]
pub struct CatalogDiscoveryView<C: ?Sized, S: ?Sized, R: ?Sized> {
    pub catalog: Arc<SessionBindingCatalogAdapter<C, S>>,
    pub runtime: Option<Arc<R>>,
    /// The namespaces, each by its parts.
    pub namespaces: Seq<Seq<Seq<char>>>,
    pub step: CatalogStep,
}

impl<C: ?Sized, S: ?Sized, R: ?Sized> View for CatalogDiscovery<C, S, R> {
    type V = CatalogDiscoveryView<C, S, R>;

    closed spec fn view(&self) -> CatalogDiscoveryView<C, S, R> {
        CatalogDiscoveryView {
            catalog: self.catalog,
            runtime: self.runtime,
            namespaces: namespace_parts(self.namespaces@),
            step: self.step,
        }
    }
}

impl<C: ?Sized, S: ?Sized, R: ?Sized> CatalogDiscoveryView<C, S, R> {
    /// How the catalog is asked for its namespaces.
    pub open spec fn access(self) -> AccessView<C, S> {
        self.catalog@.access()
    }

    /// The names of the schemas: each namespace as one text.
    pub open spec fn schema_names(self) -> Seq<Seq<char>> {
        namespace_names(self.namespaces)
    }

    /// The discovery of each schema: in its namespace, on the same catalog under
    /// the same binding.
    pub open spec fn schema_discoveries(self) -> Seq<
        DiscoveryView<SessionBindingCatalogAdapter<C, S>, R>,
    > {
        self.namespaces.map_values(
            |namespace: Seq<Seq<char>>|
                discovery::discovery_of(self.catalog, namespace, self.runtime),
        )
    }
}

/// The namespaces by their parts.
pub open spec fn namespace_parts(namespaces: Seq<NamespaceIdent>) -> Seq<Seq<Seq<char>>> {
    namespaces.map_values(|namespace: NamespaceIdent| namespace@)
}

/// Each namespace as one text.
pub open spec fn namespace_names(namespaces: Seq<Seq<Seq<char>>>) -> Seq<Seq<char>> {
    namespaces.map_values(|namespace: Seq<Seq<char>>| ident::dotted(namespace))
}

/// What the discoveries say.
pub open spec fn discoveries<C: ?Sized, R: ?Sized>(list: Seq<SchemaDiscovery<C, R>>) -> Seq<
    DiscoveryView<C, R>,
> {
    list.map_values(|discovery: SchemaDiscovery<C, R>| discovery@)
}

/// The search on `catalog` of which nothing is done yet.
pub open spec fn search<C: ?Sized, S: ?Sized, R: ?Sized>(
    catalog: Arc<SessionBindingCatalogAdapter<C, S>>,
    runtime: Option<Arc<R>>,
) -> CatalogDiscoveryView<C, S, R> {
    CatalogDiscoveryView {
        catalog,
        runtime,
        namespaces: Seq::empty(),
        step: CatalogStep::ListNamespaces,
    }
}

/// Where a catalog discovery stands after a step.
pub enum CatalogProgress<C: ?Sized, S: ?Sized, R: ?Sized, P: ?Sized> {
    /// There is more to do.
    Continue(CatalogDiscovery<C, S, R>),
    /// The schemas are complete.
    Ready(IcebergCatalogProvider<P>),
}

/// What a [`CatalogProgress`] says.
pub enum CatalogProgressView<C: ?Sized, S: ?Sized, R: ?Sized, P: ?Sized> {
    Continue(CatalogDiscoveryView<C, S, R>),
    Ready(Map<Seq<char>, Arc<P>>),
}

/// What the outcome of a step says.
pub open spec fn outcome_view<C: ?Sized, S: ?Sized, R: ?Sized, P: ?Sized>(
    outcome: Result<CatalogProgress<C, S, R, P>, Error>,
) -> Result<CatalogProgressView<C, S, R, P>, ErrorView> {
    match outcome {
        Ok(CatalogProgress::Continue(discovery)) => Ok(CatalogProgressView::Continue(discovery@)),
        Ok(CatalogProgress::Ready(provider)) => Ok(CatalogProgressView::Ready(provider@)),
        Err(error) => Err(error@),
    }
}

/// What a catalog discovery comes to by `event`.
///
/// Each namespace has a schema, under the namespace's name. Where two namespaces
/// read the same, the provider that comes last holds.
pub open spec fn catalog_step<C: ?Sized, S: ?Sized, R: ?Sized, P: ?Sized>(
    discovery: CatalogDiscoveryView<C, S, R>,
    event: CatalogEvent<P>,
) -> Result<CatalogProgressView<C, S, R, P>, ErrorView> {
    match event {
        CatalogEvent::NamespacesListed(Ok(namespaces)) => Ok(
            CatalogProgressView::Continue(
                CatalogDiscoveryView {
                    namespaces: namespace_parts(namespaces@),
                    step: CatalogStep::LoadSchemas,
                    ..discovery
                },
            ),
        ),
        CatalogEvent::SchemasLoaded(Ok(providers)) => Ok(
            CatalogProgressView::Ready(text::bound(discovery.schema_names(), providers@)),
        ),
        CatalogEvent::NamespacesListed(Err(error)) | CatalogEvent::SchemasLoaded(Err(error)) => Err(
            error@,
        ),
    }
}

/// The schemas, each by the name of its namespace.
fn bind_schema_providers<P: ?Sized>(
    namespaces: &Vec<NamespaceIdent>,
    providers: &Vec<Arc<P>>,
) -> (res: StringMap<Arc<P>>)
    ensures
        res@ == text::bound(namespace_names(namespace_parts(namespaces@)), providers@),
{
    let ghost names = namespace_names(namespace_parts(namespaces@));
    let mut res: StringMap<Arc<P>> = StringMap::new();
    let mut i: usize = 0;
    while i < namespaces.len() && i < providers.len()
        invariant
            names == namespace_names(namespace_parts(namespaces@)),
            i <= namespaces.len(),
            i <= providers.len(),
            res@ == text::bound_first(names, providers@, i as nat),
        decreases namespaces.len() - i,
    {
        res.insert(namespaces[i].to_text(), providers[i].clone());
        i = i + 1;
    }
    res
}

impl<C: ?Sized, S: ?Sized, R: ?Sized> CatalogDiscovery<C, S, R> {
    /// What has to be done next.
    pub fn step(&self) -> (res: CatalogStep)
        ensures
            res == self@.step,
    {
        self.step
    }

    /// How the catalog is asked for its namespaces.
    pub fn access(&self) -> (res: IcebergCatalogAccess<C, S>)
        ensures
            res@ == self@.access(),
    {
        self.catalog.access()
    }

    /// The discovery of each schema, in the order of their names.
    pub fn schema_discoveries(&self) -> (res: Vec<
        SchemaDiscovery<SessionBindingCatalogAdapter<C, S>, R>,
    >)
        ensures
            discoveries(res@) == self@.schema_discoveries(),
    {
        let mut res: Vec<SchemaDiscovery<SessionBindingCatalogAdapter<C, S>, R>> = Vec::new();
        let mut i: usize = 0;
        while i < self.namespaces.len()
            invariant
                i <= self.namespaces.len(),
                discoveries(res@) =~= self@.schema_discoveries().take(i as int),
            decreases self.namespaces.len() - i,
        {
            let schema: SchemaDiscovery<SessionBindingCatalogAdapter<C, S>, R> =
                IcebergSchemaProvider::try_new_with_runtime(
                self.catalog.clone(),
                self.namespaces[i].clone(),
                provider_request::share(&self.runtime),
            );
            let ghost before = res@;
            res.push(schema);
            proof {
                assert(discoveries(res@) =~= discoveries(before).push(schema@));
                assert(self@.namespaces[i as int] == self.namespaces@[i as int]@);
            }
            i = i + 1;
        }
        proof {
            let all = self@.schema_discoveries();
            assert(all.take(all.len() as int) =~= all);
        }
        res
    }

    /// Takes the discovery on by one step: what comes after `event`.
    pub fn advance<P: ?Sized>(self, event: CatalogEvent<P>) -> (res: Result<
        CatalogProgress<C, S, R, P>,
        Error,
    >)
        requires
            event.follows(self@.step),
        ensures
            outcome_view(res) == catalog_step(self@, event),
    {
        match event {
            CatalogEvent::NamespacesListed(Ok(namespaces)) => {
                Ok(
                    CatalogProgress::Continue(
                        CatalogDiscovery { namespaces, step: CatalogStep::LoadSchemas, ..self },
                    ),
                )
            },
            CatalogEvent::SchemasLoaded(Ok(providers)) => {
                let schemas: StringMap<Arc<P>> = bind_schema_providers(
                    &self.namespaces,
                    &providers,
                );
                Ok(CatalogProgress::Ready(IcebergCatalogProvider { schemas }))
            },
            CatalogEvent::NamespacesListed(Err(error)) => Err(error),
            CatalogEvent::SchemasLoaded(Err(error)) => Err(error),
        }
    }
}

impl<P: ?Sized> IcebergCatalogProvider<P> {
    /// Begins to make a provider from a catalog that knows no sessions: its
    /// namespaces are listed, and a schema provider is made for each.
    pub fn try_new<C: ?Sized, S: ?Sized, R: ?Sized>(catalog: Arc<C>) -> (res: CatalogDiscovery<
        C,
        S,
        R,
    >)
        ensures
            res@ == search(res@.catalog, None::<Arc<R>>),
            res@.catalog@ == BindingView::<C, S>::WithoutContext(catalog),
    {
        let session_binding_catalog: SessionBindingCatalogAdapter<C, S> =
            SessionBindingCatalogAdapter::new_without_context(catalog);
        Self::try_new_with_binding_catalog(Arc::new(session_binding_catalog))
    }

    /// Begins to make a provider backed by a session catalog.
    ///
    /// Each session of the query engine that has options propagates a context of
    /// its own for scans and inserts. Whatever belongs to no session goes with
    /// one anonymous context, which all of it shares: discovery, metadata tables,
    /// registration and deregistration. Discovery is done once and serves every
    /// session.
    pub fn try_new_with_session_catalog<C: ?Sized, S: ?Sized, R: ?Sized>(catalog: Arc<S>) -> (res:
        CatalogDiscovery<C, S, R>)
        ensures
            res@ == search(res@.catalog, None::<Arc<R>>),
            res@.catalog@ matches BindingView::Fallback { catalog: inner, context } && {
                &&& inner == catalog
                &&& context.options == options::no_options()
                &&& options::is_random_uuid(context.session_id)
            },
    {
        let shared_fallback_context: SessionContext = SessionContext::empty();
        let session_bound: SessionBindingCatalogAdapter<C, S> = SessionBindingCatalogAdapter::new(
            shared_fallback_context,
            catalog,
        );
        Self::try_new_with_binding_catalog(Arc::new(session_bound))
    }

    /// Begins to make a provider from a catalog that is bound already.
    fn try_new_with_binding_catalog<C: ?Sized, S: ?Sized, R: ?Sized>(
        catalog: Arc<SessionBindingCatalogAdapter<C, S>>,
    ) -> (res: CatalogDiscovery<C, S, R>)
        ensures
            res@ == search(catalog, None::<Arc<R>>),
    {
        Self::try_new_with_runtime(catalog, None)
    }

    /// Begins to make a provider from a catalog that is bound already, with
    /// `runtime` for every table provider: such as the one in which a view of
    /// that catalog is planned.
    pub fn try_new_with_runtime<C: ?Sized, S: ?Sized, R: ?Sized>(
        catalog: Arc<SessionBindingCatalogAdapter<C, S>>,
        runtime: Option<Arc<R>>,
    ) -> (res: CatalogDiscovery<C, S, R>)
        ensures
            res@ == search(catalog, runtime),
    {
        let namespaces: Vec<NamespaceIdent> = Vec::new();
        assert(namespace_parts(namespaces@) =~= Seq::empty());
        CatalogDiscovery { catalog, runtime, namespaces, step: CatalogStep::ListNamespaces }
    }

    /// The names of the schemas, in ascending order.
    pub fn schema_names(&self) -> (res: Vec<String>)
        ensures
            text::ascending(text::texts(res@)),
            text::texts(res@).to_set() == self@.dom(),
    {
        self.schemas.keys()
    }

    /// The schema called `name`.
    pub fn schema(&self, name: &str) -> (res: Option<Arc<P>>)
        ensures
            match res {
                Some(schema) => self@.contains_key(name@) && schema == self@[name@],
                None => !self@.contains_key(name@),
            },
    {
        match self.schemas.get(name) {
            Some(schema) => Some(schema.clone()),
            None => None,
        }
    }
}

/// Creates providers whose context is bound before catalog discovery.
///
/// Unlike [`IcebergCatalogProvider::try_new_with_session_catalog`] it uses no
/// anonymous context. Making one asks nothing of the catalog. Each binding finds
/// its own namespaces and tables; bindings share the catalog and nothing else.
pub struct IcebergSessionCatalogProvider<S: ?Sized> {
    inner: Arc<S>,
}

impl<S: ?Sized> View for IcebergSessionCatalogProvider<S> {
    type V = Arc<S>;

    closed spec fn view(&self) -> Arc<S> {
        self.inner
    }
}

impl<S: ?Sized> Clone for IcebergSessionCatalogProvider<S> {
    fn clone(&self) -> (res: Self)
        ensures
            res@ == self@,
    {
        IcebergSessionCatalogProvider { inner: self.inner.clone() }
    }
}

impl<S: ?Sized> IcebergSessionCatalogProvider<S> {
    /// Creates a factory over `inner`.
    pub fn new(inner: Arc<S>) -> (res: Self)
        ensures
            res@ == inner,
    {
        IcebergSessionCatalogProvider { inner }
    }

    /// Begins to make a provider for which everything goes with the context that
    /// `options` give: discovery, and then scans, inserts, metadata tables,
    /// registration and deregistration.
    ///
    /// The context stays fixed whatever options a session of the query engine
    /// carries. Its session number is a fresh one.
    pub fn for_session<C: ?Sized, R: ?Sized>(&self, options: IcebergOptions) -> (res:
        CatalogDiscovery<C, S, R>)
        ensures
            res@ == search(res@.catalog, None::<Arc<R>>),
            res@.catalog@ matches BindingView::Explicit { catalog, context } && {
                &&& catalog == self@
                &&& context.options == options@
                &&& options::is_random_uuid(context.session_id)
            },
    {
        let context: SessionContext = options.to_session_context();
        let session_bound: SessionBindingCatalogAdapter<C, S> =
            SessionBindingCatalogAdapter::new_explicit(context, self.inner.clone());
        IcebergCatalogProvider::<()>::try_new_with_binding_catalog(Arc::new(session_bound))
    }
}

/// Each namespace that was listed has one schema, found in that namespace and under
/// its name, which for a namespace of one part is that part.
pub proof fn law_one_schema_for_each_namespace<C: ?Sized, S: ?Sized, R: ?Sized, P: ?Sized>(
    discovery: CatalogDiscoveryView<C, S, R>,
    namespaces: Vec<NamespaceIdent>,
)
    ensures
        catalog_step(
            discovery,
            CatalogEvent::<P>::NamespacesListed(Ok(namespaces)),
        ) matches Ok(CatalogProgressView::Continue(next)) && {
            &&& next.schema_names().len() == namespaces@.len()
            &&& next.schema_discoveries().len() == namespaces@.len()
            &&& forall|i: int|
                0 <= i < namespaces@.len() ==> (#[trigger] next.schema_discoveries()[i]).namespace
                    == namespaces@[i]@
            &&& forall|i: int|
                0 <= i < namespaces@.len() ==> #[trigger] next.schema_names()[i] == ident::dotted(
                    namespaces@[i]@,
                )
            &&& forall|i: int|
                0 <= i < namespaces@.len() && namespaces@[i]@.len() == 1
                    ==> #[trigger] next.schema_names()[i] == namespaces@[i]@[0]
        },
{
}

/// A complete catalog holds a schema for each namespace that was found, and no
/// other: under each name the provider of the last namespace that has it.
pub proof fn law_discovered_catalog<C: ?Sized, S: ?Sized, R: ?Sized, P: ?Sized>(
    discovery: CatalogDiscoveryView<C, S, R>,
    providers: Vec<Arc<P>>,
    i: int,
)
    requires
        discovery.step == CatalogStep::LoadSchemas,
        providers@.len() == discovery.namespaces.len(),
    ensures
        catalog_step(discovery, CatalogEvent::SchemasLoaded(Ok(providers))) matches Ok(
            CatalogProgressView::Ready(schemas),
        ) && {
            &&& schemas.dom() == discovery.schema_names().to_set()
            &&& 0 <= i < providers@.len() && (forall|j: int|
                i < j < providers@.len() ==> #[trigger] discovery.schema_names()[j]
                    != discovery.schema_names()[i]) ==> schemas[discovery.schema_names()[i]]
                == providers@[i]
        },
{
    let names = discovery.schema_names();
    text::law_bound(names, providers@);
    if 0 <= i < providers@.len() && (forall|j: int|
        i < j < providers@.len() ==> #[trigger] names[j] != names[i]) {
        text::law_bound_last(names, providers@, i);
    }
}

/// Everything that a discovery asks of a catalog goes with the same context: the
/// list of namespaces, and the contents of each schema.
pub proof fn law_discovery_uses_one_context<C: ?Sized, S: ?Sized, R: ?Sized, P: ?Sized>(
    discovery: CatalogDiscoveryView<C, S, R>,
    event: CatalogEvent<P>,
)
    ensures
        catalog_step(discovery, event) matches Ok(CatalogProgressView::Continue(next))
            ==> next.catalog == discovery.catalog && next.access() == discovery.access(),
        forall|i: int|
            0 <= i < discovery.namespaces.len() ==> (
            #[trigger] discovery.schema_discoveries()[i]).catalog@.access() == discovery.access(),
{
}

/// A failure is handed on as it is, whatever its kind, so that a provider comes only of
/// a listing that succeeded.
pub proof fn law_failures_are_handed_on<C: ?Sized, S: ?Sized, R: ?Sized, P: ?Sized>(
    discovery: CatalogDiscoveryView<C, S, R>,
    error: Error,
)
    ensures
        ({
            let failure = Err::<CatalogProgressView<C, S, R, P>, _>(
                ErrorView { kind: error.kind, message: error.message@ },
            );
            &&& catalog_step(discovery, CatalogEvent::<P>::NamespacesListed(Err(error))) == failure
            &&& catalog_step(discovery, CatalogEvent::<P>::SchemasLoaded(Err(error))) == failure
        }),
{
}

/// Listing the namespaces loses none and adds none: each stands at its place. The
/// schemas are still to be loaded, on the same catalog and runtime.
pub proof fn law_listed_namespaces<C: ?Sized, S: ?Sized, R: ?Sized, P: ?Sized>(
    discovery: CatalogDiscoveryView<C, S, R>,
    namespaces: Vec<NamespaceIdent>,
)
    ensures
        catalog_step(
            discovery,
            CatalogEvent::<P>::NamespacesListed(Ok(namespaces)),
        ) matches Ok(CatalogProgressView::Continue(next)) && {
            &&& next.namespaces.len() == namespaces@.len()
            &&& forall|i: int|
                0 <= i < namespaces@.len() ==> #[trigger] next.namespaces[i] == namespaces@[i]@
            &&& next.step == CatalogStep::LoadSchemas
            &&& next.catalog == discovery.catalog
            &&& next.runtime == discovery.runtime
        },
{
}

/// The schemas that are loaded complete a catalog, and a list that is too short or too
/// long is taken as far as there is both a namespace and a schema.
pub proof fn law_loaded_schemas_complete_a_catalog<C: ?Sized, S: ?Sized, R: ?Sized, P: ?Sized>(
    discovery: CatalogDiscoveryView<C, S, R>,
    providers: Vec<Arc<P>>,
)
    ensures
        catalog_step(discovery, CatalogEvent::SchemasLoaded(Ok(providers))) == Ok::<_, ErrorView>(
            CatalogProgressView::<C, S, R, P>::Ready(
                text::bound(
                    Seq::new(
                        discovery.namespaces.len(),
                        |i: int| ident::dotted(discovery.namespaces[i]),
                    ),
                    providers@,
                ),
            ),
        ),
{
    assert(discovery.schema_names() =~= Seq::new(
        discovery.namespaces.len(),
        |i: int| ident::dotted(discovery.namespaces[i]),
    ));
}

/// A search begins by listing the namespaces, with none found yet.
pub proof fn law_searches_begin_with_namespaces<C: ?Sized, S: ?Sized, R: ?Sized>(
    catalog: Arc<SessionBindingCatalogAdapter<C, S>>,
    runtime: Option<Arc<R>>,
)
    ensures
        search(catalog, runtime).step == CatalogStep::ListNamespaces,
        search(catalog, runtime).namespaces.len() == 0,
        search(catalog, runtime).catalog == catalog,
        search(catalog, runtime).runtime == runtime,
        search(catalog, runtime).access() == catalog@.access(),
{
}

/// There is a discovery for each namespace found, at its place, of which nothing is
/// done yet: on the search's catalog and runtime, in that namespace and under its name.
/// The namespaces are asked for as the catalog's binding says.
pub proof fn law_one_discovery_for_each_namespace<C: ?Sized, S: ?Sized, R: ?Sized>(
    search: CatalogDiscoveryView<C, S, R>,
    list: Seq<SchemaDiscovery<SessionBindingCatalogAdapter<C, S>, R>>,
    i: int,
)
    ensures
        search.access() == search.catalog@.access(),
        search.schema_discoveries().len() == search.namespaces.len(),
        search.schema_names().len() == search.namespaces.len(),
        0 <= i < search.namespaces.len() ==> {
            let schema = search.schema_discoveries()[i];
            &&& schema.catalog == search.catalog
            &&& schema.runtime == search.runtime
            &&& schema.namespace == search.namespaces[i]
            &&& schema.step == discovery::DiscoveryStep::ListTables
            &&& schema.tables.len() == 0
            &&& schema.views.len() == 0
            &&& search.schema_names()[i] == ident::dotted(search.namespaces[i])
        },
        discoveries(list).len() == list.len(),
        0 <= i < list.len() ==> discoveries(list)[i] == list[i]@,
{
}

/// Each outcome can come of the step that it is the outcome of, and of no other.
pub proof fn law_catalog_outcomes<P: ?Sized>(
    step: CatalogStep,
    listed: Result<Vec<NamespaceIdent>, Error>,
    loaded: Result<Vec<Arc<P>>, Error>,
)
    ensures
        CatalogEvent::<P>::NamespacesListed(listed).follows(step) <==> step
            == CatalogStep::ListNamespaces,
        CatalogEvent::<P>::SchemasLoaded(loaded).follows(step) <==> step
            == CatalogStep::LoadSchemas,
{
}

/// An outcome says where the discovery stands: what is found so far, the schemas, or
/// the failure.
pub proof fn law_catalog_outcomes_say_all<C: ?Sized, S: ?Sized, R: ?Sized, P: ?Sized>(
    discovery: CatalogDiscovery<C, S, R>,
    provider: IcebergCatalogProvider<P>,
    error: Error,
)
    ensures
        outcome_view(Ok(CatalogProgress::<C, S, R, P>::Continue(discovery))) == Ok::<_, ErrorView>(
            CatalogProgressView::<C, S, R, P>::Continue(discovery@),
        ),
        outcome_view(Ok(CatalogProgress::<C, S, R, P>::Ready(provider))) == Ok::<_, ErrorView>(
            CatalogProgressView::<C, S, R, P>::Ready(provider@),
        ),
        outcome_view(Err::<CatalogProgress<C, S, R, P>, _>(error)) == Err::<
            CatalogProgressView<C, S, R, P>,
            _,
        >(ErrorView { kind: error.kind, message: error.message@ }),
{
}

} // verus!
