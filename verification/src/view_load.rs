//! The steps by which a view of the catalog becomes a view of the query engine.
use std::sync::Arc;

use vstd::prelude::*;
use vstd::view::View as _;

use crate::error::{to_datafusion_error, DataFusionError, DataFusionErrorView, Error, ErrorView};
use crate::ident::{TableIdent, TableIdentView};
use crate::provider_request;
use crate::provider_request::TableProviderRequest;
use crate::schema::IcebergSchemaProvider;
use crate::view::View;
use crate::view_plan;
use crate::view_plan::{plan_view, ViewPlan, ViewPlanView};

verus! {

/// What has to be done next to have a view.
#[derive(Clone, Copy, Debug, PartialEq, Eq, Structural)]
pub enum ViewLoadStep {
    /// Load the view from the catalog.
    LoadView,
    /// Find the schemas of the catalog, for the session that the view is planned
    /// in.
    DiscoverCatalog,
    /// Plan the view's query.
    CreatePlan,
}

/// How a step of loading a view went.
pub enum ViewLoadEvent {
    /// The view was loaded, or could not be.
    ViewLoaded(Result<View, Error>),
    /// The schemas were found, or could not be.
    CatalogDiscovered(Result<(), Error>),
}

impl ViewLoadEvent {
    /// The event can come of doing `step`.
    pub open spec fn follows(self, step: ViewLoadStep) -> bool {
        match self {
            ViewLoadEvent::ViewLoaded(_) => step == ViewLoadStep::LoadView,
            ViewLoadEvent::CatalogDiscovered(_) => step == ViewLoadStep::DiscoverCatalog,
        }
    }
}

/// A view that is being loaded.
pub struct ViewLoad<C: ?Sized, R: ?Sized> {
    catalog: Arc<C>,
    runtime: Option<Arc<R>>,
    ident: TableIdent,
    plan: Option<ViewPlan>,
    step: ViewLoadStep,
}

/// What a [`ViewLoad`] says.
pub struct ViewLoadView<C: ?Sized, R: ?Sized> {
    /// The catalog that the view is loaded from, and that its query reads.
    pub catalog: Arc<C>,
    /// The runtime for the tables that its query reads.
    pub runtime: Option<Arc<R>>,
    /// The view.
    pub ident: TableIdentView,
    /// How the view is planned, once it is loaded.
    pub plan: Option<ViewPlanView>,
    /// What has to be done next.
    pub step: ViewLoadStep,
}

/// What a plan says, where there is one.
pub open spec fn plan_text(plan: Option<ViewPlan>) -> Option<ViewPlanView> {
    match plan {
        Some(plan) => Some(plan@),
        None => None,
    }
}

impl<C: ?Sized, R: ?Sized> vstd::view::View for ViewLoad<C, R> {
    type V = ViewLoadView<C, R>;

    closed spec fn view(&self) -> ViewLoadView<C, R> {
        ViewLoadView {
            catalog: self.catalog,
            runtime: self.runtime,
            ident: self.ident@,
            plan: plan_text(self.plan),
            step: self.step,
        }
    }
}

/// What loading a view comes to by `event`.
pub open spec fn view_load_step<C: ?Sized, R: ?Sized>(
    load: ViewLoadView<C, R>,
    event: ViewLoadEvent,
) -> Result<ViewLoadView<C, R>, DataFusionErrorView> {
    match event {
        ViewLoadEvent::ViewLoaded(Ok(view)) => match view_plan::view_plan(view@) {
            Ok(plan) => Ok(
                ViewLoadView { plan: Some(plan), step: ViewLoadStep::DiscoverCatalog, ..load },
            ),
            Err(error) => Err(error),
        },
        ViewLoadEvent::CatalogDiscovered(Ok(())) => Ok(
            ViewLoadView { step: ViewLoadStep::CreatePlan, ..load },
        ),
        ViewLoadEvent::ViewLoaded(Err(error)) | ViewLoadEvent::CatalogDiscovered(Err(error)) => Err(
            DataFusionErrorView::External(error@),
        ),
    }
}

impl<C: ?Sized, R: ?Sized> IcebergSchemaProvider<C, R> {
    /// Begins to load the view `name`, and to plan it on this schema's catalog and
    /// runtime.
    pub fn load_view_provider(&self, name: &str) -> (res: ViewLoad<C, R>)
        ensures
            res@ == (ViewLoadView {
                catalog: self@.catalog,
                runtime: self@.runtime,
                ident: self@.ident(name@),
                plan: None,
                step: ViewLoadStep::LoadView,
            }),
    {
        let request: TableProviderRequest<C, R> = self.request(name);
        ViewLoad {
            catalog: request.catalog,
            runtime: request.runtime,
            ident: request.ident,
            plan: None,
            step: ViewLoadStep::LoadView,
        }
    }
}

impl<C: ?Sized, R: ?Sized> ViewLoad<C, R> {
    #[verifier::type_invariant]
    spec fn planned_once_loaded(self) -> bool {
        self.step != ViewLoadStep::LoadView ==> self.plan is Some
    }

    /// What has to be done next.
    pub fn step(&self) -> (res: ViewLoadStep)
        ensures
            res == self@.step,
    {
        self.step
    }

    /// The view.
    pub fn ident(&self) -> (res: &TableIdent)
        ensures
            res@ == self@.ident,
    {
        &self.ident
    }

    /// The catalog that the view is loaded from, and whose schemas its query
    /// reads.
    pub fn catalog(&self) -> (res: Arc<C>)
        ensures
            res == self@.catalog,
    {
        self.catalog.clone()
    }

    /// The runtime for the tables that the view's query reads.
    pub fn runtime(&self) -> (res: Option<Arc<R>>)
        ensures
            res == self@.runtime,
    {
        provider_request::share(&self.runtime)
    }

    /// How the view is planned, once it is loaded.
    pub fn plan(&self) -> (res: Option<&ViewPlan>)
        ensures
            match res {
                Some(plan) => self@.plan == Some(plan@),
                None => self@.plan is None && self@.step == ViewLoadStep::LoadView,
            },
    {
        proof {
            use_type_invariant(self);
        }
        match &self.plan {
            Some(plan) => Some(plan),
            None => None,
        }
    }

    /// Takes the loading on by one step: what comes after `event`.
    pub fn advance(self, event: ViewLoadEvent) -> (res: Result<ViewLoad<C, R>, DataFusionError>)
        requires
            event.follows(self@.step),
        ensures
            match res {
                Ok(next) => view_load_step(self@, event) == Ok::<_, DataFusionErrorView>(next@),
                Err(error) => view_load_step(self@, event) == Err::<ViewLoadView<C, R>, _>(error@),
            },
    {
        proof {
            use_type_invariant(&self);
        }
        match event {
            ViewLoadEvent::ViewLoaded(Ok(view)) => match plan_view(&view) {
                Ok(plan) => Ok(
                    ViewLoad { plan: Some(plan), step: ViewLoadStep::DiscoverCatalog, ..self },
                ),
                Err(error) => Err(error),
            },
            ViewLoadEvent::ViewLoaded(Err(error)) => Err(to_datafusion_error(error)),
            ViewLoadEvent::CatalogDiscovered(Ok(())) => Ok(
                ViewLoad { step: ViewLoadStep::CreatePlan, ..self },
            ),
            ViewLoadEvent::CatalogDiscovered(Err(error)) => Err(to_datafusion_error(error)),
        }
    }
}

/// A view is planned on the catalog that it was loaded from, and on the runtime
/// of its schema; and it is planned only once it is loaded, by the query that was
/// chosen of it.
pub proof fn law_views_are_planned_on_their_catalog<C: ?Sized, R: ?Sized>(
    load: ViewLoadView<C, R>,
    event: ViewLoadEvent,
)
    requires
        event.follows(load.step),
        load.step != ViewLoadStep::LoadView ==> load.plan is Some,
    ensures
        view_load_step(load, event) matches Ok(next) ==> {
            &&& next.catalog == load.catalog
            &&& next.runtime == load.runtime
            &&& next.ident == load.ident
            &&& next.plan is Some
            &&& load.plan is Some && event is CatalogDiscovered ==> next.plan == load.plan
            &&& next.step == ViewLoadStep::CreatePlan ==> load.step == ViewLoadStep::DiscoverCatalog
        },
{
}

/// A view that was loaded is planned as the view itself says, and goes on to the schemas
/// of its catalog; what cannot be planned ends the loading with the reason.
pub proof fn law_loaded_views_are_planned<C: ?Sized, R: ?Sized>(
    load: ViewLoadView<C, R>,
    view: View,
)
    ensures
        match view_plan::view_plan(view@) {
            Ok(plan) => view_load_step(load, ViewLoadEvent::ViewLoaded(Ok(view))) matches Ok(next)
                && {
                &&& next.plan == Some(plan)
                &&& next.step == ViewLoadStep::DiscoverCatalog
                &&& next.catalog == load.catalog
                &&& next.runtime == load.runtime
                &&& next.ident == load.ident
            },
            Err(error) => view_load_step(load, ViewLoadEvent::ViewLoaded(Ok(view))) == Err::<
                ViewLoadView<C, R>,
                _,
            >(error),
        },
        view_plan::preferred_sql(view@.metadata.current_version.representations@) matches Some(
            query,
        ) ==> (view_load_step(load, ViewLoadEvent::ViewLoaded(Ok(view))) matches Ok(next)
            && next.plan matches Some(plan) && plan.sql == query.sql@),
{
    view_plan::law_views_are_planned_by_the_preferred_query(view@);
}

/// Once the schemas of the catalog are found, the view is planned as it was to be.
pub proof fn law_plans_wait_for_the_catalog<C: ?Sized, R: ?Sized>(load: ViewLoadView<C, R>)
    ensures
        view_load_step(load, ViewLoadEvent::CatalogDiscovered(Ok(()))) == Ok::<
            _,
            DataFusionErrorView,
        >(
            ViewLoadView {
                catalog: load.catalog,
                runtime: load.runtime,
                ident: load.ident,
                plan: load.plan,
                step: ViewLoadStep::CreatePlan,
            },
        ),
{
}

/// A failure ends the loading of a view, and is handed on as it is, whatever its kind.
pub proof fn law_failures_end_the_loading<C: ?Sized, R: ?Sized>(
    load: ViewLoadView<C, R>,
    error: Error,
)
    ensures
        ({
            let failure = Err::<ViewLoadView<C, R>, _>(
                DataFusionErrorView::External(
                    ErrorView { kind: error.kind, message: error.message@ },
                ),
            );
            &&& view_load_step(load, ViewLoadEvent::ViewLoaded(Err(error))) == failure
            &&& view_load_step(load, ViewLoadEvent::CatalogDiscovered(Err(error))) == failure
        }),
{
}

/// Each outcome can come of the step that it is the outcome of, and of no other.
pub proof fn law_view_load_outcomes(
    step: ViewLoadStep,
    loaded: Result<View, Error>,
    discovered: Result<(), Error>,
)
    ensures
        ViewLoadEvent::ViewLoaded(loaded).follows(step) <==> step == ViewLoadStep::LoadView,
        ViewLoadEvent::CatalogDiscovered(discovered).follows(step) <==> step
            == ViewLoadStep::DiscoverCatalog,
{
}

} // verus!
