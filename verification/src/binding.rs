//! The context that goes with each operation on a catalog.
use std::sync::Arc;

use vstd::prelude::*;

use crate::catalog_access::{AccessView, IcebergCatalogAccess};
use crate::options::{resolve_session_context, ContextView, Session, SessionContext, SessionView};

verus! {

/// A catalog bound to the context that its operations go with.
pub enum SessionBindingCatalogAdapter<C: ?Sized, S: ?Sized> {
    /// A catalog that knows no sessions.
    WithoutContext(Arc<C>),
    /// A session catalog. An operation goes with the context of the session that
    /// it is performed for, where there is one, else with this.
    Fallback {
        /// The catalog.
        catalog: Arc<S>,
        /// The context where the session has none.
        context: Arc<SessionContext>,
    },
    /// A session catalog. Every operation goes with this context.
    Explicit {
        /// The catalog.
        catalog: Arc<S>,
        /// The context.
        context: Arc<SessionContext>,
    },
}

/// What a [`SessionBindingCatalogAdapter`] says.
pub enum BindingView<C: ?Sized, S: ?Sized> {
    WithoutContext(Arc<C>),
    Fallback { catalog: Arc<S>, context: ContextView },
    Explicit { catalog: Arc<S>, context: ContextView },
}

impl<C: ?Sized, S: ?Sized> View for SessionBindingCatalogAdapter<C, S> {
    type V = BindingView<C, S>;

    open spec fn view(&self) -> BindingView<C, S> {
        match *self {
            SessionBindingCatalogAdapter::WithoutContext(catalog) => BindingView::WithoutContext(
                catalog,
            ),
            SessionBindingCatalogAdapter::Fallback { catalog, context } => BindingView::Fallback {
                catalog,
                context: context@,
            },
            SessionBindingCatalogAdapter::Explicit { catalog, context } => BindingView::Explicit {
                catalog,
                context: context@,
            },
        }
    }
}

impl<C: ?Sized, S: ?Sized> BindingView<C, S> {
    /// How an operation is performed that belongs to no session.
    pub open spec fn access(self) -> AccessView<C, S> {
        match self {
            BindingView::WithoutContext(catalog) => AccessView::Plain(catalog),
            BindingView::Fallback { catalog, context } => AccessView::Session { catalog, context },
            BindingView::Explicit { catalog, context } => AccessView::Session { catalog, context },
        }
    }

    /// How an operation is performed for a session.
    pub open spec fn access_for(self, session: SessionView) -> AccessView<C, S> {
        match (self, session.context()) {
            (BindingView::Fallback { catalog, .. }, Some(context)) => AccessView::Session {
                catalog,
                context,
            },
            _ => self.access(),
        }
    }
}

impl<C: ?Sized, S: ?Sized> SessionBindingCatalogAdapter<C, S> {
    /// A catalog that knows no sessions.
    pub fn new_without_context(catalog: Arc<C>) -> (res: Self)
        ensures
            res@ == BindingView::<C, S>::WithoutContext(catalog),
    {
        SessionBindingCatalogAdapter::WithoutContext(catalog)
    }

    /// A session catalog, with `context` for what is done for no session, or for
    /// one without options.
    pub fn new(context: SessionContext, catalog: Arc<S>) -> (res: Self)
        ensures
            res@ == (BindingView::<C, S>::Fallback { catalog, context: context@ }),
    {
        SessionBindingCatalogAdapter::Fallback { catalog, context: Arc::new(context) }
    }

    /// A session catalog, with `context` for everything.
    pub fn new_explicit(context: SessionContext, catalog: Arc<S>) -> (res: Self)
        ensures
            res@ == (BindingView::<C, S>::Explicit { catalog, context: context@ }),
    {
        SessionBindingCatalogAdapter::Explicit { catalog, context: Arc::new(context) }
    }

    /// How an operation is performed that belongs to no session: discovery,
    /// metadata tables, registration and deregistration.
    pub fn access(&self) -> (res: IcebergCatalogAccess<C, S>)
        ensures
            res@ == self@.access(),
    {
        match self {
            SessionBindingCatalogAdapter::WithoutContext(catalog) => IcebergCatalogAccess::plain(
                catalog.clone(),
            ),
            SessionBindingCatalogAdapter::Fallback {
                catalog,
                context,
            } => IcebergCatalogAccess::session(catalog.clone(), context.clone()),
            SessionBindingCatalogAdapter::Explicit {
                catalog,
                context,
            } => IcebergCatalogAccess::session(catalog.clone(), context.clone()),
        }
    }

    /// How an operation is performed for `session`: a scan or an insert.
    pub fn access_for(&self, session: &Session) -> (res: IcebergCatalogAccess<C, S>)
        ensures
            res@ == self@.access_for(session@),
    {
        if let SessionBindingCatalogAdapter::Fallback { catalog, .. } = self {
            if let Some(context) = resolve_session_context(session) {
                return IcebergCatalogAccess::session(catalog.clone(), Arc::new(context));
            }
        }
        self.access()
    }
}

/// An explicit binding is never overwritten: whatever options a session carries,
/// what is done for it goes with the context that was bound.
pub proof fn law_explicit_binding_is_kept<C: ?Sized, S: ?Sized>(
    binding: BindingView<C, S>,
    session: SessionView,
)
    requires
        binding is Explicit,
    ensures
        binding.access_for(session) == binding.access(),
        binding.access() == (AccessView::<C, S>::Session {
            catalog: binding->Explicit_catalog,
            context: binding->Explicit_context,
        }),
{
}

/// With a fallback, what is done for a session with options goes with the
/// session's own number and options, and what is done for one without options
/// goes with the fallback, as does all that is done for no session.
pub proof fn law_fallback_yields_to_sessions<C: ?Sized, S: ?Sized>(
    binding: BindingView<C, S>,
    session: SessionView,
)
    requires
        binding is Fallback,
    ensures
        binding.access() == (AccessView::<C, S>::Session {
            catalog: binding->Fallback_catalog,
            context: binding->Fallback_context,
        }),
        session.options is None ==> binding.access_for(session) == binding.access(),
        session.options matches Some(options) ==> binding.access_for(session) == (AccessView::<
            C,
            S,
        >::Session {
            catalog: binding->Fallback_catalog,
            context: ContextView { session_id: session.session_id, options },
        }),
{
}

/// What is done on a catalog that knows no sessions goes to that catalog, without a
/// context, for whatever session it is done.
pub proof fn law_plain_catalogs_get_no_context<C: ?Sized, S: ?Sized>(
    catalog: Arc<C>,
    session: Session,
)
    ensures
        SessionBindingCatalogAdapter::<C, S>::WithoutContext(catalog)@.access() == AccessView::<
            C,
            S,
        >::Plain(catalog),
        SessionBindingCatalogAdapter::<C, S>::WithoutContext(catalog)@.access_for(session@)
            == AccessView::<C, S>::Plain(catalog),
{
}

/// What is done on a session catalog goes to that catalog. Bound with a fallback, it
/// goes with the number and the options of the session that it is done for, where
/// that has options, even empty ones, and else with the fallback. Bound explicitly, it
/// goes with the bound context, whatever the session.
pub proof fn law_session_catalogs_get_one_context<C: ?Sized, S: ?Sized>(
    catalog: Arc<S>,
    context: Arc<SessionContext>,
    session: Session,
)
    ensures
        ({
            let bound = AccessView::<C, S>::Session { catalog, context: context@ };
            let fallback = SessionBindingCatalogAdapter::<C, S>::Fallback { catalog, context };
            let explicit = SessionBindingCatalogAdapter::<C, S>::Explicit { catalog, context };
            &&& fallback@.access() == bound
            &&& explicit@.access() == bound
            &&& explicit@.access_for(session@) == bound
            &&& session.options is None ==> fallback@.access_for(session@) == bound
            &&& session.options matches Some(options) ==> fallback@.access_for(session@) == (
            AccessView::<C, S>::Session {
                catalog,
                context: ContextView { session_id: session.session_id@, options: options@ },
            })
        }),
{
}

/// A binding says what it was made of.
pub proof fn law_bindings_say_what_they_hold<C: ?Sized, S: ?Sized>(
    plain: Arc<C>,
    catalog: Arc<S>,
    context: Arc<SessionContext>,
)
    ensures
        SessionBindingCatalogAdapter::<C, S>::WithoutContext(plain)@ == BindingView::<
            C,
            S,
        >::WithoutContext(plain),
        (SessionBindingCatalogAdapter::<C, S>::Fallback { catalog, context })@ == (BindingView::<
            C,
            S,
        >::Fallback { catalog, context: context@ }),
        (SessionBindingCatalogAdapter::<C, S>::Explicit { catalog, context })@ == (BindingView::<
            C,
            S,
        >::Explicit { catalog, context: context@ }),
{
}

} // verus!
