//! The catalog that a table provider keeps, and the calls that it makes on it.
use std::sync::Arc;

use vstd::prelude::*;

use crate::ident::TableIdent;
use crate::options::{ContextView, SessionContext};

verus! {

/// Catalog access retained by a table provider: which of the two catalog
/// interfaces its calls go to, as it was chosen when the provider was made.
pub enum IcebergCatalogAccess<C: ?Sized, S: ?Sized> {
    /// A catalog that knows no sessions.
    Plain(Arc<C>),
    /// A catalog whose operations each take a context.
    Session {
        /// The catalog.
        catalog: Arc<S>,
        /// The context under which every operation is performed.
        context: Arc<SessionContext>,
    },
}

/// What an [`IcebergCatalogAccess`] says.
pub enum AccessView<C: ?Sized, S: ?Sized> {
    Plain(Arc<C>),
    Session { catalog: Arc<S>, context: ContextView },
}

impl<C: ?Sized, S: ?Sized> View for IcebergCatalogAccess<C, S> {
    type V = AccessView<C, S>;

    open spec fn view(&self) -> AccessView<C, S> {
        match self {
            IcebergCatalogAccess::Plain(catalog) => AccessView::Plain(*catalog),
            IcebergCatalogAccess::Session { catalog, context } => AccessView::Session {
                catalog: *catalog,
                context: context@,
            },
        }
    }
}

/// An operation together with the catalog interface that it goes to.
#[allow(inconsistent_fields)]
pub enum CatalogCall<C: ?Sized, S: ?Sized, O> {
    /// The operation goes to a catalog that knows no sessions.
    Plain {
        /// The catalog.
        catalog: Arc<C>,
        /// What is asked of it.
        operation: O,
    },
    /// The operation goes to a session catalog, under a context.
    Session {
        /// The catalog.
        catalog: Arc<S>,
        /// The context.
        context: Arc<SessionContext>,
        /// What is asked of it.
        operation: O,
    },
}

/// What a [`CatalogCall`] says.
pub struct CallView<C: ?Sized, S: ?Sized, O> {
    /// Where the operation goes.
    pub access: AccessView<C, S>,
    /// What is asked.
    pub operation: O,
}

impl<C: ?Sized, S: ?Sized, O> View for CatalogCall<C, S, O> {
    type V = CallView<C, S, O>;

    open spec fn view(&self) -> CallView<C, S, O> {
        match *self {
            CatalogCall::Plain { catalog, operation } => CallView {
                access: AccessView::Plain(catalog),
                operation,
            },
            CatalogCall::Session { catalog, context, operation } => CallView {
                access: AccessView::Session { catalog, context: context@ },
                operation,
            },
        }
    }
}

impl<C: ?Sized, S: ?Sized> Clone for IcebergCatalogAccess<C, S> {
    fn clone(&self) -> (res: Self)
        ensures
            res == *self,
    {
        match self {
            IcebergCatalogAccess::Plain(catalog) => IcebergCatalogAccess::Plain(catalog.clone()),
            IcebergCatalogAccess::Session { catalog, context } => IcebergCatalogAccess::Session {
                catalog: catalog.clone(),
                context: context.clone(),
            },
        }
    }
}

impl<C: ?Sized, S: ?Sized> IcebergCatalogAccess<C, S> {
    /// Access to a catalog that knows no sessions.
    pub fn plain(catalog: Arc<C>) -> (res: Self)
        ensures
            res@ == AccessView::<C, S>::Plain(catalog),
    {
        IcebergCatalogAccess::Plain(catalog)
    }

    /// Access to a session catalog under `context`.
    pub fn session(catalog: Arc<S>, context: Arc<SessionContext>) -> (res: Self)
        ensures
            res@ == (AccessView::<C, S>::Session { catalog, context: context@ }),
    {
        IcebergCatalogAccess::Session { catalog, context }
    }

    /// The call that performs `operation`.
    pub fn call<O>(&self, operation: O) -> (res: CatalogCall<C, S, O>)
        ensures
            res@ == (CallView { access: self@, operation }),
    {
        match self {
            IcebergCatalogAccess::Plain(catalog) => CatalogCall::Plain {
                catalog: catalog.clone(),
                operation,
            },
            IcebergCatalogAccess::Session { catalog, context } => CatalogCall::Session {
                catalog: catalog.clone(),
                context: context.clone(),
                operation,
            },
        }
    }

    /// The call that loads the table `ident`.
    pub fn load_table<'a>(&self, ident: &'a TableIdent) -> (res: CatalogCall<C, S, &'a TableIdent>)
        ensures
            res@ == (CallView { access: self@, operation: ident }),
    {
        self.call(ident)
    }

    /// The call that commits `transaction`.
    pub fn commit<T>(&self, transaction: T) -> (res: CatalogCall<C, S, T>)
        ensures
            res@ == (CallView { access: self@, operation: transaction }),
    {
        self.call(transaction)
    }
}

/// An access says which of the two interfaces it goes to, to which catalog, and under
/// which context; and a call says the same of the operation that it carries.
pub proof fn law_calls_go_where_they_say<C: ?Sized, S: ?Sized, O>(
    plain: Arc<C>,
    session: Arc<S>,
    context: Arc<SessionContext>,
    operation: O,
)
    ensures
        IcebergCatalogAccess::<C, S>::Plain(plain)@ == AccessView::<C, S>::Plain(plain),
        (IcebergCatalogAccess::<C, S>::Session { catalog: session, context })@ == (AccessView::<
            C,
            S,
        >::Session { catalog: session, context: context@ }),
        (CatalogCall::<C, S, O>::Plain { catalog: plain, operation })@.access == AccessView::<
            C,
            S,
        >::Plain(plain),
        (CatalogCall::<C, S, O>::Plain { catalog: plain, operation })@.operation == operation,
        (CatalogCall::<C, S, O>::Session { catalog: session, context, operation })@.access == (
        AccessView::<C, S>::Session { catalog: session, context: context@ }),
        (CatalogCall::<C, S, O>::Session { catalog: session, context, operation })@.operation
            == operation,
{
}

} // verus!
