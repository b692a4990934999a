//! Where a table provider has its metadata from, and where its commits go.
use std::sync::Arc;

use vstd::prelude::*;

use crate::catalog_access::{AccessView, CallView, CatalogCall};
use crate::ident::{TableIdent, TableIdentView};
use crate::options::{ContextView, SessionContext};

verus! {

/// The metadata lifetime and commit target for a table provider.
#[allow(inconsistent_fields)]
pub enum IcebergTableSource<C: ?Sized, S: ?Sized, T> {
    /// The table is loaded anew each time it is planned.
    RefreshingCatalog {
        /// The catalog.
        catalog: Arc<C>,
        /// The table.
        table_ident: TableIdent,
    },
    /// The table was loaded once, under a context.
    ResolvedSession {
        /// The catalog.
        catalog: Arc<S>,
        /// The context under which the table was loaded.
        context: Arc<SessionContext>,
        /// The table as it was loaded.
        table: T,
    },
}

/// What an [`IcebergTableSource`] says.
#[allow(inconsistent_fields)]
pub enum SourceView<C: ?Sized, S: ?Sized, T> {
    RefreshingCatalog { catalog: Arc<C>, table_ident: TableIdentView },
    ResolvedSession { catalog: Arc<S>, context: ContextView, table: T },
}

impl<C: ?Sized, S: ?Sized, T> View for IcebergTableSource<C, S, T> {
    type V = SourceView<C, S, T>;

    open spec fn view(&self) -> SourceView<C, S, T> {
        match *self {
            IcebergTableSource::RefreshingCatalog {
                catalog,
                table_ident,
            } => SourceView::RefreshingCatalog { catalog, table_ident: table_ident@ },
            IcebergTableSource::ResolvedSession {
                catalog,
                context,
                table,
            } => SourceView::ResolvedSession { catalog, context: context@, table },
        }
    }
}

impl<C: ?Sized, S: ?Sized, T> SourceView<C, S, T> {
    /// Where commits go.
    pub open spec fn target(self) -> AccessView<C, S> {
        match self {
            SourceView::RefreshingCatalog { catalog, .. } => AccessView::Plain(catalog),
            SourceView::ResolvedSession { catalog, context, .. } => AccessView::Session {
                catalog,
                context,
            },
        }
    }
}

/// How to come by the table that is planned.
pub enum PlanningTable<'a, C: ?Sized, T> {
    /// Load it from the catalog.
    Load {
        /// The catalog.
        catalog: Arc<C>,
        /// The table.
        table_ident: &'a TableIdent,
    },
    /// It is here.
    Resolved(&'a T),
}

/// What a [`PlanningTable`] says.
pub enum PlanningView<C: ?Sized, T> {
    Load { catalog: Arc<C>, table_ident: TableIdentView },
    Resolved(T),
}

impl<'a, C: ?Sized, T> View for PlanningTable<'a, C, T> {
    type V = PlanningView<C, T>;

    open spec fn view(&self) -> PlanningView<C, T> {
        match *self {
            PlanningTable::Load { catalog, table_ident } => PlanningView::Load {
                catalog,
                table_ident: table_ident@,
            },
            PlanningTable::Resolved(table) => PlanningView::Resolved(*table),
        }
    }
}

impl<C: ?Sized, S: ?Sized, T> SourceView<C, S, T> {
    /// How to come by the table that is planned.
    pub open spec fn planning(self) -> PlanningView<C, T> {
        match self {
            SourceView::RefreshingCatalog { catalog, table_ident } => PlanningView::Load {
                catalog,
                table_ident,
            },
            SourceView::ResolvedSession { table, .. } => PlanningView::Resolved(table),
        }
    }
}

impl<C: ?Sized, S: ?Sized, T> IcebergTableSource<C, S, T> {
    /// A source that loads the table each time it is planned.
    pub fn refreshing(catalog: Arc<C>, table_ident: TableIdent) -> (res: Self)
        ensures
            res@ == (SourceView::<C, S, T>::RefreshingCatalog {
                catalog,
                table_ident: table_ident@,
            }),
    {
        IcebergTableSource::RefreshingCatalog { catalog, table_ident }
    }

    /// A source with the table as it was loaded under `context`.
    pub fn resolved_session(catalog: Arc<S>, context: Arc<SessionContext>, table: T) -> (res: Self)
        ensures
            res@ == (SourceView::<C, S, T>::ResolvedSession { catalog, context: context@, table }),
    {
        IcebergTableSource::ResolvedSession { catalog, context, table }
    }

    /// How to come by the table that is planned: by loading it, or, where it
    /// was loaded already, at once.
    pub fn table_for_planning(&self) -> (res: PlanningTable<'_, C, T>)
        ensures
            res@ == self@.planning(),
    {
        match self {
            IcebergTableSource::RefreshingCatalog {
                catalog,
                table_ident,
            } => PlanningTable::Load { catalog: catalog.clone(), table_ident },
            IcebergTableSource::ResolvedSession { table, .. } => PlanningTable::Resolved(table),
        }
    }

    /// The call that commits `transaction`: on the catalog that the table comes
    /// from and, for a table loaded under a context, under that context.
    pub fn commit<X>(&self, transaction: X) -> (res: CatalogCall<C, S, X>)
        ensures
            res@ == (CallView { access: self@.target(), operation: transaction }),
    {
        match self {
            IcebergTableSource::RefreshingCatalog { catalog, .. } => CatalogCall::Plain {
                catalog: catalog.clone(),
                operation: transaction,
            },
            IcebergTableSource::ResolvedSession { catalog, context, .. } => CatalogCall::Session {
                catalog: catalog.clone(),
                context: context.clone(),
                operation: transaction,
            },
        }
    }
}

impl<C: ?Sized, S: ?Sized, T: Clone> Clone for IcebergTableSource<C, S, T> {
    /// The same source, with a clone of the table where it holds one.
    fn clone(&self) -> (res: Self)
        ensures
            match (self@, res@) {
                (
                    SourceView::ResolvedSession { catalog, context, table },
                    SourceView::ResolvedSession {
                        catalog: same_catalog,
                        context: same_context,
                        table: copy,
                    },
                ) => {
                    &&& same_catalog == catalog
                    &&& same_context == context
                    &&& cloned(table, copy)
                },
                (
                    SourceView::RefreshingCatalog { .. },
                    SourceView::RefreshingCatalog { .. },
                ) => res@ == self@,
                _ => false,
            },
    {
        match self {
            IcebergTableSource::RefreshingCatalog {
                catalog,
                table_ident,
            } => IcebergTableSource::RefreshingCatalog {
                catalog: catalog.clone(),
                table_ident: table_ident.clone(),
            },
            IcebergTableSource::ResolvedSession {
                catalog,
                context,
                table,
            } => IcebergTableSource::ResolvedSession {
                catalog: catalog.clone(),
                context: context.clone(),
                table: table.clone(),
            },
        }
    }
}

/// A table that was loaded under a context is planned as it was loaded, without
/// a call on the catalog; one that was not is loaded each time.
pub proof fn law_resolved_tables_are_not_reloaded<C: ?Sized, S: ?Sized, T>(
    source: SourceView<C, S, T>,
)
    ensures
        source.planning() is Resolved <==> source is ResolvedSession,
        source matches SourceView::ResolvedSession { table, .. } ==> source.planning()
            == PlanningView::<C, T>::Resolved(table),
{
}

/// A refreshing source loads its own table from its own catalog each time, and commits
/// to that catalog without a context.
pub proof fn law_refreshing_sources<C: ?Sized, S: ?Sized, T>(
    catalog: Arc<C>,
    table_ident: TableIdent,
)
    ensures
        ({
            let source = IcebergTableSource::<C, S, T>::RefreshingCatalog { catalog, table_ident };
            &&& source@.planning() == (PlanningView::<C, T>::Load {
                catalog,
                table_ident: TableIdentView {
                    namespace: table_ident.namespace@,
                    name: table_ident.name@,
                },
            })
            &&& source@.target() == AccessView::<C, S>::Plain(catalog)
            &&& source@ == (SourceView::<C, S, T>::RefreshingCatalog {
                catalog,
                table_ident: table_ident@,
            })
        }),
{
}

/// A resolved source gives the table that it was made with, and commits to the catalog
/// that the table came from, under the context that it was loaded under.
pub proof fn law_resolved_sources<C: ?Sized, S: ?Sized, T>(
    catalog: Arc<S>,
    context: Arc<SessionContext>,
    table: T,
)
    ensures
        ({
            let source = IcebergTableSource::<C, S, T>::ResolvedSession { catalog, context, table };
            &&& source@.planning() == PlanningView::<C, T>::Resolved(table)
            &&& source@.target() == (AccessView::<C, S>::Session { catalog, context: context@ })
            &&& source@ == (SourceView::<C, S, T>::ResolvedSession {
                catalog,
                context: context@,
                table,
            })
        }),
{
}

/// How to come by a table says the catalog and the table to load, or the table itself.
pub proof fn law_planning_says_what_it_holds<'a, C: ?Sized, T>(planning: PlanningTable<'a, C, T>)
    ensures
        match planning {
            PlanningTable::Load { catalog, table_ident } => planning@ == (PlanningView::<
                C,
                T,
            >::Load {
                catalog,
                table_ident: TableIdentView {
                    namespace: table_ident.namespace@,
                    name: table_ident.name@,
                },
            }),
            PlanningTable::Resolved(table) => planning@ == PlanningView::<C, T>::Resolved(*table),
        },
{
}

} // verus!
