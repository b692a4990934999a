//! What a table provider is made of.
use std::sync::Arc;

use vstd::prelude::*;

use crate::ident::{TableIdent, TableIdentView};

verus! {

/// A table provider to be loaded.
pub struct TableProviderRequest<C: ?Sized, R: ?Sized> {
    /// The catalog to load the table from.
    pub catalog: Arc<C>,
    /// The table.
    pub ident: TableIdent,
    /// The runtime that the provider works on, where one was chosen.
    pub runtime: Option<Arc<R>>,
}

/// What a [`TableProviderRequest`] says.
pub struct RequestView<C: ?Sized, R: ?Sized> {
    pub catalog: Arc<C>,
    pub ident: TableIdentView,
    pub runtime: Option<Arc<R>>,
}

impl<C: ?Sized, R: ?Sized> View for TableProviderRequest<C, R> {
    type V = RequestView<C, R>;

    open spec fn view(&self) -> RequestView<C, R> {
        RequestView { catalog: self.catalog, ident: self.ident@, runtime: self.runtime }
    }
}

/// Another hold on the same runtime.
pub(crate) fn share<R: ?Sized>(runtime: &Option<Arc<R>>) -> (res: Option<Arc<R>>)
    ensures
        res == *runtime,
{
    match runtime {
        Some(runtime) => Some(runtime.clone()),
        None => None,
    }
}

/// A request says what it holds.
pub proof fn law_requests_say_what_they_hold<C: ?Sized, R: ?Sized>(
    request: TableProviderRequest<C, R>,
)
    ensures
        request@.catalog == request.catalog,
        request@.runtime == request.runtime,
        request@.ident.namespace == request.ident.namespace@,
        request@.ident.name == request.ident.name@,
{
}

} // verus!
