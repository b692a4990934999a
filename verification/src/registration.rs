//! The steps by which a table is registered with a catalog.
use std::sync::Arc;

use vstd::prelude::*;

use crate::error::{Error, ErrorKind, ErrorView};
use crate::ident::{TableIdent, TableIdentView};
use crate::provider_request;
use crate::provider_request::{RequestView, TableProviderRequest};

verus! {

/// What was read of a table that is to be registered.
#[derive(Debug)]
pub enum TableScan {
    /// The scan could not be planned, for this reason.
    ScanFailed(String),
    /// The scan could not be started, for this reason.
    ExecutionFailed(String),
    /// The batches that came of every partition: of each the number of its rows,
    /// or the reason why it could not be read.
    Batches(Vec<Result<usize, String>>),
}

/// An unexpected error with this message.
pub open spec fn unexpected(message: Seq<char>) -> ErrorView {
    ErrorView { kind: ErrorKind::Unexpected, message }
}

/// A batch with rows.
pub open spec fn has_rows(batch: Result<usize, String>) -> bool {
    batch matches Ok(rows) && rows > 0
}

impl TableScan {
    /// The scan shows rows.
    pub open spec fn shows_rows(self) -> bool {
        self matches TableScan::Batches(batches) && exists|i: int|
            0 <= i < batches@.len() && has_rows(#[trigger] batches@[i])
    }

    /// Why the table must not be registered.
    pub open spec fn objection(self) -> Option<ErrorView> {
        match self {
            TableScan::ScanFailed(reason) => Some(unexpected("Failed to scan table: "@ + reason@)),
            TableScan::ExecutionFailed(reason) => Some(
                unexpected("Failed to execute scan: "@ + reason@),
            ),
            TableScan::Batches(_) => if self.shows_rows() {
                Some(unexpected("register_table does not support tables with data."@))
            } else {
                None
            },
        }
    }
}

/// Whether a batch with rows is among `batches`. One that could not be read
/// does not count.
fn any_rows(batches: &Vec<Result<usize, String>>) -> (res: bool)
    ensures
        res == exists|i: int| 0 <= i < batches@.len() && has_rows(#[trigger] batches@[i]),
{
    let mut i: usize = 0;
    while i < batches.len()
        invariant
            i <= batches.len(),
            forall|j: int| 0 <= j < i ==> !has_rows(#[trigger] batches@[j]),
        decreases batches.len() - i,
    {
        if let Ok(rows) = &batches[i] {
            if *rows > 0 {
                assert(has_rows(batches@[i as int]));
                return true;
            }
        }
        i = i + 1;
    }
    false
}

/// Refuses a table with rows, and one whose scan cannot be planned or started. A
/// batch that cannot be read is passed over.
pub fn ensure_table_is_empty(scan: &TableScan) -> (res: Result<(), Error>)
    ensures
        match res {
            Ok(()) => scan.objection() is None,
            Err(error) => scan.objection() == Some(error@),
        },
{
    match scan {
        TableScan::ScanFailed(reason) => {
            let mut message: String = "Failed to scan table: ".to_string();
            message.append(reason.as_str());
            Err(Error::new(ErrorKind::Unexpected, message))
        },
        TableScan::ExecutionFailed(reason) => {
            let mut message: String = "Failed to execute scan: ".to_string();
            message.append(reason.as_str());
            Err(Error::new(ErrorKind::Unexpected, message))
        },
        TableScan::Batches(batches) => {
            if any_rows(batches) {
                let message: String = "register_table does not support tables with data.".to_string();
                return Err(Error::new(ErrorKind::Unexpected, message));
            }
            Ok(())
        },
    }
}

/// What has to be done next to register a table.
#[derive(Clone, Copy, Debug, PartialEq, Eq, Structural)]
pub enum RegistrationStep {
    /// Convert the table's schema to one of the catalog.
    ConvertSchema,
    /// Scan every partition of the table for one row.
    CheckEmpty,
    /// Create the table in the catalog.
    CreateTable,
    /// Load a provider for the table from the catalog.
    LoadProvider,
}

/// How a step of a registration went.
#[derive(Debug)]
pub enum RegistrationEvent {
    /// The schema was converted, or could not be.
    SchemaConverted(Result<(), Error>),
    /// The table was scanned.
    Scanned(TableScan),
    /// The catalog created the table, or refused to.
    TableCreated(Result<(), Error>),
    /// The provider was loaded, or could not be.
    ProviderLoaded(Result<u64, Error>),
    /// The task that does the work was lost, for this reason.
    TaskFailed(String),
}

impl RegistrationEvent {
    /// The event can come of doing `step`.
    pub open spec fn follows(self, step: RegistrationStep) -> bool {
        match self {
            RegistrationEvent::SchemaConverted(_) => step == RegistrationStep::ConvertSchema,
            RegistrationEvent::Scanned(_) => step == RegistrationStep::CheckEmpty,
            RegistrationEvent::TableCreated(_) => step == RegistrationStep::CreateTable,
            RegistrationEvent::ProviderLoaded(_) => step == RegistrationStep::LoadProvider,
            RegistrationEvent::TaskFailed(_) => step != RegistrationStep::ConvertSchema,
        }
    }
}

/// A table that is being registered.
pub struct Registration<C: ?Sized, R: ?Sized> {
    catalog: Arc<C>,
    ident: TableIdent,
    runtime: Option<Arc<R>>,
    step: RegistrationStep,
}

/// What a [`Registration`] says.
pub struct RegistrationView<C: ?Sized, R: ?Sized> {
    /// The table, with the catalog that it goes into and the runtime that its
    /// provider is to work on.
    pub table: RequestView<C, R>,
    /// What has to be done next.
    pub step: RegistrationStep,
}

impl<C: ?Sized, R: ?Sized> View for Registration<C, R> {
    type V = RegistrationView<C, R>;

    closed spec fn view(&self) -> RegistrationView<C, R> {
        RegistrationView {
            table: RequestView {
                catalog: self.catalog,
                ident: self.ident@,
                runtime: self.runtime,
            },
            step: self.step,
        }
    }
}

impl<C: ?Sized, R: ?Sized> Registration<C, R> {
    /// A registration of which nothing is done yet.
    pub(crate) fn begin(table: TableProviderRequest<C, R>) -> (res: Self)
        ensures
            res@ == (RegistrationView {
                table: table@,
                step: RegistrationStep::ConvertSchema,
            }),
    {
        Registration {
            catalog: table.catalog,
            ident: table.ident,
            runtime: table.runtime,
            step: RegistrationStep::ConvertSchema,
        }
    }

    /// The same registration at another step.
    pub(crate) fn at(self, step: RegistrationStep) -> (res: Self)
        ensures
            res@ == (RegistrationView { step, ..self@ }),
    {
        Registration { step, ..self }
    }

    /// The catalog in which the table is created.
    pub fn catalog(&self) -> (res: &Arc<C>)
        ensures
            *res == self@.table.catalog,
    {
        &self.catalog
    }

    /// The table that is registered.
    pub fn table_ident(&self) -> (res: &TableIdent)
        ensures
            res@ == self@.table.ident,
    {
        &self.ident
    }

    /// The provider that has to be loaded once the table is created.
    pub fn provider_request(&self) -> (res: TableProviderRequest<C, R>)
        ensures
            res@ == self@.table,
    {
        TableProviderRequest {
            catalog: self.catalog.clone(),
            ident: self.ident.clone(),
            runtime: provider_request::share(&self.runtime),
        }
    }

    /// What has to be done next.
    pub fn step(&self) -> (res: RegistrationStep)
        ensures
            res == self@.step,
    {
        self.step
    }
}

/// How dropping a table went.
#[derive(Debug)]
pub enum DropOutcome {
    /// The catalog dropped the table.
    Dropped,
    /// The catalog refused to.
    Refused(Error),
    /// The task that does the work was lost, for this reason.
    TaskFailed(String),
}

/// A batch with rows is objected to wherever it stands, whatever the others are.
pub proof fn law_rows_anywhere_are_refused(batches: Vec<Result<usize, String>>, i: int, rows: usize)
    requires
        0 <= i < batches@.len(),
        batches@[i] == Ok::<usize, String>(rows),
        rows > 0,
    ensures
        TableScan::Batches(batches).objection() == Some(
            ErrorView {
                kind: ErrorKind::Unexpected,
                message: "register_table does not support tables with data."@,
            },
        ),
        TableScan::Batches(batches).shows_rows(),
{
    let scan = TableScan::Batches(batches);
    assert(scan->Batches_0@[i] == batches@[i]);
    assert(has_rows(batches@[i]));
    assert(scan.shows_rows());
}

/// Nothing is objected to where every batch that was read is empty, however many came
/// and however many could not be read.
pub proof fn law_empty_batches_pass(batches: Vec<Result<usize, String>>)
    requires
        forall|i: int|
            0 <= i < batches@.len() ==> #[trigger] batches@[i] == Ok::<usize, String>(0)
                || batches@[i] is Err,
    ensures
        TableScan::Batches(batches).objection() is None,
        !TableScan::Batches(batches).shows_rows(),
{
}

/// A scan that could not be planned or started is objected to, with its reason.
pub proof fn law_failed_scans_are_refused(reason: String)
    ensures
        TableScan::ScanFailed(reason).objection() == Some(
            ErrorView {
                kind: ErrorKind::Unexpected,
                message: "Failed to scan table: "@ + reason@,
            },
        ),
        TableScan::ExecutionFailed(reason).objection() == Some(
            ErrorView {
                kind: ErrorKind::Unexpected,
                message: "Failed to execute scan: "@ + reason@,
            },
        ),
{
}

/// Each outcome can come of the step that it is the outcome of, and of no other; a
/// task can be lost at every step that is done in one.
pub proof fn law_registration_outcomes(
    step: RegistrationStep,
    done: Result<(), Error>,
    scan: TableScan,
    loaded: Result<u64, Error>,
    reason: String,
)
    ensures
        RegistrationEvent::SchemaConverted(done).follows(step) <==> step
            == RegistrationStep::ConvertSchema,
        RegistrationEvent::Scanned(scan).follows(step) <==> step == RegistrationStep::CheckEmpty,
        RegistrationEvent::TableCreated(done).follows(step) <==> step
            == RegistrationStep::CreateTable,
        RegistrationEvent::ProviderLoaded(loaded).follows(step) <==> step
            == RegistrationStep::LoadProvider,
        RegistrationEvent::TaskFailed(reason).follows(step) <==> step
            != RegistrationStep::ConvertSchema,
{
}

} // verus!
