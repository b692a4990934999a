//! Views of a catalog.
use std::collections::HashMap;
use std::sync::Arc;

use vstd::prelude::*;
use vstd::view::View as _;

use crate::error::{Error, ErrorKind, ErrorView};
use crate::ident;
use crate::ident::{NamespaceIdent, TableIdent, TableIdentView};
use crate::text;

verus! {

/// A column of a schema.
#[derive(Debug, PartialEq, Eq)]
pub struct SchemaField {
    /// The number by which the column is known.
    pub id: i32,
    /// The column's name.
    pub name: String,
    /// Whether every row has a value for it.
    pub required: bool,
    /// The type of its values, by name.
    pub field_type: String,
}

/// A schema: the columns in order.
#[derive(Debug, PartialEq, Eq)]
pub struct Schema {
    /// The number by which the schema is known.
    pub schema_id: i32,
    /// The columns.
    pub fields: Vec<SchemaField>,
}

/// A shared schema.
pub type SchemaRef = Arc<Schema>;

/// The query of a view, in one dialect of SQL.
#[derive(Debug, PartialEq, Eq)]
pub struct SqlViewRepresentation {
    /// The query.
    pub sql: String,
    /// The dialect that it is written in.
    pub dialect: String,
}

/// One way in which a view is given.
#[derive(Debug, PartialEq, Eq)]
pub enum ViewRepresentation {
    /// As a query.
    Sql(SqlViewRepresentation),
}

/// A version of a view.
#[derive(Debug, PartialEq, Eq)]
pub struct ViewVersion {
    /// The catalog in which names of the query are looked up that name none.
    pub default_catalog: Option<String>,
    /// The namespace in which names of the query are looked up that name none.
    pub default_namespace: NamespaceIdent,
    /// The ways in which the view is given.
    pub representations: Vec<ViewRepresentation>,
}

/// A shared version.
pub type ViewVersionRef = Arc<ViewVersion>;

/// The metadata of a view.
#[derive(Debug, PartialEq, Eq)]
pub struct ViewMetadata {
    /// The view's base location.
    pub location: String,
    /// The current version.
    pub current_version: ViewVersionRef,
    /// The schema of the current version.
    pub current_schema: SchemaRef,
    /// The properties.
    pub properties: HashMap<String, String>,
}

/// Shared metadata.
pub type ViewMetadataRef = Arc<ViewMetadata>;

/// Builder to create a [`View`].
pub struct ViewBuilder {
    metadata_location: Option<String>,
    metadata: Option<ViewMetadataRef>,
    identifier: Option<TableIdent>,
}

/// What a [`ViewBuilder`] was given.
pub struct ViewBuilderView {
    pub metadata_location: Option<Seq<char>>,
    pub metadata: Option<ViewMetadataRef>,
    pub identifier: Option<TableIdentView>,
}

impl vstd::view::View for ViewBuilder {
    type V = ViewBuilderView;

    closed spec fn view(&self) -> ViewBuilderView {
        ViewBuilderView {
            metadata_location: text::optional(self.metadata_location),
            metadata: self.metadata,
            identifier: match self.identifier {
                Some(identifier) => Some(identifier@),
                None => None,
            },
        }
    }
}

/// Invalid data, with this message.
pub open spec fn invalid(message: Seq<char>) -> ErrorView {
    ErrorView { kind: ErrorKind::DataInvalid, message }
}

impl ViewBuilder {
    /// A builder that was given nothing yet.
    pub fn new() -> (res: Self)
        ensures
            res@ == (ViewBuilderView { metadata_location: None, metadata: None, identifier: None }),
    {
        ViewBuilder { metadata_location: None, metadata: None, identifier: None }
    }

    /// Sets the view metadata location.
    pub fn metadata_location(self, metadata_location: String) -> (res: Self)
        ensures
            res@ == (ViewBuilderView { metadata_location: Some(metadata_location@), ..self@ }),
    {
        ViewBuilder { metadata_location: Some(metadata_location), ..self }
    }

    /// Sets the view metadata.
    pub fn metadata(self, metadata: ViewMetadataRef) -> (res: Self)
        ensures
            res@ == (ViewBuilderView { metadata: Some(metadata), ..self@ }),
    {
        ViewBuilder { metadata: Some(metadata), ..self }
    }

    /// Sets the view identifier.
    pub fn identifier(self, identifier: TableIdent) -> (res: Self)
        ensures
            res@ == (ViewBuilderView { identifier: Some(identifier@), ..self@ }),
    {
        ViewBuilder { identifier: Some(identifier), ..self }
    }

    /// Builds the view.
    ///
    /// The metadata and the identifier must have been given; metadata is asked
    /// for first.
    pub fn build(self) -> (res: Result<View, Error>)
        ensures
            match res {
                Ok(view) => {
                    &&& self@.metadata == Some(view@.metadata)
                    &&& self@.identifier == Some(view@.identifier)
                    &&& view@.metadata_location == self@.metadata_location
                },
                Err(error) => if self@.metadata is None {
                    error@ == invalid("ViewMetadata must be provided with ViewBuilder.metadata()"@)
                } else {
                    &&& self@.identifier is None
                    &&& error@ == invalid(
                        "TableIdent must be provided with ViewBuilder.identifier()"@,
                    )
                },
            },
    {
        let metadata: ViewMetadataRef = match self.metadata {
            Some(metadata) => metadata,
            None => {
                return Err(
                    Error::new(
                        ErrorKind::DataInvalid,
                        "ViewMetadata must be provided with ViewBuilder.metadata()".to_string(),
                    ),
                );
            },
        };
        let identifier: TableIdent = match self.identifier {
            Some(identifier) => identifier,
            None => {
                return Err(
                    Error::new(
                        ErrorKind::DataInvalid,
                        "TableIdent must be provided with ViewBuilder.identifier()".to_string(),
                    ),
                );
            },
        };
        Ok(View { metadata_location: self.metadata_location, metadata, identifier })
    }
}

/// A logical view loaded from a catalog.
#[derive(Debug)]
pub struct View {
    metadata_location: Option<String>,
    metadata: ViewMetadataRef,
    identifier: TableIdent,
}

/// What a [`View`] holds.
pub struct LoadedView {
    pub metadata_location: Option<Seq<char>>,
    pub metadata: ViewMetadataRef,
    pub identifier: TableIdentView,
}

impl vstd::view::View for View {
    type V = LoadedView;

    closed spec fn view(&self) -> LoadedView {
        LoadedView {
            metadata_location: text::optional(self.metadata_location),
            metadata: self.metadata,
            identifier: self.identifier@,
        }
    }
}

/// What `str::to_lowercase` makes of a text.
pub uninterp spec fn lowercase(text: Seq<char>) -> Seq<char>;

/// `str::to_lowercase`: the text in lower case as Unicode defines it, which
/// depends on the text alone.
#[verifier::external_body]
fn lowered(text: &str) -> (res: String)
    ensures
        res@ == lowercase(text@),
{
    text.to_lowercase()
}

/// The query that a representation holds.
pub open spec fn query_of(representation: ViewRepresentation) -> SqlViewRepresentation {
    match representation {
        ViewRepresentation::Sql(sql) => sql,
    }
}

/// The first query in `dialect`, whatever the case of either name.
pub open spec fn first_in_dialect(
    representations: Seq<ViewRepresentation>,
    dialect: Seq<char>,
) -> Option<SqlViewRepresentation>
    decreases representations.len(),
{
    if representations.len() == 0 {
        None
    } else if lowercase(query_of(representations[0]).dialect@) == lowercase(dialect) {
        Some(query_of(representations[0]))
    } else {
        first_in_dialect(representations.drop_first(), dialect)
    }
}

/// The query found in a dialect is the one at the first place where the dialect
/// is this one; none is found where there is no such place.
pub proof fn law_first_query_in_dialect(
    representations: Seq<ViewRepresentation>,
    dialect: Seq<char>,
    place: int,
)
    requires
        0 <= place <= representations.len(),
        forall|j: int|
            0 <= j < place ==> lowercase(query_of(#[trigger] representations[j]).dialect@)
                != lowercase(dialect),
        place < representations.len() ==> lowercase(query_of(representations[place]).dialect@)
            == lowercase(dialect),
    ensures
        first_in_dialect(representations, dialect) == if place < representations.len() {
            Some(query_of(representations[place]))
        } else {
            None
        },
    decreases place,
{
    if place > 0 {
        let tail = representations.drop_first();
        assert(lowercase(query_of(representations[0]).dialect@) != lowercase(dialect));
        assert forall|j: int| 0 <= j < place - 1 implies lowercase(
            query_of(#[trigger] tail[j]).dialect@,
        ) != lowercase(dialect) by {
            assert(tail[j] == representations[j + 1]);
        }
        law_first_query_in_dialect(tail, dialect, place - 1);
    }
}

/// A dialect is found whatever the case in which it is written.
pub proof fn law_dialects_ignore_case(
    representations: Seq<ViewRepresentation>,
    dialect: Seq<char>,
    other: Seq<char>,
)
    requires
        lowercase(dialect) == lowercase(other),
    ensures
        first_in_dialect(representations, dialect) == first_in_dialect(representations, other),
    decreases representations.len(),
{
    if representations.len() > 0 {
        law_dialects_ignore_case(representations.drop_first(), dialect, other);
    }
}

/// The first place of `text` in `list`.
pub fn first_match(list: &Vec<String>, text: &str) -> (res: Option<usize>)
    ensures
        match res {
            Some(place) => {
                &&& place < list@.len()
                &&& list@[place as int]@ == text@
                &&& forall|j: int| 0 <= j < place ==> (#[trigger] list@[j])@ != text@
            },
            None => forall|j: int| 0 <= j < list@.len() ==> (#[trigger] list@[j])@ != text@,
        },
{
    let mut i: usize = 0;
    while i < list.len()
        invariant
            i <= list.len(),
            forall|j: int| 0 <= j < i ==> (#[trigger] list@[j])@ != text@,
        decreases list.len() - i,
    {
        if text::same_text(list[i].as_str(), text) {
            return Some(i);
        }
        i = i + 1;
    }
    None
}

/// The dialects of the queries, in lower case.
fn lowered_dialects(representations: &Vec<ViewRepresentation>) -> (res: Vec<String>)
    ensures
        res@.len() == representations@.len(),
        forall|j: int|
            #![trigger res@[j]]
            #![trigger representations@[j]]
            0 <= j < res@.len() ==> res@[j]@ == lowercase(query_of(representations@[j]).dialect@),
{
    let mut res: Vec<String> = Vec::new();
    let mut i: usize = 0;
    while i < representations.len()
        invariant
            i <= representations.len(),
            res@.len() == i,
            forall|j: int|
                0 <= j < i ==> (#[trigger] res@[j])@ == lowercase(
                    query_of(representations@[j]).dialect@,
                ),
        decreases representations.len() - i,
    {
        let ViewRepresentation::Sql(sql) = &representations[i];
        res.push(lowered(sql.dialect.as_str()));
        i = i + 1;
    }
    res
}

impl Clone for View {
    fn clone(&self) -> (res: Self)
        ensures
            res@ == self@,
    {
        View {
            metadata_location: self.metadata_location.clone(),
            metadata: self.metadata.clone(),
            identifier: self.identifier.clone(),
        }
    }
}

impl View {
    /// Returns a builder to build a view.
    pub fn builder() -> (res: ViewBuilder)
        ensures
            res@ == (ViewBuilderView { metadata_location: None, metadata: None, identifier: None }),
    {
        ViewBuilder::new()
    }

    /// Returns the view identifier.
    pub fn identifier(&self) -> (res: &TableIdent)
        ensures
            res@ == self@.identifier,
    {
        &self.identifier
    }

    /// Returns current metadata.
    pub fn metadata(&self) -> (res: &ViewMetadata)
        ensures
            *res == *self@.metadata,
    {
        &*self.metadata
    }

    /// Returns current metadata ref.
    pub fn metadata_ref(&self) -> (res: ViewMetadataRef)
        ensures
            res == self@.metadata,
    {
        self.metadata.clone()
    }

    /// Returns current metadata location.
    pub fn metadata_location(&self) -> (res: Option<&str>)
        ensures
            match res {
                Some(location) => self@.metadata_location == Some(location@),
                None => self@.metadata_location is None,
            },
    {
        match &self.metadata_location {
            Some(location) => Some(location.as_str()),
            None => None,
        }
    }

    /// Returns current metadata location in a result.
    pub fn metadata_location_result(&self) -> (res: Result<&str, Error>)
        ensures
            match res {
                Ok(location) => self@.metadata_location == Some(location@),
                Err(error) => {
                    &&& self@.metadata_location is None
                    &&& error@ == invalid(
                        "Metadata location does not exist for view: "@ + ident::ident_text(
                            self@.identifier,
                        ),
                    )
                },
            },
    {
        match &self.metadata_location {
            Some(location) => Ok(location.as_str()),
            None => {
                let mut message: String = "Metadata location does not exist for view: ".to_string();
                let identifier: String = self.identifier.to_text();
                message.append(identifier.as_str());
                Err(Error::new(ErrorKind::DataInvalid, message))
            },
        }
    }

    /// Returns the current schema of the view.
    pub fn current_schema(&self) -> (res: SchemaRef)
        ensures
            res == self@.metadata.current_schema,
    {
        self.metadata.current_schema.clone()
    }

    /// Returns the current version of the view.
    pub fn current_version(&self) -> (res: &ViewVersionRef)
        ensures
            *res == self@.metadata.current_version,
    {
        &self.metadata.current_version
    }

    /// Returns view properties.
    pub fn properties(&self) -> (res: &HashMap<String, String>)
        ensures
            *res == self@.metadata.properties,
    {
        &self.metadata.properties
    }

    /// Returns the view's base location.
    pub fn location(&self) -> (res: &str)
        ensures
            res@ == self@.metadata.location@,
    {
        self.metadata.location.as_str()
    }

    /// Resolves the SQL representation for the given dialect.
    pub fn sql_for(&self, dialect: &str) -> (res: Option<&SqlViewRepresentation>)
        ensures
            match res {
                Some(sql) => first_in_dialect(
                    self@.metadata.current_version.representations@,
                    dialect@,
                ) == Some(*sql),
                None => first_in_dialect(
                    self@.metadata.current_version.representations@,
                    dialect@,
                ) is None,
            },
    {
        let representations: &Vec<ViewRepresentation> = &self.metadata.current_version.representations;
        let dialects: Vec<String> = lowered_dialects(representations);
        let wanted: String = lowered(dialect);
        match first_match(&dialects, wanted.as_str()) {
            Some(place) => {
                proof {
                    law_first_query_in_dialect(representations@, dialect@, place as int);
                }
                let ViewRepresentation::Sql(sql) = &representations[place];
                Some(sql)
            },
            None => {
                proof {
                    law_first_query_in_dialect(
                        representations@,
                        dialect@,
                        representations@.len() as int,
                    );
                }
                None
            },
        }
    }
}

/// A representation holds the query that it was made with; and invalid data is said with
/// its message.
pub proof fn law_queries_and_objections(sql: SqlViewRepresentation, message: Seq<char>)
    ensures
        query_of(ViewRepresentation::Sql(sql)) == sql,
        invalid(message).kind == ErrorKind::DataInvalid,
        invalid(message).message == message,
{
}

/// A query that is found in a dialect is one of the view's, and is in that dialect.
pub proof fn law_found_queries_are_held(
    representations: Seq<ViewRepresentation>,
    dialect: Seq<char>,
)
    ensures
        match first_in_dialect(representations, dialect) {
            Some(sql) => {
                &&& lowercase(sql.dialect@) == lowercase(dialect)
                &&& exists|i: int|
                    0 <= i < representations.len() && #[trigger] representations[i]
                        == ViewRepresentation::Sql(sql)
            },
            None => forall|i: int|
                0 <= i < representations.len() ==> (#[trigger] representations[i] matches
                    ViewRepresentation::Sql(sql) && lowercase(sql.dialect@) != lowercase(dialect)),
        },
    decreases representations.len(),
{
    if representations.len() > 0 {
        let rest = representations.drop_first();
        law_found_queries_are_held(rest, dialect);
        if lowercase(query_of(representations[0]).dialect@) == lowercase(dialect) {
            assert(representations[0] == ViewRepresentation::Sql(query_of(representations[0])));
        } else {
            match first_in_dialect(rest, dialect) {
                Some(sql) => {
                    let i = choose|i: int|
                        0 <= i < rest.len() && #[trigger] rest[i] == ViewRepresentation::Sql(sql);
                    assert(representations[i + 1] == ViewRepresentation::Sql(sql));
                },
                None => {
                    assert forall|i: int| 0 <= i < representations.len() implies (
                    #[trigger] representations[i] matches ViewRepresentation::Sql(sql) && lowercase(
                        sql.dialect@,
                    ) != lowercase(dialect)) by {
                        if i > 0 {
                            assert(rest[i - 1] == representations[i]);
                        } else {
                            assert(representations[0] == ViewRepresentation::Sql(
                                query_of(representations[0]),
                            ));
                        }
                    }
                },
            }
        }
    }
}

} // verus!
