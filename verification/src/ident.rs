//! Names of namespaces and tables.
use vstd::prelude::*;

use crate::error::{Error, ErrorKind, ErrorView};
use crate::text;

verus! {

/// The name of a namespace: one or more parts, the outermost first.
#[derive(Debug, PartialEq, Eq)]
pub struct NamespaceIdent {
    parts: Vec<String>,
}

impl View for NamespaceIdent {
    type V = Seq<Seq<char>>;

    closed spec fn view(&self) -> Seq<Seq<char>> {
        text::texts(self.parts@)
    }
}

/// A namespace as one text: its parts with dots between them.
pub open spec fn dotted(parts: Seq<Seq<char>>) -> Seq<char> {
    text::joined(parts, "."@)
}

impl NamespaceIdent {
    #[verifier::type_invariant]
    spec fn has_parts(self) -> bool {
        self.parts@.len() > 0
    }

    /// The namespace of one part.
    pub fn new(name: String) -> (res: Self)
        ensures
            res@ == seq![name@],
    {
        let mut parts: Vec<String> = Vec::new();
        parts.push(name);
        assert(text::texts(parts@) =~= seq![name@]);
        NamespaceIdent { parts }
    }

    /// The namespace of these parts, of which there must be at least one.
    pub fn from_strs(parts: Vec<String>) -> (res: Result<Self, Error>)
        ensures
            match res {
                Ok(ident) => parts@.len() > 0 && ident@ == text::texts(parts@),
                Err(error) => {
                    &&& parts@.len() == 0
                    &&& error@ == (ErrorView {
                        kind: ErrorKind::DataInvalid,
                        message: "Namespace identifier can't be empty!"@,
                    })
                },
            },
    {
        if parts.len() == 0 {
            return Err(
                Error::new(
                    ErrorKind::DataInvalid,
                    "Namespace identifier can't be empty!".to_string(),
                ),
            );
        }
        Ok(NamespaceIdent { parts })
    }

    /// The parts of the namespace.
    pub fn parts(&self) -> (res: &Vec<String>)
        ensures
            text::texts(res@) == self@,
            res@.len() > 0,
    {
        proof {
            use_type_invariant(self);
        }
        &self.parts
    }

    /// The namespace as one text.
    pub fn to_text(&self) -> (res: String)
        ensures
            res@ == dotted(self@),
    {
        text::join(&self.parts, ".")
    }
}

impl Clone for NamespaceIdent {
    fn clone(&self) -> (res: Self)
        ensures
            res@ == self@,
    {
        proof {
            use_type_invariant(self);
        }
        let parts: Vec<String> = self.parts.clone();
        assert(text::texts(parts@) =~= text::texts(self.parts@));
        NamespaceIdent { parts }
    }
}

/// The name of a table or of a view.
#[derive(Debug, PartialEq, Eq)]
pub struct TableIdent {
    /// The namespace that the table stands in.
    pub namespace: NamespaceIdent,
    /// The name within the namespace.
    pub name: String,
}

/// What a [`TableIdent`] says.
pub struct TableIdentView {
    pub namespace: Seq<Seq<char>>,
    pub name: Seq<char>,
}

impl View for TableIdent {
    type V = TableIdentView;

    open spec fn view(&self) -> TableIdentView {
        TableIdentView { namespace: self.namespace@, name: self.name@ }
    }
}

/// A table's name as one text.
pub open spec fn ident_text(ident: TableIdentView) -> Seq<char> {
    dotted(ident.namespace) + "."@ + ident.name
}

impl TableIdent {
    /// The table `name` of `namespace`.
    pub fn new(namespace: NamespaceIdent, name: String) -> (res: Self)
        ensures
            res.namespace == namespace,
            res.name == name,
    {
        TableIdent { namespace, name }
    }

    /// The name within the namespace.
    pub fn name(&self) -> (res: &str)
        ensures
            res@ == self.name@,
    {
        self.name.as_str()
    }

    /// The table's name as one text.
    pub fn to_text(&self) -> (res: String)
        ensures
            res@ == ident_text(self@),
    {
        let namespace: String = self.namespace.to_text();
        text::glue(namespace.as_str(), ".", self.name.as_str())
    }
}

impl Clone for TableIdent {
    fn clone(&self) -> (res: Self)
        ensures
            res@ == self@,
    {
        TableIdent { namespace: self.namespace.clone(), name: self.name.clone() }
    }
}

/// A namespace of one part is written as that part, and each further part comes
/// behind a dot; so does the table's name behind its namespace.
pub proof fn law_names_are_dotted(parts: Seq<Seq<char>>, part: Seq<char>, ident: TableIdent)
    ensures
        dotted(seq![part]) == part,
        parts.len() > 0 ==> dotted(parts.push(part)) == dotted(parts) + "."@ + part,
        ident@.namespace == ident.namespace@,
        ident@.name == ident.name@,
        ident.namespace@.len() > 0 ==> ident_text(ident@) == dotted(
            ident.namespace@.push(ident.name@),
        ),
        ident_text(ident@) == dotted(ident.namespace@) + "."@ + ident.name@,
{
    text::law_joined(parts, part, "."@);
    text::law_joined(ident.namespace@, ident.name@, "."@);
}

} // verus!
