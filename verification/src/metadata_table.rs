//! The metadata tables that every table has.
use vstd::prelude::*;

use crate::text;

verus! {

/// A kind of metadata table.
#[derive(Clone, Copy, Debug, PartialEq, Eq, Structural)]
pub enum MetadataTableType {
    /// The snapshots of a table.
    Snapshots,
    /// The manifests of a table's current snapshot.
    Manifests,
}

/// The metadata table called `name`.
pub open spec fn metadata_table_named(name: Seq<char>) -> Option<MetadataTableType> {
    if name == "snapshots"@ {
        Some(MetadataTableType::Snapshots)
    } else if name == "manifests"@ {
        Some(MetadataTableType::Manifests)
    } else {
        None
    }
}

/// What is said of a name that no metadata table has.
pub open spec fn unknown_metadata_table(name: Seq<char>) -> Seq<char> {
    "invalid metadata table type: "@ + name
}

impl MetadataTableType {
    /// What the metadata table is called.
    pub open spec fn name(self) -> Seq<char> {
        match self {
            MetadataTableType::Snapshots => "snapshots"@,
            MetadataTableType::Manifests => "manifests"@,
        }
    }

    /// What the metadata table is called.
    pub fn as_str(&self) -> (res: &'static str)
        ensures
            res@ == self.name(),
    {
        match self {
            MetadataTableType::Snapshots => "snapshots",
            MetadataTableType::Manifests => "manifests",
        }
    }

    /// Every kind of metadata table, once.
    pub fn all_types() -> (res: Vec<MetadataTableType>)
        ensures
            res@ == seq![MetadataTableType::Snapshots, MetadataTableType::Manifests],
    {
        let mut res: Vec<MetadataTableType> = Vec::new();
        res.push(MetadataTableType::Snapshots);
        res.push(MetadataTableType::Manifests);
        assert(res@ =~= seq![MetadataTableType::Snapshots, MetadataTableType::Manifests]);
        res
    }

    /// The metadata table called `name`, or what to say if there is none.
    pub fn try_from(name: &str) -> (res: Result<MetadataTableType, String>)
        ensures
            match res {
                Ok(table) => metadata_table_named(name@) == Some(table),
                Err(message) => {
                    &&& metadata_table_named(name@) is None
                    &&& message@ == unknown_metadata_table(name@)
                },
            },
    {
        if text::same_text(name, "snapshots") {
            Ok(MetadataTableType::Snapshots)
        } else if text::same_text(name, "manifests") {
            Ok(MetadataTableType::Manifests)
        } else {
            let message: String = text::glue("invalid metadata table type: ", name, "");
            proof {
                reveal_strlit("");
                assert(message@ =~= unknown_metadata_table(name@));
            }
            Err(message)
        }
    }
}

/// A metadata table is found under what it is called, and under no other name.
pub proof fn law_metadata_table_names(table: MetadataTableType, name: Seq<char>)
    ensures
        metadata_table_named(name) == Some(table) <==> name == table.name(),
{
    reveal_strlit("snapshots");
    reveal_strlit("manifests");
    if table == MetadataTableType::Manifests && name == table.name() {
        assert("snapshots"@[0] != "manifests"@[0]);
    }
}

/// A table has two metadata tables: its snapshots and its manifests. No other name is
/// that of one, and the name is said in the refusal.
pub proof fn law_metadata_tables(name: Seq<char>)
    ensures
        MetadataTableType::Snapshots.name() == "snapshots"@,
        MetadataTableType::Manifests.name() == "manifests"@,
        metadata_table_named("snapshots"@) == Some(MetadataTableType::Snapshots),
        metadata_table_named("manifests"@) == Some(MetadataTableType::Manifests),
        metadata_table_named(name) is None <==> name != "snapshots"@ && name != "manifests"@,
        unknown_metadata_table(name) == "invalid metadata table type: "@ + name,
{
    law_metadata_table_names(MetadataTableType::Manifests, "manifests"@);
}

} // verus!
