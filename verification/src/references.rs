//! The tables that one query refers to.
use std::sync::Arc;

use vstd::prelude::*;

use crate::options::SessionContext;
use crate::string_map::StringMap;
use crate::text;

verus! {

/// A table as a query refers to it.
#[derive(Debug)]
pub enum TableReference {
    /// By its name alone.
    Bare {
        /// The table.
        table: String,
    },
    /// By schema and name.
    Partial {
        /// The schema.
        schema: String,
        /// The table.
        table: String,
    },
    /// By catalog, schema and name.
    Full {
        /// The catalog.
        catalog: String,
        /// The schema.
        schema: String,
        /// The table.
        table: String,
    },
}

/// What a resolution reads of the configuration of a session.
pub struct SessionConfig {
    /// The catalog of a table of which none is said.
    pub default_catalog: String,
    /// The schema of a table of which none is said.
    pub default_schema: String,
    /// The catalog context that the session carries.
    pub context: Option<Arc<SessionContext>>,
}

/// A table by catalog, schema and name.
pub struct FullName {
    pub catalog: Seq<char>,
    pub schema: Seq<char>,
    pub table: Seq<char>,
}

/// What is said, else what holds where nothing is.
pub open spec fn or_default(said: Option<Seq<char>>, default: Seq<char>) -> Seq<char> {
    match said {
        Some(said) => said,
        None => default,
    }
}

impl TableReference {
    /// The catalog, where it is said.
    pub open spec fn said_catalog(self) -> Option<Seq<char>> {
        match self {
            TableReference::Full { catalog, .. } => Some(catalog@),
            _ => None,
        }
    }

    /// The schema, where it is said.
    pub open spec fn said_schema(self) -> Option<Seq<char>> {
        match self {
            TableReference::Full { schema, .. } => Some(schema@),
            TableReference::Partial { schema, .. } => Some(schema@),
            TableReference::Bare { .. } => None,
        }
    }

    /// The table.
    pub open spec fn said_table(self) -> Seq<char> {
        match self {
            TableReference::Full { table, .. } => table@,
            TableReference::Partial { table, .. } => table@,
            TableReference::Bare { table } => table@,
        }
    }

    /// The table referred to, with the defaults of `config` for what is not said.
    pub open spec fn full_name(self, config: SessionConfig) -> FullName {
        FullName {
            catalog: or_default(self.said_catalog(), config.default_catalog@),
            schema: or_default(self.said_schema(), config.default_schema@),
            table: self.said_table(),
        }
    }

    /// The catalog, where it is said.
    pub fn catalog(&self) -> (res: Option<&str>)
        ensures
            match res {
                Some(catalog) => self.said_catalog() == Some(catalog@),
                None => self.said_catalog() is None,
            },
    {
        match self {
            TableReference::Full { catalog, .. } => Some(catalog.as_str()),
            _ => None,
        }
    }

    /// The schema, where it is said.
    pub fn schema(&self) -> (res: Option<&str>)
        ensures
            match res {
                Some(schema) => self.said_schema() == Some(schema@),
                None => self.said_schema() is None,
            },
    {
        match self {
            TableReference::Full { schema, .. } => Some(schema.as_str()),
            TableReference::Partial { schema, .. } => Some(schema.as_str()),
            TableReference::Bare { .. } => None,
        }
    }

    /// The table.
    pub fn table(&self) -> (res: &str)
        ensures
            res@ == self.said_table(),
    {
        match self {
            TableReference::Full { table, .. } => table.as_str(),
            TableReference::Partial { table, .. } => table.as_str(),
            TableReference::Bare { table } => table.as_str(),
        }
    }
}

/// A table by schema and name, within one catalog.
pub struct Wanted {
    pub schema: Seq<char>,
    pub table: Seq<char>,
}

/// The reference is to the table `wanted` of `catalog`.
pub open spec fn refers_to(
    reference: TableReference,
    config: SessionConfig,
    catalog: Seq<char>,
    wanted: Wanted,
) -> bool {
    reference.full_name(config) == (FullName {
        catalog,
        schema: wanted.schema,
        table: wanted.table,
    })
}

/// One of the references is to the table `wanted` of `catalog`.
pub open spec fn is_wanted(
    references: Seq<TableReference>,
    config: SessionConfig,
    catalog: Seq<char>,
    wanted: Wanted,
) -> bool {
    exists|i: int|
        0 <= i < references.len() && #[trigger] refers_to(references[i], config, catalog, wanted)
}

/// What one more reference adds.
proof fn lemma_one_more(
    references: Seq<TableReference>,
    config: SessionConfig,
    catalog: Seq<char>,
    i: int,
    wanted: Wanted,
)
    requires
        0 <= i < references.len(),
    ensures
        is_wanted(references.take(i + 1), config, catalog, wanted) <==> is_wanted(
            references.take(i),
            config,
            catalog,
            wanted,
        ) || refers_to(references[i], config, catalog, wanted),
{
    let before = references.take(i);
    let after = references.take(i + 1);
    if is_wanted(before, config, catalog, wanted) {
        let k = choose|k: int|
            0 <= k < before.len() && #[trigger] refers_to(before[k], config, catalog, wanted);
        assert(refers_to(after[k], config, catalog, wanted));
    }
    if refers_to(references[i], config, catalog, wanted) {
        assert(refers_to(after[i], config, catalog, wanted));
    }
    if is_wanted(after, config, catalog, wanted) {
        let k = choose|k: int|
            0 <= k < after.len() && #[trigger] refers_to(after[k], config, catalog, wanted);
        if k < i {
            assert(refers_to(before[k], config, catalog, wanted));
        }
    }
}

/// The table is among those held for its schema.
pub open spec fn holds<V>(schemas: Map<Seq<char>, StringMap<V>>, wanted: Wanted) -> bool {
    schemas.contains_key(wanted.schema) && schemas[wanted.schema]@.contains_key(wanted.table)
}

/// Groups the tables of `catalog_name` that are referred to by schema.
fn group_references(
    references: &Vec<TableReference>,
    config: &SessionConfig,
    catalog_name: &str,
) -> (res: StringMap<StringMap<()>>)
    ensures
        forall|wanted: Wanted| #[trigger]
            holds(res@, wanted) <==> is_wanted(references@, *config, catalog_name@, wanted),
{
    let mut requested: StringMap<StringMap<()>> = StringMap::new();
    let mut i: usize = 0;
    while i < references.len()
        invariant
            i <= references.len(),
            forall|wanted: Wanted| #[trigger]
                holds(requested@, wanted) <==> is_wanted(
                    references@.take(i as int),
                    *config,
                    catalog_name@,
                    wanted,
                ),
        decreases references.len() - i,
    {
        let reference: &TableReference = &references[i];
        let ghost before = requested@;
        let reference_catalog: &str = match reference.catalog() {
            Some(catalog) => catalog,
            None => config.default_catalog.as_str(),
        };
        if text::same_text(reference_catalog, catalog_name) {
            let schema: &str = match reference.schema() {
                Some(schema) => schema,
                None => config.default_schema.as_str(),
            };
            let mut tables: StringMap<()> = match requested.remove(schema) {
                Some(tables) => tables,
                None => StringMap::new(),
            };
            let ghost others = tables@.dom();
            tables.insert(reference.table().to_string(), ());
            assert(tables@.dom() =~= others.insert(reference.said_table()));
            requested.insert(schema.to_string(), tables);
            assert(requested@[schema@]@.contains_key(reference.said_table()));
        }
        proof {
            assert forall|wanted: Wanted| #[trigger]
                holds(requested@, wanted) <==> is_wanted(
                    references@.take(i + 1),
                    *config,
                    catalog_name@,
                    wanted,
                ) by {
                lemma_one_more(references@, *config, catalog_name@, i as int, wanted);
                assert(holds(before, wanted) <==> is_wanted(
                    references@.take(i as int),
                    *config,
                    catalog_name@,
                    wanted,
                ));
            }
        }
        i = i + 1;
    }
    assert(references@.take(references@.len() as int) =~= references@);
    requested
}

/// A table that is referred to, by schema and name.
#[derive(Debug)]
pub struct WantedTable {
    /// The schema.
    pub schema: String,
    /// The table.
    pub table: String,
}

impl View for WantedTable {
    type V = Wanted;

    open spec fn view(&self) -> Wanted {
        Wanted { schema: self.schema@, table: self.table@ }
    }
}

/// What the list says.
pub open spec fn wanted_list(list: Seq<WantedTable>) -> Seq<Wanted> {
    list.map_values(|wanted: WantedTable| wanted@)
}

/// What occurs in a list with one more behind it.
proof fn lemma_push_contains(list: Seq<Wanted>, last: Wanted, wanted: Wanted)
    ensures
        list.push(last).contains(wanted) <==> list.contains(wanted) || wanted == last,
{
    let longer = list.push(last);
    if list.contains(wanted) {
        let i = choose|i: int| 0 <= i < list.len() && list[i] == wanted;
        assert(longer[i] == wanted);
    }
    if wanted == last {
        assert(longer[list.len() as int] == wanted);
    }
}

/// The tables held for `schema`, behind those of other schemas.
fn list_schema(
    list: &mut Vec<WantedTable>,
    schema: &String,
    tables: &StringMap<()>,
)
    requires
        wanted_list(old(list)@).no_duplicates(),
        forall|table: Seq<char>| !wanted_list(old(list)@).contains(Wanted { schema: schema@, table }),
    ensures
        wanted_list(final(list)@).no_duplicates(),
        forall|wanted: Wanted| #[trigger]
            wanted_list(final(list)@).contains(wanted) <==> wanted_list(old(list)@).contains(wanted)
                || (wanted.schema == schema@ && tables@.contains_key(wanted.table)),
{
    let names: Vec<String> = tables.keys();
    let ghost texts = text::texts(names@);
    let ghost start = wanted_list(list@);
    let mut k: usize = 0;
    while k < names.len()
        invariant
            k <= names.len(),
            texts == text::texts(names@),
            text::ascending(texts),
            wanted_list(list@).no_duplicates(),
            forall|table: Seq<char>| !start.contains(Wanted { schema: schema@, table }),
            forall|wanted: Wanted| #[trigger]
                wanted_list(list@).contains(wanted) <==> start.contains(wanted) || (wanted.schema
                    == schema@ && texts.take(k as int).contains(wanted.table)),
        decreases names.len() - k,
    {
        let wanted: WantedTable = WantedTable { schema: schema.clone(), table: names[k].clone() };
        let ghost before = list@;
        list.push(wanted);
        proof {
            assert(wanted_list(list@) =~= wanted_list(before).push(wanted@));
            let earlier = texts.take(k as int);
            let later = texts.take(k + 1);
            if earlier.contains(texts[k as int]) {
                let j = choose|j: int| 0 <= j < earlier.len() && earlier[j] == texts[k as int];
                assert(text::precedes(texts[j], texts[k as int]));
                text::lemma_precedes_irreflexive(texts[k as int]);
            }
            assert(!wanted_list(before).contains(wanted@));
            assert forall|w: Wanted| #[trigger]
                wanted_list(list@).contains(w) <==> start.contains(w) || (w.schema == schema@
                    && later.contains(w.table)) by {
                lemma_push_contains(wanted_list(before), wanted@, w);
                if earlier.contains(w.table) {
                    let j = choose|j: int| 0 <= j < earlier.len() && earlier[j] == w.table;
                    assert(later[j] == w.table);
                }
                assert(later[k as int] == texts[k as int]);
                if later.contains(w.table) && w.table != texts[k as int] {
                    let j = choose|j: int| 0 <= j < later.len() && later[j] == w.table;
                    assert(earlier[j] == w.table);
                }
            }
        }
        k = k + 1;
    }
    proof {
        assert(texts.take(texts.len() as int) =~= texts);
        assert forall|wanted: Wanted| #[trigger]
            wanted_list(list@).contains(wanted) <==> start.contains(wanted) || (wanted.schema
                == schema@ && tables@.contains_key(wanted.table)) by {
            assert(texts.to_set().contains(wanted.table) <==> tables@.dom().contains(wanted.table));
        }
    }
}

/// Every table that is requested, once.
fn list_requested(requested: &StringMap<StringMap<()>>) -> (res: Vec<WantedTable>)
    ensures
        wanted_list(res@).no_duplicates(),
        forall|wanted: Wanted| #[trigger]
            wanted_list(res@).contains(wanted) <==> holds(requested@, wanted),
{
    let schemas: Vec<String> = requested.keys();
    let ghost texts = text::texts(schemas@);
    let mut res: Vec<WantedTable> = Vec::new();
    let mut i: usize = 0;
    while i < schemas.len()
        invariant
            i <= schemas.len(),
            texts == text::texts(schemas@),
            text::ascending(texts),
            texts.to_set() == requested@.dom(),
            wanted_list(res@).no_duplicates(),
            forall|wanted: Wanted| #[trigger]
                wanted_list(res@).contains(wanted) <==> holds(requested@, wanted) && texts.take(
                    i as int,
                ).contains(wanted.schema),
        decreases schemas.len() - i,
    {
        let ghost earlier = texts.take(i as int);
        let ghost later = texts.take(i + 1);
        let ghost before = wanted_list(res@);
        let ghost schema = texts[i as int];
        proof {
            if earlier.contains(schema) {
                let j = choose|j: int| 0 <= j < earlier.len() && earlier[j] == schema;
                assert(text::precedes(texts[j], texts[i as int]));
                text::lemma_precedes_irreflexive(schema);
            }
            assert(texts.to_set().contains(texts[i as int]));
        }
        if let Some(tables) = requested.get(schemas[i].as_str()) {
            list_schema(&mut res, &schemas[i], tables);
        }
        proof {
            assert forall|w: Wanted| #[trigger]
                wanted_list(res@).contains(w) <==> holds(requested@, w) && later.contains(
                    w.schema,
                ) by {
                assert(before.contains(w) <==> holds(requested@, w) && earlier.contains(w.schema));
                if earlier.contains(w.schema) {
                    let j = choose|j: int| 0 <= j < earlier.len() && earlier[j] == w.schema;
                    assert(later[j] == w.schema);
                }
                assert(later[i as int] == schema);
                if later.contains(w.schema) && w.schema != schema {
                    let j = choose|j: int| 0 <= j < later.len() && later[j] == w.schema;
                    assert(earlier[j] == w.schema);
                }
            }
        }
        i = i + 1;
    }
    proof {
        assert(texts.take(texts.len() as int) =~= texts);
        assert forall|wanted: Wanted| #[trigger]
            wanted_list(res@).contains(wanted) <==> holds(requested@, wanted) by {
            if holds(requested@, wanted) {
                assert(texts.to_set().contains(wanted.schema));
            }
        }
    }
    res
}

/// The tables of `catalog_name` that are referred to, each once, those of one
/// schema together.
pub(crate) fn requested_tables(
    references: &Vec<TableReference>,
    config: &SessionConfig,
    catalog_name: &str,
) -> (res: Vec<WantedTable>)
    ensures
        wanted_list(res@).no_duplicates(),
        forall|wanted: Wanted| #[trigger]
            wanted_list(res@).contains(wanted) <==> is_wanted(
                references@,
                *config,
                catalog_name@,
                wanted,
            ),
{
    let requested: StringMap<StringMap<()>> = group_references(references, config, catalog_name);
    let res: Vec<WantedTable> = list_requested(&requested);
    proof {
        assert forall|wanted: Wanted| #[trigger]
            wanted_list(res@).contains(wanted) <==> is_wanted(
                references@,
                *config,
                catalog_name@,
                wanted,
            ) by {
            assert(holds(requested@, wanted) <==> is_wanted(
                references@,
                *config,
                catalog_name@,
                wanted,
            ));
        }
    }
    res
}

/// A reference by name alone is to a table of the session's default schema, in its
/// default catalog.
pub proof fn law_bare_references(
    table: String,
    config: SessionConfig,
    catalog: Seq<char>,
    wanted: Wanted,
)
    ensures
        refers_to(TableReference::Bare { table }, config, catalog, wanted) <==> {
            &&& config.default_catalog@ == catalog
            &&& config.default_schema@ == wanted.schema
            &&& table@ == wanted.table
        },
{
}

/// A reference by schema and name is to a table of that schema, in the session's default
/// catalog and in no other.
pub proof fn law_partial_references(
    schema: String,
    table: String,
    config: SessionConfig,
    catalog: Seq<char>,
    wanted: Wanted,
)
    ensures
        refers_to(TableReference::Partial { schema, table }, config, catalog, wanted) <==> {
            &&& config.default_catalog@ == catalog
            &&& schema@ == wanted.schema
            &&& table@ == wanted.table
        },
{
}

/// A reference by catalog, schema and name is to that table, whatever the session's
/// defaults are.
pub proof fn law_full_references(
    named: String,
    schema: String,
    table: String,
    config: SessionConfig,
    catalog: Seq<char>,
    wanted: Wanted,
)
    ensures
        refers_to(
            TableReference::Full { catalog: named, schema, table },
            config,
            catalog,
            wanted,
        ) <==> {
            &&& named@ == catalog
            &&& schema@ == wanted.schema
            &&& table@ == wanted.table
        },
{
}

/// A reference says its catalog, its schema and its table as far as it has them; what it
/// does not say is the session's default.
pub proof fn law_references_say_what_they_hold(
    reference: TableReference,
    said: Seq<char>,
    default: Seq<char>,
)
    ensures
        match reference {
            TableReference::Bare { table } => reference.said_catalog() is None
                && reference.said_schema() is None && reference.said_table() == table@,
            TableReference::Partial { schema, table } => reference.said_catalog() is None
                && reference.said_schema() == Some(schema@) && reference.said_table() == table@,
            TableReference::Full { catalog, schema, table } => reference.said_catalog() == Some(
                catalog@,
            ) && reference.said_schema() == Some(schema@) && reference.said_table() == table@,
        },
        or_default(Some(said), default) == said,
        or_default(None, default) == default,
{
}

/// A table is wanted of a catalog exactly if a reference is to it, wherever that stands.
pub proof fn law_wanted_tables(
    references: Seq<TableReference>,
    reference: TableReference,
    config: SessionConfig,
    catalog: Seq<char>,
    wanted: Wanted,
)
    ensures
        !is_wanted(Seq::empty(), config, catalog, wanted),
        is_wanted(references.push(reference), config, catalog, wanted) <==> is_wanted(
            references,
            config,
            catalog,
            wanted,
        ) || refers_to(reference, config, catalog, wanted),
        is_wanted(references, config, catalog, wanted) <==> exists|i: int|
            0 <= i < references.len() && #[trigger] refers_to(
                references[i],
                config,
                catalog,
                wanted,
            ),
{
    let longer = references.push(reference);
    assert(longer.take(references.len() as int) =~= references);
    assert(longer.take(longer.len() as int) =~= longer);
    lemma_one_more(longer, config, catalog, references.len() as int, wanted);
}

} // verus!
