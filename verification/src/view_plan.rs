//! How a view of the catalog is planned as a view of the query engine.
use vstd::prelude::*;
use vstd::view::View as _;

use crate::error::{DataFusionError, DataFusionErrorView};
use crate::ident;
use crate::text;
use crate::view;
use crate::view::{
    LoadedView, SqlViewRepresentation, View, ViewRepresentation, ViewVersion, ViewVersionRef,
};

verus! {

/// The first of two, where there is one, else the second.
pub open spec fn or_else<T>(first: Option<T>, second: Option<T>) -> Option<T> {
    match first {
        Some(value) => Some(value),
        None => second,
    }
}

/// The query to plan of those that a view holds: the first in the engine's own
/// dialect, else in Spark's, else in ANSI SQL, else the first of all.
pub open spec fn preferred_sql(representations: Seq<ViewRepresentation>) -> Option<
    SqlViewRepresentation,
> {
    or_else(
        view::first_in_dialect(representations, "datafusion"@),
        or_else(
            view::first_in_dialect(representations, "spark"@),
            or_else(
                view::first_in_dialect(representations, "ansi"@),
                if representations.len() > 0 {
                    Some(view::query_of(representations[0]))
                } else {
                    None
                },
            ),
        ),
    )
}

/// A query in the engine's own dialect is planned before any other, one in
/// Spark's before one in ANSI SQL, one in any of these before the first of all;
/// and a view that holds a query at all has one to plan.
pub proof fn law_preferred_sql(representations: Seq<ViewRepresentation>)
    ensures
        preferred_sql(representations) is Some <==> representations.len() > 0,
        ({
            let own = view::first_in_dialect(representations, "datafusion"@);
            let spark = view::first_in_dialect(representations, "spark"@);
            let ansi = view::first_in_dialect(representations, "ansi"@);
            &&& own is Some ==> preferred_sql(representations) == own
            &&& own is None && spark is Some ==> preferred_sql(representations) == spark
            &&& own is None && spark is None && ansi is Some ==> preferred_sql(representations)
                == ansi
            &&& own is None && spark is None && ansi is None && representations.len() > 0
                ==> preferred_sql(representations) == Some(view::query_of(representations[0]))
        }),
{
}

/// Chooses the query to plan of those that a view holds.
pub fn select_view_sql(view: &View) -> (res: Option<&SqlViewRepresentation>)
    ensures
        match res {
            Some(sql) => preferred_sql(view@.metadata.current_version.representations@) == Some(
                *sql,
            ),
            None => preferred_sql(view@.metadata.current_version.representations@) is None,
        },
{
    if let Some(sql) = view.sql_for("datafusion") {
        return Some(sql);
    }
    if let Some(sql) = view.sql_for("spark") {
        return Some(sql);
    }
    if let Some(sql) = view.sql_for("ansi") {
        return Some(sql);
    }
    let version: &ViewVersionRef = view.current_version();
    if version.representations.len() > 0 {
        let ViewRepresentation::Sql(sql) = &version.representations[0];
        return Some(sql);
    }
    None
}

/// What the query engine has to plan to have a view.
///
/// The session in which it is planned has these defaults and creates neither of
/// them, and knows the catalog of the view under the name of its default one.
#[derive(Debug, PartialEq, Eq)]
pub struct ViewPlan {
    /// The query.
    pub sql: String,
    /// The catalog in which names are looked up that name none.
    pub default_catalog: String,
    /// The schema in which names are looked up that name none.
    pub default_schema: String,
}

/// What a [`ViewPlan`] says.
pub struct ViewPlanView {
    pub sql: Seq<char>,
    pub default_catalog: Seq<char>,
    pub default_schema: Seq<char>,
}

impl vstd::view::View for ViewPlan {
    type V = ViewPlanView;

    open spec fn view(&self) -> ViewPlanView {
        ViewPlanView {
            sql: self.sql@,
            default_catalog: self.default_catalog@,
            default_schema: self.default_schema@,
        }
    }
}

/// The catalog in which a version's query looks names up.
pub open spec fn default_catalog(version: ViewVersion) -> Seq<char> {
    match version.default_catalog {
        Some(catalog) => catalog@,
        None => "datafusion"@,
    }
}

/// How a view is planned.
pub open spec fn view_plan(view: LoadedView) -> Result<ViewPlanView, DataFusionErrorView> {
    let version = *view.metadata.current_version;
    match preferred_sql(version.representations@) {
        Some(sql) => Ok(
            ViewPlanView {
                sql: sql.sql@,
                default_catalog: default_catalog(version),
                default_schema: ident::dotted(version.default_namespace@),
            },
        ),
        None => Err(
            DataFusionErrorView::Plan(
                "Iceberg view "@ + ident::ident_text(view.identifier)
                    + " has no SQL representation"@,
            ),
        ),
    }
}

/// How the view that was loaded is to be planned.
pub fn plan_view(view: &View) -> (res: Result<ViewPlan, DataFusionError>)
    ensures
        match res {
            Ok(plan) => view_plan(view@) == Ok::<_, DataFusionErrorView>(plan@),
            Err(error) => view_plan(view@) == Err::<ViewPlanView, _>(error@),
        },
{
    let sql: String = match select_view_sql(view) {
        Some(sql) => sql.sql.clone(),
        None => {
            let identifier: String = view.identifier().to_text();
            let message: String = text::glue(
                "Iceberg view ",
                identifier.as_str(),
                " has no SQL representation",
            );
            return Err(DataFusionError::Plan(message));
        },
    };
    let version: &ViewVersionRef = view.current_version();
    let default_catalog: String = match &version.default_catalog {
        Some(catalog) => catalog.clone(),
        None => "datafusion".to_string(),
    };
    let default_schema: String = version.default_namespace.to_text();
    Ok(ViewPlan { sql, default_catalog, default_schema })
}

/// A view is planned with exactly the text of the query that is preferred of it, in the
/// catalog and the namespace that its current version names, or in the engine's own
/// catalog where it names none. A view without a query cannot be planned.
pub proof fn law_views_are_planned_by_the_preferred_query(view: LoadedView)
    ensures
        ({
            let version = *view.metadata.current_version;
            match preferred_sql(version.representations@) {
                Some(query) => view_plan(view) matches Ok(plan) && {
                    &&& plan.sql == query.sql@
                    &&& version.default_catalog matches Some(catalog) ==> plan.default_catalog
                        == catalog@
                    &&& version.default_catalog is None ==> plan.default_catalog == "datafusion"@
                    &&& plan.default_schema == text::joined(version.default_namespace@, "."@)
                },
                None => version.representations@.len() == 0 && view_plan(view) == Err::<
                    ViewPlanView,
                    _,
                >(
                    DataFusionErrorView::Plan(
                        "Iceberg view "@ + (text::joined(view.identifier.namespace, "."@) + "."@
                            + view.identifier.name) + " has no SQL representation"@,
                    ),
                ),
            }
        }),
{
    law_preferred_sql(view.metadata.current_version.representations@);
}

/// The query of a view at `place` is the first in `dialect`, whatever the case of
/// either name.
pub open spec fn is_first_in(
    representations: Seq<ViewRepresentation>,
    place: int,
    dialect: Seq<char>,
) -> bool {
    &&& 0 <= place < representations.len()
    &&& representations[place] matches ViewRepresentation::Sql(sql) && view::lowercase(sql.dialect@)
        == view::lowercase(dialect)
    &&& lacks(representations.take(place), dialect)
}

/// No query of a view is in `dialect`, whatever the case of either name.
pub open spec fn lacks(representations: Seq<ViewRepresentation>, dialect: Seq<char>) -> bool {
    forall|i: int|
        0 <= i < representations.len() ==> (
        #[trigger] representations[i] matches ViewRepresentation::Sql(sql) && view::lowercase(
            sql.dialect@,
        ) != view::lowercase(dialect))
}

/// A view is planned by its first query in the engine's own dialect, wherever that
/// stands; without one by the first in Spark's; without either by the first in ANSI SQL;
/// and without any of these by the first query of all.
pub proof fn law_planned_queries(view: LoadedView, place: int)
    ensures
        ({
            let queries = view.metadata.current_version.representations@;
            let planned = view_plan(view) matches Ok(plan) && queries[place] matches
                ViewRepresentation::Sql(sql) && plan.sql == sql.sql@;
            &&& is_first_in(queries, place, "datafusion"@) ==> planned
            &&& lacks(queries, "datafusion"@) && is_first_in(queries, place, "spark"@) ==> planned
            &&& lacks(queries, "datafusion"@) && lacks(queries, "spark"@) && is_first_in(
                queries,
                place,
                "ansi"@,
            ) ==> planned
            &&& lacks(queries, "datafusion"@) && lacks(queries, "spark"@) && lacks(queries, "ansi"@)
                && place == 0 && queries.len() > 0 ==> planned
        }),
{
    let queries = view.metadata.current_version.representations@;
    law_views_are_planned_by_the_preferred_query(view);
    law_preferred_sql(queries);
    lemma_lacks(queries, "datafusion"@);
    lemma_lacks(queries, "spark"@);
    lemma_lacks(queries, "ansi"@);
    lemma_is_first_in(queries, place, "datafusion"@);
    lemma_is_first_in(queries, place, "spark"@);
    lemma_is_first_in(queries, place, "ansi"@);
}

/// Where a dialect is lacking, no query is found in it.
proof fn lemma_lacks(representations: Seq<ViewRepresentation>, dialect: Seq<char>)
    ensures
        lacks(representations, dialect) ==> view::first_in_dialect(representations, dialect) is None,
{
    if lacks(representations, dialect) {
        view::law_found_queries_are_held(representations, dialect);
        if let Some(sql) = view::first_in_dialect(representations, dialect) {
            let i = choose|i: int|
                0 <= i < representations.len() && #[trigger] representations[i]
                    == ViewRepresentation::Sql(sql);
            assert(representations[i] == ViewRepresentation::Sql(sql));
        }
    }
}

/// The first query in a dialect is the one found in it.
proof fn lemma_is_first_in(
    representations: Seq<ViewRepresentation>,
    place: int,
    dialect: Seq<char>,
)
    ensures
        is_first_in(representations, place, dialect) ==> (view::first_in_dialect(
            representations,
            dialect,
        ) matches Some(sql) && representations[place] == ViewRepresentation::Sql(sql)),
{
    if is_first_in(representations, place, dialect) {
        let earlier = representations.take(place);
        assert forall|j: int| 0 <= j < place implies view::lowercase(
            view::query_of(#[trigger] representations[j]).dialect@,
        ) != view::lowercase(dialect) by {
            assert(earlier[j] == representations[j]);
        }
        view::law_first_query_in_dialect(representations, dialect, place);
    }
}

/// A plan says what it holds.
pub proof fn law_plans_say_what_they_hold(plan: ViewPlan)
    ensures
        plan@.sql == plan.sql@,
        plan@.default_catalog == plan.default_catalog@,
        plan@.default_schema == plan.default_schema@,
{
}

} // verus!
