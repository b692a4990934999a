# iceberg_datafusion

The tables and views of an Iceberg catalog, offered to DataFusion, with the
decisions in between stated in contracts and proved with Verus.

- `src/` is the verified library. It holds no I/O. Where a catalog or the engine
  has to be asked, it hands out a step and takes the outcome back:
  - `view`, `view_plan`, `view_load`: views, the query chosen for a dialect, how a
    view is loaded and planned
  - `schema`, `known_views`, `registration`, `discovery`: one namespace, what is
    found under a name, and how tables come in and go out
  - `schema_laws`: what holds of a schema whatever was done to it
  - `options`, `options_text`: session options, contexts, what may be shown
  - `binding`, `catalog_access`, `source`: which context goes with an operation
  - `catalog_provider`: the schemas of a catalog
  - `references`, `session_catalog`: the tables that one query has to load
  - `provider_map`: the concurrent maps of the `dashmap` crate, with the
    contracts that are taken on trust
- `tests/` runs the library from outside.
- `app/` puts it to work: the catalog interfaces, and the providers that
  DataFusion asks.

Taken on trust are, besides `provider_map`: `str::to_lowercase` (in `view`),
`{:?}` of a `str` (in `options_text`), and `uuid::Uuid::new_v4` (in `options`).
