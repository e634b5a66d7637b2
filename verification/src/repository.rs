//! The repository handle: the database it talks to, the data directory
//! that holds imported sources, and the model router whose embedding
//! version stamps search rows.

use vstd::prelude::*;
use crate::text::str_eq;

verus! {

/// The SQLite database a repository reads and writes, by its file path.
#[derive(Clone)]
pub struct SqlitePool {
    pub path: String,
}

/// One task-to-model binding of the router.
#[derive(Clone)]
pub struct ModelRoute {
    pub route_name: String,
    pub model: String,
}

/// The model routing configuration.
#[derive(Clone)]
pub struct ModelRouter {
    pub routes: Vec<ModelRoute>,
    pub embedding_version: String,
}

impl ModelRouter {
    /// The version stamp of the embeddings this router produces.
    pub fn embedding_version(&self) -> (r: String)
        ensures
            r@ == self.embedding_version@,
    {
        self.embedding_version.clone()
    }
}

impl Default for ModelRouter {
    /// A router with no routes and no embedding model configured.
    fn default() -> (r: Self)
        ensures
            r.routes@.len() == 0,
            r.embedding_version@.len() == 0,
    {
        ModelRouter { routes: Vec::new(), embedding_version: String::new() }
    }
}

/// The routes whose configuration a stored reading depends on: the reader
/// simulation and the review route.
pub open spec fn is_reader_route(name: Seq<char>) -> bool {
    name == "reader_sim"@ || name == "review"@
}

pub open spec fn reader_routes(routes: Seq<ModelRoute>) -> Seq<ModelRoute>
    decreases routes.len(),
{
    if routes.len() == 0 {
        Seq::empty()
    } else {
        let rest = reader_routes(routes.drop_last());
        if is_reader_route(routes.last().route_name@) {
            rest.push(routes.last())
        } else {
            rest
        }
    }
}

/// Indices of the routes that the reader signature covers, in order.
pub fn reader_route_indices(router: &ModelRouter) -> (r: Vec<usize>)
    ensures
        r@.len() == reader_routes(router.routes@).len(),
        forall|i: int|
            0 <= i < r@.len() ==> r@[i] < router.routes@.len() && router.routes@[#[trigger] r@[i] as int]
                == reader_routes(router.routes@)[i],
{
    let routes = &router.routes;
    let mut out: Vec<usize> = Vec::new();
    let mut i: usize = 0;
    while i < routes.len()
        invariant
            i <= routes.len(),
            routes == &router.routes,
            out@.len() == reader_routes(routes@.take(i as int)).len(),
            forall|j: int|
                0 <= j < out@.len() ==> out@[j] < i && routes@[#[trigger] out@[j] as int]
                    == reader_routes(routes@.take(i as int))[j],
        decreases routes.len() - i,
    {
        assert(routes@.take(i + 1).drop_last() =~= routes@.take(i as int));
        let name = routes[i].route_name.as_str();
        if str_eq(name, "reader_sim") || str_eq(name, "review") {
            out.push(i);
        }
        i = i + 1;
    }
    assert(routes@.take(routes@.len() as int) =~= routes@);
    out
}

/// The repository: database pool, data directory and model router.
#[derive(Clone)]
pub struct Repository {
    pool: SqlitePool,
    data_dir: String,
    model_router: ModelRouter,
}

impl Repository {
    pub closed spec fn spec_pool(&self) -> SqlitePool {
        self.pool
    }

    pub closed spec fn spec_data_dir(&self) -> Seq<char> {
        self.data_dir@
    }

    pub closed spec fn spec_model_router(&self) -> ModelRouter {
        self.model_router
    }

    /// A repository with the default model router.
    pub fn new(pool: SqlitePool, data_dir: String) -> (r: Self)
        ensures
            r.spec_pool() == pool,
            r.spec_data_dir() == data_dir@,
            r.spec_model_router().routes@.len() == 0,
            r.spec_model_router().embedding_version@.len() == 0,
    {
        Self::with_model_router(pool, data_dir, ModelRouter::default())
    }

    pub fn with_model_router(pool: SqlitePool, data_dir: String, model_router: ModelRouter) -> (r:
        Self)
        ensures
            r.spec_pool() == pool,
            r.spec_data_dir() == data_dir@,
            r.spec_model_router() == model_router,
    {
        Repository { pool, data_dir, model_router }
    }

    pub fn pool(&self) -> (r: &SqlitePool)
        ensures
            *r == self.spec_pool(),
    {
        &self.pool
    }

    pub fn data_dir(&self) -> (r: &str)
        ensures
            r@ == self.spec_data_dir(),
    {
        self.data_dir.as_str()
    }

    pub fn model_router(&self) -> (r: &ModelRouter)
        ensures
            *r == self.spec_model_router(),
    {
        &self.model_router
    }

    pub fn current_embedding_version(&self) -> (r: String)
        ensures
            r@ == self.spec_model_router().embedding_version@,
    {
        self.model_router.embedding_version()
    }
}

/// What an import records about one source document.
pub struct UpsertImportSourceDocumentParams {
    pub session_id: String,
    pub project_id: Option<String>,
    pub display_name: String,
    pub source_path: String,
    pub copied_path: String,
    pub source_format: String,
    pub original_sha256: String,
    pub normalized_sha256: String,
    pub normalized_text_ref: String,
    pub word_count: usize,
    pub chapter_hint: Option<String>,
    pub source_order: usize,
}

} // verus!
