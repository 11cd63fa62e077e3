//! The durable identifier cache: one on-disk transactional key-value
//! table mapping a secondary-catalog id to the canonical id. Keys are
//! unique, an add overwrites unconditionally, and entries persist for
//! as long as the store's file does. The store is redb; its contents
//! are modelled by [`cache_view`], a map from key to value.
//!
//! The model assumes the store's file is reached through one handle:
//! all writes in this library go through `&mut` methods of
//! [`TmdbToImdbCache`].
use crate::configuration::AppConfig;
use crate::error::Error;
use redb::ReadableDatabase;
use redb::ReadableTable;
use vstd::prelude::*;
use vstd::string::StringExecFns;

verus! {

#[verifier::external_type_specification]
#[verifier::external_body]
pub struct ExDatabase(redb::Database);

/// What the store's identifier table holds, as a map from secondary id
/// to canonical id. A table not yet created holds the empty map.
pub uninterp spec fn cache_view(db: redb::Database) -> Map<Seq<char>, Seq<char>>;

/// The store of a cache no one has written to.
pub open spec fn empty_cache_view() -> Map<Seq<char>, Seq<char>> {
    Map::empty()
}

/// The error shape every failed store operation reports.
pub open spec fn is_cache_error(e: Error) -> bool {
    e matches Error::Cache { .. }
}

/// A handle on the store's file.
#[derive(Debug)]
pub struct RedbDatabase {
    pub db: redb::Database,
}

impl RedbDatabase {
    /// The contents of this store's identifier table.
    pub open spec fn view_of(&self) -> Map<Seq<char>, Seq<char>> {
        cache_view(self.db)
    }

    /// Relies on redb's `Database::create`: opens the file as a
    /// database, initializing it when absent or empty. An existing
    /// file keeps whatever the table already holds.
    #[verifier::external_body]
    pub fn new(path: &str) -> (r: Result<RedbDatabase, Error>)
        ensures
            r matches Err(e) ==> is_cache_error(e),
    {
        match redb::Database::create(path) {
            Ok(db) => Ok(RedbDatabase { db }),
            Err(e) => Err(Error::Cache { message: e.to_string() }),
        }
    }

    /// Relies on redb's `Builder::create_with_backend` with the
    /// in-memory backend: a fresh store holding nothing.
    #[verifier::external_body]
    pub fn new_in_memory() -> (r: Result<RedbDatabase, Error>)
        ensures
            r matches Ok(d) ==> cache_view(d.db) == empty_cache_view(),
    {
        match redb::Database::builder().create_with_backend(redb::backends::InMemoryBackend::new())
        {
            Ok(db) => Ok(RedbDatabase { db }),
            Err(e) => Err(Error::Cache { message: e.to_string() }),
        }
    }
}

/// The durable mapping from secondary-catalog id to canonical id.
#[derive(Debug)]
pub struct TmdbToImdbCache {
    pub redb: RedbDatabase,
}

impl TmdbToImdbCache {
    /// The entries this cache holds.
    pub open spec fn view_of(&self) -> Map<Seq<char>, Seq<char>> {
        cache_view(self.redb.db)
    }

    /// Relies on redb's `begin_write`, `open_table`, `commit`: creates
    /// the identifier table if absent, which adds no entry, and keeps
    /// existing entries.
    #[verifier::external_body]
    pub fn new(redb: RedbDatabase) -> (r: Result<TmdbToImdbCache, Error>)
        ensures
            r matches Ok(c) ==> cache_view(c.redb.db) == cache_view(redb.db),
            r matches Err(e) ==> is_cache_error(e),
    {
        let table: redb::TableDefinition<&str, &str> = redb::TableDefinition::new(
            "tmdb_to_imdb",
        );
        let txn = match redb.db.begin_write() {
            Ok(t) => t,
            Err(e) => return Err(Error::Cache { message: e.to_string() }),
        };
        if let Err(e) = txn.open_table(table) {
            return Err(Error::Cache { message: e.to_string() });
        }
        match txn.commit() {
            Ok(_) => Ok(TmdbToImdbCache { redb }),
            Err(e) => Err(Error::Cache { message: e.to_string() }),
        }
    }

    /// Relies on redb's `begin_read`, `open_table`, `get`: a read-only
    /// transaction returning the entry under `tmdb_id`, exactly when
    /// the table holds one; every failure is reported as a cache
    /// error.
    #[verifier::external_body]
    pub fn try_get_imdb_id(&self, tmdb_id: &str) -> (r: Result<Option<String>, Error>)
        ensures
            r matches Ok(found) ==> match found {
                Some(id) => cache_view(self.redb.db).contains_key(tmdb_id@) && id@ == cache_view(
                    self.redb.db,
                )[tmdb_id@],
                None => !cache_view(self.redb.db).contains_key(tmdb_id@),
            },
            r matches Err(e) ==> is_cache_error(e),
    {
        let table_def: redb::TableDefinition<&str, &str> = redb::TableDefinition::new(
            "tmdb_to_imdb",
        );
        let step = || -> Result<Option<String>, redb::Error> {
            let txn = self.redb.db.begin_read()?;
            let table = txn.open_table(table_def)?;
            Ok(table.get(tmdb_id)?.map(|v| v.value().to_owned()))
        };
        step().map_err(|e| Error::Cache { message: e.to_string() })
    }

    /// Relies on redb's `begin_write`, `open_table`, `insert`,
    /// `commit`: a write transaction that overwrites any prior entry
    /// under the key. On failure the store promises nothing stronger:
    /// a transaction aborted before `commit` changes no entry, but a
    /// failed `commit` may already have become durable, so either the
    /// old or the new contents may remain.
    #[verifier::external_body]
    pub fn add(&mut self, tmdb_id: &str, imdb_id: &str) -> (r: Result<(), Error>)
        ensures
            r matches Ok(_) ==> cache_view(final(self).redb.db) == cache_view(
                old(self).redb.db,
            ).insert(tmdb_id@, imdb_id@),
            r is Err ==> cache_view(final(self).redb.db) == cache_view(old(self).redb.db)
                || cache_view(final(self).redb.db) == cache_view(old(self).redb.db).insert(
                tmdb_id@,
                imdb_id@,
            ),
            r matches Err(e) ==> is_cache_error(e),
    {
        let table_def: redb::TableDefinition<&str, &str> = redb::TableDefinition::new(
            "tmdb_to_imdb",
        );
        let step = || -> Result<(), redb::Error> {
            let txn = self.redb.db.begin_write()?;
            {
                let mut table = txn.open_table(table_def)?;
                table.insert(tmdb_id, imdb_id)?;
            }
            txn.commit()?;
            Ok(())
        };
        step().map_err(|e| Error::Cache { message: e.to_string() })
    }
}

/// Overwrite, not append: after storing `a` under `id` the cache
/// answers `a` for `id`; after then storing `b` it answers `b`, and
/// the store is the same as if `a` had never been written.
pub proof fn lemma_cache_overwrite(
    m: Map<Seq<char>, Seq<char>>,
    id: Seq<char>,
    a: Seq<char>,
    b: Seq<char>,
)
    ensures
        m.insert(id, a)[id] == a,
        m.insert(id, a).contains_key(id),
        m.insert(id, a).insert(id, b)[id] == b,
        m.insert(id, a).insert(id, b) == m.insert(id, b),
{
    assert(m.insert(id, a).insert(id, b) =~= m.insert(id, b));
}

/// Build the cache at the configured location: the store's file
/// `caches.redb` under the cache path.
pub fn initialize_caching(config: &AppConfig) -> (r: Result<TmdbToImdbCache, Error>)
    ensures
        r matches Err(e) ==> is_cache_error(e),
{
    let mut path = config.cache_path.clone();
    path.append("/caches.redb");
    let redb = RedbDatabase::new(path.as_str())?;
    TmdbToImdbCache::new(redb)
}

} // verus!
