//! The secondary catalog's "external ids" endpoints: one per media
//! kind, different paths, identical response shape — the catalog's own
//! id plus an optional canonical id. An empty canonical id on the wire
//! counts as absent.
use crate::request_clients::tmdb_client::TmdbRequestClient;
use vstd::prelude::*;
use vstd::string::StringExecFns;

verus! {

/// The canonical id an external-ids payload carries: an empty string
/// on the wire counts as absent.
pub open spec fn normalized_wire_id(raw: Option<Seq<char>>) -> Option<Seq<char>> {
    match raw {
        None => None,
        Some(s) => if s.len() == 0 {
            None
        } else {
            Some(s)
        },
    }
}

/// Treat an empty canonical id from the wire as absent.
pub fn normalize_wire_id(raw: Option<String>) -> (r: Option<String>)
    ensures
        ({
            let rv = normalized_wire_id(
                match raw {
                    None => None,
                    Some(s) => Some(s@),
                },
            );
            match r {
                None => rv is None,
                Some(s) => rv == Some(s@),
            }
        }),
{
    match raw {
        None => None,
        Some(s) => {
            if s.as_str().is_empty() {
                None
            } else {
                Some(s)
            }
        },
    }
}

/// The external ids of a movie: its secondary-catalog id and, when the
/// catalog knows one, the canonical id.
#[derive(Debug, Clone)]
pub struct MovieExternalIds {
    pub id: u64,
    pub imdb_id: Option<String>,
}

impl MovieExternalIds {
    /// Build from the wire payload, treating an empty canonical id as
    /// absent.
    pub fn from_wire(id: u64, imdb_id: Option<String>) -> (r: Self)
        ensures
            r.id == id,
            ({
                let rv = normalized_wire_id(
                    match imdb_id {
                        None => None,
                        Some(s) => Some(s@),
                    },
                );
                match r.imdb_id {
                    None => rv is None,
                    Some(s) => rv == Some(s@),
                }
            }),
    {
        MovieExternalIds { id, imdb_id: normalize_wire_id(imdb_id) }
    }
}

/// The external ids of a TV show; same shape as a movie's.
#[derive(Debug, Clone)]
pub struct TvShowExternalIds {
    pub id: u64,
    pub imdb_id: Option<String>,
}

impl TvShowExternalIds {
    /// Build from the wire payload, treating an empty canonical id as
    /// absent.
    pub fn from_wire(id: u64, imdb_id: Option<String>) -> (r: Self)
        ensures
            r.id == id,
            ({
                let rv = normalized_wire_id(
                    match imdb_id {
                        None => None,
                        Some(s) => Some(s@),
                    },
                );
                match r.imdb_id {
                    None => rv is None,
                    Some(s) => rv == Some(s@),
                }
            }),
    {
        TvShowExternalIds { id, imdb_id: normalize_wire_id(imdb_id) }
    }
}

/// An external-ids payload of either kind.
#[derive(Debug, Clone)]
pub enum ExternalIds {
    Movie(MovieExternalIds),
    Tv(TvShowExternalIds),
}

/// The canonical id an [`ExternalIds`] value carries.
pub open spec fn external_imdb_id(ids: ExternalIds) -> Option<Seq<char>> {
    match ids {
        ExternalIds::Movie(m) => match m.imdb_id {
            None => None,
            Some(s) => Some(s@),
        },
        ExternalIds::Tv(t) => match t.imdb_id {
            None => None,
            Some(s) => Some(s@),
        },
    }
}

impl ExternalIds {
    /// The canonical id, whichever kind the payload is.
    pub fn imdb_id(&self) -> (r: Option<&String>)
        ensures
            match r {
                None => external_imdb_id(*self) is None,
                Some(s) => external_imdb_id(*self) == Some(s@),
            },
    {
        match self {
            ExternalIds::Movie(m) => m.imdb_id.as_ref(),
            ExternalIds::Tv(t) => t.imdb_id.as_ref(),
        }
    }
}

/// The external-ids endpoints, spoken to through the secondary-catalog
/// client.
pub struct ExternalIdsService<'a> {
    pub client: &'a TmdbRequestClient,
}

impl<'a> ExternalIdsService<'a> {
    /// The request path of a movie's external ids.
    pub fn movie_path(&self, movie_id: &str) -> (r: String)
        ensures
            r@ == "/movie/"@ + movie_id@ + "/external_ids"@,
    {
        let mut p = String::from_str("/movie/");
        p.append(movie_id);
        p.append("/external_ids");
        p
    }

    /// The request path of a TV show's external ids.
    pub fn tv_path(&self, tv_id: &str) -> (r: String)
        ensures
            r@ == "/tv/"@ + tv_id@ + "/external_ids"@,
    {
        let mut p = String::from_str("/tv/");
        p.append(tv_id);
        p.append("/external_ids");
        p
    }
}

} // verus!
