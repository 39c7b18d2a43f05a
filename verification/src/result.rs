//! The result aggregate and its materialization from engine responses.
//!
//! Read and query operations hand one heap-allocated aggregate of parallel
//! arrays back to the caller: ids, distances, metadata rendered as JSON text,
//! and documents. Each array is independently absent — a null pointer with
//! zero count at the boundary — or present and non-empty; the two encodings
//! never mix. Materialization builds each array only from a present,
//! non-empty response field, so no half-built aggregate is ever handed out.
//! Distances are carried as IEEE-754 single-precision bit patterns; an
//! absent distance within a present row becomes the zero sentinel, keeping
//! the row aligned with the ids.

use vstd::prelude::*;

verus! {

/// The aggregate of parallel output arrays a read or query hands back. The
/// pointer shim turns each present array into a C array with its count, and
/// each absent one into a null pointer with count zero.
#[derive(Debug)]
pub struct ChromaQueryResult {
    /// Matched record ids; present exactly when rows matched.
    pub ids: Option<Vec<String>>,
    /// Distance per matched row, as bit patterns; present only for
    /// similarity queries that asked for distances.
    pub distances: Option<Vec<u32>>,
    /// Metadata per matched row as JSON text, the empty string standing for
    /// a row without metadata; present only when requested.
    pub metadata_json: Option<Vec<String>>,
    /// Document per matched row, the empty string standing for a row
    /// without a document; present only when requested.
    pub documents: Option<Vec<String>>,
}

/// The parallel-array invariant of the aggregate: every array is either
/// absent or non-empty, so at the boundary a zero count stands exactly for a
/// null pointer.
pub open spec fn well_formed(r: ChromaQueryResult) -> bool {
    &&& (r.ids matches Some(v) ==> v@.len() > 0)
    &&& (r.distances matches Some(v) ==> v@.len() > 0)
    &&& (r.metadata_json matches Some(v) ==> v@.len() > 0)
    &&& (r.documents matches Some(v) ==> v@.len() > 0)
}

/// Engine response to a read: ids of the matched records and, when asked
/// for, metadata (already rendered as JSON text per row) and documents.
#[derive(Debug)]
pub struct GetResponseData {
    /// Ids of the matched records.
    pub ids: Vec<String>,
    /// Metadata per record as JSON text, when asked for; an absent entry is
    /// a record without metadata.
    pub metadatas_json: Option<Vec<Option<String>>>,
    /// Document per record, when asked for; an absent entry is a record
    /// without a document.
    pub documents: Option<Vec<Option<String>>>,
}

/// Engine response to a similarity query: one row group per query vector.
/// This layer sends exactly one query vector and materializes the first
/// group.
#[derive(Debug)]
pub struct QueryResponseData {
    /// Ids of the matched records, one list per query vector.
    pub ids: Vec<Vec<String>>,
    /// Distances per query vector, when asked for; an absent cell has no
    /// distance for that record.
    pub distances: Option<Vec<Vec<Option<u32>>>>,
    /// Metadata as JSON text per query vector, when asked for.
    pub metadatas_json: Option<Vec<Vec<Option<String>>>>,
    /// Documents per query vector, when asked for.
    pub documents: Option<Vec<Vec<Option<String>>>>,
}

/// The text materialized for one optional response cell: its content, or the
/// empty string for an absent cell — absence within a present array is
/// encoded by the empty string, never by a null entry.
pub open spec fn cell_or_empty(row: Option<String>) -> Seq<char> {
    match row {
        Some(s) => s@,
        None => Seq::empty(),
    }
}

/// The distance materialized for one response cell: its bit pattern, or the
/// zero sentinel for an absent distance, preserving row alignment.
pub open spec fn distance_or_zero(c: Option<u32>) -> u32 {
    match c {
        Some(b) => b,
        None => 0,
    }
}

/// Holds when `dst` materializes the optional row array `src` of a read
/// response: absent when `src` is absent or empty, else one text per row
/// with the empty string standing for an absent row.
pub open spec fn rows_materialized(src: Option<Vec<Option<String>>>, dst: Option<Vec<String>>)
    -> bool {
    match src {
        None => dst is None,
        Some(rows) => if rows@.len() == 0 {
            dst is None
        } else {
            dst matches Some(out) && out@.len() == rows@.len() && (forall|i: int|
                0 <= i < rows@.len() ==> (#[trigger] out@[i])@ == cell_or_empty(rows@[i]))
        },
    }
}

/// Holds when `dst` materializes the first row group of the optional query
/// response field `src`: absent when `src` is absent, holds no group, or its
/// first group is empty; else one text per cell of the first group.
pub open spec fn first_group_materialized(
    src: Option<Vec<Vec<Option<String>>>>,
    dst: Option<Vec<String>>,
) -> bool {
    match src {
        None => dst is None,
        Some(groups) => if groups@.len() == 0 || groups@[0]@.len() == 0 {
            dst is None
        } else {
            dst matches Some(out) && out@.len() == groups@[0]@.len() && (forall|i: int|
                0 <= i < groups@[0]@.len() ==> (#[trigger] out@[i])@ == cell_or_empty(
                    groups@[0]@[i],
                ))
        },
    }
}

/// Holds when `dst` materializes the first row group of the optional
/// distances field `src`: absent when `src` is absent, holds no group, or
/// its first group is empty; else one value per cell of the first group with
/// the zero sentinel for absent cells.
pub open spec fn distances_materialized(
    src: Option<Vec<Vec<Option<u32>>>>,
    dst: Option<Vec<u32>>,
) -> bool {
    match src {
        None => dst is None,
        Some(groups) => if groups@.len() == 0 || groups@[0]@.len() == 0 {
            dst is None
        } else {
            dst matches Some(out) && out@.len() == groups@[0]@.len() && (forall|i: int|
                0 <= i < groups@[0]@.len() ==> #[trigger] out@[i] == distance_or_zero(
                    groups@[0]@[i],
                ))
        },
    }
}

/// Renders one text per optional cell, the empty string standing for an
/// absent cell.
fn render_cells(rows: &Vec<Option<String>>) -> (r: Vec<String>)
    ensures
        r@.len() == rows@.len(),
        forall|i: int| 0 <= i < rows@.len() ==> (#[trigger] r@[i])@ == cell_or_empty(rows@[i]),
{
    let n = rows.len();
    let mut out: Vec<String> = Vec::new();
    let mut i: usize = 0;
    while i < n
        invariant
            n == rows@.len(),
            i <= n,
            out@.len() == i,
            forall|j: int| 0 <= j < i ==> (#[trigger] out@[j])@ == cell_or_empty(rows@[j]),
        decreases n - i,
    {
        match &rows[i] {
            Some(s) => {
                out.push(s.clone());
            },
            None => {
                out.push(String::new());
            },
        }
        i = i + 1;
    }
    out
}

/// Renders one distance per optional cell, the zero sentinel standing for an
/// absent cell.
fn render_distances(row: &Vec<Option<u32>>) -> (r: Vec<u32>)
    ensures
        r@.len() == row@.len(),
        forall|i: int| 0 <= i < row@.len() ==> #[trigger] r@[i] == distance_or_zero(row@[i]),
{
    let n = row.len();
    let mut out: Vec<u32> = Vec::new();
    let mut i: usize = 0;
    while i < n
        invariant
            n == row@.len(),
            i <= n,
            out@.len() == i,
            forall|j: int| 0 <= j < i ==> #[trigger] out@[j] == distance_or_zero(row@[j]),
        decreases n - i,
    {
        match &row[i] {
            Some(b) => {
                out.push(*b);
            },
            None => {
                out.push(0);
            },
        }
        i = i + 1;
    }
    out
}

/// Materializes a read response into the result aggregate. Each of the
/// three arrays is built independently, only from a present and non-empty
/// response field, and the aggregate always satisfies the parallel-array
/// invariant.
pub fn materialize_get(resp: GetResponseData) -> (r: ChromaQueryResult)
    ensures
        well_formed(r),
        resp.ids@.len() == 0 ==> r.ids is None,
        resp.ids@.len() > 0 ==> (r.ids matches Some(v) && v == resp.ids),
        rows_materialized(resp.metadatas_json, r.metadata_json),
        rows_materialized(resp.documents, r.documents),
        r.distances is None,
{
    let metadata_json = match &resp.metadatas_json {
        Some(rows) => {
            if rows.len() > 0 {
                Some(render_cells(rows))
            } else {
                None
            }
        },
        None => None,
    };
    let documents = match &resp.documents {
        Some(rows) => {
            if rows.len() > 0 {
                Some(render_cells(rows))
            } else {
                None
            }
        },
        None => None,
    };
    let ids = if resp.ids.len() > 0 {
        Some(resp.ids)
    } else {
        None
    };
    ChromaQueryResult { ids, distances: None, metadata_json, documents }
}

/// Materializes a query response into the result aggregate, taking the
/// first (and only) query vector's row group of each field. Each of the
/// four arrays is built independently, only from a present and non-empty
/// response field, and the aggregate always satisfies the parallel-array
/// invariant.
pub fn materialize_query(resp: QueryResponseData) -> (r: ChromaQueryResult)
    ensures
        well_formed(r),
        resp.ids@.len() == 0 || resp.ids@[0]@.len() == 0 ==> r.ids is None,
        resp.ids@.len() > 0 && resp.ids@[0]@.len() > 0 ==> (r.ids matches Some(v) && v
            == resp.ids@.first()),
        distances_materialized(resp.distances, r.distances),
        first_group_materialized(resp.metadatas_json, r.metadata_json),
        first_group_materialized(resp.documents, r.documents),
{
    let distances = match &resp.distances {
        Some(groups) => {
            if groups.len() > 0 {
                let first = &groups[0];
                if first.len() > 0 {
                    Some(render_distances(first))
                } else {
                    None
                }
            } else {
                None
            }
        },
        None => None,
    };
    let metadata_json = match &resp.metadatas_json {
        Some(groups) => {
            if groups.len() > 0 {
                let first = &groups[0];
                if first.len() > 0 {
                    Some(render_cells(first))
                } else {
                    None
                }
            } else {
                None
            }
        },
        None => None,
    };
    let documents = match &resp.documents {
        Some(groups) => {
            if groups.len() > 0 {
                let first = &groups[0];
                if first.len() > 0 {
                    Some(render_cells(first))
                } else {
                    None
                }
            } else {
                None
            }
        },
        None => None,
    };
    let ids = if resp.ids.len() > 0 {
        let mut groups = resp.ids;
        let first = groups.remove(0);
        if first.len() > 0 {
            Some(first)
        } else {
            None
        }
    } else {
        None
    };
    ChromaQueryResult { ids, distances, metadata_json, documents }
}

} // verus!
