//! Per-row decoding of the parallel arrays that batched operations take.
//!
//! A batched operation hands over one entry per record in each of several
//! parallel arrays. A null entry means two different things depending on the
//! parameter: for metadata and documents it stands for an absent value, while
//! for ids, and for embeddings in the operations that require them, it is a
//! caller error reported with the offending index.

use vstd::prelude::*;
use vstd::string::StringExecFns;

use crate::decimal::{dec_str, usize_to_string};
use crate::error::{ChromaError, ChromaErrorCode};
use crate::json::{check_json_object, json_object_ok};
use crate::text::{buffer_text, c_bytes_to_string, opt_string_is};

verus! {

/// Whether every row of an array is present.
pub open spec fn rows_present<T>(rows: Seq<Option<T>>) -> bool {
    forall|i: int| 0 <= i < rows.len() ==> (#[trigger] rows[i]) is Some
}

/// Index of the first absent row, or the row count when every row is
/// present.
pub open spec fn first_absent<T>(rows: Seq<Option<T>>) -> int
    decreases rows.len(),
{
    if rows.len() == 0 {
        0
    } else if rows[0] is None {
        0
    } else {
        1 + first_absent(rows.drop_first())
    }
}

/// The first absent row stands exactly where a scan from the front stops: at
/// the first absent index, or at the end.
proof fn lemma_first_absent_at<T>(rows: Seq<Option<T>>, i: int)
    requires
        0 <= i <= rows.len(),
        forall|j: int| 0 <= j < i ==> rows[j] is Some,
        i < rows.len() ==> rows[i] is None,
    ensures
        first_absent(rows) == i,
    decreases rows.len(),
{
    if rows.len() == 0 {
    } else if i == 0 {
    } else {
        let t = rows.drop_first();
        assert forall|j: int| 0 <= j < i - 1 implies t[j] is Some by {
            assert(t[j] == rows[j + 1]);
        }
        assert(i - 1 < t.len() ==> t[i - 1] == rows[i]);
        lemma_first_absent_at(t, i - 1);
    }
}

/// The value carried by an optional string row: a null or empty row stands
/// for an absent value.
pub open spec fn optional_row_text(row: Option<Vec<u8>>) -> Option<Seq<char>> {
    match row {
        None => None,
        Some(b) => if buffer_text(b@).len() == 0 {
            None
        } else {
            Some(buffer_text(b@))
        },
    }
}

/// Whether a metadata row is acceptable: absent, empty, or text whose top
/// level parses as a JSON object.
pub open spec fn metadata_row_ok(row: Option<Vec<u8>>) -> bool {
    match row {
        None => true,
        Some(b) => buffer_text(b@).len() == 0 || json_object_ok(buffer_text(b@)),
    }
}

/// Holds when `dst` decodes the present id row `src`.
pub open spec fn id_row_decoded(src: Option<Vec<u8>>, dst: String) -> bool {
    src matches Some(b) && dst@ == buffer_text(b@)
}

/// Holds when `dst` is the decoding of the id rows `src`, every one of which
/// is present.
pub open spec fn strings_decode(src: Seq<Option<Vec<u8>>>, dst: Seq<String>) -> bool {
    &&& dst.len() == src.len()
    &&& forall|i: int| 0 <= i < src.len() ==> #[trigger] id_row_decoded(src[i], dst[i])
}

/// Holds when `dst` is the decoding of the optional string rows `src`.
pub open spec fn optional_strings_decode(
    src: Seq<Option<Vec<u8>>>,
    dst: Seq<Option<String>>,
) -> bool {
    &&& dst.len() == src.len()
    &&& forall|i: int| 0 <= i < src.len() ==> #[trigger] opt_string_is(
        dst[i],
        optional_row_text(src[i]),
    )
}

/// Holds when `dst` is the decoding of an optional array of optional string
/// rows `src`: absent when the array is absent, decoded row by row otherwise.
pub open spec fn opt_rows_decode(
    src: Option<Vec<Option<Vec<u8>>>>,
    dst: Option<Vec<Option<String>>>,
) -> bool {
    match src {
        None => dst is None,
        Some(v) => dst matches Some(w) && optional_strings_decode(v@, w@),
    }
}

/// Whether every row of an optional metadata array is acceptable.
pub open spec fn metadata_rows_ok(rows: Option<Vec<Option<Vec<u8>>>>) -> bool {
    match rows {
        None => true,
        Some(v) => forall|i: int| 0 <= i < v@.len() ==> #[trigger] metadata_row_ok(v@[i]),
    }
}

/// Holds when `dst` copies the embedding rows `src`, every one of which is
/// present.
pub open spec fn embeddings_copied(src: Seq<Option<Vec<u32>>>, dst: Seq<Vec<u32>>) -> bool {
    &&& dst.len() == src.len()
    &&& forall|i: int| 0 <= i < src.len() ==> #[trigger] embedding_row_copied(src[i], dst[i])
}

/// Holds when `dst` copies the optional embedding rows `src` row by row.
pub open spec fn opt_embeddings_copied(
    src: Option<Vec<Option<Vec<u32>>>>,
    dst: Option<Vec<Option<Vec<u32>>>>,
) -> bool {
    match src {
        None => dst is None,
        Some(v) => dst matches Some(w) && w@.len() == v@.len() && forall|i: int|
            0 <= i < v@.len() ==> #[trigger] opt_embedding_row_copied(v@[i], w@[i]),
    }
}

/// Collects and decodes the id rows of a batched operation. Every id row is
/// required; a null row fails with a report naming the offending index.
pub fn require_id_rows(rows: &Vec<Option<Vec<u8>>>, source: &str) -> (r: Result<
    Vec<String>,
    ChromaError,
>)
    ensures
        r is Ok <==> rows_present(rows@),
        r matches Ok(v) ==> strings_decode(rows@, v@),
        r matches Err(e) ==> {
            &&& e.code is InvalidArgument
            &&& e.message matches Some(m) && m@ == "ID pointer is null"@
            &&& e.source matches Some(s) && s@ == source@
            &&& e.details matches Some(d) && d@ == "Null ID at index "@ + dec_str(
                first_absent(rows@),
            )
        },
{
    let n = rows.len();
    let mut out: Vec<String> = Vec::new();
    let mut i: usize = 0;
    while i < n
        invariant
            n == rows@.len(),
            i <= n,
            out@.len() == i,
            forall|j: int| 0 <= j < i ==> #[trigger] id_row_decoded(rows@[j], out@[j]),
        decreases n - i,
    {
        match &rows[i] {
            Some(b) => {
                out.push(c_bytes_to_string(b.as_slice()));
            },
            None => {
                let details = String::from_str("Null ID at index ").concat(
                    usize_to_string(i).as_str(),
                );
                proof {
                    assert forall|j: int| 0 <= j < i implies rows@[j] is Some by {
                        assert(id_row_decoded(rows@[j], out@[j]));
                    }
                    lemma_first_absent_at(rows@, i as int);
                }
                return Err(ChromaError::with_details(
                    ChromaErrorCode::InvalidArgument,
                    "ID pointer is null",
                    source,
                    details,
                ));
            },
        }
        i = i + 1;
    }
    proof {
        assert forall|k: int| 0 <= k < rows@.len() implies rows@[k] is Some by {
            assert(id_row_decoded(rows@[k], out@[k]));
        }
    }
    Ok(out)
}

/// Decodes an array of optional string rows; a null or empty row yields an
/// absent value. Never fails, whatever the rows hold.
pub fn decode_optional_rows(rows: &Vec<Option<Vec<u8>>>) -> (r: Vec<Option<String>>)
    ensures
        r@.len() == rows@.len(),
        forall|i: int| 0 <= i < rows@.len() ==> opt_string_is(r@[i], optional_row_text(rows@[i])),
{
    let n = rows.len();
    let mut out: Vec<Option<String>> = Vec::new();
    let mut i: usize = 0;
    while i < n
        invariant
            n == rows@.len(),
            i <= n,
            out@.len() == i,
            forall|j: int| 0 <= j < i ==> opt_string_is(out@[j], optional_row_text(rows@[j])),
        decreases n - i,
    {
        match &rows[i] {
            Some(b) => {
                let s = c_bytes_to_string(b.as_slice());
                if s.as_str().is_empty() {
                    out.push(None);
                } else {
                    out.push(Some(s));
                }
            },
            None => {
                out.push(None);
            },
        }
        i = i + 1;
    }
    out
}

/// Index of the first unacceptable metadata row, or the row count when all
/// are acceptable.
pub open spec fn first_bad_metadata(rows: Seq<Option<Vec<u8>>>) -> int
    decreases rows.len(),
{
    if rows.len() == 0 {
        0
    } else if !metadata_row_ok(rows[0]) {
        0
    } else {
        1 + first_bad_metadata(rows.drop_first())
    }
}

/// The first unacceptable metadata row stands exactly where a scan from the
/// front stops.
proof fn lemma_first_bad_metadata_at(rows: Seq<Option<Vec<u8>>>, i: int)
    requires
        0 <= i <= rows.len(),
        forall|j: int| 0 <= j < i ==> metadata_row_ok(rows[j]),
        i < rows.len() ==> !metadata_row_ok(rows[i]),
    ensures
        first_bad_metadata(rows) == i,
    decreases rows.len(),
{
    if rows.len() == 0 {
    } else if i == 0 {
    } else {
        let t = rows.drop_first();
        assert(metadata_row_ok(rows[0]));
        assert forall|j: int| 0 <= j < i - 1 implies metadata_row_ok(t[j]) by {
            assert(t[j] == rows[j + 1]);
        }
        assert(i - 1 < t.len() ==> t[i - 1] == rows[i]);
        lemma_first_bad_metadata_at(t, i - 1);
    }
}

/// Detail text naming the metadata row that failed to parse, followed by the
/// parser's rendered error.
pub open spec fn metadata_index_detail(d: Seq<char>, i: int) -> bool {
    exists|msg: Seq<char>| d == "Error parsing metadata at index "@ + dec_str(i) + ": "@ + msg
}

/// Decodes an array of metadata rows, keeping each present row as validated
/// JSON-object text. Fails with a validation report naming the first
/// offending index when a present, non-empty row is not a JSON object.
pub fn parse_metadata_rows(rows: &Vec<Option<Vec<u8>>>, source: &str) -> (r: Result<
    Vec<Option<String>>,
    ChromaError,
>)
    ensures
        r is Ok <==> (forall|i: int| 0 <= i < rows@.len() ==> metadata_row_ok(rows@[i])),
        r matches Ok(v) ==> v@.len() == rows@.len() && (forall|i: int|
            0 <= i < rows@.len() ==> opt_string_is(v@[i], optional_row_text(rows@[i]))),
        r matches Err(e) ==> {
            &&& e.code is ValidationError
            &&& e.message matches Some(m) && m@ == "Invalid metadata JSON"@
            &&& e.source matches Some(s) && s@ == source@
            &&& e.details matches Some(d) && metadata_index_detail(
                d@,
                first_bad_metadata(rows@),
            )
        },
{
    let n = rows.len();
    let mut out: Vec<Option<String>> = Vec::new();
    let mut i: usize = 0;
    while i < n
        invariant
            n == rows@.len(),
            i <= n,
            out@.len() == i,
            forall|j: int| 0 <= j < i ==> opt_string_is(out@[j], optional_row_text(rows@[j])),
            forall|j: int| 0 <= j < i ==> metadata_row_ok(rows@[j]),
        decreases n - i,
    {
        match &rows[i] {
            Some(b) => {
                let s = c_bytes_to_string(b.as_slice());
                if s.as_str().is_empty() {
                    out.push(None);
                } else {
                    match check_json_object(s.as_str()) {
                        Ok(_) => {
                            out.push(Some(s));
                        },
                        Err(msg) => {
                            let details = String::from_str("Error parsing metadata at index ")
                                .concat(usize_to_string(i).as_str())
                                .concat(": ")
                                .concat(msg.as_str());
                            proof {
                                lemma_first_bad_metadata_at(rows@, i as int);
                                assert(details@ == "Error parsing metadata at index "@ + dec_str(
                                    i as int,
                                ) + ": "@ + msg@);
                            }
                            return Err(ChromaError::with_details(
                                ChromaErrorCode::ValidationError,
                                "Invalid metadata JSON",
                                source,
                                details,
                            ));
                        },
                    }
                }
            },
            None => {
                out.push(None);
            },
        }
        i = i + 1;
    }
    Ok(out)
}

/// Holds when `dst` is a copy of the present embedding row `src`.
pub open spec fn embedding_row_copied(src: Option<Vec<u32>>, dst: Vec<u32>) -> bool {
    src matches Some(x) && dst@ == x@
}

/// Holds when `dst` copies the optional embedding row `src`: both absent, or
/// both present with the same components.
pub open spec fn opt_embedding_row_copied(src: Option<Vec<u32>>, dst: Option<Vec<u32>>) -> bool {
    match dst {
        Some(row) => src matches Some(x) && row@ == x@,
        None => src is None,
    }
}

/// Copies a row of embedding components.
fn copy_u32_row(v: &Vec<u32>) -> (r: Vec<u32>)
    ensures
        r@ == v@,
{
    let n = v.len();
    let mut out: Vec<u32> = Vec::new();
    let mut i: usize = 0;
    while i < n
        invariant
            n == v@.len(),
            i <= n,
            out@ == v@.take(i as int),
        decreases n - i,
    {
        out.push(v[i]);
        proof {
            assert(out@ =~= v@.take(i + 1));
        }
        i = i + 1;
    }
    proof {
        assert(out@ =~= v@);
    }
    out
}

/// Collects embedding rows for the one operation that requires every row to
/// be present; a null row fails with a report naming the offending index.
pub fn require_embedding_rows(rows: &Vec<Option<Vec<u32>>>, source: &str) -> (r: Result<
    Vec<Vec<u32>>,
    ChromaError,
>)
    ensures
        r is Ok <==> rows_present(rows@),
        r matches Ok(v) ==> embeddings_copied(rows@, v@),
        r matches Err(e) ==> {
            &&& e.code is InvalidArgument
            &&& e.message matches Some(m) && m@ == "Embedding pointer is null"@
            &&& e.source matches Some(s) && s@ == source@
            &&& e.details matches Some(d) && d@ == "Null embedding at index "@ + dec_str(
                first_absent(rows@),
            )
        },
{
    let n = rows.len();
    let mut out: Vec<Vec<u32>> = Vec::new();
    let mut i: usize = 0;
    while i < n
        invariant
            n == rows@.len(),
            i <= n,
            out@.len() == i,
            forall|j: int| 0 <= j < i ==> #[trigger] embedding_row_copied(rows@[j], out@[j]),
        decreases n - i,
    {
        match &rows[i] {
            Some(row) => {
                out.push(copy_u32_row(row));
            },
            None => {
                let details = String::from_str("Null embedding at index ").concat(
                    usize_to_string(i).as_str(),
                );
                proof {
                    assert forall|j: int| 0 <= j < i implies rows@[j] is Some by {
                        assert(embedding_row_copied(rows@[j], out@[j]));
                    }
                    lemma_first_absent_at(rows@, i as int);
                }
                return Err(ChromaError::with_details(
                    ChromaErrorCode::InvalidArgument,
                    "Embedding pointer is null",
                    source,
                    details,
                ));
            },
        }
        i = i + 1;
    }
    proof {
        assert forall|k: int| 0 <= k < rows@.len() implies rows@[k] is Some by {
            assert(embedding_row_copied(rows@[k], out@[k]));
        }
    }
    Ok(out)
}

/// Copies an array of optional embedding rows, as the update and upsert
/// operations take them: a null row stands for a record whose embedding the
/// operation does not touch.
pub fn copy_optional_embedding_rows(rows: &Vec<Option<Vec<u32>>>) -> (r: Vec<Option<Vec<u32>>>)
    ensures
        r@.len() == rows@.len(),
        forall|i: int| 0 <= i < rows@.len() ==> #[trigger] opt_embedding_row_copied(
            rows@[i],
            r@[i],
        ),
{
    let n = rows.len();
    let mut out: Vec<Option<Vec<u32>>> = Vec::new();
    let mut i: usize = 0;
    while i < n
        invariant
            n == rows@.len(),
            i <= n,
            out@.len() == i,
            forall|j: int| 0 <= j < i ==> #[trigger] opt_embedding_row_copied(
                rows@[j],
                out@[j],
            ),
        decreases n - i,
    {
        match &rows[i] {
            Some(row) => {
                out.push(Some(copy_u32_row(row)));
            },
            None => {
                out.push(None);
            },
        }
        i = i + 1;
    }
    out
}

} // verus!
