//! Building the embedded snapshot: decide whether a cached embedded
//! snapshot can be used as-is, and when it cannot, zip a batch of
//! embeddings back onto the raw entries positionally, refusing mismatched
//! or malformed batches.
//!
//! Reading and writing the snapshot files, and the batched call to the
//! embedding service, happen outside this crate; the functions here take
//! the parsed entries and the returned vectors as plain values.

use vstd::prelude::*;

use crate::course::Course;
use crate::course::EMBED_DIM;

verus! {

/// Why a batch of embeddings could not be zipped onto the raw entries.
#[derive(Clone, Copy, Debug, PartialEq, Eq, Structural)]
pub enum CorpusError {
    /// The service returned a different number of vectors than entries
    /// were sent; positional zipping would corrupt the mapping.
    CountMismatch,
    /// Some returned vector does not have exactly `EMBED_DIM` components.
    DimensionMismatch,
}

/// How to obtain the embedded snapshot, given whether the cached one was
/// readable.
pub enum ObtainPlan {
    /// The cached embedded snapshot is valid: use its entries unchanged,
    /// with no embedding calls.
    UseCache(Vec<Course>),
    /// No usable cache: read the raw snapshot, embed it in one batch, and
    /// write the result back.
    RebuildFromRaw,
}

/// What `plan_obtain` promises: a readable cache is returned unchanged,
/// and only a missing or unreadable cache triggers a rebuild.
pub open spec fn obtain_decision(embedded: Option<Vec<Course>>, r: ObtainPlan) -> bool {
    match embedded {
        Some(cached) => r == ObtainPlan::UseCache(cached),
        None => r == ObtainPlan::RebuildFromRaw,
    }
}

/// Decide how to obtain the embedded snapshot. `embedded` holds the
/// parsed cached snapshot when it was readable, `None` otherwise.
pub fn plan_obtain(embedded: Option<Vec<Course>>) -> (r: ObtainPlan)
    ensures
        obtain_decision(embedded, r),
{
    match embedded {
        Some(cached) => ObtainPlan::UseCache(cached),
        None => ObtainPlan::RebuildFromRaw,
    }
}

/// Law: with a valid cached snapshot the builder is idempotent — the
/// rebuild path (and with it every embedding call) is skipped, and two
/// runs over the same cache both return exactly the cached entries.
pub proof fn lemma_obtain_idempotent(cached: Vec<Course>, r1: ObtainPlan, r2: ObtainPlan)
    requires
        obtain_decision(Some(cached), r1),
        obtain_decision(Some(cached), r2),
    ensures
        r1 == ObtainPlan::UseCache(cached),
        !(r1 is RebuildFromRaw),
        r1 == r2,
{
}

/// Zip a batch of embeddings onto entries positionally: entry `i`
/// receives vector `i`, exactly. The batch must have one vector per
/// entry; a mismatched batch is rejected upstream (`assemble_embedded`)
/// before the zip, since zipping it would corrupt the mapping.
pub fn embed_courses(courses: Vec<Course>, embeddings: Vec<Vec<u32>>) -> (r: Vec<Course>)
    requires
        courses@.len() == embeddings@.len(),
    ensures
        r@.len() == courses@.len(),
        forall|i: int|
            0 <= i < r@.len() ==> r@[i]@ == courses@[i]@.with_embedding(
                Some(embeddings@[i]@),
            ),
{
    let ghost orig_courses = courses@;
    let ghost orig_embeddings = embeddings@;
    let mut courses = courses;
    let mut embeddings = embeddings;
    let mut r: Vec<Course> = Vec::new();
    while courses.len() > 0 && embeddings.len() > 0
        invariant
            orig_courses.len() == orig_embeddings.len(),
            courses@ =~= orig_courses.skip(r@.len() as int),
            embeddings@ =~= orig_embeddings.skip(r@.len() as int),
            r@.len() <= orig_courses.len(),
            r@.len() <= orig_embeddings.len(),
            forall|i: int|
                0 <= i < r@.len() ==> r@[i]@ == orig_courses[i]@.with_embedding(
                    Some(orig_embeddings[i]@),
                ),
        decreases courses@.len(),
    {
        let ghost k = r@.len() as int;
        let mut c = courses.remove(0);
        let e = embeddings.remove(0);
        c.embedding = Some(e);
        r.push(c);
        proof {
            assert(r@[k]@ =~~= orig_courses[k]@.with_embedding(Some(orig_embeddings[k]@)));
            assert(courses@ =~= orig_courses.skip(r@.len() as int));
            assert(embeddings@ =~= orig_embeddings.skip(r@.len() as int));
        }
    }
    r
}

/// Render the text for each record, in order: the batch handed to the
/// embedding service, one document per entry.
pub fn render_documents(courses: &Vec<Course>) -> (r: Vec<String>)
    ensures
        r@.len() == courses@.len(),
        forall|i: int|
            0 <= i < courses@.len() ==> (#[trigger] r@[i])@ == courses@[i]@.document_text(),
{
    let mut r: Vec<String> = Vec::new();
    let mut i: usize = 0;
    while i < courses.len()
        invariant
            i <= courses@.len(),
            r@.len() == i,
            forall|k: int|
                0 <= k < i ==> (#[trigger] r@[k])@ == courses@[k]@.document_text(),
        decreases courses@.len() - i,
    {
        let text = courses[i].document_text();
        r.push(text);
        i += 1;
    }
    r
}

/// Whether every vector in the batch has exactly `EMBED_DIM` components.
pub open spec fn all_dims_ok(embeddings: Seq<Vec<u32>>) -> bool {
    forall|i: int| 0 <= i < embeddings.len() ==> #[trigger] embeddings[i]@.len() == EMBED_DIM
}

/// Assemble the embedded snapshot from the raw entries and the batch the
/// embedding service returned. Fails — rather than corrupting the
/// entry-to-vector mapping — when the counts differ, and refuses vectors
/// of the wrong dimensionality, so a malformed embedding is never
/// persisted.
pub fn assemble_embedded(courses: Vec<Course>, embeddings: Vec<Vec<u32>>) -> (r: Result<
    Vec<Course>,
    CorpusError,
>)
    ensures
        r is Ok <==> courses@.len() == embeddings@.len() && all_dims_ok(embeddings@),
        courses@.len() != embeddings@.len() ==> r == Result::<Vec<Course>, CorpusError>::Err(
            CorpusError::CountMismatch,
        ),
        courses@.len() == embeddings@.len() && !all_dims_ok(embeddings@) ==> r == Result::<
            Vec<Course>,
            CorpusError,
        >::Err(CorpusError::DimensionMismatch),
        r matches Ok(out) ==> {
            &&& out@.len() == courses@.len()
            &&& forall|i: int|
                0 <= i < out@.len() ==> out@[i]@ == courses@[i]@.with_embedding(
                    Some(embeddings@[i]@),
                )
            &&& forall|i: int| 0 <= i < out@.len() ==> (#[trigger] out@[i]@).is_embedded()
        },
{
    if courses.len() != embeddings.len() {
        return Err(CorpusError::CountMismatch);
    }
    let mut i: usize = 0;
    while i < embeddings.len()
        invariant
            i <= embeddings@.len(),
            courses@.len() == embeddings@.len(),
            forall|k: int| 0 <= k < i ==> #[trigger] embeddings@[k]@.len() == EMBED_DIM,
        decreases embeddings@.len() - i,
    {
        if embeddings[i].len() != EMBED_DIM {
            return Err(CorpusError::DimensionMismatch);
        }
        i += 1;
    }
    Ok(embed_courses(courses, embeddings))
}

} // verus!
