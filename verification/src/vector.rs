//! The vector-index side: a model of the backing store's lifecycle
//! (reset, index creation, population), and the exact construction of
//! every command the store executes — document keys, the hybrid
//! filtered-KNN query, and the little-endian encoding of the query
//! vector. The layer that owns the connection executes the returned
//! commands verbatim and feeds replies back in.

use vstd::prelude::*;

use crate::course::Course;
use crate::course::CourseView;
use crate::course::EMBED_DIM;
use crate::text::decimal_digits;
use crate::text::decimal_string;

verus! {

/// Results returned to a client are capped to this many entries.
pub const SEARCH_RESULT_LIMIT: usize = 20;

/// One argument of a store command: text, or a raw byte blob (the query
/// vector parameter).
pub enum CommandArg {
    Text(String),
    Blob(Vec<u8>),
}

/// Model of a command argument.
pub enum CommandArgView {
    Text(Seq<char>),
    Blob(Seq<u8>),
}

impl View for CommandArg {
    type V = CommandArgView;

    open spec fn view(&self) -> CommandArgView {
        match self {
            CommandArg::Text(s) => CommandArgView::Text(s@),
            CommandArg::Blob(b) => CommandArgView::Blob(b@),
        }
    }
}

impl DeepView for CommandArg {
    type V = CommandArgView;

    open spec fn deep_view(&self) -> CommandArgView {
        self.view()
    }
}

/// One document write: the full record stored under its namespaced key.
pub struct DocumentWrite {
    pub key: String,
    pub course: Course,
}

/// Name of the similarity index inside the store.
pub open spec fn index_name_text() -> Seq<char> {
    "idx:course_vss"@
}

/// The index name as a string slice.
pub fn index_name() -> (r: &'static str)
    ensures
        r@ == index_name_text(),
{
    "idx:course_vss"
}

/// The namespaced key of one course document: identity is the pair
/// (department short code, course code).
pub open spec fn document_key_text(dept: Seq<char>, code: Seq<char>) -> Seq<char> {
    "courses:"@ + dept + ":"@ + code
}

/// Build the store key for one course document.
pub fn document_key(department_short: &str, code: &str) -> (r: String)
    ensures
        r@ == document_key_text(department_short@, code@),
{
    let mut out = String::new();
    out.append("courses:");
    out.append(department_short);
    out.append(":");
    out.append(code);
    proof {
        assert(out@ =~= document_key_text(department_short@, code@));
    }
    out
}

/// The pre-filter expression: the quoted sub-filter verbatim when one was
/// extracted, else the match-everything filter.
pub open spec fn pre_filter_text(quoted: Option<Seq<char>>) -> Seq<char> {
    match quoted {
        Some(q) => q,
        None => "*"@,
    }
}

/// Choose the pre-filter expression for a query.
pub fn pre_filter(quoted: Option<String>) -> (r: String)
    ensures
        r@ == pre_filter_text(quoted.deep_view()),
{
    match quoted {
        Some(q) => q,
        None => {
            let mut out = String::new();
            out.append("*");
            out
        },
    }
}

/// The hybrid query expression: the pre-filter, then a K-nearest-neighbor
/// clause over the embedding field with `k` neighbors.
pub open spec fn knn_query_text(filter: Seq<char>, k: int) -> Seq<char> {
    "("@ + filter + ")=>[KNN "@ + decimal_digits(k) + " @embedding $query_vector AS score]"@
}

/// Build the hybrid query expression.
pub fn knn_query(filter: &str, k: usize) -> (r: String)
    ensures
        r@ == knn_query_text(filter@, k as int),
{
    let mut out = String::new();
    out.append("(");
    out.append(filter);
    out.append(")=>[KNN ");
    let digits = decimal_string(k);
    out.append(digits.as_str());
    out.append(" @embedding $query_vector AS score]");
    proof {
        assert(out@ =~= knn_query_text(filter@, k as int));
    }
    out
}

/// The four bytes of one vector component, least significant first.
pub open spec fn le_bytes_of(x: u32) -> Seq<u8> {
    seq![
        (x & 0xff) as u8,
        ((x >> 8) & 0xff) as u8,
        ((x >> 16) & 0xff) as u8,
        ((x >> 24) & 0xff) as u8,
    ]
}

/// A whole vector flattened to bytes, component by component.
pub open spec fn flat_le_bytes(v: Seq<u32>) -> Seq<u8>
    decreases v.len(),
{
    if v.len() == 0 {
        Seq::empty()
    } else {
        flat_le_bytes(v.drop_last()) + le_bytes_of(v.last())
    }
}

/// Encode a vector of component bit patterns as the byte blob the store's
/// vector parameter expects: each component as four little-endian bytes,
/// in component order.
pub fn embedding_bytes(v: &Vec<u32>) -> (r: Vec<u8>)
    ensures
        r@ == flat_le_bytes(v@),
{
    let mut r: Vec<u8> = Vec::new();
    let mut i: usize = 0;
    while i < v.len()
        invariant
            i <= v@.len(),
            r@ =~= flat_le_bytes(v@.take(i as int)),
        decreases v@.len() - i,
    {
        let x = v[i];
        r.push((x & 0xff) as u8);
        r.push(((x >> 8) & 0xff) as u8);
        r.push(((x >> 16) & 0xff) as u8);
        r.push(((x >> 24) & 0xff) as u8);
        i += 1;
        proof {
            assert(v@.take(i as int).drop_last() =~= v@.take(i - 1));
            assert(v@.take(i as int).last() == v@[i - 1]);
            assert(r@ =~= flat_le_bytes(v@.take(i - 1)) + le_bytes_of(v@[i - 1]));
        }
    }
    proof {
        assert(v@.take(v@.len() as int) =~= v@);
    }
    r
}

/// The ranked document keys in a search reply: the store prefixes the key
/// list with the number of hits, which is dropped.
pub fn ranked_keys(reply: Vec<String>) -> (r: Vec<String>)
    ensures
        reply@.len() == 0 ==> r@ == Seq::<String>::empty(),
        reply@.len() > 0 ==> r@ == reply@.skip(1),
{
    let ghost orig = reply@;
    let mut reply = reply;
    if reply.len() > 0 {
        reply.remove(0);
        proof {
            assert(reply@ =~= orig.skip(1));
        }
    }
    reply
}

/// Whether `fetched` holds a body for the key at rank `k`.
pub open spec fn key_found(keys: Seq<String>, fetched: Seq<(String, Course)>, k: int) -> bool {
    exists|j: int| 0 <= j < fetched.len() && (#[trigger] fetched[j]).0@ == keys[k]@
}

/// Whether `fetched` holds a body for every ranked key.
pub open spec fn all_keys_found(keys: Seq<String>, fetched: Seq<(String, Course)>) -> bool {
    forall|k: int| 0 <= k < keys.len() ==> #[trigger] key_found(keys, fetched, k)
}

/// Whether `c` is a body fetched under the key at rank `k`.
pub open spec fn body_at_rank(
    keys: Seq<String>,
    fetched: Seq<(String, Course)>,
    k: int,
    c: CourseView,
) -> bool {
    exists|j: int|
        0 <= j < fetched.len() && (#[trigger] fetched[j]).0@ == keys[k]@ && c == fetched[j].1@
}

/// Re-associate fetched document bodies with the rank their key was
/// returned at: result `i` is a body fetched under key `i`, whatever
/// order the bodies arrived in. `None` when some ranked key has no body.
pub fn order_by_rank(keys: &Vec<String>, fetched: Vec<(String, Course)>) -> (r: Option<
    Vec<Course>,
>)
    ensures
        r is Some <==> all_keys_found(keys@, fetched@),
        r matches Some(out) ==> {
            &&& out@.len() == keys@.len()
            &&& forall|k: int|
                0 <= k < keys@.len() ==> #[trigger] body_at_rank(keys@, fetched@, k, out@[k]@)
        },
{
    let mut out: Vec<Course> = Vec::new();
    let mut i: usize = 0;
    while i < keys.len()
        invariant
            i <= keys@.len(),
            out@.len() == i,
            forall|k: int| 0 <= k < i ==> #[trigger] body_at_rank(keys@, fetched@, k, out@[k]@),
        decreases keys@.len() - i,
    {
        let mut found = false;
        let mut j: usize = 0;
        while j < fetched.len()
            invariant
                i < keys@.len(),
                j <= fetched@.len(),
                out@.len() == i + 1 || out@.len() == i,
                found <==> out@.len() == i + 1,
                found ==> body_at_rank(keys@, fetched@, i as int, out@[i as int]@),
                !found ==> forall|m: int|
                    0 <= m < j ==> (#[trigger] fetched@[m]).0@ != keys@[i as int]@,
                forall|k: int|
                    0 <= k < i ==> #[trigger] body_at_rank(keys@, fetched@, k, out@[k]@),
        decreases fetched@.len() - j,
        {
            if !found && fetched[j].0.eq(&keys[i]) {
                out.push(fetched[j].1.clone());
                found = true;
                proof {
                    assert(fetched@[j as int].0@ == keys@[i as int]@ && out@[i as int]@
                        == fetched@[j as int].1@);
                    assert(body_at_rank(keys@, fetched@, i as int, out@[i as int]@));
                }
            }
            j += 1;
        }
        if !found {
            proof {
                assert(forall|m: int|
                    0 <= m < fetched@.len() ==> (#[trigger] fetched@[m]).0@ != keys@[i as int]@);
                assert(!key_found(keys@, fetched@, i as int));
                assert(!all_keys_found(keys@, fetched@));
            }
            return None;
        }
        proof {
            assert(body_at_rank(keys@, fetched@, i as int, out@[i as int]@));
        }
        i += 1;
    }
    proof {
        assert forall|k: int| 0 <= k < keys@.len() implies #[trigger] key_found(
            keys@,
            fetched@,
            k,
        ) by {
            assert(body_at_rank(keys@, fetched@, k, out@[k]@));
            let j = choose|j: int|
                0 <= j < fetched@.len() && (#[trigger] fetched@[j]).0@ == keys@[k]@ && out@[k]@
                    == fetched@[j].1@;
            assert(0 <= j < fetched@.len() && fetched@[j].0@ == keys@[k]@);
        }
    }
    Some(out)
}

/// Append one text argument to a command under construction.
fn push_text(args: &mut Vec<CommandArg>, s: &str)
    ensures
        final(args).deep_view() == old(args).deep_view().push(CommandArgView::Text(s@)),
{
    args.push(CommandArg::Text(s.to_owned()));
    proof {
        assert(args.deep_view() =~= old(args).deep_view().push(CommandArgView::Text(s@)));
    }
}

/// Append one owned text argument.
fn push_text_string(args: &mut Vec<CommandArg>, s: String)
    ensures
        final(args).deep_view() == old(args).deep_view().push(CommandArgView::Text(s@)),
{
    args.push(CommandArg::Text(s));
    proof {
        assert(args.deep_view() =~= old(args).deep_view().push(CommandArgView::Text(s@)));
    }
}

/// Append one byte-blob argument.
fn push_blob(args: &mut Vec<CommandArg>, b: Vec<u8>)
    ensures
        final(args).deep_view() == old(args).deep_view().push(CommandArgView::Blob(b@)),
{
    args.push(CommandArg::Blob(b));
    proof {
        assert(args.deep_view() =~= old(args).deep_view().push(CommandArgView::Blob(b@)));
    }
}

/// The command that destroys all persisted state: documents and index
/// definition alike.
pub open spec fn reset_args() -> Seq<CommandArgView> {
    seq![CommandArgView::Text("FLUSHALL"@)]
}

/// The command that asks whether the similarity index is defined.
pub open spec fn index_info_args() -> Seq<CommandArgView> {
    seq![CommandArgView::Text("FT.INFO"@), CommandArgView::Text(index_name_text())]
}

/// The command that drops the similarity index definition.
pub open spec fn drop_index_args() -> Seq<CommandArgView> {
    seq![CommandArgView::Text("FT.DROPINDEX"@), CommandArgView::Text(index_name_text())]
}

/// The index schema: exact-token text fields for the identifying and
/// scheduling fields, stemmed text for title and description, one tag per
/// attribute flag, and a flat cosine-distance vector field of exactly
/// `EMBED_DIM` single-precision components, over the document key prefix.
pub open spec fn create_index_args() -> Seq<CommandArgView> {
    seq![
        CommandArgView::Text("FT.CREATE"@),
        CommandArgView::Text(index_name_text()),
        CommandArgView::Text("ON"@),
        CommandArgView::Text("JSON"@),
        CommandArgView::Text("PREFIX"@),
        CommandArgView::Text("1"@),
        CommandArgView::Text("courses:"@),
        CommandArgView::Text("SCHEMA"@),
        CommandArgView::Text("$.department_short"@),
        CommandArgView::Text("AS"@),
        CommandArgView::Text("department_short"@),
        CommandArgView::Text("TEXT"@),
        CommandArgView::Text("NOSTEM"@),
        CommandArgView::Text("$.code"@),
        CommandArgView::Text("AS"@),
        CommandArgView::Text("code"@),
        CommandArgView::Text("TEXT"@),
        CommandArgView::Text("NOSTEM"@),
        CommandArgView::Text("$.title"@),
        CommandArgView::Text("AS"@),
        CommandArgView::Text("title"@),
        CommandArgView::Text("TEXT"@),
        CommandArgView::Text("$.professor"@),
        CommandArgView::Text("AS"@),
        CommandArgView::Text("professor"@),
        CommandArgView::Text("TEXT"@),
        CommandArgView::Text("NOSTEM"@),
        CommandArgView::Text("$.time"@),
        CommandArgView::Text("AS"@),
        CommandArgView::Text("time"@),
        CommandArgView::Text("TEXT"@),
        CommandArgView::Text("NOSTEM"@),
        CommandArgView::Text("$.description"@),
        CommandArgView::Text("AS"@),
        CommandArgView::Text("description"@),
        CommandArgView::Text("TEXT"@),
        CommandArgView::Text("$.writ"@),
        CommandArgView::Text("AS"@),
        CommandArgView::Text("writ"@),
        CommandArgView::Text("TAG"@),
        CommandArgView::Text("$.soph"@),
        CommandArgView::Text("AS"@),
        CommandArgView::Text("soph"@),
        CommandArgView::Text("TAG"@),
        CommandArgView::Text("$.fys"@),
        CommandArgView::Text("AS"@),
        CommandArgView::Text("fys"@),
        CommandArgView::Text("TAG"@),
        CommandArgView::Text("$.rpp"@),
        CommandArgView::Text("AS"@),
        CommandArgView::Text("rpp"@),
        CommandArgView::Text("TAG"@),
        CommandArgView::Text("$.embedding"@),
        CommandArgView::Text("AS"@),
        CommandArgView::Text("embedding"@),
        CommandArgView::Text("VECTOR"@),
        CommandArgView::Text("FLAT"@),
        CommandArgView::Text("6"@),
        CommandArgView::Text("TYPE"@),
        CommandArgView::Text("FLOAT32"@),
        CommandArgView::Text("DIM"@),
        CommandArgView::Text(decimal_digits(EMBED_DIM as int)),
        CommandArgView::Text("DISTANCE_METRIC"@),
        CommandArgView::Text("COSINE"@),
    ]
}

/// The hybrid filtered-KNN search: the query expression, the vector
/// parameter as a byte blob, ascending sort by distance, identifiers
/// only, and at most `k` results.
pub open spec fn search_args(filter: Seq<char>, embedding: Seq<u32>, k: int) -> Seq<
    CommandArgView,
> {
    seq![
        CommandArgView::Text("FT.SEARCH"@),
        CommandArgView::Text(index_name_text()),
        CommandArgView::Text(knn_query_text(filter, k)),
        CommandArgView::Text("PARAMS"@),
        CommandArgView::Text("2"@),
        CommandArgView::Text("query_vector"@),
        CommandArgView::Blob(flat_le_bytes(embedding)),
        CommandArgView::Text("SORTBY"@),
        CommandArgView::Text("score"@),
        CommandArgView::Text("ASC"@),
        CommandArgView::Text("NOCONTENT"@),
        CommandArgView::Text("LIMIT"@),
        CommandArgView::Text("0"@),
        CommandArgView::Text(decimal_digits(k)),
        CommandArgView::Text("DIALECT"@),
        CommandArgView::Text("4"@),
    ]
}

/// Build the reset command.
pub fn reset_command() -> (r: Vec<CommandArg>)
    ensures
        r.deep_view() == reset_args(),
{
    let mut args: Vec<CommandArg> = Vec::new();
    push_text(&mut args, "FLUSHALL");
    proof {
        assert(args.deep_view() =~= reset_args());
    }
    args
}

/// Build the command that asks whether the index is defined; the store
/// answers it with an error when it is not.
pub fn index_info_command() -> (r: Vec<CommandArg>)
    ensures
        r.deep_view() == index_info_args(),
{
    let mut args: Vec<CommandArg> = Vec::new();
    push_text(&mut args, "FT.INFO");
    push_text(&mut args, index_name());
    proof {
        assert(args.deep_view() =~= index_info_args());
    }
    args
}

/// Build the command that drops the index definition.
pub fn drop_index_command() -> (r: Vec<CommandArg>)
    ensures
        r.deep_view() == drop_index_args(),
{
    let mut args: Vec<CommandArg> = Vec::new();
    push_text(&mut args, "FT.DROPINDEX");
    push_text(&mut args, index_name());
    proof {
        assert(args.deep_view() =~= drop_index_args());
    }
    args
}

/// Build the command that defines the index schema.
#[verifier::rlimit(60)]
pub fn create_index_command() -> (r: Vec<CommandArg>)
    ensures
        r.deep_view() == create_index_args(),
{
    let mut args: Vec<CommandArg> = Vec::new();
    push_text(&mut args, "FT.CREATE");
    push_text(&mut args, index_name());
    push_text(&mut args, "ON");
    push_text(&mut args, "JSON");
    push_text(&mut args, "PREFIX");
    push_text(&mut args, "1");
    push_text(&mut args, "courses:");
    push_text(&mut args, "SCHEMA");
    push_text(&mut args, "$.department_short");
    push_text(&mut args, "AS");
    push_text(&mut args, "department_short");
    push_text(&mut args, "TEXT");
    push_text(&mut args, "NOSTEM");
    push_text(&mut args, "$.code");
    push_text(&mut args, "AS");
    push_text(&mut args, "code");
    push_text(&mut args, "TEXT");
    push_text(&mut args, "NOSTEM");
    push_text(&mut args, "$.title");
    push_text(&mut args, "AS");
    push_text(&mut args, "title");
    push_text(&mut args, "TEXT");
    push_text(&mut args, "$.professor");
    push_text(&mut args, "AS");
    push_text(&mut args, "professor");
    push_text(&mut args, "TEXT");
    push_text(&mut args, "NOSTEM");
    push_text(&mut args, "$.time");
    push_text(&mut args, "AS");
    push_text(&mut args, "time");
    push_text(&mut args, "TEXT");
    push_text(&mut args, "NOSTEM");
    push_text(&mut args, "$.description");
    push_text(&mut args, "AS");
    push_text(&mut args, "description");
    push_text(&mut args, "TEXT");
    push_text(&mut args, "$.writ");
    push_text(&mut args, "AS");
    push_text(&mut args, "writ");
    push_text(&mut args, "TAG");
    push_text(&mut args, "$.soph");
    push_text(&mut args, "AS");
    push_text(&mut args, "soph");
    push_text(&mut args, "TAG");
    push_text(&mut args, "$.fys");
    push_text(&mut args, "AS");
    push_text(&mut args, "fys");
    push_text(&mut args, "TAG");
    push_text(&mut args, "$.rpp");
    push_text(&mut args, "AS");
    push_text(&mut args, "rpp");
    push_text(&mut args, "TAG");
    push_text(&mut args, "$.embedding");
    push_text(&mut args, "AS");
    push_text(&mut args, "embedding");
    push_text(&mut args, "VECTOR");
    push_text(&mut args, "FLAT");
    push_text(&mut args, "6");
    push_text(&mut args, "TYPE");
    push_text(&mut args, "FLOAT32");
    push_text(&mut args, "DIM");
    let dim = decimal_string(EMBED_DIM);
    push_text_string(&mut args, dim);
    push_text(&mut args, "DISTANCE_METRIC");
    push_text(&mut args, "COSINE");
    proof {
        assert(args.deep_view() =~= create_index_args());
    }
    args
}

/// Model of the backing store, as far as the lifecycle needs it: how many
/// documents it holds and whether the index schema is defined. Valid for
/// a store that was empty at `new` and to which every returned command
/// has been applied, in order.
pub struct VectorDB {
    pub doc_count: usize,
    pub index_defined: bool,
}

/// The store after a reset holds nothing: no documents, no index.
pub open spec fn reset_rel(pre: VectorDB, post: VectorDB) -> bool {
    post.doc_count == 0 && !post.index_defined
}

/// Creating the index defines the schema and touches no documents.
pub open spec fn create_index_rel(pre: VectorDB, post: VectorDB) -> bool {
    post.index_defined && post.doc_count == pre.doc_count
}

/// Populating writes one document per entry and leaves the schema alone.
pub open spec fn populate_rel(pre: VectorDB, post: VectorDB, n: int) -> bool {
    post.doc_count == pre.doc_count + n && post.index_defined == pre.index_defined
}

/// Whether the modeled store holds any documents.
pub open spec fn spec_populated(db: VectorDB) -> bool {
    db.doc_count > 0
}

/// Law: a reset leaves nothing behind, and the reset → create-index →
/// populate sequence over a non-empty snapshot always ends populated.
pub proof fn lemma_rebuild_totality(
    s0: VectorDB,
    s1: VectorDB,
    s2: VectorDB,
    s3: VectorDB,
    n: int,
)
    requires
        reset_rel(s0, s1),
        create_index_rel(s1, s2),
        populate_rel(s2, s3, n),
        n > 0,
    ensures
        !spec_populated(s1),
        spec_populated(s3),
{
}

/// Law: the search command is a function of the prepared query alone —
/// the same filter, embedding and limit give an identical command, so
/// against a static store a repeated query is answered from an identical
/// request.
pub proof fn lemma_search_deterministic(
    f1: Seq<char>,
    e1: Seq<u32>,
    k1: int,
    f2: Seq<char>,
    e2: Seq<u32>,
    k2: int,
)
    requires
        f1 == f2,
        e1 == e2,
        k1 == k2,
    ensures
        search_args(f1, e1, k1) == search_args(f2, e2, k2),
{
}

/// Whether the indexing path must run: an explicit reindex request, or a
/// store that currently holds no documents.
pub fn should_reindex(reindex_requested: bool, store_doc_count: usize) -> (r: bool)
    ensures
        r == (reindex_requested || store_doc_count == 0),
{
    reindex_requested || store_doc_count == 0
}

impl VectorDB {
    /// Model of an empty store with no index defined.
    pub fn new() -> (r: VectorDB)
        ensures
            r.doc_count == 0,
            !r.index_defined,
    {
        VectorDB { doc_count: 0, index_defined: false }
    }

    /// Whether the modeled store holds any documents.
    pub fn is_populated(&self) -> (r: bool)
        ensures
            r == spec_populated(*self),
    {
        self.doc_count > 0
    }

    /// Destroy all persisted state. Idempotent: the resulting store is
    /// empty whatever it held. Returns the command to execute.
    pub fn reset(&mut self) -> (cmd: Vec<CommandArg>)
        ensures
            reset_rel(*old(self), *final(self)),
            cmd.deep_view() == reset_args(),
    {
        self.doc_count = 0;
        self.index_defined = false;
        reset_command()
    }

    /// Define the index schema, dropping an existing definition first:
    /// schema redefinition is always destructive and total. `index_exists`
    /// is the store's answer to the info command. Returns the commands to
    /// execute, in order.
    pub fn create_index(&mut self, index_exists: bool) -> (cmds: Vec<Vec<CommandArg>>)
        ensures
            create_index_rel(*old(self), *final(self)),
            index_exists ==> cmds.deep_view() == seq![drop_index_args(), create_index_args()],
            !index_exists ==> cmds.deep_view() == seq![create_index_args()],
    {
        self.index_defined = true;
        let mut cmds: Vec<Vec<CommandArg>> = Vec::new();
        if index_exists {
            cmds.push(drop_index_command());
        }
        cmds.push(create_index_command());
        proof {
            if index_exists {
                assert(cmds.deep_view() =~= seq![drop_index_args(), create_index_args()]);
            } else {
                assert(cmds.deep_view() =~= seq![create_index_args()]);
            }
        }
        cmds
    }

    /// Write one document per entry, keyed by department short code and
    /// course code. Only fully embedded entries may be populated: a
    /// document without its vector would violate the field's fixed
    /// dimensionality. Returns the writes, to be applied as one batch.
    pub fn populate_database(&mut self, courses: Vec<Course>) -> (writes: Vec<DocumentWrite>)
        requires
            forall|i: int| 0 <= i < courses@.len() ==> (#[trigger] courses@[i]@).is_embedded(),
            old(self).doc_count + courses@.len() <= usize::MAX,
        ensures
            populate_rel(*old(self), *final(self), courses@.len() as int),
            writes@.len() == courses@.len(),
            forall|i: int|
                0 <= i < courses@.len() ==> (#[trigger] writes@[i]).key@ == document_key_text(
                    courses@[i]@.department_short,
                    courses@[i]@.code,
                ) && writes@[i].course@ == courses@[i]@,
    {
        let ghost orig = courses@;
        let mut courses = courses;
        let mut writes: Vec<DocumentWrite> = Vec::new();
        while courses.len() > 0
            invariant
                courses@ =~= orig.skip(writes@.len() as int),
                writes@.len() <= orig.len(),
                forall|i: int|
                    0 <= i < writes@.len() ==> (#[trigger] writes@[i]).key@ == document_key_text(
                        orig[i]@.department_short,
                        orig[i]@.code,
                    ) && writes@[i].course@ == orig[i]@,
            decreases courses@.len(),
        {
            let ghost k = writes@.len() as int;
            let c = courses.remove(0);
            let key = document_key(c.department_short.as_str(), c.code.as_str());
            writes.push(DocumentWrite { key, course: c });
            proof {
                assert(writes@[k].course@ == orig[k]@);
                assert(courses@ =~= orig.skip(writes@.len() as int));
            }
        }
        self.doc_count = self.doc_count + writes.len();
        writes
    }

    /// Build the hybrid search command for a prepared query: the optional
    /// quoted sub-filter (or match-everything), the query embedding, and
    /// the number of nearest neighbors to return. Search never mutates
    /// the store.
    #[verifier::rlimit(60)]
    pub fn search_embedding(
        &self,
        quoted: Option<String>,
        embedding: Vec<u32>,
        num_results: usize,
    ) -> (r: Vec<CommandArg>)
        ensures
            r.deep_view() == search_args(
                pre_filter_text(quoted.deep_view()),
                embedding@,
                num_results as int,
            ),
    {
        let ghost quoted_view = quoted.deep_view();
        let filter = pre_filter(quoted);
        let query = knn_query(filter.as_str(), num_results);
        let blob = embedding_bytes(&embedding);
        let mut args: Vec<CommandArg> = Vec::new();
        push_text(&mut args, "FT.SEARCH");
        push_text(&mut args, index_name());
        push_text_string(&mut args, query);
        push_text(&mut args, "PARAMS");
        push_text(&mut args, "2");
        push_text(&mut args, "query_vector");
        push_blob(&mut args, blob);
        push_text(&mut args, "SORTBY");
        push_text(&mut args, "score");
        push_text(&mut args, "ASC");
        push_text(&mut args, "NOCONTENT");
        push_text(&mut args, "LIMIT");
        push_text(&mut args, "0");
        let limit = decimal_string(num_results);
        push_text_string(&mut args, limit);
        push_text(&mut args, "DIALECT");
        push_text(&mut args, "4");
        proof {
            assert(args.deep_view() =~= search_args(
                pre_filter_text(quoted_view),
                embedding@,
                num_results as int,
            ));
        }
        args
    }
}

} // verus!
