//! End-to-end indexing and serving flow over three entries, with a stub
//! embedding service returning orthogonal unit vectors and a stub store
//! reply ranking the matched entry first.

use brunosearch::corpus::assemble_embedded;
use brunosearch::corpus::plan_obtain;
use brunosearch::corpus::ObtainPlan;
use brunosearch::course::Course;
use brunosearch::course::EMBED_DIM;
use brunosearch::text::prepare_query;
use brunosearch::vector::order_by_rank;
use brunosearch::vector::pre_filter;
use brunosearch::vector::ranked_keys;
use brunosearch::vector::CommandArg;
use brunosearch::vector::VectorDB;

fn course(dept: &str, code: &str, title: &str) -> Course {
    Course {
        department_full: format!("Department of {}", dept),
        department_short: dept.to_string(),
        code: code.to_string(),
        title: title.to_string(),
        professor: "P. Professor".to_string(),
        time: "MWF 10-11".to_string(),
        description: "A course.".to_string(),
        writ: false,
        soph: false,
        fys: false,
        rpp: false,
        embedding: None,
    }
}

fn unit_vector(axis: usize) -> Vec<u32> {
    let mut v = vec![0.0f32.to_bits(); EMBED_DIM];
    v[axis] = 1.0f32.to_bits();
    v
}

#[test]
fn three_entries_end_to_end() {
    // Raw snapshot with three entries, distinct department/code pairs.
    let raw = vec![
        course("CSCI", "0220", "Discrete Structures"),
        course("MATH", "0100", "Calculus"),
        course("HIST", "0150", "History"),
    ];

    // No readable embedded snapshot: the rebuild path runs.
    assert!(matches!(plan_obtain(None), ObtainPlan::RebuildFromRaw));

    // Stub embedding service: orthogonal unit vectors, one per entry.
    let batch = vec![unit_vector(0), unit_vector(1), unit_vector(2)];
    let embedded = assemble_embedded(raw, batch).unwrap();
    assert_eq!(embedded.len(), 3);

    // Rebuild the index and populate it.
    let mut db = VectorDB::new();
    db.reset();
    db.create_index(false);
    let writes = db.populate_database(embedded);
    assert!(db.is_populated());
    let keys: Vec<String> = writes.iter().map(|w| w.key.clone()).collect();
    assert_eq!(keys, vec!["courses:CSCI:0220", "courses:MATH:0100", "courses:HIST:0150"]);

    // A query quoting entry 2's course code, embedded closest to entry
    // 2's vector by the stub service.
    let (query, quoted) = prepare_query("the course \"0100\" please");
    assert_eq!(query, "the course \"0100\" please");
    assert_eq!(quoted.as_deref(), Some("0100"));
    assert_eq!(pre_filter(quoted.clone()), "0100");
    let args = db.search_embedding(quoted, unit_vector(1), 20);
    match &args[2] {
        CommandArg::Text(q) => {
            assert_eq!(q, "(0100)=>[KNN 20 @embedding $query_vector AS score]")
        },
        CommandArg::Blob(_) => panic!("the query expression is text"),
    }

    // Stub store reply: entry 2 is the nearest hit under that filter and
    // vector; the reply starts with the hit count.
    let reply = vec!["1".to_string(), "courses:MATH:0100".to_string()];
    let ranked = ranked_keys(reply);
    assert_eq!(ranked, vec!["courses:MATH:0100".to_string()]);

    // Fetch bodies (here: from the writes) and re-associate by rank.
    let fetched: Vec<(String, Course)> = writes
        .into_iter()
        .map(|w| (w.key, w.course))
        .collect();
    let results = order_by_rank(&ranked, fetched).unwrap();
    assert_eq!(results.len(), 1);
    assert_eq!(results[0].title, "Calculus");
    assert_eq!(results[0].department_short, "MATH");
}

#[test]
fn cached_snapshot_skips_the_rebuild_path() {
    let raw = vec![course("CSCI", "0220", "Discrete Structures")];
    let batch = vec![unit_vector(0)];
    let embedded = assemble_embedded(raw, batch).unwrap();

    // A second startup finds the embedded snapshot and uses it as-is.
    match plan_obtain(Some(embedded.clone())) {
        ObtainPlan::UseCache(entries) => {
            assert_eq!(entries.len(), 1);
            assert_eq!(entries[0].embedding, embedded[0].embedding);
        },
        ObtainPlan::RebuildFromRaw => panic!("a valid cache must be used"),
    }
}
