use brunosearch::course::Course;
use brunosearch::course::strip_embeddings;
use brunosearch::course::EMBED_DIM;
use brunosearch::vector::document_key;
use brunosearch::vector::embedding_bytes;
use brunosearch::vector::knn_query;
use brunosearch::vector::order_by_rank;
use brunosearch::vector::pre_filter;
use brunosearch::vector::ranked_keys;
use brunosearch::vector::should_reindex;
use brunosearch::vector::CommandArg;
use brunosearch::vector::VectorDB;

fn course(dept: &str, code: &str, title: &str) -> Course {
    Course {
        department_full: format!("Department of {}", dept),
        department_short: dept.to_string(),
        code: code.to_string(),
        title: title.to_string(),
        professor: "P. Professor".to_string(),
        time: "MWF 10-11".to_string(),
        description: "A course.".to_string(),
        writ: false,
        soph: false,
        fys: false,
        rpp: false,
        embedding: Some(vec![0u32; EMBED_DIM]),
    }
}

fn text_arg(arg: &CommandArg) -> &str {
    match arg {
        CommandArg::Text(s) => s.as_str(),
        CommandArg::Blob(_) => panic!("expected a text argument"),
    }
}

fn blob_arg(arg: &CommandArg) -> &[u8] {
    match arg {
        CommandArg::Blob(b) => b.as_slice(),
        CommandArg::Text(_) => panic!("expected a blob argument"),
    }
}

#[test]
fn document_keys_are_namespaced_by_identity() {
    assert_eq!(document_key("CSCI", "0220"), "courses:CSCI:0220");
}

#[test]
fn pre_filter_defaults_to_match_everything() {
    assert_eq!(pre_filter(Some("@code:0220".to_string())), "@code:0220");
    assert_eq!(pre_filter(None), "*");
}

#[test]
fn knn_query_renders_filter_and_count() {
    assert_eq!(knn_query("*", 20), "(*)=>[KNN 20 @embedding $query_vector AS score]");
    assert_eq!(
        knn_query("@code:0220", 5),
        "(@code:0220)=>[KNN 5 @embedding $query_vector AS score]"
    );
}

#[test]
fn embedding_bytes_are_little_endian_in_component_order() {
    let v = vec![0x0403_0201u32, 0x0807_0605u32];
    assert_eq!(embedding_bytes(&v), vec![1, 2, 3, 4, 5, 6, 7, 8]);
}

#[test]
fn embedding_bytes_match_float_encoding() {
    let floats = [1.0f32, -2.5f32, 0.125f32];
    let bits: Vec<u32> = floats.iter().map(|f| f.to_bits()).collect();
    let expected: Vec<u8> = floats.iter().flat_map(|f| f.to_le_bytes()).collect();
    assert_eq!(embedding_bytes(&bits), expected);
}

#[test]
fn ranked_keys_drop_the_hit_count() {
    let reply = vec!["2".to_string(), "courses:A:1".to_string(), "courses:B:2".to_string()];
    assert_eq!(ranked_keys(reply), vec!["courses:A:1".to_string(), "courses:B:2".to_string()]);
    assert_eq!(ranked_keys(vec![]), Vec::<String>::new());
}

#[test]
fn order_by_rank_restores_rank_order() {
    let keys = vec!["courses:A:1".to_string(), "courses:B:2".to_string()];
    // Bodies arrive in the opposite order.
    let fetched = vec![
        ("courses:B:2".to_string(), course("B", "2", "Second")),
        ("courses:A:1".to_string(), course("A", "1", "First")),
    ];
    let out = order_by_rank(&keys, fetched).unwrap();
    assert_eq!(out.len(), 2);
    assert_eq!(out[0].title, "First");
    assert_eq!(out[1].title, "Second");
}

#[test]
fn order_by_rank_fails_on_a_missing_body() {
    let keys = vec!["courses:A:1".to_string(), "courses:B:2".to_string()];
    let fetched = vec![("courses:A:1".to_string(), course("A", "1", "First"))];
    assert!(order_by_rank(&keys, fetched).is_none());
}

#[test]
fn search_command_carries_filter_knn_and_limit() {
    let db = VectorDB::new();
    let embedding = vec![1.0f32.to_bits(); EMBED_DIM];
    let args = db.search_embedding(Some("@code:0220".to_string()), embedding.clone(), 5);
    assert_eq!(text_arg(&args[0]), "FT.SEARCH");
    assert_eq!(text_arg(&args[1]), "idx:course_vss");
    assert_eq!(text_arg(&args[2]), "(@code:0220)=>[KNN 5 @embedding $query_vector AS score]");
    assert_eq!(text_arg(&args[3]), "PARAMS");
    assert_eq!(text_arg(&args[4]), "2");
    assert_eq!(text_arg(&args[5]), "query_vector");
    assert_eq!(blob_arg(&args[6]), embedding_bytes(&embedding).as_slice());
    assert_eq!(text_arg(&args[7]), "SORTBY");
    assert_eq!(text_arg(&args[8]), "score");
    assert_eq!(text_arg(&args[9]), "ASC");
    assert_eq!(text_arg(&args[10]), "NOCONTENT");
    assert_eq!(text_arg(&args[11]), "LIMIT");
    assert_eq!(text_arg(&args[12]), "0");
    assert_eq!(text_arg(&args[13]), "5");
    assert_eq!(text_arg(&args[14]), "DIALECT");
    assert_eq!(text_arg(&args[15]), "4");
    assert_eq!(args.len(), 16);
}

#[test]
fn reset_then_populate_flips_is_populated() {
    let mut db = VectorDB::new();
    assert!(!db.is_populated());
    let cmd = db.reset();
    assert_eq!(text_arg(&cmd[0]), "FLUSHALL");
    assert!(!db.is_populated());
    let entries = vec![course("CSCI", "0220", "Discrete Structures")];
    let writes = db.populate_database(entries);
    assert_eq!(writes.len(), 1);
    assert_eq!(writes[0].key, "courses:CSCI:0220");
    assert!(db.is_populated());
    db.reset();
    assert!(!db.is_populated());
}

#[test]
fn create_index_drops_an_existing_definition_first() {
    let mut db = VectorDB::new();
    let cmds = db.create_index(true);
    assert_eq!(cmds.len(), 2);
    assert_eq!(text_arg(&cmds[0][0]), "FT.DROPINDEX");
    assert_eq!(text_arg(&cmds[1][0]), "FT.CREATE");
    let cmds = db.create_index(false);
    assert_eq!(cmds.len(), 1);
    assert_eq!(text_arg(&cmds[0][0]), "FT.CREATE");
}

#[test]
fn index_schema_declares_the_vector_field() {
    let mut db = VectorDB::new();
    let cmds = db.create_index(false);
    let tokens: Vec<&str> = cmds[0].iter().map(text_arg).collect();
    assert_eq!(tokens[0], "FT.CREATE");
    assert_eq!(tokens[1], "idx:course_vss");
    assert_eq!(&tokens[2..8], &["ON", "JSON", "PREFIX", "1", "courses:", "SCHEMA"]);
    let dim_pos = tokens.iter().position(|t| *t == "DIM").unwrap();
    assert_eq!(tokens[dim_pos + 1], "1536");
    assert!(tokens.contains(&"VECTOR"));
    assert!(tokens.contains(&"FLOAT32"));
    assert!(tokens.contains(&"COSINE"));
    assert!(tokens.contains(&"$.embedding"));
}

#[test]
fn reindex_runs_on_request_or_empty_store() {
    assert!(should_reindex(true, 10));
    assert!(should_reindex(false, 0));
    assert!(!should_reindex(false, 10));
}

#[test]
fn stripping_clears_embeddings_and_keeps_order() {
    let out = strip_embeddings(vec![
        course("CSCI", "0220", "Discrete Structures"),
        course("MATH", "0100", "Calculus"),
    ]);
    assert_eq!(out.len(), 2);
    assert!(out.iter().all(|c| c.embedding.is_none()));
    assert_eq!(out[0].code, "0220");
    assert_eq!(out[1].code, "0100");
}
