use heappy::engine::naming::{name_tables, sanitize_table_name};
use heappy::engine::views::{
    base_name, count_parquet_files, create_view_sql, group_files, is_parquet_name, plan_views,
    register_parquet_views, DirEntry, FileGroup,
};
use heappy::engine::{DuckDbParquetEngine, OpenAction, OpenEvent};

fn entry(name: &str) -> DirEntry {
    DirEntry { file_name: name.to_string(), path: format!("/d/{}", name) }
}

fn listing() -> Vec<DirEntry> {
    vec![
        entry("java.lang.String_chunk0.parquet"),
        entry("readme.txt"),
        entry("Map$Entry.parquet"),
        entry("java.lang.String_chunk1.parquet"),
        entry(".parquet"),
    ]
}

#[test]
fn parquet_extension_is_recognized() {
    assert!(is_parquet_name("a.parquet"));
    assert!(is_parquet_name("..parquet"));
    assert!(!is_parquet_name(".parquet"));
    assert!(!is_parquet_name("parquet"));
    assert!(!is_parquet_name("a.parquet.gz"));
    assert!(!is_parquet_name("a.PARQUET"));
    assert!(!is_parquet_name(""));
}

#[test]
fn chunks_share_a_base_name() {
    assert_eq!(base_name("Foo_chunk0.parquet"), "Foo");
    assert_eq!(base_name("Foo_chunk12.parquet"), "Foo");
    assert_eq!(base_name("Foo.parquet"), "Foo");
    assert_eq!(base_name("a_chunk1_chunk2.parquet"), "a_chunk1");
    assert_eq!(base_name("_chunk.parquet"), "");
    assert_eq!(base_name("a_chun.parquet"), "a_chun");
}

#[test]
fn parquet_files_are_counted() {
    let names: Vec<String> =
        vec!["a.parquet".to_string(), "b.txt".to_string(), "c.parquet".to_string()];
    assert_eq!(count_parquet_files(Some(&names)), 2);
    assert_eq!(count_parquet_files(Some(&Vec::new())), 0);
    assert_eq!(count_parquet_files(None), 0);
}

#[test]
fn table_names_are_sanitized() {
    assert_eq!(sanitize_table_name("java.util.Map$Entry"), "java_util_Map_D_Entry");
    assert_eq!(sanitize_table_name("a-b"), "a_b");
    assert_eq!(sanitize_table_name("plain_name"), "plain_name");
    assert_eq!(sanitize_table_name(""), "_");
    assert_eq!(sanitize_table_name("a\"b"), "a_b");
    assert_eq!(sanitize_table_name("\""), "_");
    let once = sanitize_table_name("x.$-y");
    assert_eq!(once, "x__D__y");
    assert_eq!(sanitize_table_name(&once), once);
}

#[test]
fn files_are_grouped_by_base_name() {
    let groups = group_files(&listing());
    assert_eq!(
        groups,
        vec![
            FileGroup {
                base: "java.lang.String".to_string(),
                files: vec![
                    "/d/java.lang.String_chunk0.parquet".to_string(),
                    "/d/java.lang.String_chunk1.parquet".to_string(),
                ],
            },
            FileGroup {
                base: "Map$Entry".to_string(),
                files: vec!["/d/Map$Entry.parquet".to_string()],
            },
        ]
    );
}

#[test]
fn view_statement_names_one_file_or_lists_several() {
    assert_eq!(
        create_view_sql("t", &vec!["/d/a.parquet".to_string()]),
        "CREATE VIEW \"t\" AS SELECT * FROM read_parquet('/d/a.parquet')"
    );
    assert_eq!(
        create_view_sql("t", &vec!["a".to_string(), "b".to_string()]),
        "CREATE VIEW \"t\" AS SELECT * FROM read_parquet(['a','b'])"
    );
    assert_eq!(
        create_view_sql("t", &vec!["/d/it's.parquet".to_string()]),
        "CREATE VIEW \"t\" AS SELECT * FROM read_parquet('/d/it''s.parquet')"
    );
    assert_eq!(
        create_view_sql("t", &vec!["'".to_string(), "b".to_string()]),
        "CREATE VIEW \"t\" AS SELECT * FROM read_parquet(['''','b'])"
    );
}

#[test]
fn each_parquet_file_stands_in_one_view() {
    let entries = listing();
    let names: Vec<String> = entries.iter().map(|e| e.file_name.clone()).collect();
    let held: usize = group_files(&entries).iter().map(|g| g.files.len()).sum();
    assert_eq!(held, count_parquet_files(Some(&names)));
    let statements = plan_views(&entries);
    assert_eq!(statements.len(), 2);
    assert_eq!(statements[0].table_name, "java_lang_String");
    assert_eq!(
        statements[0].sql,
        "CREATE VIEW \"java_lang_String\" AS SELECT * FROM \
         read_parquet(['/d/java.lang.String_chunk0.parquet','/d/java.lang.String_chunk1.parquet'])"
    );
    assert_eq!(statements[1].table_name, "Map_D_Entry");
}

fn table_names(names: Vec<&str>) -> Vec<String> {
    let entries: Vec<DirEntry> = names.into_iter().map(entry).collect();
    plan_views(&entries).into_iter().map(|s| s.table_name).collect()
}

#[test]
fn views_whose_names_meet_are_told_apart() {
    let entries = vec![entry("a.b.parquet"), entry("a-b.parquet")];
    let statements = plan_views(&entries);
    assert_eq!(
        statements[0].sql,
        "CREATE VIEW \"a_b\" AS SELECT * FROM read_parquet('/d/a.b.parquet')"
    );
    assert_eq!(
        statements[1].sql,
        "CREATE VIEW \"a_b_\" AS SELECT * FROM read_parquet('/d/a-b.parquet')"
    );
}

#[test]
fn made_up_name_takes_no_other_name() {
    assert_eq!(
        table_names(vec!["a.b.parquet", "a-b.parquet", "a_b_.parquet"]),
        vec!["a_b", "a_b__", "a_b_"]
    );
    assert_eq!(
        table_names(vec!["a.b.parquet", "a-b.parquet", "a_b.parquet", "a_b_.parquet"]),
        vec!["a_b", "a_b__", "a_b___", "a_b_"]
    );
}

#[test]
fn plain_base_name_has_the_better_claim() {
    assert_eq!(table_names(vec!["_chunk0.parquet", "_.parquet"]), vec!["__", "_"]);
    assert_eq!(table_names(vec!["a\"b.parquet", "a_b.parquet"]), vec!["a_b_", "a_b"]);
    assert_eq!(table_names(vec!["a\"b.parquet", "x.parquet"]), vec!["a_b", "x"]);
}

#[test]
fn views_that_differ_in_case_are_told_apart() {
    assert_eq!(
        table_names(vec!["Foo.parquet", "foo.parquet", "FOO_.parquet", "bar.parquet"]),
        vec!["Foo", "foo__", "FOO_", "bar"]
    );
}

#[test]
fn no_bases_have_no_names() {
    assert_eq!(name_tables(&Vec::new()), Vec::<String>::new());
}

#[test]
fn nameless_chunks_have_a_view() {
    assert_eq!(table_names(vec!["_chunk.parquet", "_chunk0.parquet"]), vec!["_"]);
}

#[test]
fn many_files_are_grouped() {
    let entries: Vec<DirEntry> =
        (0..40_000).map(|i| entry(&format!("c{}_chunk{}.parquet", i / 2, i % 2))).collect();
    let groups = group_files(&entries);
    assert_eq!(groups.len(), 20_000);
    assert_eq!(groups[19_999].base, "c19999");
    assert_eq!(groups[19_999].files.len(), 2);
    assert_eq!(plan_views(&entries).len(), 20_000);
}

#[test]
fn failed_view_is_reported_and_not_counted() {
    let mut registration = register_parquet_views(&listing());
    assert_eq!(registration.table_count(), 0);
    assert_eq!(registration.next_statement(), Some(plan_views(&listing())[0].sql.as_str()));
    assert_eq!(
        registration.record(Err("bad file".to_string())),
        Some("Warning: failed to register java_lang_String: bad file".to_string())
    );
    assert_eq!(registration.next_statement(), Some(plan_views(&listing())[1].sql.as_str()));
    assert_eq!(registration.record(Ok(())), None);
    assert_eq!(registration.next_statement(), None);
    assert_eq!(registration.table_count(), 1);
}

#[test]
fn engine_opens_over_its_views() {
    assert_eq!(DuckDbParquetEngine::new("heap", OpenEvent::Started), OpenAction::OpenDatabase);
    assert_eq!(
        DuckDbParquetEngine::new("heap", OpenEvent::DatabaseOpened(Ok(()))),
        OpenAction::Resolve { dir: "heap".to_string() }
    );
    assert_eq!(
        DuckDbParquetEngine::new("heap", OpenEvent::Resolved(Ok("/d".to_string()))),
        OpenAction::List { parquet_dir: "/d".to_string() }
    );
    let listed = OpenEvent::Listed { parquet_dir: "/d".to_string(), entries: Ok(listing()) };
    let (parquet_dir, mut registration) = match DuckDbParquetEngine::new("heap", listed) {
        OpenAction::Register { parquet_dir, registration } => (parquet_dir, registration),
        other => panic!("{:?}", other),
    };
    while registration.next_statement().is_some() {
        registration.record(Ok(()));
    }
    match DuckDbParquetEngine::new("heap", OpenEvent::Registered { parquet_dir, registration }) {
        OpenAction::Finish(Ok(engine)) => {
            assert_eq!(engine.table_count(), 2);
            assert_eq!(engine.parquet_dir(), "/d");
        }
        other => panic!("{:?}", other),
    }
}

#[test]
fn engine_opens_not_after_a_failure() {
    let failed = || OpenAction::Finish(Err("e".to_string()));
    let error = || "e".to_string();
    assert_eq!(DuckDbParquetEngine::new("heap", OpenEvent::DatabaseOpened(Err(error()))), failed());
    assert_eq!(DuckDbParquetEngine::new("heap", OpenEvent::Resolved(Err(error()))), failed());
    let listed = OpenEvent::Listed { parquet_dir: "/d".to_string(), entries: Err(error()) };
    assert_eq!(DuckDbParquetEngine::new("heap", listed), failed());
}
