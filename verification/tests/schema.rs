use shotauto::schema::schema_statements;

#[test]
fn the_schema_creates_every_table_and_index_only_where_missing() {
    let sql = schema_statements();
    for name in ["config", "trends", "jobs", "shorts", "metrics"] {
        assert!(sql.contains(&format!("CREATE TABLE IF NOT EXISTS {} (", name)), "{}", name);
    }
    assert!(sql.contains("CREATE INDEX IF NOT EXISTS idx_jobs_status ON jobs(status);"));
    assert!(sql.contains("CREATE INDEX IF NOT EXISTS idx_trends_video_id ON trends(video_id);"));
    assert_eq!(sql.matches("CREATE ").count(), 7);
    assert_eq!(sql.matches("IF NOT EXISTS").count(), 7);
}

#[test]
fn the_schema_keeps_video_ids_unique_and_statuses_within_the_five() {
    let sql = schema_statements();
    assert!(sql.contains("video_id TEXT UNIQUE NOT NULL"));
    assert!(sql.contains("CHECK(status IN ('pending','generating','rendering','done','failed'))"));
    assert!(sql.contains("key TEXT PRIMARY KEY"));
}
