use shotauto::config::{
    get_value_params, get_value_statement, set_value_params, set_value_statement, setting_keys,
    stored_value, Config,
};
use shotauto::error::StoreError;
use shotauto::sql::{SqlCell, SqlParam};

fn text(s: &str) -> Option<String> {
    Some(s.to_string())
}

#[test]
fn the_defaults_are_the_documented_ones() {
    let c = Config::default();
    assert_eq!(c.youtube_api_key, None);
    assert_eq!(c.telegram_bot_token, None);
    assert_eq!(c.telegram_chat_id, None);
    assert_eq!(c.ollama_endpoint, "http://localhost:11434");
    assert_eq!(c.poll_interval_secs, 300);
}

#[test]
fn nothing_stored_gives_the_defaults() {
    assert_eq!(Config::from_stored(None, None, None, None, None), Config::default());
}

#[test]
fn stored_values_are_taken_as_they_are() {
    let c = Config::from_stored(text("key"), text("token"), text("chat"), text("http://host:1"), text("60"));
    assert_eq!(
        c,
        Config {
            youtube_api_key: text("key"),
            telegram_bot_token: text("token"),
            telegram_chat_id: text("chat"),
            ollama_endpoint: "http://host:1".to_string(),
            poll_interval_secs: 60,
        }
    );
}

#[test]
fn an_empty_endpoint_is_kept_and_not_replaced() {
    let c = Config::from_stored(None, None, None, text(""), None);
    assert_eq!(c.ollama_endpoint, "");
}

#[test]
fn a_poll_interval_that_is_no_number_falls_back() {
    for bad in ["", "soon", "-5", "1.5", " 60", "18446744073709551616"] {
        let c = Config::from_stored(None, None, None, None, text(bad));
        assert_eq!(c.poll_interval_secs, 300, "{:?}", bad);
    }
    assert_eq!(Config::from_stored(None, None, None, None, text("0")).poll_interval_secs, 0);
    assert_eq!(Config::from_stored(None, None, None, None, text("+15")).poll_interval_secs, 15);
}

#[test]
fn a_save_writes_the_endpoint_and_the_interval_always() {
    let pairs = Config::default().writes();
    assert_eq!(
        pairs,
        vec![
            ("ollama_endpoint".to_string(), "http://localhost:11434".to_string()),
            ("poll_interval_secs".to_string(), "300".to_string()),
        ]
    );
}

#[test]
fn a_save_writes_each_credential_that_is_there() {
    let c = Config {
        youtube_api_key: text("k"),
        telegram_bot_token: None,
        telegram_chat_id: text("c"),
        ollama_endpoint: "e".to_string(),
        poll_interval_secs: 5,
    };
    assert_eq!(
        c.writes(),
        vec![
            ("youtube_api_key".to_string(), "k".to_string()),
            ("telegram_chat_id".to_string(), "c".to_string()),
            ("ollama_endpoint".to_string(), "e".to_string()),
            ("poll_interval_secs".to_string(), "5".to_string()),
        ]
    );
    let full = Config { telegram_bot_token: text("t"), ..c };
    assert_eq!(full.writes().len(), 5);
    assert_eq!(full.writes()[1], ("telegram_bot_token".to_string(), "t".to_string()));
}

#[test]
fn the_pairs_of_a_save_load_to_the_same_settings() {
    let c = Config {
        youtube_api_key: text("k"),
        telegram_bot_token: text("t"),
        telegram_chat_id: text("c"),
        ollama_endpoint: "http://host:9".to_string(),
        poll_interval_secs: u64::MAX,
    };
    let pairs = c.writes();
    let find = |key: &str| pairs.iter().find(|p| p.0 == key).map(|p| p.1.clone());
    let loaded = Config::from_stored(
        find("youtube_api_key"),
        find("telegram_bot_token"),
        find("telegram_chat_id"),
        find("ollama_endpoint"),
        find("poll_interval_secs"),
    );
    assert_eq!(loaded, c);
}

#[test]
fn a_missing_row_is_a_missing_value() {
    assert_eq!(stored_value(None), Ok(None));
}

#[test]
fn a_row_of_one_text_is_its_value() {
    assert_eq!(stored_value(Some(vec![SqlCell::Text("v".to_string())])), Ok(text("v")));
    assert_eq!(stored_value(Some(vec![SqlCell::Text(String::new())])), Ok(text("")));
}

#[test]
fn a_value_row_of_another_shape_is_malformed() {
    assert_eq!(stored_value(Some(vec![SqlCell::Integer(1)])), Err(StoreError::Malformed { column: 0 }));
    assert_eq!(stored_value(Some(vec![SqlCell::Null])), Err(StoreError::Malformed { column: 0 }));
    assert_eq!(stored_value(Some(vec![])), Err(StoreError::Malformed { column: 0 }));
    assert_eq!(
        stored_value(Some(vec![SqlCell::Text("v".to_string()), SqlCell::Null])),
        Err(StoreError::Malformed { column: 1 })
    );
}

#[test]
fn the_five_keys_in_the_order_of_the_settings() {
    assert_eq!(
        setting_keys(),
        vec![
            "youtube_api_key",
            "telegram_bot_token",
            "telegram_chat_id",
            "ollama_endpoint",
            "poll_interval_secs",
        ]
    );
}

#[test]
fn the_statements_for_one_value_and_what_they_bind() {
    assert_eq!(get_value_statement(), "SELECT value FROM config WHERE key = ?");
    assert_eq!(get_value_params("k"), vec![SqlParam::Text("k".to_string())]);
    assert_eq!(set_value_statement(), "INSERT OR REPLACE INTO config (key, value) VALUES (?, ?)");
    assert_eq!(
        set_value_params("k", "v"),
        vec![SqlParam::Text("k".to_string()), SqlParam::Text("v".to_string())]
    );
}
