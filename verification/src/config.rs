//! The settings record and how it is laid out as key/value pairs.

use vstd::prelude::*;
use vstd::string::*;
use crate::cells::{
    find_misfit, first_misfit, fits_at, params_view, row_fits, ColumnKind, ParamModel,
};
use crate::error::StoreError;
use crate::sql::{SqlCell, SqlParam};
use crate::text::opt_text;
use crate::decimal::{lemma_written_number_reads_back, parse_u64, text_of_nat, u64_of_text, write_u64};

verus! {

/// The settings of the application. The three credentials are optional;
/// the endpoint and the poll interval always have a value.
#[derive(Debug, Clone, PartialEq, Eq)]
pub struct Config {
    pub youtube_api_key: Option<String>,
    pub telegram_bot_token: Option<String>,
    pub telegram_chat_id: Option<String>,
    pub ollama_endpoint: String,
    pub poll_interval_secs: u64,
}

/// What a `Config` holds, as plain text and numbers.
pub struct ConfigModel {
    pub youtube_api_key: Option<Seq<char>>,
    pub telegram_bot_token: Option<Seq<char>>,
    pub telegram_chat_id: Option<Seq<char>>,
    pub ollama_endpoint: Seq<char>,
    pub poll_interval_secs: u64,
}

/// The key/value pairs of the settings table.
pub type Settings = Map<Seq<char>, Seq<char>>;

impl View for Config {
    type V = ConfigModel;

    open spec fn view(&self) -> ConfigModel {
        ConfigModel {
            youtube_api_key: opt_text(self.youtube_api_key),
            telegram_bot_token: opt_text(self.telegram_bot_token),
            telegram_chat_id: opt_text(self.telegram_chat_id),
            ollama_endpoint: self.ollama_endpoint@,
            poll_interval_secs: self.poll_interval_secs,
        }
    }
}

pub open spec fn key_youtube_api_key() -> Seq<char> {
    "youtube_api_key"@
}

pub open spec fn key_telegram_bot_token() -> Seq<char> {
    "telegram_bot_token"@
}

pub open spec fn key_telegram_chat_id() -> Seq<char> {
    "telegram_chat_id"@
}

pub open spec fn key_ollama_endpoint() -> Seq<char> {
    "ollama_endpoint"@
}

pub open spec fn key_poll_interval_secs() -> Seq<char> {
    "poll_interval_secs"@
}

/// The endpoint that is assumed while none is stored.
pub open spec fn default_endpoint() -> Seq<char> {
    "http://localhost:11434"@
}

/// The poll interval, in seconds, that is assumed while none is stored or
/// the stored text is no number.
pub open spec fn default_poll_interval() -> u64 {
    300
}

impl ConfigModel {
    /// The settings of a store in which nothing was ever written.
    pub open spec fn defaults() -> ConfigModel {
        ConfigModel {
            youtube_api_key: None,
            telegram_bot_token: None,
            telegram_chat_id: None,
            ollama_endpoint: default_endpoint(),
            poll_interval_secs: default_poll_interval(),
        }
    }

    /// The settings that five stored values stand for: a missing
    /// credential stays missing, a missing endpoint is the default one,
    /// and a poll interval that is missing or is no number is the default
    /// one.
    pub open spec fn of_values(
        api_key: Option<Seq<char>>,
        bot_token: Option<Seq<char>>,
        chat_id: Option<Seq<char>>,
        endpoint: Option<Seq<char>>,
        poll_interval: Option<Seq<char>>,
    ) -> ConfigModel {
        ConfigModel {
            youtube_api_key: api_key,
            telegram_bot_token: bot_token,
            telegram_chat_id: chat_id,
            ollama_endpoint: match endpoint {
                Some(e) => e,
                None => default_endpoint(),
            },
            poll_interval_secs: match poll_interval {
                Some(text) => match u64_of_text(text) {
                    Some(n) => n,
                    None => default_poll_interval(),
                },
                None => default_poll_interval(),
            },
        }
    }

    /// The settings that a settings table stands for.
    pub open spec fn of_settings(m: Settings) -> ConfigModel {
        ConfigModel::of_values(
            lookup(m, key_youtube_api_key()),
            lookup(m, key_telegram_bot_token()),
            lookup(m, key_telegram_chat_id()),
            lookup(m, key_ollama_endpoint()),
            lookup(m, key_poll_interval_secs()),
        )
    }

    /// The pairs that saving writes, in the order in which it writes them:
    /// a credential only where there is one, then the endpoint and the
    /// poll interval.
    pub open spec fn writes(self) -> Seq<(Seq<char>, Seq<char>)> {
        opt_write(key_youtube_api_key(), self.youtube_api_key) + opt_write(
            key_telegram_bot_token(),
            self.telegram_bot_token,
        ) + opt_write(key_telegram_chat_id(), self.telegram_chat_id) + seq![
            (key_ollama_endpoint(), self.ollama_endpoint),
            (key_poll_interval_secs(), text_of_nat(self.poll_interval_secs as nat)),
        ]
    }
}

/// The value stored under a key, if any.
pub open spec fn lookup(m: Settings, key: Seq<char>) -> Option<Seq<char>> {
    if m.dom().contains(key) {
        Some(m[key])
    } else {
        None
    }
}

/// No pair for a missing value, one pair for a present one.
pub open spec fn opt_write(key: Seq<char>, value: Option<Seq<char>>) -> Seq<(Seq<char>, Seq<char>)> {
    match value {
        Some(v) => seq![(key, v)],
        None => seq![],
    }
}

/// The settings table after the pairs were written one after the other,
/// each replacing what stood under its key.
pub open spec fn after_writes(m: Settings, writes: Seq<(Seq<char>, Seq<char>)>) -> Settings
    decreases writes.len(),
{
    if writes.len() == 0 {
        m
    } else {
        after_writes(m.insert(writes[0].0, writes[0].1), writes.drop_first())
    }
}

/// The texts of a list of pairs.
pub open spec fn pairs_text(v: Seq<(String, String)>) -> Seq<(Seq<char>, Seq<char>)> {
    v.map_values(|p: (String, String)| (p.0@, p.1@))
}

impl Default for Config {
    fn default() -> (r: Config)
        ensures
            r@ == ConfigModel::defaults(),
    {
        Config {
            youtube_api_key: None,
            telegram_bot_token: None,
            telegram_chat_id: None,
            ollama_endpoint: String::from_str("http://localhost:11434"),
            poll_interval_secs: 300,
        }
    }
}

impl Config {
    /// Builds the settings from the five stored values, each `None` where
    /// nothing is stored under its key.
    pub fn from_stored(
        api_key: Option<String>,
        bot_token: Option<String>,
        chat_id: Option<String>,
        endpoint: Option<String>,
        poll_interval: Option<String>,
    ) -> (r: Config)
        ensures
            r@ == ConfigModel::of_values(
                opt_text(api_key),
                opt_text(bot_token),
                opt_text(chat_id),
                opt_text(endpoint),
                opt_text(poll_interval),
            ),
    {
        let ollama_endpoint = match endpoint {
            Some(e) => e,
            None => String::from_str("http://localhost:11434"),
        };
        let poll_interval_secs: u64 = match poll_interval {
            Some(text) => match parse_u64(text.as_str()) {
                Some(n) => n,
                None => 300,
            },
            None => 300,
        };
        Config {
            youtube_api_key: api_key,
            telegram_bot_token: bot_token,
            telegram_chat_id: chat_id,
            ollama_endpoint,
            poll_interval_secs,
        }
    }

    /// The key/value pairs to write when these settings are saved, in
    /// order. A missing credential gives no pair, so that what was stored
    /// for it before stays.
    pub fn writes(&self) -> (r: Vec<(String, String)>)
        ensures
            pairs_text(r@) == self@.writes(),
    {
        let mut out: Vec<(String, String)> = Vec::new();
        if let Some(v) = &self.youtube_api_key {
            out.push((String::from_str("youtube_api_key"), v.clone()));
        }
        if let Some(v) = &self.telegram_bot_token {
            out.push((String::from_str("telegram_bot_token"), v.clone()));
        }
        if let Some(v) = &self.telegram_chat_id {
            out.push((String::from_str("telegram_chat_id"), v.clone()));
        }
        out.push((String::from_str("ollama_endpoint"), self.ollama_endpoint.clone()));
        out.push((String::from_str("poll_interval_secs"), write_u64(self.poll_interval_secs)));
        assert(pairs_text(out@) =~= self@.writes());
        out
    }
}

/// The one column of a stored value.
pub open spec fn value_columns() -> Seq<ColumnKind> {
    seq![ColumnKind::Text]
}

/// Turns the store's answer to the lookup of one key into the value. No
/// row means that nothing is stored under the key; a row must hold one
/// text, and a row of another shape is an error that names the column at
/// which it goes wrong.
pub fn stored_value(row: Option<Vec<SqlCell>>) -> (r: Result<Option<String>, StoreError>)
    ensures
        match r {
            Ok(None) => row is None,
            Ok(Some(v)) => row matches Some(cells) && row_fits(cells@, value_columns())
                && cells@[0].text() == v@,
            Err(StoreError::Malformed { column }) => row matches Some(cells) && first_misfit(
                cells@,
                value_columns(),
                column as int,
            ),
            Err(_) => false,
        },
{
    match row {
        None => Ok(None),
        Some(cells) => {
            let mut kinds: Vec<ColumnKind> = Vec::new();
            kinds.push(ColumnKind::Text);
            assert(kinds@ =~= value_columns());
            match find_misfit(&cells, &kinds) {
                Some(column) => Err(StoreError::Malformed { column }),
                None => {
                    assert(fits_at(cells@, value_columns(), 0));
                    Ok(Some(cells[0].get_text()))
                },
            }
        },
    }
}

/// The keys under which the five settings are stored, in the order in
/// which `Config::from_stored` takes their values.
pub fn setting_keys() -> (r: Vec<&'static str>)
    ensures
        r@.len() == 5,
        r@[0]@ == key_youtube_api_key(),
        r@[1]@ == key_telegram_bot_token(),
        r@[2]@ == key_telegram_chat_id(),
        r@[3]@ == key_ollama_endpoint(),
        r@[4]@ == key_poll_interval_secs(),
{
    let mut v: Vec<&'static str> = Vec::new();
    v.push("youtube_api_key");
    v.push("telegram_bot_token");
    v.push("telegram_chat_id");
    v.push("ollama_endpoint");
    v.push("poll_interval_secs");
    v
}

/// The statement that looks one key up; its placeholder stands for the
/// key.
pub fn get_value_statement() -> (r: &'static str)
    ensures
        r@ == "SELECT value FROM config WHERE key = ?"@,
{
    "SELECT value FROM config WHERE key = ?"
}

/// The value that `get_value_statement` binds.
pub fn get_value_params(key: &str) -> (r: Vec<SqlParam>)
    ensures
        params_view(r@) == seq![ParamModel::Text(key@)],
{
    let mut v: Vec<SqlParam> = Vec::new();
    v.push(SqlParam::Text(String::from_str(key)));
    assert(params_view(v@) =~= seq![ParamModel::Text(key@)]);
    v
}

/// The statement that stores a value under a key, in place of what was
/// stored under it; its placeholders stand for the key and the value.
pub fn set_value_statement() -> (r: &'static str)
    ensures
        r@ == "INSERT OR REPLACE INTO config (key, value) VALUES (?, ?)"@,
{
    "INSERT OR REPLACE INTO config (key, value) VALUES (?, ?)"
}

/// The values that `set_value_statement` binds.
pub fn set_value_params(key: &str, value: &str) -> (r: Vec<SqlParam>)
    ensures
        params_view(r@) == seq![ParamModel::Text(key@), ParamModel::Text(value@)],
{
    let mut v: Vec<SqlParam> = Vec::new();
    v.push(SqlParam::Text(String::from_str(key)));
    v.push(SqlParam::Text(String::from_str(value)));
    assert(params_view(v@) =~= seq![ParamModel::Text(key@), ParamModel::Text(value@)]);
    v
}

proof fn lemma_keys_distinct()
    ensures
        key_youtube_api_key() != key_telegram_bot_token(),
        key_youtube_api_key() != key_telegram_chat_id(),
        key_youtube_api_key() != key_ollama_endpoint(),
        key_youtube_api_key() != key_poll_interval_secs(),
        key_telegram_bot_token() != key_telegram_chat_id(),
        key_telegram_bot_token() != key_ollama_endpoint(),
        key_telegram_bot_token() != key_poll_interval_secs(),
        key_telegram_chat_id() != key_ollama_endpoint(),
        key_telegram_chat_id() != key_poll_interval_secs(),
        key_ollama_endpoint() != key_poll_interval_secs(),
{
    reveal_strlit("youtube_api_key");
    reveal_strlit("telegram_bot_token");
    reveal_strlit("telegram_chat_id");
    reveal_strlit("ollama_endpoint");
    reveal_strlit("poll_interval_secs");
    assert("youtube_api_key"@.len() == 15 && "youtube_api_key"@[0] == 'y');
    assert("telegram_bot_token"@.len() == 18 && "telegram_bot_token"@[0] == 't');
    assert("telegram_chat_id"@.len() == 16);
    assert("ollama_endpoint"@.len() == 15 && "ollama_endpoint"@[0] == 'o');
    assert("poll_interval_secs"@.len() == 18 && "poll_interval_secs"@[0] == 'p');
}

proof fn lemma_after_writes_concat(
    m: Settings,
    a: Seq<(Seq<char>, Seq<char>)>,
    b: Seq<(Seq<char>, Seq<char>)>,
)
    ensures
        after_writes(m, a + b) == after_writes(after_writes(m, a), b),
    decreases a.len(),
{
    if a.len() == 0 {
        assert(a + b =~= b);
    } else {
        assert((a + b)[0] == a[0]);
        assert((a + b).drop_first() =~= a.drop_first() + b);
        lemma_after_writes_concat(m.insert(a[0].0, a[0].1), a.drop_first(), b);
    }
}

proof fn lemma_after_opt_write(m: Settings, key: Seq<char>, value: Option<Seq<char>>)
    ensures
        after_writes(m, opt_write(key, value)) == match value {
            Some(v) => m.insert(key, v),
            None => m,
        },
{
    match value {
        Some(v) => {
            let w = opt_write(key, value);
            assert(w.len() == 1 && w[0] == (key, v));
            assert(w.drop_first().len() == 0);
            assert(after_writes(m.insert(key, v), w.drop_first()) == m.insert(key, v));
        },
        None => {},
    }
}

/// What a save changes: a later load finds every value that the saved
/// settings hold, and for a credential that they do not hold, whatever
/// was stored for it before.
pub proof fn lemma_load_after_save(m: Settings, c: ConfigModel)
    ensures
        ConfigModel::of_settings(after_writes(m, c.writes())) == (ConfigModel {
            youtube_api_key: if c.youtube_api_key is Some {
                c.youtube_api_key
            } else {
                lookup(m, key_youtube_api_key())
            },
            telegram_bot_token: if c.telegram_bot_token is Some {
                c.telegram_bot_token
            } else {
                lookup(m, key_telegram_bot_token())
            },
            telegram_chat_id: if c.telegram_chat_id is Some {
                c.telegram_chat_id
            } else {
                lookup(m, key_telegram_chat_id())
            },
            ollama_endpoint: c.ollama_endpoint,
            poll_interval_secs: c.poll_interval_secs,
        }),
{
    lemma_keys_distinct();
    lemma_written_number_reads_back(c.poll_interval_secs);
    let w1 = opt_write(key_youtube_api_key(), c.youtube_api_key);
    let w2 = opt_write(key_telegram_bot_token(), c.telegram_bot_token);
    let w3 = opt_write(key_telegram_chat_id(), c.telegram_chat_id);
    let e = (key_ollama_endpoint(), c.ollama_endpoint);
    let p = (key_poll_interval_secs(), text_of_nat(c.poll_interval_secs as nat));
    let w4 = seq![e];
    let w5 = seq![p];
    assert(c.writes() =~= w1 + w2 + w3 + w4 + w5);
    let m1 = after_writes(m, w1);
    let m2 = after_writes(m1, w2);
    let m3 = after_writes(m2, w3);
    let m4 = after_writes(m3, w4);
    let m5 = after_writes(m4, w5);
    lemma_after_writes_concat(m, w1 + w2 + w3 + w4, w5);
    lemma_after_writes_concat(m, w1 + w2 + w3, w4);
    lemma_after_writes_concat(m, w1 + w2, w3);
    lemma_after_writes_concat(m, w1, w2);
    assert(after_writes(m, c.writes()) == m5);
    lemma_after_opt_write(m, key_youtube_api_key(), c.youtube_api_key);
    lemma_after_opt_write(m1, key_telegram_bot_token(), c.telegram_bot_token);
    lemma_after_opt_write(m2, key_telegram_chat_id(), c.telegram_chat_id);
    assert(w4 =~= opt_write(e.0, Some(e.1)));
    assert(w5 =~= opt_write(p.0, Some(p.1)));
    lemma_after_opt_write(m3, e.0, Some(e.1));
    lemma_after_opt_write(m4, p.0, Some(p.1));
}

/// Saving what was loaded changes nothing that a load can see: loading
/// again gives the same settings.
pub proof fn lemma_save_of_loaded_is_idempotent(m: Settings)
    ensures
        ConfigModel::of_settings(after_writes(m, ConfigModel::of_settings(m).writes()))
            == ConfigModel::of_settings(m),
{
    lemma_load_after_save(m, ConfigModel::of_settings(m));
}

/// A store in which no key was ever written loads to the defaults.
pub proof fn lemma_fresh_store_loads_defaults()
    ensures
        ConfigModel::of_settings(Map::empty()) == ConfigModel::defaults(),
{
}

} // verus!
