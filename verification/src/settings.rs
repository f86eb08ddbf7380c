//! Settings: the cache of the settings table, the typed readers with their
//! defaults, and the settings a server starts with.

use vstd::prelude::*;
use crate::collections::NameMap;
use crate::constants::{
    NOTIFICATION_PREFIX_SETTING,
    SETTINGS_DB_CONNECTION_POOL_SIZE_DEFAULT,
    SETTINGS_JS_THREAD_COUNT_DEFAULT,
    SETTINGS_NINO_DEBUG_PORT_DEFAULT,
    SETTINGS_NINO_SYSTEM_ID_DEFAULT,
    SETTINGS_NINO_THREAD_COUNT_DEFAULT,
    SETTINGS_TABLE,
};
use crate::numbers::{literal_i32, parse_i32};
use crate::text::{
    begins_with,
    chars_of,
    decimal,
    push_decimal,
    push_str,
    starts_with,
    string_of,
};

verus! {

/// A setting as the cache keeps it: its text, and the whole number that
/// the text writes, if it writes one.
#[derive(Clone, Debug)]
pub struct CachedValue {
    pub text: String,
    pub number: Option<i32>,
}

impl CachedValue {
    /// The value that stands for `text`.
    pub fn of_text(text: String) -> (value: CachedValue)
        ensures
            value.text@ == text@,
            value.number == literal_i32(text@),
    {
        let number = parse_i32(text.as_str());
        CachedValue { text, number }
    }

    /// A copy of the value.
    pub fn duplicate(&self) -> (value: CachedValue)
        ensures
            value.text@ == self.text@,
            value.number == self.number,
    {
        CachedValue { text: self.text.clone(), number: self.number }
    }
}

/// The text of a setting: its own where the setting is there, else the
/// default.
pub open spec fn text_or(value: Option<CachedValue>, def_value: Seq<char>) -> Seq<char> {
    match value {
        Some(v) => v.text@,
        None => def_value,
    }
}

/// The whole number of a setting: its own where the setting is there and
/// writes one, else the default.
pub open spec fn number_or(value: Option<CachedValue>, def_value: i32) -> i32 {
    match value {
        Some(v) => match v.number {
            Some(n) => n,
            None => def_value,
        },
        None => def_value,
    }
}

/// A 32-bit signed number taken as a machine word: itself where it is not
/// negative, else counted down from one past the largest word.
pub open spec fn as_word(v: i32) -> usize {
    if v >= 0 {
        v as usize
    } else {
        (usize::MAX + 1 + v) as usize
    }
}

/// A 32-bit signed number taken as a port: its lowest sixteen bits.
pub open spec fn as_port(v: i32) -> u16 {
    (v as int % 0x1_0000) as u16
}

/// The text of a setting, or `def_value` where the setting is missing.
pub fn setting_str(value: Option<&CachedValue>, def_value: &str) -> (out: String)
    ensures
        out@ == match value {
            Some(v) => v.text@,
            None => def_value@,
        },
{
    match value {
        Some(v) => v.text.clone(),
        None => def_value.to_owned(),
    }
}

/// The whole number of a setting, or `def_value` where the setting is
/// missing or writes no whole number.
pub fn setting_i32(value: Option<&CachedValue>, def_value: i32) -> (out: i32)
    ensures
        out == match value {
            Some(v) => match v.number {
                Some(n) => n,
                None => def_value,
            },
            None => def_value,
        },
{
    match value {
        Some(v) => match v.number {
            Some(n) => n,
            None => def_value,
        },
        None => def_value,
    }
}

/// A 32-bit signed number as a machine word.
pub fn word_of(v: i32) -> (out: usize)
    ensures
        out == as_word(v),
{
    if v >= 0 {
        v as usize
    } else {
        let below: i32 = -(v + 1);
        usize::MAX - (below as usize)
    }
}

/// A 32-bit signed number as a port.
pub fn port_of(v: i32) -> (out: u16)
    ensures
        out == as_port(v),
{
    let wide: i64 = v as i64;
    let low: i64 = wide % 0x1_0000;
    if low >= 0 {
        low as u16
    } else {
        (low + 0x1_0000) as u16
    }
}

/// The count of a setting as a machine word, or that of `def_value` where
/// the setting is missing or writes no whole number.
pub fn setting_usize(value: Option<&CachedValue>, def_value: i32) -> (out: usize)
    ensures
        out == as_word(
            match value {
                Some(v) => match v.number {
                    Some(n) => n,
                    None => def_value,
                },
                None => def_value,
            },
        ),
{
    word_of(setting_i32(value, def_value))
}

/// A [`CachedValue`] as a mathematical value.
pub struct SettingView {
    pub text: Seq<char>,
    pub number: Option<i32>,
}

impl View for CachedValue {
    type V = SettingView;

    open spec fn view(&self) -> SettingView {
        SettingView { text: self.text@, number: self.number }
    }
}

/// The setting that stands for a text of the table.
pub open spec fn setting_of(text: Seq<char>) -> SettingView {
    SettingView { text, number: literal_i32(text) }
}

/// The view of a setting that may be missing.
pub open spec fn setting_view(value: Option<CachedValue>) -> Option<SettingView> {
    match value {
        Some(v) => Some(v@),
        None => None,
    }
}

/// The cache of the settings table.
pub struct SettingsCache {
    entries: NameMap<CachedValue>,
}

/// What a reader of a setting does next.
#[derive(Clone, Debug)]
pub enum SettingLookup {
    /// The cache holds the setting.
    Hit(CachedValue),
    /// The cache does not hold it: ask the table with this query and hand
    /// the answer to `store`.
    Miss(String),
}

/// The query that reads one setting; its parameter is the key.
pub open spec fn setting_statement() -> Seq<char> {
    "SELECT setting_value FROM "@ + SETTINGS_TABLE@
        + " WHERE setting_key = $1"@
}

impl SettingsCache {
    /// What the cache holds under `key`.
    pub closed spec fn entry(&self, key: Seq<char>) -> Option<SettingView> {
        setting_view(self.entries.lookup(key))
    }

    /// The cache is one that the operations below keep up.
    pub closed spec fn wf(&self) -> bool {
        self.entries.wf()
    }

    /// An empty cache.
    pub fn new() -> (cache: Self)
        ensures
            cache.wf(),
            forall|k: Seq<char>| (#[trigger] cache.entry(k)) is None,
    {
        SettingsCache { entries: NameMap::new() }
    }

    /// Looks a setting up: the cached value, or the query to ask the table
    /// with.
    pub fn lookup(&self, settings_key: &str) -> (r: SettingLookup)
        requires
            self.wf(),
        ensures
            match self.entry(settings_key@) {
                Some(v) => r matches SettingLookup::Hit(hit) && hit@ == v,
                None => r matches SettingLookup::Miss(q) && q@ == setting_statement(),
            },
    {
        match self.entries.get(settings_key) {
            Some(v) => SettingLookup::Hit(v.duplicate()),
            None => {
                let mut buf: Vec<char> = Vec::new();
                push_str(&mut buf, "SELECT setting_value FROM ");
                push_str(&mut buf, SETTINGS_TABLE);
                push_str(&mut buf, " WHERE setting_key = $1");
                SettingLookup::Miss(string_of(&buf))
            },
        }
    }

    /// Takes in what the table answered for `settings_key`: a text is
    /// cached under the key and handed back as a setting, no row leaves
    /// the cache as it is. Other keys keep what they had.
    pub fn store(&mut self, settings_key: &str, row: Option<String>) -> (r: Option<CachedValue>)
        requires
            old(self).wf(),
        ensures
            final(self).wf(),
            match row {
                Some(text) => {
                    &&& r matches Some(v)
                    &&& v@ == setting_of(text@)
                    &&& forall|k: Seq<char>| #[trigger]
                        final(self).entry(k) == if k == settings_key@ {
                            Some(setting_of(text@))
                        } else {
                            old(self).entry(k)
                        }
                },
                None => {
                    &&& r is None
                    &&& forall|k: Seq<char>| #[trigger] final(self).entry(k) == old(self).entry(k)
                },
            },
    {
        match row {
            Some(text) => {
                let value = CachedValue::of_text(text);
                let copy = value.duplicate();
                self.entries.insert(settings_key.to_owned(), value);
                proof {
                    assert forall|k: Seq<char>| #[trigger]
                        self.entry(k) == if k == settings_key@ {
                            Some(setting_of(text@))
                        } else {
                            old(self).entry(k)
                        } by {
                        assert(self.entries.lookup(k) == if k == settings_key@ {
                            Some(value)
                        } else {
                            old(self).entries.lookup(k)
                        });
                    }
                }
                Some(copy)
            },
            None => None,
        }
    }

    /// Takes in a notification: one that begins with the prefix of the
    /// settings empties the cache, any other leaves it as it is.
    pub fn invalidate(&mut self, message: &str) -> (cleared: bool)
        requires
            old(self).wf(),
        ensures
            final(self).wf(),
            cleared == begins_with(message@, NOTIFICATION_PREFIX_SETTING@),
            forall|k: Seq<char>| #[trigger]
                final(self).entry(k) == if cleared {
                    None
                } else {
                    old(self).entry(k)
                },
    {
        let m = chars_of(message);
        let p = chars_of(NOTIFICATION_PREFIX_SETTING);
        if starts_with(&m, &p) {
            self.entries.clear();
            true
        } else {
            false
        }
    }
}

/// The settings a server starts with.
#[derive(Clone, Debug)]
pub struct InitialSettings {
    pub system_id: String,
    pub connection_string: String,
    pub thread_count: usize,
    pub db_pool_size: usize,
    pub js_thread_count: usize,
    pub debug_port: u16,
}

/// The five settings of the table that a server reads before it starts,
/// each as the table gave it.
pub struct StartupSettings {
    pub system_id: Option<CachedValue>,
    pub thread_count: Option<CachedValue>,
    pub js_thread_count: Option<CachedValue>,
    pub debug_port: Option<CachedValue>,
    pub db_pool_size: Option<CachedValue>,
}

/// The sum of two machine words, cut to a machine word.
pub open spec fn wrapped_sum(a: usize, b: usize) -> usize {
    if a + b > usize::MAX {
        (a + b - usize::MAX - 1) as usize
    } else {
        (a + b) as usize
    }
}

/// The line that reports a named text.
pub open spec fn text_line(name: Seq<char>, value: Seq<char>) -> Seq<char> {
    name + ": "@ + value
}

/// The line that reports a named number.
pub open spec fn number_line(name: Seq<char>, value: nat) -> Seq<char> {
    name + ": "@ + decimal(value)
}

fn line_of_number(name: &str, value: u64) -> (line: String)
    ensures
        line@ == number_line(name@, value as nat),
{
    let mut buf: Vec<char> = Vec::new();
    push_str(&mut buf, name);
    push_str(&mut buf, ": ");
    push_decimal(&mut buf, value);
    string_of(&buf)
}

impl InitialSettings {
    /// The settings a server starts with, from what the table gave: a
    /// missing setting takes its default, and a pool size of zero stands
    /// for one connection for each serving thread and each isolate.
    pub fn from_settings(connection_string: String, found: &StartupSettings) -> (s: Self)
        ensures
            s.connection_string@ == connection_string@,
            s.system_id@ == text_or(found.system_id, SETTINGS_NINO_SYSTEM_ID_DEFAULT@),
            s.thread_count == as_word(
                number_or(found.thread_count, SETTINGS_NINO_THREAD_COUNT_DEFAULT),
            ),
            s.js_thread_count == as_word(
                number_or(found.js_thread_count, SETTINGS_JS_THREAD_COUNT_DEFAULT),
            ),
            s.debug_port == as_port(number_or(found.debug_port, SETTINGS_NINO_DEBUG_PORT_DEFAULT)),
            s.db_pool_size == if as_word(
                number_or(found.db_pool_size, SETTINGS_DB_CONNECTION_POOL_SIZE_DEFAULT),
            ) == 0 {
                wrapped_sum(s.thread_count, s.js_thread_count)
            } else {
                as_word(number_or(found.db_pool_size, SETTINGS_DB_CONNECTION_POOL_SIZE_DEFAULT))
            },
    {
        let system_id = setting_str(found.system_id.as_ref(), SETTINGS_NINO_SYSTEM_ID_DEFAULT);
        let thread_count = setting_usize(
            found.thread_count.as_ref(),
            SETTINGS_NINO_THREAD_COUNT_DEFAULT,
        );
        let js_thread_count = setting_usize(
            found.js_thread_count.as_ref(),
            SETTINGS_JS_THREAD_COUNT_DEFAULT,
        );
        let debug_port = port_of(
            setting_i32(found.debug_port.as_ref(), SETTINGS_NINO_DEBUG_PORT_DEFAULT),
        );
        let mut db_pool_size = setting_usize(
            found.db_pool_size.as_ref(),
            SETTINGS_DB_CONNECTION_POOL_SIZE_DEFAULT,
        );
        if db_pool_size == 0 {
            db_pool_size = if thread_count > usize::MAX - js_thread_count {
                thread_count - (usize::MAX - js_thread_count) - 1
            } else {
                thread_count + js_thread_count
            };
        }
        InitialSettings {
            system_id,
            connection_string,
            thread_count,
            debug_port,
            db_pool_size,
            js_thread_count,
        }
    }

    /// The lines that report the settings. The connection string is left
    /// out: it may hold a password.
    pub fn print(&self) -> (lines: Vec<String>)
        ensures
            lines.len() == 5,
            lines[0]@ == text_line("system_id"@, self.system_id@),
            lines[1]@ == number_line("thread_count"@, self.thread_count as nat),
            lines[2]@ == number_line("db_pool_size"@, self.db_pool_size as nat),
            lines[3]@ == number_line("js_thread_count"@, self.js_thread_count as nat),
            lines[4]@ == number_line("debug_port"@, self.debug_port as nat),
    {
        let mut lines: Vec<String> = Vec::new();
        let mut buf: Vec<char> = Vec::new();
        push_str(&mut buf, "system_id");
        push_str(&mut buf, ": ");
        push_str(&mut buf, self.system_id.as_str());
        lines.push(string_of(&buf));
        lines.push(line_of_number("thread_count", self.thread_count as u64));
        lines.push(line_of_number("db_pool_size", self.db_pool_size as u64));
        lines.push(line_of_number("js_thread_count", self.js_thread_count as u64));
        lines.push(line_of_number("debug_port", self.debug_port as u64));
        lines
    }
}

} // verus!
