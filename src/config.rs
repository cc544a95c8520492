//! The settings of the reporting loop, and the `KEY=value` text they are read from.

use vstd::prelude::*;

use crate::text::{
    chars_of, find, find_from, line_at, next_line, next_start, same_chars, slice, string_of, trim,
    trimmed,
};

verus! {

/// A setting of the configuration file.
#[derive(PartialEq, Eq, Structural, Clone, Copy, Debug)]
pub enum ConfigKey {
    ApiUrl,
    ApiKey,
    WatchTime,
    MediaEnable,
    LogEnable,
}

/// Why the configuration text was refused.
#[derive(PartialEq, Eq, Structural, Clone, Copy, Debug)]
pub enum ConfigError {
    /// The setting does not occur.
    Missing(ConfigKey),
    /// The setting's value is not a decimal integer that fits in 64 bits.
    InvalidNumber(ConfigKey),
    /// The setting's value is neither `true` nor `false`.
    InvalidBool(ConfigKey),
}

/// The settings of the reporting loop.
#[derive(Clone, Debug)]
pub struct Config {
    pub api_url: String,
    pub api_key: String,
    /// Seconds between two cycles.
    pub watch_time: i64,
    pub media_enable: bool,
    pub log_enable: bool,
}

/// Settings as a mathematical value.
pub struct ConfigView {
    pub api_url: Seq<char>,
    pub api_key: Seq<char>,
    pub watch_time: i64,
    pub media_enable: bool,
    pub log_enable: bool,
}

impl View for Config {
    type V = ConfigView;

    open spec fn view(&self) -> ConfigView {
        ConfigView {
            api_url: self.api_url@,
            api_key: self.api_key@,
            watch_time: self.watch_time,
            media_enable: self.media_enable,
            log_enable: self.log_enable,
        }
    }
}

/// The pause between cycles when the configured one is negative.
pub const DEFAULT_WATCH_SECS: u64 = 5;

impl Config {
    /// Settings with no endpoint, a five-second cycle, and media and logging on.
    pub fn default() -> (r: Config)
        ensures
            r@ == (ConfigView {
                api_url: Seq::empty(),
                api_key: Seq::empty(),
                watch_time: 5,
                media_enable: true,
                log_enable: true,
            }),
    {
        Config {
            api_url: String::new(),
            api_key: String::new(),
            watch_time: 5,
            media_enable: true,
            log_enable: true,
        }
    }

    /// The seconds to sleep between cycles: the configured time, or five
    /// seconds where that is negative.
    pub fn sleep_secs(&self) -> (r: u64)
        ensures
            r == if self.watch_time >= 0 {
                self.watch_time as u64
            } else {
                DEFAULT_WATCH_SECS
            },
    {
        if self.watch_time >= 0 {
            self.watch_time as u64
        } else {
            DEFAULT_WATCH_SECS
        }
    }
}

/// The settings found so far; `None` where a setting has not occurred yet.
pub struct Draft {
    pub api_url: Option<Seq<char>>,
    pub api_key: Option<Seq<char>>,
    pub watch_time: Option<i64>,
    pub media_enable: Option<bool>,
    pub log_enable: Option<bool>,
}

/// The value of a string of decimal digits.
pub open spec fn digits_value(s: Seq<char>) -> int
    decreases s.len(),
{
    if s.len() == 0 {
        0
    } else {
        digits_value(s.drop_last()) * 10 + (s.last() as u32 - 48)
    }
}

pub open spec fn all_digits(s: Seq<char>) -> bool {
    forall|i: int| 0 <= i < s.len() ==> 48 <= (#[trigger] s[i]) as u32 <= 57
}

/// The integer that `s` writes as `i64::from_str` reads it: an optional sign and
/// at least one decimal digit, with a value that fits in 64 bits.
pub open spec fn int_of(s: Seq<char>) -> Option<i64> {
    let neg = s.len() > 0 && s[0] == '-';
    let signed = s.len() > 0 && (s[0] == '-' || s[0] == '+');
    let digits = if signed {
        s.drop_first()
    } else {
        s
    };
    let v = if neg {
        -digits_value(digits)
    } else {
        digits_value(digits)
    };
    if digits.len() > 0 && all_digits(digits) && i64::MIN <= v <= i64::MAX {
        Some(v as i64)
    } else {
        None
    }
}

/// The truth value that `s` writes as `bool::from_str` reads it.
pub open spec fn bool_of(s: Seq<char>) -> Option<bool> {
    if s == "true"@ {
        Some(true)
    } else if s == "false"@ {
        Some(false)
    } else {
        None
    }
}

/// The draft after the line `t` (already trimmed): comments, empty lines, lines
/// without `=` and unknown keys leave it as it is; a known key sets its setting.
pub open spec fn apply_line(d: Draft, t: Seq<char>) -> Result<Draft, ConfigError> {
    if t.len() == 0 || t[0] == '#' {
        Ok(d)
    } else {
        match find_from(t, "="@, 0) {
            None => Ok(d),
            Some(k) => {
                let key = t.subrange(0, k);
                let value = t.subrange(k + 1, t.len() as int);
                if key == "API_URL"@ {
                    Ok(Draft { api_url: Some(value), ..d })
                } else if key == "API_KEY"@ {
                    Ok(Draft { api_key: Some(value), ..d })
                } else if key == "WATCH_TIME"@ {
                    match int_of(value) {
                        Some(v) => Ok(Draft { watch_time: Some(v), ..d }),
                        None => Err(ConfigError::InvalidNumber(ConfigKey::WatchTime)),
                    }
                } else if key == "MEDIA_ENABLE"@ {
                    match bool_of(value) {
                        Some(v) => Ok(Draft { media_enable: Some(v), ..d }),
                        None => Err(ConfigError::InvalidBool(ConfigKey::MediaEnable)),
                    }
                } else if key == "LOG_ENABLE"@ {
                    match bool_of(value) {
                        Some(v) => Ok(Draft { log_enable: Some(v), ..d }),
                        None => Err(ConfigError::InvalidBool(ConfigKey::LogEnable)),
                    }
                } else {
                    Ok(d)
                }
            },
        }
    }
}

/// The draft after the lines of `text` from position `i` on, or the first error.
pub open spec fn scan_config(text: Seq<char>, i: int, d: Draft) -> Result<Draft, ConfigError>
    decreases text.len() - i,
    via scan_config_decreases
{
    if i < 0 || i >= text.len() {
        Ok(d)
    } else {
        match apply_line(d, trim(line_at(text, i))) {
            Ok(d2) => scan_config(text, next_start(text, i), d2),
            Err(e) => Err(e),
        }
    }
}

#[via_fn]
proof fn scan_config_decreases(text: Seq<char>, i: int, d: Draft) {
    if 0 <= i < text.len() {
        crate::text::lemma_line_stop(text, i);
    }
}

/// The settings of a complete draft; the first missing setting otherwise.
pub open spec fn finish_draft(d: Draft) -> Result<ConfigView, ConfigError> {
    if d.api_url is None {
        Err(ConfigError::Missing(ConfigKey::ApiUrl))
    } else if d.api_key is None {
        Err(ConfigError::Missing(ConfigKey::ApiKey))
    } else if d.watch_time is None {
        Err(ConfigError::Missing(ConfigKey::WatchTime))
    } else if d.media_enable is None {
        Err(ConfigError::Missing(ConfigKey::MediaEnable))
    } else if d.log_enable is None {
        Err(ConfigError::Missing(ConfigKey::LogEnable))
    } else {
        Ok(
            ConfigView {
                api_url: d.api_url->0,
                api_key: d.api_key->0,
                watch_time: d.watch_time->0,
                media_enable: d.media_enable->0,
                log_enable: d.log_enable->0,
            },
        )
    }
}

/// The settings that a configuration text holds: each line `KEY=value` sets a
/// key, a later line overriding an earlier one; the first bad value, else the
/// first missing setting, is an error.
pub open spec fn config_of(text: Seq<char>) -> Result<ConfigView, ConfigError> {
    let empty = Draft {
        api_url: None,
        api_key: None,
        watch_time: None,
        media_enable: None,
        log_enable: None,
    };
    match scan_config(text, 0, empty) {
        Ok(d) => finish_draft(d),
        Err(e) => Err(e),
    }
}


proof fn lemma_digits_grow(s: Seq<char>, k: int)
    requires
        0 <= k <= s.len(),
        all_digits(s),
    ensures
        digits_value(s.subrange(0, k)) <= digits_value(s),
        0 <= digits_value(s),
    decreases s.len(),
{
    if s.len() > 0 {
        assert(all_digits(s.drop_last()));
        if k < s.len() {
            assert(s.drop_last().subrange(0, k) =~= s.subrange(0, k));
            lemma_digits_grow(s.drop_last(), k);
        } else {
            assert(s.subrange(0, k) =~= s);
            lemma_digits_grow(s.drop_last(), 0);
        }
    }
}

/// The integer that the characters write, as `i64::from_str` reads it.
pub fn parse_i64(s: &Vec<char>) -> (r: Option<i64>)
    ensures
        r == int_of(s@),
{
    let n = s.len();
    let neg = n > 0 && s[0] == '-';
    let signed = n > 0 && (s[0] == '-' || s[0] == '+');
    let start: usize = if signed {
        1
    } else {
        0
    };
    let ghost digits = if signed {
        s@.drop_first()
    } else {
        s@
    };
    assert(digits =~= s@.subrange(start as int, n as int));
    if start >= n {
        return None;
    }
    let mut acc: i128 = 0;
    let mut k: usize = start;
    while k < n
        invariant
            start <= k <= n,
            n == s.len(),
            digits == s@.subrange(start as int, n as int),
            signed == (s@.len() > 0 && (s@[0] == '-' || s@[0] == '+')),
            neg == (s@.len() > 0 && s@[0] == '-'),
            digits == (if signed {
                s@.drop_first()
            } else {
                s@
            }),
            0 <= acc <= 9223372036854775808,
            acc == digits_value(digits.subrange(0, k - start)),
            all_digits(digits.subrange(0, k - start)),
        decreases n - k,
    {
        let c = s[k] as u32;
        if c < 48 || c > 57 {
            assert(!(48 <= digits[k - start] as u32 <= 57));
            assert(!all_digits(digits));
            return None;
        }
        proof {
            let pre = digits.subrange(0, k - start + 1);
            assert(pre.drop_last() =~= digits.subrange(0, k - start));
            assert(pre.last() == s@[k as int]);
        }
        acc = acc * 10 + (c - 48) as i128;
        assert(all_digits(digits.subrange(0, k - start + 1)));
        assert(acc == digits_value(digits.subrange(0, k - start + 1)));
        if acc > 9223372036854775808 {
            proof {
                if all_digits(digits) {
                    lemma_digits_grow(digits, k - start + 1);
                    assert(digits_value(digits) > 9223372036854775808);
                }
            }
            return None;
        }
        k = k + 1;
    }
    assert(digits.subrange(0, k - start) =~= digits);
    if neg {
        Some((-acc) as i64)
    } else if acc <= 9223372036854775807 {
        Some(acc as i64)
    } else {
        None
    }
}

/// The truth value that the characters write, as `bool::from_str` reads it.
pub fn parse_bool(s: &Vec<char>) -> (r: Option<bool>)
    ensures
        r == bool_of(s@),
{
    if same_chars(s, &chars_of("true")) {
        Some(true)
    } else if same_chars(s, &chars_of("false")) {
        Some(false)
    } else {
        None
    }
}

/// The settings found so far.
pub struct ConfigDraft {
    pub api_url: Option<String>,
    pub api_key: Option<String>,
    pub watch_time: Option<i64>,
    pub media_enable: Option<bool>,
    pub log_enable: Option<bool>,
}

impl View for ConfigDraft {
    type V = Draft;

    open spec fn view(&self) -> Draft {
        Draft {
            api_url: match self.api_url {
                Some(s) => Some(s@),
                None => None,
            },
            api_key: match self.api_key {
                Some(s) => Some(s@),
                None => None,
            },
            watch_time: self.watch_time,
            media_enable: self.media_enable,
            log_enable: self.log_enable,
        }
    }
}

pub open spec fn draft_result(r: Result<ConfigDraft, ConfigError>) -> Result<Draft, ConfigError> {
    match r {
        Ok(d) => Ok(d@),
        Err(e) => Err(e),
    }
}

fn is_key(key: &Vec<char>, name: &str) -> (r: bool)
    ensures
        r == (key@ == name@),
{
    same_chars(key, &chars_of(name))
}

/// The draft after one trimmed line of the configuration text.
fn apply_config_line(d: ConfigDraft, t: &Vec<char>) -> (r: Result<ConfigDraft, ConfigError>)
    ensures
        draft_result(r) == apply_line(d@, t@),
{
    if t.len() == 0 || t[0] == '#' {
        return Ok(d);
    }
    let k = match find(t, &chars_of("="), 0) {
        None => {
            return Ok(d);
        },
        Some(k) => k,
    };
    proof {
        crate::text::lemma_find_from(t@, "="@, 0);
        reveal_strlit("=");
        assert(crate::text::occurs_at(t@, "="@, k as int));
    }
    let key = slice(t, 0, k);
    let value = slice(t, k + 1, t.len());
    if is_key(&key, "API_URL") {
        Ok(ConfigDraft { api_url: Some(string_of(&value)), ..d })
    } else if is_key(&key, "API_KEY") {
        Ok(ConfigDraft { api_key: Some(string_of(&value)), ..d })
    } else if is_key(&key, "WATCH_TIME") {
        match parse_i64(&value) {
            Some(v) => Ok(ConfigDraft { watch_time: Some(v), ..d }),
            None => Err(ConfigError::InvalidNumber(ConfigKey::WatchTime)),
        }
    } else if is_key(&key, "MEDIA_ENABLE") {
        match parse_bool(&value) {
            Some(v) => Ok(ConfigDraft { media_enable: Some(v), ..d }),
            None => Err(ConfigError::InvalidBool(ConfigKey::MediaEnable)),
        }
    } else if is_key(&key, "LOG_ENABLE") {
        match parse_bool(&value) {
            Some(v) => Ok(ConfigDraft { log_enable: Some(v), ..d }),
            None => Err(ConfigError::InvalidBool(ConfigKey::LogEnable)),
        }
    } else {
        Ok(d)
    }
}

pub open spec fn config_result(r: Result<Config, ConfigError>) -> Result<ConfigView, ConfigError> {
    match r {
        Ok(c) => Ok(c@),
        Err(e) => Err(e),
    }
}

/// The settings that a configuration text holds (see `config_of`).
pub fn parse_config(text: &str) -> (r: Result<Config, ConfigError>)
    ensures
        config_result(r) == config_of(text@),
{
    let chars = chars_of(text);
    let mut d = ConfigDraft {
        api_url: None,
        api_key: None,
        watch_time: None,
        media_enable: None,
        log_enable: None,
    };
    let ghost empty = d@;
    let mut i: usize = 0;
    while i < chars.len()
        invariant
            chars@ == text@,
            i <= chars.len(),
            scan_config(text@, 0, empty) == scan_config(text@, i as int, d@),
            empty == (Draft {
                api_url: None,
                api_key: None,
                watch_time: None,
                media_enable: None,
                log_enable: None,
            }),
        decreases chars.len() - i,
    {
        let (line, next) = next_line(&chars, i);
        let t = trimmed(&line);
        let ghost before = d@;
        d = match apply_config_line(d, &t) {
            Ok(d2) => d2,
            Err(e) => {
                assert(apply_line(before, trim(line_at(text@, i as int))) == Err::<Draft, ConfigError>(e));
                assert(scan_config(text@, i as int, before) == Err::<Draft, ConfigError>(e));
                assert(scan_config(text@, 0, empty) == Err::<Draft, ConfigError>(e));
                return Err(e);
            },
        };
        i = next;
    }
    match (d.api_url, d.api_key, d.watch_time, d.media_enable, d.log_enable) {
        (None, _, _, _, _) => Err(ConfigError::Missing(ConfigKey::ApiUrl)),
        (_, None, _, _, _) => Err(ConfigError::Missing(ConfigKey::ApiKey)),
        (_, _, None, _, _) => Err(ConfigError::Missing(ConfigKey::WatchTime)),
        (_, _, _, None, _) => Err(ConfigError::Missing(ConfigKey::MediaEnable)),
        (_, _, _, _, None) => Err(ConfigError::Missing(ConfigKey::LogEnable)),
        (Some(api_url), Some(api_key), Some(watch_time), Some(media_enable), Some(log_enable)) => Ok(
            Config { api_url, api_key, watch_time, media_enable, log_enable },
        ),
    }
}

} // verus!
