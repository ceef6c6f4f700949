//! Settings read from the environment, each with its default.
use vstd::prelude::*;
use crate::text::chars_of;

verus! {

/// Whether `c` is an ASCII decimal digit.
pub open spec fn is_digit(c: char) -> bool {
    '0' as u32 <= c as u32 && c as u32 <= '9' as u32
}

/// Whether every character of `s` is a decimal digit.
pub open spec fn all_digits(s: Seq<char>) -> bool {
    forall|i: int| 0 <= i < s.len() ==> is_digit(s[i])
}

/// The value of the decimal numeral `s`.
pub open spec fn decimal(s: Seq<char>) -> int
    decreases s.len(),
{
    if s.len() == 0 {
        0
    } else {
        decimal(s.drop_last()) * 10 + (s.last() as u32 - '0' as u32)
    }
}

/// The digits of an unsigned numeral, past an optional leading `+`.
pub open spec fn unsigned_digits(s: Seq<char>) -> Seq<char> {
    if s.len() > 0 && s[0] == '+' {
        s.drop_first()
    } else {
        s
    }
}

/// The value of `s` read as an unsigned integer no greater than `max`, as integer parsing
/// reads it: an optional `+`, then at least one decimal digit and nothing else.
pub open spec fn parsed_unsigned(s: Seq<char>, max: int) -> Option<int> {
    let d = unsigned_digits(s);
    if d.len() > 0 && all_digits(d) && decimal(d) <= max {
        Some(decimal(d))
    } else {
        None
    }
}

/// `s` read as a boolean: exactly `true` or `false`.
pub open spec fn parsed_bool(s: Seq<char>) -> Option<bool> {
    if s =~= seq!['t', 'r', 'u', 'e'] {
        Some(true)
    } else if s =~= seq!['f', 'a', 'l', 's', 'e'] {
        Some(false)
    } else {
        None
    }
}

/// A parsed value, or `default` where the value is absent or does not parse.
pub open spec fn unsigned_or(v: Option<String>, max: int, default: int) -> int {
    match v {
        Some(s) => match parsed_unsigned(s@, max) {
            Some(n) => n,
            None => default,
        },
        None => default,
    }
}

/// A parsed value that must be positive, or `default` otherwise.
pub open spec fn positive_or(v: Option<String>, max: int, default: int) -> int {
    let n = unsigned_or(v, max, 0);
    if n > 0 {
        n
    } else {
        default
    }
}

/// A text value, or `default` where it is absent.
pub open spec fn text_or(v: Option<String>, default: Seq<char>) -> Seq<char> {
    match v {
        Some(s) => s@,
        None => default,
    }
}

proof fn lemma_decimal_nonneg(s: Seq<char>)
    requires
        all_digits(s),
    ensures
        decimal(s) >= 0,
    decreases s.len(),
{
    if s.len() > 0 {
        lemma_decimal_nonneg(s.drop_last());
    }
}

proof fn lemma_decimal_prefix(s: Seq<char>, k: int)
    requires
        all_digits(s),
        0 <= k <= s.len(),
    ensures
        decimal(s.take(k)) <= decimal(s),
    decreases s.len(),
{
    if k == s.len() {
        assert(s.take(k) =~= s);
    } else {
        let d = s.drop_last();
        assert(d.take(k) =~= s.take(k));
        lemma_decimal_prefix(d, k);
        lemma_decimal_nonneg(d);
    }
}

/// `s` read as an unsigned integer no greater than `max`.
pub fn parse_unsigned(s: &str, max: u64) -> (r: Option<u64>)
    ensures
        r is Some <==> parsed_unsigned(s@, max as int) is Some,
        r is Some ==> r->0 == parsed_unsigned(s@, max as int)->0,
{
    let c = chars_of(s);
    let start: usize = if c.len() > 0 && c[0] == '+' {
        1
    } else {
        0
    };
    let ghost d = unsigned_digits(s@);
    assert(d =~= c@.subrange(start as int, c.len() as int));
    if start >= c.len() {
        return None;
    }
    let mut acc: u64 = 0;
    let mut i: usize = start;
    while i < c.len()
        invariant
            start <= i <= c.len(),
            d == c@.subrange(start as int, c.len() as int),
            d == unsigned_digits(s@),
            acc == decimal(d.take(i - start)),
            acc <= max,
            all_digits(d.take(i - start)),
        decreases c.len() - i,
    {
        let ch = c[i];
        assert(d[i - start] == ch);
        if !('0' as u32 <= ch as u32 && ch as u32 <= '9' as u32) {
            assert(!is_digit(d[i - start]));
            return None;
        }
        let digit = (ch as u32 - '0' as u32) as u64;
        let ghost t = d.take(i - start + 1);
        assert(t.drop_last() =~= d.take(i - start));
        assert(t.last() == ch);
        assert(all_digits(t));
        assert(decimal(t) == acc * 10 + digit);
        if digit > max || acc > (max - digit) / 10 {
            assert(decimal(t) > max) by (nonlinear_arith)
                requires
                    decimal(t) == acc * 10 + digit,
                    digit > max || acc > (max - digit) / 10,
                    acc >= 0,
            {
            }
            proof {
                if all_digits(d) {
                    lemma_decimal_prefix(d, i - start + 1);
                }
            }
            return None;
        }
        acc = acc * 10 + digit;
        i = i + 1;
    }
    assert(d.take(i - start) =~= d);
    Some(acc)
}

/// `s` read as a boolean.
pub fn parse_bool(s: &str) -> (r: Option<bool>)
    ensures
        r == parsed_bool(s@),
{
    let c = chars_of(s);
    if c.len() == 4 && c[0] == 't' && c[1] == 'r' && c[2] == 'u' && c[3] == 'e' {
        assert(s@ =~= seq!['t', 'r', 'u', 'e']);
        Some(true)
    } else if c.len() == 5 && c[0] == 'f' && c[1] == 'a' && c[2] == 'l' && c[3] == 's' && c[4]
        == 'e' {
        assert(s@ =~= seq!['f', 'a', 'l', 's', 'e']);
        Some(false)
    } else {
        None
    }
}

/// An unsigned setting no greater than `max`, or `default`.
fn unsigned_setting(v: &Option<String>, max: u64, default: u64) -> (r: u64)
    requires
        default <= max,
    ensures
        r == unsigned_or(*v, max as int, default as int),
{
    match v {
        Some(s) => match parse_unsigned(s.as_str(), max) {
            Some(n) => n,
            None => default,
        },
        None => default,
    }
}

/// A positive setting no greater than `max`, or `default`.
fn positive_setting(v: &Option<String>, max: u64, default: u64) -> (r: u64)
    requires
        default <= max,
    ensures
        r == positive_or(*v, max as int, default as int),
{
    let n = unsigned_setting(v, max, 0);
    if n > 0 {
        n
    } else {
        default
    }
}

/// A text setting, or `default`.
fn text_setting(v: &Option<String>, default: &str) -> (r: String)
    ensures
        r@ == text_or(*v, default@),
{
    match v {
        Some(s) => s.clone(),
        None => default.to_owned(),
    }
}

/// The raw values of the environment variables the application reads; `None` where unset.
#[derive(Clone, Debug)]
pub struct RawConfig {
    pub app_host: Option<String>,
    pub app_https: Option<String>,
    pub app_port: Option<String>,
    pub database_url: Option<String>,
    pub app_domain: Option<String>,
    pub app_final_domain: Option<String>,
    pub hmac_key: Option<String>,
    pub max_retry_post: Option<String>,
    pub post_check_interval_minutes: Option<String>,
    pub post_keep_latest: Option<String>,
    pub crawler_post_concurrency: Option<String>,
    pub crawler_post_timeout: Option<String>,
    pub crawler_browser_timeout: Option<String>,
}

/// The application's settings.
#[derive(Clone, Debug)]
pub struct Config {
    pub domain: String,
    pub final_domain: String,
    pub host: String,
    pub https: bool,
    pub port: u16,
    pub database_url: String,
    pub hmac: String,
    pub max_retry_post: u8,
    pub post_check_interval_minutes: u32,
    pub post_keep_latest: u64,
    pub post_concurrency: usize,
    pub post_timeout_seconds: u64,
    pub browser_start_timeout_seconds: u64,
}

impl Config {
    /// The settings from the raw environment values, each absent or unreadable value
    /// replaced by its default.
    pub fn load(raw: &RawConfig) -> (r: Config)
        ensures
            r.host@ == text_or(raw.app_host, "127.0.0.1"@),
            r.https == match raw.app_https {
                Some(s) => parsed_bool(s@) == Some(true),
                None => false,
            },
            r.port == unsigned_or(raw.app_port, u16::MAX as int, 8080),
            r.database_url@ == text_or(raw.database_url, "sqlite://database.db?mode=rwc"@),
            r.domain@ == text_or(raw.app_domain, "localhost"@),
            r.final_domain@ == text_or(raw.app_final_domain, "localhost"@),
            r.hmac@ == text_or(raw.hmac_key, ""@),
            r.max_retry_post == unsigned_or(raw.max_retry_post, u8::MAX as int, 3),
            r.post_check_interval_minutes == unsigned_or(
                raw.post_check_interval_minutes,
                u32::MAX as int,
                15,
            ),
            r.post_keep_latest == unsigned_or(raw.post_keep_latest, u64::MAX as int, 1000),
            r.post_concurrency == positive_or(raw.crawler_post_concurrency, usize::MAX as int, 10),
            r.post_timeout_seconds == positive_or(raw.crawler_post_timeout, u64::MAX as int, 15),
            r.browser_start_timeout_seconds == positive_or(
                raw.crawler_browser_timeout,
                u64::MAX as int,
                25,
            ),
            r.post_concurrency > 0 && r.post_timeout_seconds > 0 && r.browser_start_timeout_seconds
                > 0,
    {
        let https = match &raw.app_https {
            Some(s) => match parse_bool(s.as_str()) {
                Some(b) => b,
                None => false,
            },
            None => false,
        };
        Config {
            host: text_setting(&raw.app_host, "127.0.0.1"),
            https,
            port: unsigned_setting(&raw.app_port, u16::MAX as u64, 8080) as u16,
            database_url: text_setting(&raw.database_url, "sqlite://database.db?mode=rwc"),
            domain: text_setting(&raw.app_domain, "localhost"),
            final_domain: text_setting(&raw.app_final_domain, "localhost"),
            hmac: text_setting(&raw.hmac_key, ""),
            max_retry_post: unsigned_setting(&raw.max_retry_post, u8::MAX as u64, 3) as u8,
            post_check_interval_minutes: unsigned_setting(
                &raw.post_check_interval_minutes,
                u32::MAX as u64,
                15,
            ) as u32,
            post_keep_latest: unsigned_setting(&raw.post_keep_latest, u64::MAX, 1000),
            post_concurrency: positive_setting(
                &raw.crawler_post_concurrency,
                usize::MAX as u64,
                10,
            ) as usize,
            post_timeout_seconds: positive_setting(&raw.crawler_post_timeout, u64::MAX, 15),
            browser_start_timeout_seconds: positive_setting(
                &raw.crawler_browser_timeout,
                u64::MAX,
                25,
            ),
        }
    }
}

} // verus!
