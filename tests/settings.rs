use rust_crawler::config::{parse_bool, parse_unsigned, Config, RawConfig};
use rust_crawler::cron::{PostCleanupCron, SiteCron, CLEANUP_INTERVAL_SECS};
use rust_crawler::fetch::PostProcessingConfig;
use rust_crawler::pagination::{Items, PaginationParams};

fn empty_raw() -> RawConfig {
    RawConfig {
        app_host: None,
        app_https: None,
        app_port: None,
        database_url: None,
        app_domain: None,
        app_final_domain: None,
        hmac_key: None,
        max_retry_post: None,
        post_check_interval_minutes: None,
        post_keep_latest: None,
        crawler_post_concurrency: None,
        crawler_post_timeout: None,
        crawler_browser_timeout: None,
    }
}

#[test]
fn defaults_apply_when_nothing_is_set() {
    let c = Config::load(&empty_raw());
    assert_eq!(c.host, "127.0.0.1");
    assert_eq!(c.port, 8080);
    assert_eq!(c.database_url, "sqlite://database.db?mode=rwc");
    assert!(!c.https);
    assert_eq!(c.max_retry_post, 3);
    assert_eq!(c.post_check_interval_minutes, 15);
    assert_eq!(c.post_keep_latest, 1000);
    assert_eq!(c.post_concurrency, 10);
    assert_eq!(c.post_timeout_seconds, 15);
    assert_eq!(c.browser_start_timeout_seconds, 25);
    assert_eq!(c.hmac, "");
}

#[test]
fn set_values_are_parsed_and_bad_ones_ignored() {
    let mut raw = empty_raw();
    raw.app_port = Some("9000".to_string());
    raw.app_https = Some("true".to_string());
    raw.max_retry_post = Some("300".to_string());
    raw.post_keep_latest = Some("0".to_string());
    raw.crawler_post_concurrency = Some("0".to_string());
    raw.crawler_post_timeout = Some("abc".to_string());
    raw.crawler_browser_timeout = Some("+40".to_string());
    let c = Config::load(&raw);
    assert_eq!(c.port, 9000);
    assert!(c.https);
    assert_eq!(c.max_retry_post, 3);
    assert_eq!(c.post_keep_latest, 0);
    assert_eq!(c.post_concurrency, 10);
    assert_eq!(c.post_timeout_seconds, 15);
    assert_eq!(c.browser_start_timeout_seconds, 40);
    let p = PostProcessingConfig::from_config(&c);
    assert_eq!(p.concurrency_limit, 10);
    assert_eq!(p.browser_start_timeout_secs, 40);
    assert_eq!(PostProcessingConfig::fallback().concurrency_limit, 20);
}

#[test]
fn unsigned_parsing_matches_integer_parsing() {
    assert_eq!(parse_unsigned("42", 100), Some(42));
    assert_eq!(parse_unsigned("+7", 100), Some(7));
    assert_eq!(parse_unsigned("101", 100), None);
    assert_eq!(parse_unsigned("", 100), None);
    assert_eq!(parse_unsigned("+", 100), None);
    assert_eq!(parse_unsigned("-1", 100), None);
    assert_eq!(parse_unsigned(" 1", 100), None);
    assert_eq!(parse_unsigned("18446744073709551615", u64::MAX), Some(u64::MAX));
    assert_eq!(parse_unsigned("18446744073709551616", u64::MAX), None);
    assert_eq!(parse_unsigned("007", 10), Some(7));
    assert_eq!(parse_bool("true"), Some(true));
    assert_eq!(parse_bool("false"), Some(false));
    assert_eq!(parse_bool("TRUE"), None);
}

#[test]
fn pages_are_counted_and_bounded() {
    let i = Items::new(vec![1, 2, 3], 0, 20, 45);
    assert_eq!((i.page, i.per_page, i.total, i.total_pages), (1, 20, 45, 3));
    let i = Items::<u8>::new(vec![], 2, 0, 0);
    assert_eq!((i.page, i.per_page, i.total_pages), (2, 1, 1));
    let i = Items::<u8>::new(vec![], 1, 500, 1000);
    assert_eq!((i.per_page, i.total_pages), (100, 10));
    let p = PaginationParams { page: None, per_page: None };
    assert_eq!((p.page(), p.per_page()), (1, 20));
    let p = PaginationParams { page: Some(4), per_page: Some(1000) };
    assert_eq!((p.page(), p.per_page()), (4, 100));
}

#[test]
fn schedules_have_their_intervals() {
    let m = SiteCron::run(15, "fetch", "discover");
    assert_eq!(m.definitions.len(), 1);
    assert_eq!(m.definitions[0].name, "fetch_new_posts");
    assert_eq!(m.definitions[0].interval_secs, 900);
    assert_eq!(m.definitions[0].tasks, vec!["fetch", "discover"]);
    let c = PostCleanupCron::run("sweep");
    assert_eq!(c.definitions[0].name, "cleanup_old_posts");
    assert_eq!(c.definitions[0].interval_secs, CLEANUP_INTERVAL_SECS);
    assert_eq!(CLEANUP_INTERVAL_SECS, 24 * 60 * 60);
}
