use soupbin_feed::http_settings::{retries_of, HttpClientBuilderConfig};
use soupbin_feed::pool::{MssqlConfig, PoolSettings};
use std::time::Duration;

fn database(pool_size: Option<u32>, min_idle: Option<u32>, timeout: Option<u32>) -> MssqlConfig {
    MssqlConfig {
        host: "db.example".to_string(),
        port: 1433,
        username: "reader".to_string(),
        password: "secret".to_string(),
        database: "feed".to_string(),
        pool_size,
        min_idle,
        connection_timeout: timeout,
    }
}

#[test]
fn http_settings_default_to_short_timeouts_and_json() {
    let config = HttpClientBuilderConfig::default();
    assert_eq!(config.timeout, Some(Duration::from_secs(10)));
    assert_eq!(config.connect_timeout, Some(Duration::from_secs(5)));
    assert_eq!(config.max_idle_per_host, Some(8));
    assert_eq!(
        config.default_headers,
        Some(vec![("accept".to_string(), "application/json".to_string())])
    );
}

#[test]
fn the_callers_http_settings_replace_the_default_ones_one_and_all() {
    let custom = HttpClientBuilderConfig {
        timeout: Some(Duration::from_millis(2500)),
        connect_timeout: None,
        max_idle_per_host: None,
        default_headers: None,
    };
    let merged = HttpClientBuilderConfig::merged(Some(custom));
    assert_eq!(merged.timeout, Some(Duration::from_millis(2500)));
    assert_eq!(merged.connect_timeout, None);
    assert_eq!(merged.max_idle_per_host, None);
    assert_eq!(merged.default_headers, None);

    let merged = HttpClientBuilderConfig::merged(None);
    assert_eq!(merged.timeout, Some(Duration::from_secs(10)));
    assert_eq!(merged.max_idle_per_host, Some(8));
}

#[test]
fn requests_are_tried_again_three_times_by_default() {
    assert_eq!(retries_of(None), 3);
    assert_eq!(retries_of(Some(0)), 0);
    assert_eq!(retries_of(Some(7)), 7);
}

#[test]
fn pools_default_to_ten_connections_and_thirty_seconds() {
    assert_eq!(
        database(None, None, None).pool_settings(),
        PoolSettings { max_size: 10, min_idle: None, connection_timeout_secs: 30 }
    );
    assert_eq!(
        database(Some(4), Some(2), Some(5)).pool_settings(),
        PoolSettings { max_size: 4, min_idle: Some(2), connection_timeout_secs: 5 }
    );
    assert_eq!(
        database(Some(0), Some(0), Some(u32::MAX)).pool_settings(),
        PoolSettings { max_size: 0, min_idle: Some(0), connection_timeout_secs: 4294967295 }
    );
}
