use trade_alert::config::{
    default_demo_config, Config, DatabaseConfig, EmailConfig, LoggingConfig, PriceFetcherConfig,
    SchedulerConfig, ServerConfig,
};
use trade_alert::decimal::Price;
use trade_alert::identity::extract_user_id;
use trade_alert::models::{Alert, AlertCondition, AlertStatus};
use trade_alert::store::AlertBook;
use trade_alert::templates::{
    get_strategy_summaries, AlertForTemplate, AlertFormTemplate, IndexTemplate,
};

fn alert(id: i64, status: AlertStatus, triggered_at: Option<i64>) -> Alert {
    Alert {
        id,
        symbol: "AAPL".to_string(),
        condition: AlertCondition::Below,
        price: Price { micros: 150_000_000 },
        status,
        created_at: 1_431_648_000,
        updated_at: 1_441_497_364,
        triggered_at,
        notification_email: Some("me@example.com".to_string()),
        user_id: "default".to_string(),
    }
}

#[test]
fn an_alert_is_shown_with_its_values_as_text() {
    let shown =
        AlertForTemplate::from(alert(7, AlertStatus::Triggered, Some(1_441_497_364)));
    assert_eq!(shown.id, 7);
    assert_eq!(shown.symbol, "AAPL");
    assert_eq!(shown.condition, "Below");
    assert_eq!(shown.price, Price { micros: 150_000_000 });
    assert_eq!(shown.status, "triggered");
    assert_eq!(shown.created_at, "2015-05-15 00:00:00");
    assert_eq!(shown.updated_at, "2015-09-05 23:56:04");
    assert_eq!(shown.triggered_at.as_deref(), Some("2015-09-05 23:56:04"));
    assert_eq!(shown.notification_email.as_deref(), Some("me@example.com"));
}

#[test]
fn an_alert_that_never_fired_shows_no_trigger_time() {
    let shown = AlertForTemplate::from(alert(7, AlertStatus::Active, None));
    assert_eq!(shown.status, "active");
    assert_eq!(shown.triggered_at, None);
}

#[test]
fn a_moment_beyond_the_calendar_is_shown_empty() {
    let mut far = alert(7, AlertStatus::Active, None);
    far.created_at = i64::MAX;
    far.updated_at = 0;
    let shown = AlertForTemplate::from(far);
    assert_eq!(shown.created_at, "");
    assert_eq!(shown.updated_at, "1970-01-01 00:00:00");
}

#[test]
fn the_list_page_shows_the_alerts_in_their_order() {
    let page = IndexTemplate::new(vec![
        alert(3, AlertStatus::Active, None),
        alert(1, AlertStatus::Cancelled, None),
        alert(2, AlertStatus::Triggered, Some(5)),
    ]);
    assert_eq!(page.base.title, "预警列表");
    let ids: Vec<i64> = page.alerts.iter().map(|a| a.id).collect();
    assert_eq!(ids, vec![3, 1, 2]);
    assert_eq!(page.alerts[1].status, "cancelled");
    assert!(IndexTemplate::new(Vec::new()).alerts.is_empty());
}

#[test]
fn the_form_page_is_titled_by_what_it_does() {
    let create = AlertFormTemplate::new(None);
    assert_eq!(create.base.title, "创建预警");
    assert!(create.alert.is_none());
    let edit = AlertFormTemplate::new(Some(alert(4, AlertStatus::Active, None)));
    assert_eq!(edit.base.title, "编辑预警");
    assert_eq!(edit.alert.map(|a| a.id), Some(4));
}

#[test]
fn the_dashboard_lists_two_strategies() {
    let list = get_strategy_summaries(12);
    assert_eq!(list.len(), 2);
    assert_eq!(list[0].name, "涨停回踩监控");
    assert_eq!(list[0].signal_count, 0);
    assert_eq!(list[0].market_type, "A股专用");
    assert_eq!(list[1].name, "突破预警");
    assert_eq!(list[1].signal_count, 12);
    assert_eq!(list[1].market_type, "全市场");
}

#[test]
fn a_named_user_is_taken_at_their_word() {
    assert_eq!(extract_user_id(Some("ann"), Some("10.0.0.1")), "ann");
    assert_eq!(extract_user_id(Some("ann"), None), "ann");
    assert_eq!(extract_user_id(Some("用户"), None), "用户");
}

#[test]
fn an_unnamed_user_is_known_by_the_forwarded_address() {
    assert_eq!(extract_user_id(None, Some("10.0.0.1")), "user_10_0_0_1");
    assert_eq!(extract_user_id(Some(""), Some("10.0.0.1")), "user_10_0_0_1");
    assert_eq!(extract_user_id(None, Some("::1")), "user___1");
    assert_eq!(extract_user_id(None, Some("fe80::1:2")), "user_fe80__1_2");
    assert_eq!(extract_user_id(None, Some("")), "user_");
    assert_eq!(extract_user_id(None, Some("10.0.0.1, 10.0.0.2")), "user_10_0_0_1, 10_0_0_2");
}

#[test]
fn a_request_that_says_nothing_comes_from_the_demo_user() {
    assert_eq!(extract_user_id(None, None), "demo_user");
    assert_eq!(extract_user_id(Some(""), None), "demo_user");
}

#[test]
fn the_server_address_is_host_and_port() {
    let mut config = Config {
        server: ServerConfig { host: "127.0.0.1".to_string(), port: 3000 },
        database: DatabaseConfig { url: String::new() },
        logging: LoggingConfig { level: String::new() },
        scheduler: SchedulerConfig { default_schedule: String::new() },
        price_fetcher: PriceFetcherConfig {
            update_interval_secs: 0,
            cache_ttl_secs: 0,
            max_retries: 0,
            max_concurrent_requests: 0,
            max_requests_per_hour: 0,
            request_timeout_secs: 0,
            pool_idle_timeout_secs: 0,
        },
        email: EmailConfig {
            smtp_server: String::new(),
            smtp_port: 0,
            smtp_username: String::new(),
            smtp_password: String::new(),
            from_email: String::new(),
            from_name: String::new(),
            to_email: String::new(),
            enabled: false,
        },
        demo: default_demo_config(),
    };
    assert_eq!(config.server_addr(), "127.0.0.1:3000");
    for port in [0u16, 7, 10, 99, 100, 8080, 65535] {
        config.server.port = port;
        assert_eq!(config.server_addr(), format!("127.0.0.1:{}", port));
    }
}

#[test]
fn a_book_is_made_of_records_that_fit_together() {
    let good = vec![alert(3, AlertStatus::Active, None), alert(1, AlertStatus::Triggered, Some(9))];
    let mut book = AlertBook::from_alerts(good).expect("the records fit");
    assert_eq!(book.len(), 2);
    assert_eq!(book.get_alert(3).map(|a| a.id), Some(3));
    // the next id lies past the largest in use
    let request = trade_alert::models::CreateAlertRequest {
        symbol: "X".to_string(),
        condition: AlertCondition::Above,
        price: Price { micros: 1 },
        notification_email: None,
        user_id: "u".to_string(),
    };
    assert_eq!(book.create_alert(&request, 0).id, 4);

    let twice = vec![alert(1, AlertStatus::Active, None), alert(1, AlertStatus::Active, None)];
    assert!(AlertBook::from_alerts(twice).is_none());
    assert!(AlertBook::from_alerts(vec![alert(0, AlertStatus::Active, None)]).is_none());
    assert!(AlertBook::from_alerts(vec![alert(-1, AlertStatus::Active, None)]).is_none());
    assert!(AlertBook::from_alerts(vec![alert(i64::MAX, AlertStatus::Active, None)]).is_none());
    assert!(AlertBook::from_alerts(vec![alert(1, AlertStatus::Triggered, None)]).is_none());
    assert!(AlertBook::from_alerts(vec![alert(1, AlertStatus::Active, Some(1))]).is_none());
    assert!(AlertBook::from_alerts(vec![alert(1, AlertStatus::Cancelled, Some(1))]).is_none());
    assert_eq!(AlertBook::from_alerts(Vec::new()).map(|b| b.len()), Some(0));
}
