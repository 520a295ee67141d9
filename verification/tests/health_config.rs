use botframework::config::InfisicalConfig;
use botframework::get_port;
use botframework::health::{
    health_check_outcome, health_check_url, health_response, parse_port, HealthCheckOutcome,
    DEFAULT_PORT,
};

#[test]
fn port_parsing_matches_std() {
    let samples = [
        "", "+", "-", "0", "00080", "8080", "+80", "-1", "65535", "65536", "99999999999", " 80",
        "80 ", "8o", "++1", "+-1", "١٢", "4294967296", "1000000",
    ];
    for s in samples {
        assert_eq!(parse_port(s), s.parse::<u16>().ok(), "for {:?}", s);
    }
    for n in (0u32..70000).step_by(7) {
        let s = n.to_string();
        assert_eq!(parse_port(&s), s.parse::<u16>().ok());
    }
}

#[test]
fn port_setting_or_default() {
    assert_eq!(get_port(None), 8079);
    assert_eq!(get_port(Some("9000")), 9000);
    assert_eq!(get_port(Some("not a port")), DEFAULT_PORT);
    assert_eq!(get_port(Some("70000")), 8079);
}

#[test]
fn health_url() {
    assert_eq!(health_check_url(8079), "http://localhost:8079/health");
    assert_eq!(health_check_url(0), "http://localhost:0/health");
    assert_eq!(health_check_url(65535), "http://localhost:65535/health");
}

#[test]
fn health_url_port_reads_back() {
    for p in [0u16, 1, 9, 10, 99, 100, 8079, 65535] {
        let url = health_check_url(p);
        let digits = url.trim_start_matches("http://localhost:").trim_end_matches("/health");
        assert_eq!(parse_port(digits), Some(p));
    }
}

#[test]
fn health_outcomes() {
    assert_eq!(health_check_outcome(Some(200)), HealthCheckOutcome::Passed);
    assert_eq!(health_check_outcome(Some(299)), HealthCheckOutcome::Passed);
    assert_eq!(health_check_outcome(Some(301)), HealthCheckOutcome::FailedStatus(301));
    assert_eq!(health_check_outcome(Some(500)), HealthCheckOutcome::FailedStatus(500));
    assert_eq!(health_check_outcome(None), HealthCheckOutcome::Unreachable);
}

#[test]
fn health_answer() {
    let r = health_response("1.2.3".to_string());
    assert_eq!(r.status, "ok");
    assert_eq!(r.version, "1.2.3");
}

#[test]
fn infisical_environment_defaults_to_dev() {
    let c = InfisicalConfig::from_env(
        Some("id".to_string()),
        Some("secret".to_string()),
        Some("project".to_string()),
        Some("https://vault".to_string()),
        None,
    )
    .unwrap();
    assert_eq!(c.environment, "dev");
    assert_eq!(c.client_id, "id");
    assert_eq!(c.client_secret, "secret");
    assert_eq!(c.project_id, "project");
    assert_eq!(c.api_url, "https://vault");
    let c = InfisicalConfig::from_env(
        Some("id".to_string()),
        Some("secret".to_string()),
        Some("project".to_string()),
        Some("https://vault".to_string()),
        Some("prod".to_string()),
    )
    .unwrap();
    assert_eq!(c.environment, "prod");
}
