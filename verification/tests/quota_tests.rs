use trailerfin::quota::QuotaError;
use trailerfin::quota::RateQuota;
use trailerfin::quota::RateUnit;
use trailerfin::quota::ResponseClass;
use trailerfin::quota::classify_status;
use trailerfin::quota::parse_quota;
use trailerfin::request_clients::RateLimitedClient;

#[test]
fn test_parse_quota_minute() {
    assert_eq!(parse_quota("30/minute"), Ok(RateQuota { count: 30, unit: RateUnit::Minute }));
    assert_eq!(parse_quota("2/min"), Ok(RateQuota { count: 2, unit: RateUnit::Minute }));
}

#[test]
fn test_parse_quota_second_and_hour() {
    assert_eq!(parse_quota("50/second"), Ok(RateQuota { count: 50, unit: RateUnit::Second }));
    assert_eq!(parse_quota("5/sec"), Ok(RateQuota { count: 5, unit: RateUnit::Second }));
    assert_eq!(parse_quota("1/hour"), Ok(RateQuota { count: 1, unit: RateUnit::Hour }));
}

#[test]
fn test_parse_quota_trims_whitespace() {
    assert_eq!(parse_quota(" 30/minute \n"), Ok(RateQuota { count: 30, unit: RateUnit::Minute }));
}

#[test]
fn test_parse_quota_needs_two_parts() {
    assert_eq!(parse_quota("30"), Err(QuotaError::BadShape));
    assert_eq!(parse_quota("1/2/3"), Err(QuotaError::BadShape));
}

#[test]
fn test_parse_quota_rejects_bad_count() {
    assert_eq!(parse_quota("abc/minute"), Err(QuotaError::BadCount));
    assert_eq!(parse_quota("-1/minute"), Err(QuotaError::BadCount));
    assert_eq!(parse_quota("/minute"), Err(QuotaError::BadCount));
}

#[test]
fn test_parse_quota_rejects_zero() {
    assert_eq!(parse_quota("0/minute"), Err(QuotaError::ZeroCount));
}

#[test]
fn test_parse_quota_rejects_unknown_unit() {
    assert_eq!(parse_quota("5/fortnight"), Err(QuotaError::BadUnit));
    assert_eq!(parse_quota("5/Minute"), Err(QuotaError::BadUnit));
}

#[test]
fn test_classify_status_2xx_succeeds() {
    assert_eq!(classify_status(200), ResponseClass::Success);
    assert_eq!(classify_status(299), ResponseClass::Success);
}

#[test]
fn test_classify_status_422_is_validation() {
    assert_eq!(classify_status(422), ResponseClass::Validation);
}

#[test]
fn test_classify_status_other_is_server_error() {
    assert_eq!(classify_status(199), ResponseClass::ServerError);
    assert_eq!(classify_status(300), ResponseClass::ServerError);
    assert_eq!(classify_status(404), ResponseClass::ServerError);
    assert_eq!(classify_status(500), ResponseClass::ServerError);
}

#[test]
fn test_client_from_config_carries_quota() {
    let c = RateLimitedClient::from_config("Agent/1.0", "30/minute").unwrap();
    assert_eq!(c.user_agent, "Agent/1.0");
    assert_eq!(c.quota, RateQuota { count: 30, unit: RateUnit::Minute });
}

#[test]
fn test_client_from_config_rejects_bad_quota() {
    assert_eq!(RateLimitedClient::from_config("A", "fast").unwrap_err(), QuotaError::BadShape);
}
