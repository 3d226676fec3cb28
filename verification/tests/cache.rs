use filebox::api::{Field, IpInfo};
use filebox::clock::Timestamp;
use filebox::errors::Error;
use filebox::ip_allow::{
    add_ip_upload_limit_count, add_ip_visit_error_limit_count, check_stored, get, is_allow_ip_for_upload,
    is_allow_ip_for_visit, is_allowed, plan_update, CacheReply, IpAllower, StoreReply,
};

// 2024-01-01T00:00:00
const NEW_YEAR: i64 = 1_704_067_200;

fn counts(visit_errors: i32, uploads: i32) -> IpInfo {
    IpInfo { visit_error_limit_of_per_day: visit_errors, upload_limit_of_per_day: uploads }
}

#[test]
fn new_record_is_zero() {
    assert_eq!(IpInfo::new(), counts(0, 0));
    assert_eq!(IpInfo::default(), counts(0, 0));
    assert_eq!(counts(4, 6).count_of(Field::VisitError), 4);
    assert_eq!(counts(4, 6).count_of(Field::Upload), 6);
}

#[test]
fn allower_keeps_its_limits() {
    let limits = IpAllower::new(3, 2, 1);
    assert_eq!(limits.visit_error_limit, 3);
    assert_eq!(limits.upload_limit, 2);
    assert_eq!(limits.ttl, 1);
    assert_eq!(limits.limit_of(Field::VisitError), 3);
    assert_eq!(limits.limit_of(Field::Upload), 2);
}

#[test]
fn unseen_client_is_allowed() {
    for limit in [1, 2, 100, i32::MAX] {
        for field in [Field::VisitError, Field::Upload] {
            assert!(filebox::ip_allow::allow(None, limit, field));
            assert!(is_allowed(CacheReply::Miss, limit, field));
        }
    }
}

#[test]
fn limit_is_sharp() {
    for limit in [1, 3, 1000] {
        assert!(!filebox::ip_allow::allow(Some(counts(limit, 0)), limit, Field::VisitError));
        assert!(filebox::ip_allow::allow(Some(counts(limit - 1, 0)), limit, Field::VisitError));
        assert!(!filebox::ip_allow::allow(Some(counts(limit + 1, 0)), limit, Field::VisitError));
        assert!(!filebox::ip_allow::allow(Some(counts(0, limit)), limit, Field::Upload));
        assert!(filebox::ip_allow::allow(Some(counts(limit, limit - 1)), limit, Field::Upload));
    }
}

#[test]
fn reading_never_fails() {
    assert!(matches!(get(CacheReply::Record(counts(2, 1))), Ok((info, true)) if info == counts(2, 1)));
    for reply in [CacheReply::Miss, CacheReply::NotText, CacheReply::Malformed, CacheReply::Unavailable] {
        assert!(matches!(get(reply), Ok((info, false)) if info == counts(0, 0)));
    }
}

#[test]
fn reads_fail_open() {
    for reply in [CacheReply::Miss, CacheReply::NotText, CacheReply::Malformed, CacheReply::Unavailable] {
        assert!(is_allow_ip_for_visit(reply, 1));
        assert!(is_allow_ip_for_upload(reply, 1));
    }
    assert!(is_allow_ip_for_visit(CacheReply::Record(counts(2, 5)), 3));
    assert!(!is_allow_ip_for_visit(CacheReply::Record(counts(3, 0)), 3));
    assert!(is_allow_ip_for_upload(CacheReply::Record(counts(9, 1)), 2));
    assert!(!is_allow_ip_for_upload(CacheReply::Record(counts(0, 2)), 2));
}

#[test]
fn command_counts_one_more_wrong_guess() {
    let now = Timestamp::new(NEW_YEAR + 23 * 3_600, 0);
    let command = add_ip_visit_error_limit_count(CacheReply::Record(counts(2, 1)), "10.0.0.1", 1, now).unwrap();
    assert_eq!(command.key, "10.0.0.1");
    assert_eq!(command.ttl_seconds, 3_600);
    assert_eq!(command.value, counts(3, 1));
    let first = add_ip_visit_error_limit_count(CacheReply::Miss, "10.0.0.1", 2, now).unwrap();
    assert_eq!(first.ttl_seconds, 86_400 + 3_600);
    assert_eq!(first.value, counts(1, 0));
}

#[test]
fn command_counts_one_more_upload() {
    let now = Timestamp::new(NEW_YEAR, 0);
    let command = add_ip_upload_limit_count(CacheReply::Record(counts(2, 1)), "::1", 1, now).unwrap();
    assert_eq!(command.key, "::1");
    assert_eq!(command.ttl_seconds, 86_400);
    assert_eq!(command.value, counts(2, 2));
}

#[test]
fn unreadable_value_is_overwritten() {
    let now = Timestamp::new(NEW_YEAR, 0);
    for reply in [CacheReply::NotText, CacheReply::Malformed] {
        let command = add_ip_upload_limit_count(reply, "10.0.0.1", 1, now).unwrap();
        assert_eq!(command.value, counts(0, 1));
        let command = add_ip_visit_error_limit_count(reply, "10.0.0.1", 1, now).unwrap();
        assert_eq!(command.value, counts(1, 0));
    }
}

#[test]
fn unreachable_cache_stops_the_update() {
    let now = Timestamp::new(NEW_YEAR, 0);
    assert!(matches!(add_ip_upload_limit_count(CacheReply::Unavailable, "10.0.0.1", 1, now), Err(Error::RedisError)));
    assert!(matches!(
        add_ip_visit_error_limit_count(CacheReply::Unavailable, "10.0.0.1", 1, now),
        Err(Error::RedisError)
    ));
    assert!(matches!(plan_update(CacheReply::Unavailable, Field::Upload, 1, now), Err(Error::RedisError)));
}

#[test]
fn plan_names_ttl_and_record() {
    let now = Timestamp::new(NEW_YEAR + 86_399, 1);
    assert!(matches!(
        plan_update(CacheReply::Record(counts(i32::MAX, 0)), Field::VisitError, 1, now),
        Ok((0, value)) if value == counts(i32::MAX, 0)
    ));
    assert!(matches!(
        plan_update(CacheReply::Miss, Field::Upload, 0, now),
        Ok((0, value)) if value == counts(0, 1)
    ));
}

#[test]
fn write_replies() {
    assert!(matches!(check_stored(StoreReply::Done), Ok(())));
    assert!(matches!(check_stored(StoreReply::Unavailable), Err(Error::RedisError)));
    assert!(matches!(
        check_stored(StoreReply::Refused("ERR value is not an integer".to_string())),
        Err(Error::RedisSendCommandError(why)) if why == "ERR value is not an integer"
    ));
}
