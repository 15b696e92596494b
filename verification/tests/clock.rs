use rldyour_cleaner::clock::{days_from_secs, days_since, now_unix, secs_or_zero};
use std::time::{Duration, SystemTime};

#[test]
fn clock_readings_become_counts() {
    assert_eq!(secs_or_zero(Some(1_700_000_000)), 1_700_000_000);
    assert_eq!(secs_or_zero(None), 0);
    assert_eq!(days_from_secs(Some(86_399)), 0);
    assert_eq!(days_from_secs(Some(86_400 * 3 + 5)), 3);
    assert_eq!(days_from_secs(None), 0);
}

#[test]
fn days_since_counts_whole_days() {
    assert_eq!(days_since(&None), 0);
    let three_days_ago = SystemTime::now() - Duration::from_secs(3 * 86_400 + 3_600);
    assert_eq!(days_since(&Some(three_days_ago)), 3);
    let tomorrow = SystemTime::now() + Duration::from_secs(86_400);
    assert_eq!(days_since(&Some(tomorrow)), 0);
    assert!(now_unix() > 1_600_000_000);
}
