use std::time::Duration;

use seatrial::config_duration::ConfigDuration;

#[test]
fn test_seconds() {
    assert_eq!(Duration::from_secs(10), ConfigDuration::Seconds(10).to_duration());
}

#[test]
fn test_milliseconds() {
    assert_eq!(
        Duration::from_millis(100),
        ConfigDuration::Milliseconds(100).to_duration()
    );
}

#[test]
fn duration_in_millis() {
    assert_eq!(ConfigDuration::Seconds(3).as_millis(), 3000);
    assert_eq!(ConfigDuration::Milliseconds(7).as_millis(), 7);
    assert_eq!(
        ConfigDuration::Seconds(u64::MAX).as_millis(),
        (u64::MAX as u128) * 1000
    );
}
