use awc::hour::{Hour, HourBucket};

const LABELS: [(u32, &str); 24] = [
    (0, "late night"),
    (1, "midnight"),
    (2, "midnight"),
    (3, "midnight"),
    (4, "twilight"),
    (5, "twilight"),
    (6, "sunrise"),
    (7, "sunrise"),
    (8, "morning"),
    (9, "morning"),
    (10, "day"),
    (11, "day"),
    (12, "noon"),
    (13, "noon"),
    (14, "afternoon"),
    (15, "afternoon"),
    (16, "afternoon"),
    (17, "sunset"),
    (18, "sunset"),
    (19, "evening"),
    (20, "evening"),
    (21, "night"),
    (22, "night"),
    (23, "late night"),
];

#[test]
fn every_hour_has_its_label() {
    for (hour, label) in LABELS {
        assert_eq!(Hour(hour).to_string(), label, "hour {hour}");
    }
}

#[test]
fn the_day_wraps_round_late_night() {
    assert_eq!(Hour(23).bucket(), HourBucket::LateNight);
    assert_eq!(Hour(0).bucket(), HourBucket::LateNight);
    assert_eq!(Hour(1).bucket(), HourBucket::Midnight);
    assert_eq!(Hour(22).bucket(), HourBucket::Night);
}

#[test]
fn bucket_edges() {
    assert_eq!(Hour(3).bucket(), HourBucket::Midnight);
    assert_eq!(Hour(4).bucket(), HourBucket::Twilight);
    assert_eq!(Hour(13).bucket(), HourBucket::Noon);
    assert_eq!(Hour(14).bucket(), HourBucket::Afternoon);
    assert_eq!(Hour(16).bucket(), HourBucket::Afternoon);
    assert_eq!(Hour(17).bucket(), HourBucket::Sunset);
}

#[test]
fn eleven_labels_in_all() {
    let mut seen: Vec<String> = Vec::new();
    for (hour, _) in LABELS {
        let label = Hour(hour).to_string();
        if !seen.contains(&label) {
            seen.push(label);
        }
    }
    assert_eq!(seen.len(), 11);
}

#[test]
fn the_clock_shows_an_hour_of_the_day() {
    let hour = Hour::now();
    assert!(hour.0 < 24);
    assert!(!hour.to_string().is_empty());
}
