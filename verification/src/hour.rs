//! The hour of the day and the time-of-day word that stands for it.

use chrono::Timelike;
use vstd::prelude::*;

verus! {

/// An hour of the day on the 24-hour clock, `0..=23`.
#[derive(Clone, Copy, Debug, PartialEq, Eq)]
pub struct Hour(pub u32);

/// The eleven times of day that an hour can fall into.
#[derive(Clone, Copy, Debug, PartialEq, Eq, Structural)]
pub enum HourBucket {
    Midnight,
    Twilight,
    Sunrise,
    Morning,
    Day,
    Noon,
    Afternoon,
    Sunset,
    Evening,
    Night,
    LateNight,
}

/// The time of day that `hour` falls into. The last and the first hour of
/// the day share a bucket.
pub open spec fn bucket_of(hour: u32) -> HourBucket {
    if hour == 0 || hour >= 23 {
        HourBucket::LateNight
    } else if hour <= 3 {
        HourBucket::Midnight
    } else if hour <= 5 {
        HourBucket::Twilight
    } else if hour <= 7 {
        HourBucket::Sunrise
    } else if hour <= 9 {
        HourBucket::Morning
    } else if hour <= 11 {
        HourBucket::Day
    } else if hour <= 13 {
        HourBucket::Noon
    } else if hour <= 16 {
        HourBucket::Afternoon
    } else if hour <= 18 {
        HourBucket::Sunset
    } else if hour <= 20 {
        HourBucket::Evening
    } else {
        HourBucket::Night
    }
}

impl HourBucket {
    /// The search word of this time of day.
    pub open spec fn label(self) -> Seq<char> {
        match self {
            HourBucket::Midnight => "midnight"@,
            HourBucket::Twilight => "twilight"@,
            HourBucket::Sunrise => "sunrise"@,
            HourBucket::Morning => "morning"@,
            HourBucket::Day => "day"@,
            HourBucket::Noon => "noon"@,
            HourBucket::Afternoon => "afternoon"@,
            HourBucket::Sunset => "sunset"@,
            HourBucket::Evening => "evening"@,
            HourBucket::Night => "night"@,
            HourBucket::LateNight => "late night"@,
        }
    }

    /// The search word of this time of day, as text.
    pub fn name(&self) -> (word: String)
        ensures
            word@ == self.label(),
    {
        match self {
            HourBucket::Midnight => "midnight".to_owned(),
            HourBucket::Twilight => "twilight".to_owned(),
            HourBucket::Sunrise => "sunrise".to_owned(),
            HourBucket::Morning => "morning".to_owned(),
            HourBucket::Day => "day".to_owned(),
            HourBucket::Noon => "noon".to_owned(),
            HourBucket::Afternoon => "afternoon".to_owned(),
            HourBucket::Sunset => "sunset".to_owned(),
            HourBucket::Evening => "evening".to_owned(),
            HourBucket::Night => "night".to_owned(),
            HourBucket::LateNight => "late night".to_owned(),
        }
    }
}

impl Hour {
    /// Whether this is an hour of the 24-hour clock.
    pub open spec fn valid(self) -> bool {
        self.0 < 24
    }

    /// The time of day that this hour falls into.
    pub fn bucket(&self) -> (bucket: HourBucket)
        requires
            self.valid(),
        ensures
            bucket == bucket_of(self.0),
    {
        match self.0 {
            1 | 2 | 3 => HourBucket::Midnight,
            4 | 5 => HourBucket::Twilight,
            6 | 7 => HourBucket::Sunrise,
            8 | 9 => HourBucket::Morning,
            10 | 11 => HourBucket::Day,
            12 | 13 => HourBucket::Noon,
            14 | 15 | 16 => HourBucket::Afternoon,
            17 | 18 => HourBucket::Sunset,
            19 | 20 => HourBucket::Evening,
            21 | 22 => HourBucket::Night,
            _ => HourBucket::LateNight,
        }
    }

    /// The search word for this hour.
    pub fn to_string(&self) -> (word: String)
        requires
            self.valid(),
        ensures
            word@ == bucket_of(self.0).label(),
    {
        self.bucket().name()
    }

    /// The hour that the local clock shows.
    pub fn now() -> (hour: Hour)
        ensures
            hour.valid(),
    {
        Hour(local_hour())
    }
}

/// Reads the hour of the local wall clock: `chrono::Local::now()` followed by
/// `Timelike::hour`, which chrono documents as a number from 0 to 23. Which
/// hour comes back depends on the clock and the time zone, so nothing more is
/// claimed. chrono gives up if the system clock stands before 1970.
#[verifier::external_body]
fn local_hour() -> (hour: u32)
    ensures
        hour < 24,
{
    chrono::Local::now().hour()
}

/// Every hour of the day has exactly one of the eleven search words: the
/// word of its bucket, and of no other bucket.
pub proof fn lemma_hour_has_one_label(hour: u32)
    requires
        hour < 24,
    ensures
        forall|bucket: HourBucket|
            #[trigger] bucket.label() == bucket_of(hour).label() <==> bucket == bucket_of(hour),
{
    assert forall|bucket: HourBucket|
        #[trigger] bucket.label() == bucket_of(hour).label() <==> bucket == bucket_of(
            hour,
        ) by {
        lemma_labels_are_distinct(bucket, bucket_of(hour));
    }
}

/// Each of the eleven times of day has hours of its own.
pub proof fn lemma_every_bucket_is_used(bucket: HourBucket)
    ensures
        exists|hour: u32| hour < 24 && #[trigger] bucket_of(hour) == bucket,
{
    match bucket {
        HourBucket::Midnight => assert(bucket_of(1) == bucket),
        HourBucket::Twilight => assert(bucket_of(4) == bucket),
        HourBucket::Sunrise => assert(bucket_of(6) == bucket),
        HourBucket::Morning => assert(bucket_of(8) == bucket),
        HourBucket::Day => assert(bucket_of(10) == bucket),
        HourBucket::Noon => assert(bucket_of(12) == bucket),
        HourBucket::Afternoon => assert(bucket_of(14) == bucket),
        HourBucket::Sunset => assert(bucket_of(17) == bucket),
        HourBucket::Evening => assert(bucket_of(19) == bucket),
        HourBucket::Night => assert(bucket_of(21) == bucket),
        HourBucket::LateNight => assert(bucket_of(23) == bucket),
    }
}

/// No two times of day share a search word: the word names its bucket.
pub proof fn lemma_labels_are_distinct(a: HourBucket, b: HourBucket)
    ensures
        a.label() == b.label() <==> a == b,
{
    reveal_strlit("midnight");
    reveal_strlit("twilight");
    reveal_strlit("sunrise");
    reveal_strlit("morning");
    reveal_strlit("day");
    reveal_strlit("noon");
    reveal_strlit("afternoon");
    reveal_strlit("sunset");
    reveal_strlit("evening");
    reveal_strlit("night");
    reveal_strlit("late night");
    if a != b && a.label() == b.label() {
        assert(a.label().len() == b.label().len());
        assert(a.label()[0] == b.label()[0]);
        assert(a.label()[1] == b.label()[1]);
    }
}

} // verus!
