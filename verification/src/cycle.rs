//! One attempt to find a photo, fetch it and put it on the desktop.

use crate::config::{Config, DownloadQuality};
use crate::hour::{bucket_of, Hour};
use crate::photos::{save_path, save_path_text, search_url, search_url_text, SearchResults};
use crate::weather::{weather_url, weather_url_text, WeatherData};
use rand::Rng;
use vstd::prelude::*;

verus! {

/// The step at which a cycle failed.
#[derive(Clone, Copy, Debug, PartialEq, Eq, Structural)]
pub enum Failure {
    /// The search did not answer, or its answer could not be read.
    Search,
    /// The search answered with no photo at all.
    NoCandidates,
    /// The photo could not be fetched or stored.
    Download,
    /// The desktop did not take the photo.
    Apply,
}

/// How a cycle ended.
///
/// A transient failure is worth another attempt; a fatal one is not, since
/// the desktop will refuse the next photo as it refused this one.
#[derive(Clone, Debug, PartialEq, Eq)]
pub enum CycleResult {
    Success { path: String },
    TransientFailure { reason: Failure },
    FatalFailure { reason: Failure },
}

/// A [`CycleResult`] with its path as a sequence of characters.
pub enum CycleResultView {
    Success { path: Seq<char> },
    TransientFailure { reason: Failure },
    FatalFailure { reason: Failure },
}

impl View for CycleResult {
    type V = CycleResultView;

    open spec fn view(&self) -> CycleResultView {
        match *self {
            CycleResult::Success { path } => CycleResultView::Success { path: path@ },
            CycleResult::TransientFailure { reason } => CycleResultView::TransientFailure {
                reason,
            },
            CycleResult::FatalFailure { reason } => CycleResultView::FatalFailure { reason },
        }
    }
}

/// A cycle under way. Each state but the last says what its driver has to
/// do next; what came of it is handed to [`Cycle::advance`].
#[derive(Clone, Debug, PartialEq, Eq)]
pub enum Cycle {
    /// Ask the weather service at `url` for its report.
    Weather { url: String, label: String, quality: DownloadQuality },
    /// Ask the photo service at `url` for photos.
    Search { url: String, quality: DownloadQuality },
    /// See whether the file `path` is there already.
    Probe { path: String, url: String },
    /// Fetch the photo at `url` and store it as `path`.
    Fetch { url: String, path: String },
    /// Put the photo at `path` on the desktop.
    Apply { path: String },
    /// The cycle has ended.
    Done { result: CycleResult },
}

/// A [`Cycle`] with its text as sequences of characters.
pub enum CycleView {
    Weather { url: Seq<char>, label: Seq<char>, quality: DownloadQuality },
    Search { url: Seq<char>, quality: DownloadQuality },
    Probe { path: Seq<char>, url: Seq<char> },
    Fetch { url: Seq<char>, path: Seq<char> },
    Apply { path: Seq<char> },
    Done { result: CycleResultView },
}

impl View for Cycle {
    type V = CycleView;

    open spec fn view(&self) -> CycleView {
        match *self {
            Cycle::Weather { url, label, quality } => CycleView::Weather {
                url: url@,
                label: label@,
                quality,
            },
            Cycle::Search { url, quality } => CycleView::Search { url: url@, quality },
            Cycle::Probe { path, url } => CycleView::Probe { path: path@, url: url@ },
            Cycle::Fetch { url, path } => CycleView::Fetch { url: url@, path: path@ },
            Cycle::Apply { path } => CycleView::Apply { path: path@ },
            Cycle::Done { result } => CycleView::Done { result: result@ },
        }
    }
}

/// What came of the step that a cycle asked for.
#[derive(Clone, Debug, PartialEq, Eq)]
pub enum Event {
    /// The weather report, or none if the service could not be asked or its
    /// answer not be read.
    Weather { report: Option<WeatherData> },
    /// The photos found, or none if the service could not be asked or its
    /// answer not be read.
    Search { found: Option<SearchResults> },
    /// Whether the file is there already.
    Probe { cached: bool },
    /// Whether the photo has been fetched and stored.
    Fetch { stored: bool },
    /// Whether the desktop has taken the photo.
    Apply { applied: bool },
}

/// The words to search for: the time of day, followed by one more word if
/// there is one.
pub open spec fn query_text(label: Seq<char>, extra: Option<Seq<char>>) -> Seq<char> {
    match extra {
        Some(word) => label + " "@ + word,
        None => label,
    }
}

/// The weather in a word, as far as the report says.
pub open spec fn reported_condition(report: Option<WeatherData>) -> Option<Seq<char>> {
    match report {
        Some(data) => data.condition(),
        None => None,
    }
}

/// Whether `pick` is a choice that can be made among the photos that
/// `event` brings.
pub open spec fn can_pick(event: Event, pick: int) -> bool {
    match event {
        Event::Search { found: Some(photos) } => photos.results@.len() > 0 ==> 0 <= pick
            < photos.results@.len(),
        _ => true,
    }
}

impl CycleView {
    /// The first state of a cycle that begins at `hour` under the settings
    /// `config`. With an access key for the weather service the weather is
    /// asked for first; without one the name of the city joins the query in
    /// its place.
    pub open spec fn start(config: Config, hour: u32) -> CycleView {
        let label = bucket_of(hour).label();
        match config.openweather_access_key {
            Some(key) => CycleView::Weather {
                url: weather_url_text(key@, config.city_weather@),
                label,
                quality: config.quality,
            },
            None => CycleView::Search {
                url: search_url_text(query_text(label, Some(config.city_weather@))),
                quality: config.quality,
            },
        }
    }

    /// The state that follows this one when `event` comes in and the photo
    /// at place `pick` is chosen from those found.
    ///
    /// A weather report adds its word to the query; without one the time of
    /// day is searched for alone. A search that fails or finds nothing ends
    /// the cycle with a transient failure, and so does a download that
    /// fails. A photo whose file is there already is not fetched again. A
    /// desktop that does not take the photo ends the cycle with a fatal
    /// failure. An event that does not answer what the state asked for is
    /// ignored.
    pub open spec fn advance(self, event: Event, pick: int) -> CycleView {
        match (self, event) {
            (CycleView::Weather { label, quality, .. }, Event::Weather { report }) => {
                CycleView::Search {
                    url: search_url_text(query_text(label, reported_condition(report))),
                    quality,
                }
            },
            (CycleView::Search { .. }, Event::Search { found: None }) => CycleView::Done {
                result: CycleResultView::TransientFailure { reason: Failure::Search },
            },
            (CycleView::Search { quality, .. }, Event::Search { found: Some(photos) }) => {
                match photos.candidate(pick) {
                    Some(photo) => CycleView::Probe {
                        path: save_path_text(photo.id@),
                        url: photo.urls.of(quality),
                    },
                    None => CycleView::Done {
                        result: CycleResultView::TransientFailure { reason: Failure::NoCandidates },
                    },
                }
            },
            (CycleView::Probe { path, url }, Event::Probe { cached }) => if cached {
                CycleView::Apply { path }
            } else {
                CycleView::Fetch { url, path }
            },
            (CycleView::Fetch { path, .. }, Event::Fetch { stored }) => if stored {
                CycleView::Apply { path }
            } else {
                CycleView::Done {
                    result: CycleResultView::TransientFailure { reason: Failure::Download },
                }
            },
            (CycleView::Apply { path }, Event::Apply { applied }) => if applied {
                CycleView::Done { result: CycleResultView::Success { path } }
            } else {
                CycleView::Done {
                    result: CycleResultView::FatalFailure { reason: Failure::Apply },
                }
            },
            _ => self,
        }
    }
}

/// Draws a number below `bound` with `rand::Rng::gen_range` on the thread's
/// generator, called with the range from zero up to `bound`. The drawn
/// number lies in that range; which one it is, is left to chance. rand gives
/// up on an empty range, so `bound` is not zero; it also gives up if the
/// system has no randomness to seed the generator with.
#[verifier::external_body]
fn random_below(bound: usize) -> (drawn: usize)
    requires
        bound > 0,
    ensures
        drawn < bound,
{
    rand::thread_rng().gen_range(0..bound)
}

/// The words to search for: `label`, followed by `extra` if there is one.
pub fn build_query(label: String, extra: Option<&str>) -> (query: String)
    ensures
        query@ == query_text(
            label@,
            match extra {
                Some(word) => Some(word@),
                None => None,
            },
        ),
{
    let mut query = label;
    match extra {
        Some(word) => {
            query.append(" ");
            query.append(word);
        },
        None => {},
    }
    query
}

impl Cycle {
    /// Begins a cycle at the given hour.
    pub fn start(config: &Config, hour: &Hour) -> (cycle: Cycle)
        requires
            hour.valid(),
        ensures
            cycle@ == CycleView::start(*config, hour.0),
    {
        let label = hour.to_string();
        match &config.openweather_access_key {
            Some(key) => Cycle::Weather {
                url: weather_url(key.as_str(), config.city_weather.as_str()),
                label,
                quality: config.quality,
            },
            None => {
                let query = build_query(label, Some(config.city_weather.as_str()));
                Cycle::Search { url: search_url(query.as_str()), quality: config.quality }
            },
        }
    }

    /// Begins a cycle at the hour that the local clock shows.
    pub fn begin(config: &Config) -> (cycle: Cycle)
        ensures
            exists|hour: u32| hour < 24 && cycle@ == CycleView::start(*config, hour),
    {
        let hour = Hour::now();
        Cycle::start(config, &hour)
    }

    /// Takes in what came of the step that the cycle asked for, with the
    /// photo at place `pick` as the one to choose from those found.
    pub fn advance_with(self, event: Event, pick: usize) -> (next: Cycle)
        ensures
            next@ == self@.advance(event, pick as int),
    {
        match self {
            Cycle::Weather { url, label, quality } => match event {
                Event::Weather { report } => {
                    let query = match &report {
                        Some(data) => match data.current() {
                            Ok(word) => build_query(label, Some(word.as_str())),
                            Err(_) => build_query(label, None),
                        },
                        None => build_query(label, None),
                    };
                    Cycle::Search { url: search_url(query.as_str()), quality }
                },
                _ => Cycle::Weather { url, label, quality },
            },
            Cycle::Search { url, quality } => match event {
                Event::Search { found: None } => Cycle::Done {
                    result: CycleResult::TransientFailure { reason: Failure::Search },
                },
                Event::Search { found: Some(photos) } => match photos.get(pick) {
                    Some(photo) => Cycle::Probe {
                        path: save_path(photo.id.as_str()),
                        url: photo.urls.get(quality).clone(),
                    },
                    None => Cycle::Done {
                        result: CycleResult::TransientFailure { reason: Failure::NoCandidates },
                    },
                },
                _ => Cycle::Search { url, quality },
            },
            Cycle::Probe { path, url } => match event {
                Event::Probe { cached } => if cached {
                    Cycle::Apply { path }
                } else {
                    Cycle::Fetch { url, path }
                },
                _ => Cycle::Probe { path, url },
            },
            Cycle::Fetch { url, path } => match event {
                Event::Fetch { stored } => if stored {
                    Cycle::Apply { path }
                } else {
                    Cycle::Done {
                        result: CycleResult::TransientFailure { reason: Failure::Download },
                    }
                },
                _ => Cycle::Fetch { url, path },
            },
            Cycle::Apply { path } => match event {
                Event::Apply { applied } => if applied {
                    Cycle::Done { result: CycleResult::Success { path } }
                } else {
                    Cycle::Done { result: CycleResult::FatalFailure { reason: Failure::Apply } }
                },
                _ => Cycle::Apply { path },
            },
            Cycle::Done { result } => Cycle::Done { result },
        }
    }

    /// Takes in what came of the step that the cycle asked for. Where the
    /// event brings photos, one of them is chosen at random.
    pub fn advance(self, event: Event) -> (next: Cycle)
        ensures
            exists|pick: int| can_pick(event, pick) && next@ == self@.advance(event, pick),
    {
        let pick = match &event {
            Event::Search { found: Some(photos) } => if photos.results.len() > 0 {
                random_below(photos.results.len())
            } else {
                0
            },
            _ => 0,
        };
        assert(can_pick(event, pick as int));
        self.advance_with(event, pick)
    }
}

} // verus!
