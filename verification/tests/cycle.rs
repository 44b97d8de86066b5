use awc::{
    build_query, ActualWeather, Config, Cycle, CycleResult, DownloadQuality, Event, Failure, Hour,
    SearchResult, SearchResults, Urls, WeatherData,
};

fn photo(id: &str) -> SearchResult {
    SearchResult {
        id: id.to_string(),
        urls: Urls {
            raw: format!("https://img/{id}/raw"),
            full: format!("https://img/{id}/full"),
            regular: format!("https://img/{id}/regular"),
            small: format!("https://img/{id}/small"),
            thumb: format!("https://img/{id}/thumb"),
        },
    }
}

fn found(ids: &[&str]) -> Event {
    Event::Search {
        found: Some(SearchResults {
            total: ids.len(),
            results: ids.iter().map(|id| photo(id)).collect(),
        }),
    }
}

fn report(words: &[&str]) -> Event {
    Event::Weather {
        report: Some(WeatherData {
            weather: words.iter().map(|word| ActualWeather { main: word.to_string() }).collect(),
        }),
    }
}

fn with_weather() -> Config {
    Config { openweather_access_key: Some("WKEY".to_string()), ..Config::default() }
}

fn searching(quality: DownloadQuality) -> Cycle {
    Cycle::Search { url: "https://search".to_string(), quality }
}

fn transient(reason: Failure) -> Cycle {
    Cycle::Done { result: CycleResult::TransientFailure { reason } }
}

#[test]
fn query_of_one_word() {
    assert_eq!(build_query("noon".to_string(), None), "noon");
}

#[test]
fn query_of_two_words() {
    assert_eq!(build_query("noon".to_string(), Some("Clear")), "noon Clear");
    assert_eq!(build_query("late night".to_string(), Some("Dublin")), "late night Dublin");
    assert_eq!(build_query("day".to_string(), Some("")), "day ");
}

#[test]
fn cycle_without_weather_key_searches_with_the_city() {
    let cycle = Cycle::start(&Config::default(), &Hour(12));
    assert_eq!(
        cycle,
        Cycle::Search {
            url: "https://api.unsplash.com/search/photos?query=noon Dublin&per_page=100"
                .to_string(),
            quality: DownloadQuality::Full,
        }
    );
}

#[test]
fn cycle_with_weather_key_asks_for_the_weather_first() {
    let cycle = Cycle::start(&with_weather(), &Hour(23));
    assert_eq!(
        cycle,
        Cycle::Weather {
            url: "https://api.openweathermap.org/data/2.5/weather?q=Dublin&appid=WKEY"
                .to_string(),
            label: "late night".to_string(),
            quality: DownloadQuality::Full,
        }
    );
}

#[test]
fn weather_word_joins_the_query() {
    let cycle = Cycle::start(&with_weather(), &Hour(8)).advance(report(&["Rain", "Mist"]));
    assert_eq!(
        cycle,
        Cycle::Search {
            url: "https://api.unsplash.com/search/photos?query=morning Rain&per_page=100"
                .to_string(),
            quality: DownloadQuality::Full,
        }
    );
}

#[test]
fn failed_weather_is_skipped() {
    let cycle = Cycle::start(&with_weather(), &Hour(8)).advance(Event::Weather { report: None });
    assert_eq!(
        cycle,
        Cycle::Search {
            url: "https://api.unsplash.com/search/photos?query=morning&per_page=100".to_string(),
            quality: DownloadQuality::Full,
        }
    );
}

#[test]
fn empty_weather_report_is_skipped() {
    let cycle = Cycle::start(&with_weather(), &Hour(19)).advance(report(&[]));
    assert_eq!(
        cycle,
        Cycle::Search {
            url: "https://api.unsplash.com/search/photos?query=evening&per_page=100".to_string(),
            quality: DownloadQuality::Full,
        }
    );
}

#[test]
fn failed_search_is_transient() {
    let cycle = searching(DownloadQuality::Full).advance(Event::Search { found: None });
    assert_eq!(cycle, transient(Failure::Search));
}

#[test]
fn empty_search_is_transient() {
    let cycle = searching(DownloadQuality::Full).advance(found(&[]));
    assert_eq!(cycle, transient(Failure::NoCandidates));
}

#[test]
fn the_only_candidate_is_chosen() {
    for _ in 0..50 {
        let cycle = searching(DownloadQuality::Full).advance(found(&["abc123"]));
        assert_eq!(
            cycle,
            Cycle::Probe {
                path: "download/abc123.jpg".to_string(),
                url: "https://img/abc123/full".to_string(),
            }
        );
    }
}

#[test]
fn a_candidate_of_the_answer_is_chosen() {
    let ids = ["a", "b", "c", "d"];
    let mut seen = [false; 4];
    for _ in 0..400 {
        let cycle = searching(DownloadQuality::Small).advance(found(&ids));
        let place = ids.iter().position(|id| {
            cycle
                == Cycle::Probe {
                    path: format!("download/{id}.jpg"),
                    url: format!("https://img/{id}/small"),
                }
        });
        match place {
            Some(at) => seen[at] = true,
            None => panic!("not a candidate: {cycle:?}"),
        }
    }
    assert_eq!(seen, [true; 4]);
}

#[test]
fn the_picked_candidate_is_asked_about() {
    let cycle = searching(DownloadQuality::Thumb).advance_with(found(&["a", "b", "c"]), 1);
    assert_eq!(
        cycle,
        Cycle::Probe {
            path: "download/b.jpg".to_string(),
            url: "https://img/b/thumb".to_string(),
        }
    );
}

#[test]
fn each_size_has_its_address() {
    let sizes = [
        (DownloadQuality::Raw, "raw"),
        (DownloadQuality::Full, "full"),
        (DownloadQuality::Regular, "regular"),
        (DownloadQuality::Small, "small"),
        (DownloadQuality::Thumb, "thumb"),
    ];
    for (quality, name) in sizes {
        let cycle = searching(quality).advance_with(found(&["x"]), 0);
        assert_eq!(
            cycle,
            Cycle::Probe { path: "download/x.jpg".to_string(), url: format!("https://img/x/{name}") }
        );
    }
}

#[test]
fn a_pick_beyond_the_answer_finds_nothing() {
    let cycle = searching(DownloadQuality::Full).advance_with(found(&["a", "b"]), 2);
    assert_eq!(cycle, transient(Failure::NoCandidates));
}

#[test]
fn cached_photo_is_not_fetched() {
    let asked = Cycle::Probe { path: "download/a.jpg".to_string(), url: "https://a".to_string() };
    let cycle = asked.advance(Event::Probe { cached: true });
    assert_eq!(cycle, Cycle::Apply { path: "download/a.jpg".to_string() });
}

#[test]
fn missing_photo_is_fetched() {
    let asked = Cycle::Probe { path: "download/a.jpg".to_string(), url: "https://a".to_string() };
    let cycle = asked.advance(Event::Probe { cached: false });
    assert_eq!(
        cycle,
        Cycle::Fetch { url: "https://a".to_string(), path: "download/a.jpg".to_string() }
    );
    let cycle = cycle.advance(Event::Fetch { stored: true });
    assert_eq!(cycle, Cycle::Apply { path: "download/a.jpg".to_string() });
}

#[test]
fn failed_download_is_transient() {
    let fetching =
        Cycle::Fetch { url: "https://a".to_string(), path: "download/a.jpg".to_string() };
    assert_eq!(fetching.advance(Event::Fetch { stored: false }), transient(Failure::Download));
}

#[test]
fn applied_photo_is_a_success() {
    let applying = Cycle::Apply { path: "download/a.jpg".to_string() };
    assert_eq!(
        applying.advance(Event::Apply { applied: true }),
        Cycle::Done { result: CycleResult::Success { path: "download/a.jpg".to_string() } }
    );
}

#[test]
fn refused_photo_is_fatal() {
    let applying = Cycle::Apply { path: "download/a.jpg".to_string() };
    assert_eq!(
        applying.advance(Event::Apply { applied: false }),
        Cycle::Done { result: CycleResult::FatalFailure { reason: Failure::Apply } }
    );
}

#[test]
fn an_event_out_of_turn_is_ignored() {
    let asked = Cycle::Probe { path: "p".to_string(), url: "u".to_string() };
    assert_eq!(asked.clone().advance(Event::Apply { applied: true }), asked);
    assert_eq!(asked.clone().advance(Event::Fetch { stored: false }), asked);
    assert_eq!(asked.clone().advance(found(&["a"])), asked);
    let search = searching(DownloadQuality::Raw);
    assert_eq!(search.clone().advance(Event::Probe { cached: true }), search);
    assert_eq!(search.clone().advance(report(&["Clear"])), search);
}

#[test]
fn a_finished_cycle_stays_finished() {
    let done = Cycle::Done { result: CycleResult::Success { path: "p".to_string() } };
    assert_eq!(done.clone().advance(Event::Apply { applied: false }), done);
    assert_eq!(done.clone().advance(Event::Search { found: None }), done);
    assert_eq!(done.clone().advance_with(found(&["a"]), 0), done);
}

#[test]
fn a_whole_cycle_from_the_clock() {
    let mut cycle = Cycle::begin(&with_weather());
    let mut steps = 0;
    let result = loop {
        let event = match &cycle {
            Cycle::Weather { .. } => report(&["Clear"]),
            Cycle::Search { url, .. } => {
                assert!(url.ends_with(" Clear&per_page=100"), "{url}");
                found(&["one"])
            }
            Cycle::Probe { path, .. } => {
                assert_eq!(path, "download/one.jpg");
                Event::Probe { cached: false }
            }
            Cycle::Fetch { url, path } => {
                assert_eq!(url, "https://img/one/full");
                assert_eq!(path, "download/one.jpg");
                Event::Fetch { stored: true }
            }
            Cycle::Apply { .. } => Event::Apply { applied: true },
            Cycle::Done { result } => break result.clone(),
        };
        cycle = cycle.advance(event);
        steps += 1;
    };
    assert_eq!(steps, 5);
    assert_eq!(result, CycleResult::Success { path: "download/one.jpg".to_string() });
}
