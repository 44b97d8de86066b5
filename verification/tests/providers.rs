use awc::{
    save_path, search_url, set_wallpaper, weather_url, ActualWeather, DownloadQuality, Platform,
    SearchResult, SearchResults, Urls, WallpaperCommand, WallpaperError, WeatherData,
    WeatherError, DEFAULT_DOWNLOAD_PATH,
};

fn urls() -> Urls {
    Urls {
        raw: "https://img/raw".to_string(),
        full: "https://img/full".to_string(),
        regular: "https://img/regular".to_string(),
        small: "https://img/small".to_string(),
        thumb: "https://img/thumb".to_string(),
    }
}

fn photo(id: &str) -> SearchResult {
    SearchResult { id: id.to_string(), urls: urls() }
}

fn report(words: &[&str]) -> WeatherData {
    WeatherData {
        weather: words.iter().map(|word| ActualWeather { main: word.to_string() }).collect(),
    }
}

#[test]
fn search_url_for_a_word() {
    assert_eq!(
        search_url("noon"),
        "https://api.unsplash.com/search/photos?query=noon&per_page=100"
    );
}

#[test]
fn search_url_keeps_the_query_as_it_stands() {
    assert_eq!(
        search_url("late night Clear"),
        "https://api.unsplash.com/search/photos?query=late night Clear&per_page=100"
    );
    assert_eq!(search_url(""), "https://api.unsplash.com/search/photos?query=&per_page=100");
}

#[test]
fn save_path_of_an_id() {
    assert_eq!(DEFAULT_DOWNLOAD_PATH, "download");
    assert_eq!(save_path("6GHNuQAVC8Y"), "download/6GHNuQAVC8Y.jpg");
    assert_eq!(save_path("abc123"), "download/abc123.jpg");
    assert_eq!(save_path(""), "download/.jpg");
}

#[test]
fn one_address_for_each_size() {
    let urls = urls();
    assert_eq!(urls.get(DownloadQuality::Raw), "https://img/raw");
    assert_eq!(urls.get(DownloadQuality::Full), "https://img/full");
    assert_eq!(urls.get(DownloadQuality::Regular), "https://img/regular");
    assert_eq!(urls.get(DownloadQuality::Small), "https://img/small");
    assert_eq!(urls.get(DownloadQuality::Thumb), "https://img/thumb");
}

#[test]
fn candidates_by_place() {
    let found = SearchResults { total: 7, results: vec![photo("a"), photo("b")] };
    assert_eq!(found.get(0), Some(&photo("a")));
    assert_eq!(found.get(1), Some(&photo("b")));
    assert_eq!(found.get(2), None);
    assert_eq!(found.get(usize::MAX), None);
}

#[test]
fn no_candidate_in_an_empty_answer() {
    let found = SearchResults { total: 0, results: vec![] };
    assert_eq!(found.get(0), None);
}

#[test]
fn weather_url_for_a_city() {
    assert_eq!(
        weather_url("KEY", "Dublin"),
        "https://api.openweathermap.org/data/2.5/weather?q=Dublin&appid=KEY"
    );
    assert_eq!(
        weather_url("", ""),
        "https://api.openweathermap.org/data/2.5/weather?q=&appid="
    );
}

#[test]
fn weather_is_the_first_entry() {
    assert_eq!(report(&["Clear"]).current(), Ok("Clear".to_string()));
    assert_eq!(report(&["Rain", "Mist"]).current(), Ok("Rain".to_string()));
}

#[test]
fn empty_report_is_an_error() {
    assert_eq!(report(&[]).current(), Err(WeatherError()));
}

#[test]
fn weather_error_in_words() {
    assert_eq!(WeatherError().to_string(), "Failed to get weather");
}

#[test]
fn wallpaper_on_windows() {
    assert_eq!(
        set_wallpaper(Platform::Windows, "C:/users/me", "download/abc123.jpg"),
        Ok(WallpaperCommand::SystemParameter { path: "download/abc123.jpg".to_string() })
    );
}

#[test]
fn wallpaper_on_macos() {
    let script = "tell application \"Finder\" to set desktop picture to POSIX file \
                  \"/Users/me/awc/download/abc123.jpg\"";
    assert_eq!(
        set_wallpaper(Platform::MacOs, "/Users/me/awc", "download/abc123.jpg"),
        Ok(WallpaperCommand::AppleScript { script: script.to_string() })
    );
}

#[test]
fn wallpaper_on_linux() {
    assert_eq!(
        set_wallpaper(Platform::Linux, "/home/me", "ferris.png"),
        Err(WallpaperError::Unsupported)
    );
}
