//! What the weather service answers, and where it is asked.

use vstd::prelude::*;

verus! {

/// One entry of a weather report. `main` is the weather in a word.
#[derive(Clone, Debug, PartialEq, Eq)]
pub struct ActualWeather {
    pub main: String,
}

/// A weather report.
#[derive(Clone, Debug, PartialEq, Eq)]
pub struct WeatherData {
    pub weather: Vec<ActualWeather>,
}

/// A weather report said nothing about the weather.
#[derive(Clone, Copy, Debug, PartialEq, Eq, Structural)]
pub struct WeatherError();

impl WeatherError {
    /// What went wrong, in words.
    pub fn to_string(&self) -> (text: String)
        ensures
            text@ == "Failed to get weather"@,
    {
        "Failed to get weather".to_owned()
    }
}

/// The address that answers for the weather in `city` when asked with the
/// access key `key`.
pub open spec fn weather_url_text(key: Seq<char>, city: Seq<char>) -> Seq<char> {
    "https://api.openweathermap.org/data/2.5/weather?q="@ + city + "&appid="@ + key
}

/// The address that answers for the weather in `city`.
pub fn weather_url(key: &str, city: &str) -> (url: String)
    ensures
        url@ == weather_url_text(key@, city@),
{
    let mut url = "https://api.openweathermap.org/data/2.5/weather?q=".to_owned();
    url.append(city);
    url.append("&appid=");
    url.append(key);
    url
}

impl WeatherData {
    /// The weather in a word: that of the first entry of the report.
    pub open spec fn condition(self) -> Option<Seq<char>> {
        if self.weather@.len() > 0 {
            Some(self.weather@[0].main@)
        } else {
            None
        }
    }

    /// The weather in a word, or an error if the report has no entry.
    pub fn current(&self) -> (word: Result<String, WeatherError>)
        ensures
            match self.condition() {
                Some(text) => word is Ok && word->Ok_0@ == text,
                None => word == Err::<String, WeatherError>(WeatherError()),
            },
    {
        if self.weather.len() > 0 {
            Ok(self.weather[0].main.clone())
        } else {
            Err(WeatherError())
        }
    }
}

} // verus!
