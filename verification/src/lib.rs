//! Keeps the desktop background in step with the time of day.
//!
//! The crate holds the decisions of the wallpaper changer: which words to
//! search for at a given hour, which photo to take and where to keep it, and
//! the control loop that paces the cycles, retries them and obeys commands.
//! Everything that touches the network, the disk or the desktop is left to
//! the caller, who carries out what these functions ask for and reports back.

pub mod config;
pub mod cycle;
pub mod cycle_lemmas;
pub mod hour;
pub mod photos;
pub mod wallpaper;
pub mod weather;
pub mod worker;
pub mod worker_lemmas;

pub use crate::config::{
    authorization_header, ClientError, Config, DownloadQuality, ACCESS_KEY_VARIABLE,
    DEFAULT_CONFIG_PATH,
};
pub use crate::cycle::{build_query, Cycle, CycleResult, Event, Failure};
pub use crate::hour::{Hour, HourBucket};
pub use crate::photos::{
    save_path, search_url, SearchResult, SearchResults, Urls, DEFAULT_DOWNLOAD_PATH,
};
pub use crate::wallpaper::{set_wallpaper, Platform, WallpaperCommand, WallpaperError};
pub use crate::weather::{weather_url, ActualWeather, WeatherData, WeatherError};
pub use crate::worker::{
    Action, Command, Completion, Message, MetaMessage, SendError, State, Worker,
    MAXIMUM_ATTEMPTS, WAIT_SECS,
};
