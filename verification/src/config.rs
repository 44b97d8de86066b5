//! The settings record and what the photo service's client is built from.

use vstd::prelude::*;
use vstd::string::StringSliceAdditionalSpecFns;

verus! {

/// Where the settings record is kept.
pub const DEFAULT_CONFIG_PATH: &'static str = "./config.json";

/// The environment variable that may hold the photo service's access key
/// when the settings record has none.
pub const ACCESS_KEY_VARIABLE: &'static str = "AWC_UNSPLASH_KEY";

/// The sizes in which the photo service offers a photo.
#[derive(Clone, Copy, Debug, PartialEq, Eq, Structural)]
pub enum DownloadQuality {
    Raw,
    Full,
    Regular,
    Small,
    Thumb,
}

/// The settings record.
///
/// `repeat_secs` is how often the control loop wakes; `update_interval` is
/// the least time, in seconds, between two photos.
#[derive(Clone, Debug, PartialEq, Eq)]
pub struct Config {
    pub repeat_secs: u64,
    pub update_interval: u64,
    pub quality: DownloadQuality,
    pub unsplash_access_key: Option<String>,
    pub openweather_access_key: Option<String>,
    pub city_weather: String,
    pub disable_cache: bool,
}

impl Default for Config {
    /// The record that is written out when none exists yet: wake every
    /// second, a new photo every hour, in full size, the cache not kept.
    fn default() -> (config: Config)
        ensures
            config.repeat_secs == 1,
            config.update_interval == 3600,
            config.quality == DownloadQuality::Full,
            config.unsplash_access_key is None,
            config.openweather_access_key is None,
            config.city_weather@ == "Dublin"@,
            config.disable_cache,
    {
        Config {
            repeat_secs: 1,
            update_interval: 3600,
            quality: DownloadQuality::Full,
            unsplash_access_key: None,
            openweather_access_key: None,
            city_weather: "Dublin".to_owned(),
            disable_cache: true,
        }
    }
}

/// Why no client for the photo service can be built.
#[derive(Clone, Copy, Debug, PartialEq, Eq, Structural)]
pub enum ClientError {
    /// Neither the settings record nor the environment holds an access key.
    MissingKey,
    /// The access key holds a byte that no header value may hold.
    InvalidKey,
}

/// Whether a header value may hold this byte: anything from the space
/// upwards but the delete character, and the tab.
pub open spec fn header_byte_allowed(byte: u8) -> bool {
    (byte >= 32 && byte != 127) || byte == 9
}

/// Whether a header value may hold every one of these bytes.
pub open spec fn header_bytes_allowed(bytes: Seq<u8>) -> bool {
    forall|i: int| 0 <= i < bytes.len() ==> header_byte_allowed(#[trigger] bytes[i])
}

/// The access key that the client is to use: that of the settings record,
/// or else the one found in the environment.
pub open spec fn access_key(config: Config, fallback: Option<String>) -> Option<Seq<char>> {
    match (config.unsplash_access_key, fallback) {
        (Some(key), _) => Some(key@),
        (None, Some(key)) => Some(key@),
        (None, None) => None,
    }
}

/// The `Authorization` header that presents `key` to the photo service.
pub open spec fn authorization_text(key: Seq<char>) -> Seq<char> {
    "Client-ID "@ + key
}

/// Asks `reqwest::header::HeaderValue::from_str` whether it takes `text`.
/// It walks the bytes of the text and refuses at the first one that is
/// below the space and not a tab, or is the delete character; bytes above
/// the ASCII range pass.
#[verifier::external_body]
fn header_value_accepts(text: &str) -> (accepted: bool)
    ensures
        accepted == header_bytes_allowed(text.spec_bytes()),
{
    reqwest::header::HeaderValue::from_str(text).is_ok()
}

/// The `Authorization` header for the photo service's client.
///
/// `fallback` is the access key found in the environment, if any; the key of
/// the settings record goes first. Without a key there is no client, and
/// none with a key that cannot travel in a header.
pub fn authorization_header(config: &Config, fallback: Option<String>) -> (header: Result<
    String,
    ClientError,
>)
    ensures
        match access_key(*config, fallback) {
            None => header == Err::<String, ClientError>(ClientError::MissingKey),
            Some(key) => if header_bytes_allowed(
                vstd::utf8::encode_utf8(authorization_text(key)),
            ) {
                header is Ok && header->Ok_0@ == authorization_text(key)
            } else {
                header == Err::<String, ClientError>(ClientError::InvalidKey)
            },
        },
{
    let mut text = "Client-ID ".to_owned();
    match &config.unsplash_access_key {
        Some(key) => text.append(key.as_str()),
        None => match &fallback {
            Some(key) => text.append(key.as_str()),
            None => {
                return Err(ClientError::MissingKey);
            },
        },
    }
    if header_value_accepts(text.as_str()) {
        Ok(text)
    } else {
        Err(ClientError::InvalidKey)
    }
}

} // verus!
