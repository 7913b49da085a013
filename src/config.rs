use vstd::prelude::*;

use crate::metadata::opt_view;
use crate::text::{
    decimal, parse_unsigned, pieces, push_decimal, push_str, same_text, split_at_char, trim,
    trimmed, unsigned_text_value, views_of,
};

verus! {

/// The server's settings.
#[derive(Debug, Clone)]
pub struct AppConfig {
    pub port: u16,
    pub host: String,
    pub max_file_size: u64,
    pub temp_dir: String,
    pub cleanup_interval: u64,
    pub rate_limit_requests: u32,
    pub rate_limit_window: u64,
    pub cors_origins: Vec<String>,
    pub recaptcha_secret_key: Option<String>,
}

/// The raw settings found in the environment, one per variable.
#[derive(Debug, Clone)]
pub struct ConfigSettings {
    pub port: Option<String>,
    pub host: Option<String>,
    pub max_file_size: Option<String>,
    pub temp_dir: Option<String>,
    pub cleanup_interval: Option<String>,
    pub rate_limit_requests: Option<String>,
    pub rate_limit_window: Option<String>,
    pub cors_origins: Option<String>,
    pub recaptcha_secret_key: Option<String>,
}

pub const DEFAULT_PORT: u16 = 3001;

pub const DEFAULT_MAX_FILE_SIZE: u64 = 104857600;

pub const DEFAULT_CLEANUP_INTERVAL: u64 = 3600;

pub const DEFAULT_RATE_LIMIT_REQUESTS: u32 = 10;

pub const DEFAULT_RATE_LIMIT_WINDOW: u64 = 60;

/// The value of a numeric setting: the text read as the type reads it, or the
/// default when absent or unreadable.
pub open spec fn number_setting(s: Option<String>, max: int, default: int) -> int {
    match s {
        Some(t) => match unsigned_text_value(t@, max) {
            Some(v) => v as int,
            None => default,
        },
        None => default,
    }
}

/// The CAPTCHA secret: set unless empty or left at its placeholder.
pub open spec fn secret_setting(s: Option<String>) -> Option<Seq<char>> {
    match s {
        Some(k) => if k@.len() == 0 || k@ == "your_recaptcha_secret_key_here"@ {
            None
        } else {
            Some(k@)
        },
        None => None,
    }
}

/// The CORS origins of a comma-separated list, each trimmed.
pub open spec fn origins_setting(list: Seq<char>) -> Seq<Seq<char>> {
    pieces(list, ',').map_values(|p: Seq<char>| trim(p))
}

impl Default for AppConfig {
    fn default() -> (r: Self)
        ensures
            r.port == DEFAULT_PORT,
            r.host@ == "127.0.0.1"@,
            r.max_file_size == DEFAULT_MAX_FILE_SIZE,
            r.temp_dir@ == "./downloads"@,
            r.cleanup_interval == DEFAULT_CLEANUP_INTERVAL,
            r.rate_limit_requests == DEFAULT_RATE_LIMIT_REQUESTS,
            r.rate_limit_window == DEFAULT_RATE_LIMIT_WINDOW,
            views_of(r.cors_origins@) == seq!["http://localhost:3000"@],
            r.recaptcha_secret_key is None,
    {
        let mut origins: Vec<String> = Vec::new();
        origins.push("http://localhost:3000".to_string());
        assert(views_of(origins@) =~= seq!["http://localhost:3000"@]);
        AppConfig {
            port: DEFAULT_PORT,
            host: "127.0.0.1".to_string(),
            max_file_size: DEFAULT_MAX_FILE_SIZE,
            temp_dir: "./downloads".to_string(),
            cleanup_interval: DEFAULT_CLEANUP_INTERVAL,
            rate_limit_requests: DEFAULT_RATE_LIMIT_REQUESTS,
            rate_limit_window: DEFAULT_RATE_LIMIT_WINDOW,
            cors_origins: origins,
            recaptcha_secret_key: None,
        }
    }
}

fn number_or(s: &Option<String>, max: u64, default: u64) -> (r: u64)
    requires
        default <= max,
    ensures
        r as int == number_setting(*s, max as int, default as int),
        r <= max,
{
    match s {
        Some(t) => match parse_unsigned(t.as_str(), max) {
            Some(v) => v,
            None => default,
        },
        None => default,
    }
}

/// Trims each piece of a comma-separated list.
fn origins_from(list: &str) -> (r: Vec<String>)
    ensures
        views_of(r@) == origins_setting(list@),
{
    let parts = split_at_char(list, ',');
    let ghost ps = pieces(list@, ',');
    let mut out: Vec<String> = Vec::new();
    let mut j: usize = 0;
    while j < parts.len()
        invariant
            views_of(parts@) == ps,
            j <= parts@.len(),
            views_of(out@) == ps.subrange(0, j as int).map_values(|p: Seq<char>| trim(p)),
        decreases parts.len() - j,
    {
        let t = trimmed(parts[j].as_str());
        let ghost before = out@;
        out.push(t);
        proof {
            let f = |p: Seq<char>| trim(p);
            assert(views_of(out@) =~= views_of(before).push(t@));
            assert(ps.subrange(0, j + 1).map_values(f) =~= ps.subrange(0, j as int).map_values(
                f,
            ).push(f(ps[j as int])));
        }
        j = j + 1;
    }
    assert(ps.subrange(0, j as int) =~= ps);
    out
}

impl AppConfig {
    /// The settings: each one found overrides its default; a numeric one
    /// that does not read as a number keeps the default.
    pub fn from_settings(settings: &ConfigSettings) -> (r: AppConfig)
        ensures
            r.port as int == number_setting(settings.port, u16::MAX as int, DEFAULT_PORT as int),
            r.host@ == match settings.host {
                Some(h) => h@,
                None => "127.0.0.1"@,
            },
            r.max_file_size as int == number_setting(
                settings.max_file_size,
                u64::MAX as int,
                DEFAULT_MAX_FILE_SIZE as int,
            ),
            r.temp_dir@ == match settings.temp_dir {
                Some(d) => d@,
                None => "./downloads"@,
            },
            r.cleanup_interval as int == number_setting(
                settings.cleanup_interval,
                u64::MAX as int,
                DEFAULT_CLEANUP_INTERVAL as int,
            ),
            r.rate_limit_requests as int == number_setting(
                settings.rate_limit_requests,
                u32::MAX as int,
                DEFAULT_RATE_LIMIT_REQUESTS as int,
            ),
            r.rate_limit_window as int == number_setting(
                settings.rate_limit_window,
                u64::MAX as int,
                DEFAULT_RATE_LIMIT_WINDOW as int,
            ),
            views_of(r.cors_origins@) == match settings.cors_origins {
                Some(list) => origins_setting(list@),
                None => seq!["http://localhost:3000"@],
            },
            opt_view(r.recaptcha_secret_key) == secret_setting(settings.recaptcha_secret_key),
    {
        let mut config = AppConfig::default();
        config.port = number_or(&settings.port, u16::MAX as u64, DEFAULT_PORT as u64) as u16;
        if let Some(h) = &settings.host {
            config.host = h.clone();
        }
        config.max_file_size = number_or(
            &settings.max_file_size,
            u64::MAX,
            DEFAULT_MAX_FILE_SIZE,
        );
        if let Some(d) = &settings.temp_dir {
            config.temp_dir = d.clone();
        }
        config.cleanup_interval = number_or(
            &settings.cleanup_interval,
            u64::MAX,
            DEFAULT_CLEANUP_INTERVAL,
        );
        config.rate_limit_requests = number_or(
            &settings.rate_limit_requests,
            u32::MAX as u64,
            DEFAULT_RATE_LIMIT_REQUESTS as u64,
        ) as u32;
        config.rate_limit_window = number_or(
            &settings.rate_limit_window,
            u64::MAX,
            DEFAULT_RATE_LIMIT_WINDOW,
        );
        if let Some(list) = &settings.cors_origins {
            config.cors_origins = origins_from(list.as_str());
        }
        if let Some(k) = &settings.recaptcha_secret_key {
            if k.as_str().unicode_len() > 0 && !same_text(
                k.as_str(),
                "your_recaptcha_secret_key_here",
            ) {
                config.recaptcha_secret_key = Some(k.clone());
            }
        }
        config
    }

    /// `host:port`.
    pub fn socket_addr(&self) -> (r: String)
        ensures
            r@ == self.host@ + ":"@ + decimal(self.port as nat),
    {
        let mut s = self.host.clone();
        push_str(&mut s, ":");
        push_decimal(&mut s, self.port as u128);
        s
    }

    pub fn is_recaptcha_enabled(&self) -> (r: bool)
        ensures
            r == self.recaptcha_secret_key is Some,
    {
        self.recaptcha_secret_key.is_some()
    }
}

} // verus!
