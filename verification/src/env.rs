//! Settings read from the process environment. The library takes the raw
//! values (or their absence) and decides what each setting becomes.
use vstd::prelude::*;
use crate::text::{all_ascii_digits, digits_value, parse_u16, parse_u16_spec, str_equal, unsigned_digits};

verus! {

/// How much the crawler logs.
#[derive(PartialEq, Eq, Structural)]
pub enum LogLevel {
    Trace,
    Debug,
    Info,
    Warn,
    Error,
}

/// The settings of a running crawler.
pub struct Env {
    pub log_level: LogLevel,
    pub port: u16,
    pub host: String,
    pub azure_search_uri: String,
    pub azure_search_dequeue_api: String,
    pub azure_profile_uri: String,
    pub azure_profile_dequeue_api: String,
    pub azure_profile_queue_api: String,
    pub azure_manager_bus_uri: String,
    pub azure_manager_bus_api: String,
    pub azure_sas_key_name: String,
    pub azure_manager_bus_key: String,
    pub azure_sas_profile_key: String,
    pub azure_sas_search_key: String,
    pub manager_search_api: String,
    pub manager_profile_api: String,
}

/// Port the service listens on when `PORT` is unset or unreadable.
pub const DEFAULT_PORT: u16 = 8080;
/// Host the service binds to when `HOST` is unset.
pub const DEFAULT_HOST: &'static str = "127.0.0.1";
/// Port of the browser driver when `DRIVER_PORT` is unset.
pub const DEFAULT_DRIVER_PORT: &'static str = "9515";
/// Number of browser sessions when `DRIVER_SESSION_COUNT` is unset.
pub const DEFAULT_SESSION_COUNT: &'static str = "1";
/// Host of the browser driver when `DRIVER_HOST` is unset.
pub const DEFAULT_DRIVER_HOST: &'static str = "localhost";
/// Chrome driver binary when `CHROME_DRIVER_PATH` is unset.
pub const DEFAULT_CHROME_DRIVER_PATH: &'static str = "./drivers/chromedriver.exe";
/// Gecko driver binary when `GECKO_DRIVER_PATH` is unset.
pub const DEFAULT_GECKO_DRIVER_PATH: &'static str = "./drivers/geckodriver.exe";

/// The level a `LOG_LEVEL` value names; anything else, or no value, is `Info`.
pub open spec fn log_level_spec(value: Option<Seq<char>>) -> LogLevel {
    match value {
        Some(v) => if v == "TRACE"@ {
            LogLevel::Trace
        } else if v == "DEBUG"@ {
            LogLevel::Debug
        } else if v == "INFO"@ {
            LogLevel::Info
        } else if v == "WARN"@ {
            LogLevel::Warn
        } else if v == "ERROR"@ {
            LogLevel::Error
        } else {
            LogLevel::Info
        },
        None => LogLevel::Info,
    }
}

pub open spec fn opt_view(value: Option<&str>) -> Option<Seq<char>> {
    match value {
        Some(v) => Some(v@),
        None => None,
    }
}

/// The log level for the value of `LOG_LEVEL`.
pub fn log_level_from(value: Option<&str>) -> (res: LogLevel)
    ensures
        res == log_level_spec(opt_view(value)),
{
    match value {
        Some(v) => {
            if str_equal(v, "TRACE") {
                LogLevel::Trace
            } else if str_equal(v, "DEBUG") {
                LogLevel::Debug
            } else if str_equal(v, "INFO") {
                LogLevel::Info
            } else if str_equal(v, "WARN") {
                LogLevel::Warn
            } else if str_equal(v, "ERROR") {
                LogLevel::Error
            } else {
                LogLevel::Info
            }
        },
        None => LogLevel::Info,
    }
}

/// The service port for the value of `PORT`: the number it holds, or 8080
/// when it is unset or not a 16-bit number.
pub fn port_from(value: Option<&str>) -> (res: u16)
    ensures
        res == match value {
            Some(v) => match parse_u16_spec(v@) {
                Some(p) => p,
                None => DEFAULT_PORT,
            },
            None => DEFAULT_PORT,
        },
{
    match value {
        Some(v) => match parse_u16(v) {
            Some(p) => p,
            None => DEFAULT_PORT,
        },
        None => DEFAULT_PORT,
    }
}

/// A number setting with a textual default: the value (or the default when
/// unset) read as a 16-bit number. `None` when it is not one, which stops
/// the crawler.
pub fn required_u16_from(value: Option<&str>, default: &str) -> (res: Option<u16>)
    ensures
        res == match value {
            Some(v) => parse_u16_spec(v@),
            None => parse_u16_spec(default@),
        },
{
    match value {
        Some(v) => parse_u16(v),
        None => parse_u16(default),
    }
}

proof fn lemma_default_numbers()
    ensures
        parse_u16_spec(DEFAULT_DRIVER_PORT@) == Some(9515u16),
        parse_u16_spec(DEFAULT_SESSION_COUNT@) == Some(1u16),
{
    reveal_strlit("9515");
    reveal_strlit("1");
    let p = DEFAULT_DRIVER_PORT@;
    let c = DEFAULT_SESSION_COUNT@;
    assert(unsigned_digits(p) =~= p);
    assert(unsigned_digits(c) =~= c);
    assert(all_ascii_digits(p));
    assert(all_ascii_digits(c));
    let p1 = p.drop_last().drop_last().drop_last();
    let p2 = p.drop_last().drop_last();
    let p3 = p.drop_last();
    assert(digits_value(Seq::<char>::empty()) == 0);
    assert(p1.drop_last() =~= Seq::<char>::empty());
    assert(p1.last() == '9');
    assert(digits_value(p1) == 9);
    assert(p2.drop_last() =~= p1);
    assert(p2.last() == '5');
    assert(digits_value(p2) == 95);
    assert(p3.drop_last() =~= p2);
    assert(p3.last() == '1');
    assert(digits_value(p3) == 951);
    assert(p.last() == '5');
    assert(digits_value(p) == 9515);
    assert(c.drop_last() =~= Seq::<char>::empty());
    assert(c.last() == '1');
    assert(digits_value(c) == 1);
}

/// The browser driver's port for the value of `DRIVER_PORT` (9515 when unset).
pub fn driver_port_from(value: Option<&str>) -> (res: Option<u16>)
    ensures
        res == match value {
            Some(v) => parse_u16_spec(v@),
            None => Some(9515u16),
        },
{
    proof {
        lemma_default_numbers();
    }
    required_u16_from(value, DEFAULT_DRIVER_PORT)
}

/// The number of browser sessions for the value of `DRIVER_SESSION_COUNT`
/// (one when unset).
pub fn session_count_from(value: Option<&str>) -> (res: Option<u16>)
    ensures
        res == match value {
            Some(v) => parse_u16_spec(v@),
            None => Some(1u16),
        },
{
    proof {
        lemma_default_numbers();
    }
    required_u16_from(value, DEFAULT_SESSION_COUNT)
}

} // verus!
