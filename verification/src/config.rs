//! Settings of the server.

use vstd::prelude::*;

verus! {

/// The port the server listens on where none is configured.
pub const DEFAULT_SERVER_PORT: u16 = 3000;

/// The port of the RTMP server where none is configured.
pub const DEFAULT_RTMP_SERVER_PORT: u16 = 1935;

/// The settings of the server.
#[derive(Clone, Debug, PartialEq, Eq)]
pub struct Config {
    /// Port on which the server listens.
    port: Option<u16>,
    /// Shared secret of the room.
    key: Option<String>,
    /// Port of the RTMP server.
    rtmp_port: Option<u16>,
    /// Key of the stream.
    stream_key: String,
    /// Title of the stream.
    title: Option<String>,
}

/// The mathematical model of a [`Config`].
pub struct ConfigView {
    pub port: Option<u16>,
    pub key: Option<Seq<char>>,
    pub rtmp_port: Option<u16>,
    pub stream_key: Seq<char>,
    pub title: Option<Seq<char>>,
}

/// The model of an optional string.
pub open spec fn text_view(text: Option<String>) -> Option<Seq<char>> {
    match text {
        Some(t) => Some(t@),
        None => None,
    }
}

impl View for Config {
    type V = ConfigView;

    closed spec fn view(&self) -> ConfigView {
        ConfigView {
            port: self.port,
            key: text_view(self.key),
            rtmp_port: self.rtmp_port,
            stream_key: self.stream_key@,
            title: text_view(self.title),
        }
    }
}

/// The settings that are read from the environment.
#[derive(Clone, Copy, Debug, PartialEq, Eq, Structural)]
pub enum Setting {
    Port,
    RoomKey,
    RtmpPort,
    StreamKey,
    Title,
}

/// Why the environment gives no settings.
#[derive(Clone, Copy, Debug, PartialEq, Eq, Structural)]
pub enum ConfigError {
    /// The variable of a setting is not set.
    Missing(Setting),
    /// The variable of a port holds no port number.
    Invalid(Setting),
}

/// The values of the five variables, `None` for one that is not set.
#[derive(Clone, Debug, PartialEq, Eq)]
pub struct EnvValues {
    pub port: Option<String>,
    pub room_key: Option<String>,
    pub rtmp_port: Option<String>,
    pub stream_key: Option<String>,
    pub title: Option<String>,
}

/// The mathematical model of [`EnvValues`].
pub struct EnvValuesView {
    pub port: Option<Seq<char>>,
    pub room_key: Option<Seq<char>>,
    pub rtmp_port: Option<Seq<char>>,
    pub stream_key: Option<Seq<char>>,
    pub title: Option<Seq<char>>,
}

impl View for EnvValues {
    type V = EnvValuesView;

    open spec fn view(&self) -> EnvValuesView {
        EnvValuesView {
            port: text_view(self.port),
            room_key: text_view(self.room_key),
            rtmp_port: text_view(self.rtmp_port),
            stream_key: text_view(self.stream_key),
            title: text_view(self.title),
        }
    }
}

/// Whether a character is one of the ten decimal digits.
pub open spec fn is_digit(c: char) -> bool {
    '0' <= c <= '9'
}

/// The number that a string of decimal digits writes.
pub open spec fn digits_value(digits: Seq<char>) -> nat
    decreases digits.len(),
{
    if digits.len() == 0 {
        0
    } else {
        digits_value(digits.drop_last()) * 10 + (digits.last() as nat - '0' as nat) as nat
    }
}

/// The digits of a port text: the text without a leading `+`.
pub open spec fn port_digits(text: Seq<char>) -> Seq<char> {
    if text.len() > 0 && text[0] == '+' {
        text.drop_first()
    } else {
        text
    }
}

/// The port that a text writes: an optional `+`, then one decimal digit or
/// more and nothing else, for a number up to 65535.
pub open spec fn port_number(text: Seq<char>) -> Option<u16> {
    let digits = port_digits(text);
    if digits.len() > 0 && (forall|i: int| 0 <= i < digits.len() ==> is_digit(#[trigger] digits[i]))
        && digits_value(digits) <= u16::MAX {
        Some(digits_value(digits) as u16)
    } else {
        None
    }
}

/// The settings that the values of the variables give, or the first thing
/// wrong with them, in the order port, room key, RTMP port, stream key,
/// title.
pub open spec fn loaded(values: EnvValuesView) -> Result<ConfigView, ConfigError> {
    if values.port is None {
        Err(ConfigError::Missing(Setting::Port))
    } else if port_number(values.port->Some_0) is None {
        Err(ConfigError::Invalid(Setting::Port))
    } else if values.room_key is None {
        Err(ConfigError::Missing(Setting::RoomKey))
    } else if values.rtmp_port is None {
        Err(ConfigError::Missing(Setting::RtmpPort))
    } else if port_number(values.rtmp_port->Some_0) is None {
        Err(ConfigError::Invalid(Setting::RtmpPort))
    } else if values.stream_key is None {
        Err(ConfigError::Missing(Setting::StreamKey))
    } else if values.title is None {
        Err(ConfigError::Missing(Setting::Title))
    } else {
        Ok(
            ConfigView {
                port: port_number(values.port->Some_0),
                key: values.room_key,
                rtmp_port: port_number(values.rtmp_port->Some_0),
                stream_key: values.stream_key->Some_0,
                title: values.title,
            },
        )
    }
}

/// A longer string of digits writes no smaller number than its beginning.
proof fn digits_value_grows(digits: Seq<char>, n: int)
    requires
        0 <= n <= digits.len(),
        forall|i: int| 0 <= i < digits.len() ==> is_digit(#[trigger] digits[i]),
    ensures
        digits_value(digits.take(n)) <= digits_value(digits),
    decreases digits.len() - n,
{
    if n == digits.len() {
        assert(digits.take(n) =~= digits);
    } else {
        digits_value_grows(digits, n + 1);
        assert(digits.take(n + 1).drop_last() =~= digits.take(n));
    }
}

/// Reads a port number: an optional `+`, then decimal digits only, for a
/// number that fits 16 bits.
pub fn parse_port(text: &str) -> (port: Option<u16>)
    ensures
        port == port_number(text@),
{
    let len: usize = text.unicode_len();
    let start: usize = if len > 0 && text.get_char(0) == '+' {
        1
    } else {
        0
    };
    let ghost digits = port_digits(text@);
    if start == len {
        return None;
    }
    let mut value: u32 = 0;
    let mut i: usize = start;
    while i < len
        invariant
            start <= i <= len,
            len == text@.len(),
            digits == port_digits(text@),
            digits.len() == len - start,
            forall|k: int| 0 <= k < digits.len() ==> digits[k] == text@[k + start],
            forall|k: int| 0 <= k < i - start ==> is_digit(#[trigger] digits[k]),
            value == digits_value(digits.take(i - start)),
            value <= u16::MAX,
        decreases len - i,
    {
        let c = text.get_char(i);
        if !('0' <= c && c <= '9') {
            assert(!is_digit(digits[i - start]));
            return None;
        }
        let digit: u32 = c as u32 - '0' as u32;
        assert(digits.take(i - start + 1).drop_last() =~= digits.take(i - start));
        value = value * 10 + digit;
        if value > 65535 {
            proof {
                if forall|k: int| 0 <= k < digits.len() ==> is_digit(#[trigger] digits[k]) {
                    digits_value_grows(digits, i - start + 1);
                }
            }
            return None;
        }
        i += 1;
    }
    assert(digits.take(len - start) =~= digits);
    Some(value as u16)
}

impl Setting {
    /// The name of the variable that holds the setting.
    pub fn variable(&self) -> (name: &'static str)
        ensures
            name@ == match *self {
                Setting::Port => "WAFT_PORT"@,
                Setting::RoomKey => "WAFT_ROOM_KEY"@,
                Setting::RtmpPort => "WAFT_RTMP_PORT"@,
                Setting::StreamKey => "WAFT_STREAM_KEY"@,
                Setting::Title => "WAFT_TITLE"@,
            },
    {
        match self {
            Setting::Port => "WAFT_PORT",
            Setting::RoomKey => "WAFT_ROOM_KEY",
            Setting::RtmpPort => "WAFT_RTMP_PORT",
            Setting::StreamKey => "WAFT_STREAM_KEY",
            Setting::Title => "WAFT_TITLE",
        }
    }
}

impl Default for Config {
    /// The settings with nothing configured.
    fn default() -> (config: Config)
        ensures
            config@ == (ConfigView {
                port: None,
                key: None,
                rtmp_port: None,
                stream_key: Seq::empty(),
                title: None,
            }),
    {
        Config { port: None, key: None, rtmp_port: None, stream_key: String::new(), title: None }
    }
}

impl Config {
    /// The settings with the given values.
    pub fn new(
        port: Option<u16>,
        key: Option<String>,
        rtmp_port: Option<u16>,
        stream_key: String,
        title: Option<String>,
    ) -> (config: Config)
        ensures
            config@ == (ConfigView {
                port,
                key: text_view(key),
                rtmp_port,
                stream_key: stream_key@,
                title: text_view(title),
            }),
    {
        Config { port, key, rtmp_port, stream_key, title }
    }

    /// The settings that the values of the five variables give: every one
    /// has to be set, and the two ports have to be port numbers.
    pub fn from_env_values(values: EnvValues) -> (outcome: Result<Config, ConfigError>)
        ensures
            match outcome {
                Ok(config) => loaded(values@) == Ok::<ConfigView, ConfigError>(config@),
                Err(error) => loaded(values@) == Err::<ConfigView, ConfigError>(error),
            },
    {
        let port = match values.port {
            Some(text) => match parse_port(text.as_str()) {
                Some(port) => port,
                None => { return Err(ConfigError::Invalid(Setting::Port)); },
            },
            None => { return Err(ConfigError::Missing(Setting::Port)); },
        };
        let key = match values.room_key {
            Some(key) => key,
            None => { return Err(ConfigError::Missing(Setting::RoomKey)); },
        };
        let rtmp_port = match values.rtmp_port {
            Some(text) => match parse_port(text.as_str()) {
                Some(port) => port,
                None => { return Err(ConfigError::Invalid(Setting::RtmpPort)); },
            },
            None => { return Err(ConfigError::Missing(Setting::RtmpPort)); },
        };
        let stream_key = match values.stream_key {
            Some(key) => key,
            None => { return Err(ConfigError::Missing(Setting::StreamKey)); },
        };
        let title = match values.title {
            Some(title) => title,
            None => { return Err(ConfigError::Missing(Setting::Title)); },
        };
        Ok(Config::new(Some(port), Some(key), Some(rtmp_port), stream_key, Some(title)))
    }

    /// The configured port, or the default.
    pub fn port(&self) -> (port: u16)
        ensures
            port == match self@.port {
                Some(p) => p,
                None => DEFAULT_SERVER_PORT,
            },
    {
        match self.port {
            Some(p) => p,
            None => DEFAULT_SERVER_PORT,
        }
    }

    /// The configured RTMP port, or the default.
    pub fn rtmp_port(&self) -> (port: u16)
        ensures
            port == match self@.rtmp_port {
                Some(p) => p,
                None => DEFAULT_RTMP_SERVER_PORT,
            },
    {
        match self.rtmp_port {
            Some(p) => p,
            None => DEFAULT_RTMP_SERVER_PORT,
        }
    }

    /// The key of the stream.
    pub fn stream_key(&self) -> (key: &str)
        ensures
            key@ == self@.stream_key,
    {
        self.stream_key.as_str()
    }

    /// The shared secret of the room, if one is set.
    pub fn key(&self) -> (key: Option<&str>)
        ensures
            match key {
                Some(k) => self@.key == Some(k@),
                None => self@.key is None,
            },
    {
        match &self.key {
            Some(k) => Some(k.as_str()),
            None => None,
        }
    }

    /// Replaces the shared secret and leaves every other setting as it was.
    pub fn _set_key(&mut self, key: Option<String>)
        ensures
            final(self)@ == (ConfigView { key: text_view(key), ..old(self)@ }),
    {
        self.key = key;
    }

    /// The title of the stream, if one is set.
    pub fn title(&self) -> (title: Option<String>)
        ensures
            text_view(title) == self@.title,
    {
        match &self.title {
            Some(t) => Some(t.clone()),
            None => None,
        }
    }
}

} // verus!
