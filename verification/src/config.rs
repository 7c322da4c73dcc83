//! The run configuration, resolved once at startup from the values that the
//! environment provides.

use vstd::prelude::*;
use vstd::string::StringSliceAdditionalSpecFns;

verus! {

/// The run hour that stands for "always due".
pub const ALWAYS_DUE: u32 = 99;

/// The values found in the environment, each absent or present as text.
#[derive(Debug, PartialEq, Eq)]
pub struct Environment {
    /// The remote host address. Required.
    pub host: Option<String>,
    /// The remote user name. Required.
    pub user: Option<String>,
    /// The remote password. Required.
    pub password: Option<String>,
    /// The remote destination path. Required.
    pub remote_path: Option<String>,
    /// The local source directory.
    pub local_folder: Option<String>,
    /// The run hour, as decimal text.
    pub run_hour: Option<String>,
    /// The notification endpoint.
    pub webhook_url: Option<String>,
}

/// An `Environment` as mathematical text.
pub struct EnvironmentView {
    pub host: Option<Seq<char>>,
    pub user: Option<Seq<char>>,
    pub password: Option<Seq<char>>,
    pub remote_path: Option<Seq<char>>,
    pub local_folder: Option<Seq<char>>,
    pub run_hour: Option<Seq<char>>,
    pub webhook_url: Option<Seq<char>>,
}

/// The text of an optional string.
pub open spec fn text_of(value: Option<String>) -> Option<Seq<char>> {
    match value {
        Some(s) => Some(s@),
        None => None,
    }
}

impl View for Environment {
    type V = EnvironmentView;

    open spec fn view(&self) -> EnvironmentView {
        EnvironmentView {
            host: text_of(self.host),
            user: text_of(self.user),
            password: text_of(self.password),
            remote_path: text_of(self.remote_path),
            local_folder: text_of(self.local_folder),
            run_hour: text_of(self.run_hour),
            webhook_url: text_of(self.webhook_url),
        }
    }
}

/// The configuration of a run. It is built once and never changed.
#[derive(Debug, PartialEq, Eq)]
pub struct RunConfig {
    /// The remote host address.
    pub host: String,
    /// The remote user name.
    pub user: String,
    /// The remote password.
    pub password: String,
    /// The remote destination path, the same for every upload.
    pub remote_path: String,
    /// The local directory that the files are chosen from.
    pub local_folder: String,
    /// The hour of the day at which a cycle is due, or `ALWAYS_DUE`.
    pub run_hour: u32,
    /// The notification endpoint; empty when notifications are off.
    pub webhook_url: String,
}

/// A `RunConfig` as mathematical text.
pub struct RunConfigView {
    pub host: Seq<char>,
    pub user: Seq<char>,
    pub password: Seq<char>,
    pub remote_path: Seq<char>,
    pub local_folder: Seq<char>,
    pub run_hour: u32,
    pub webhook_url: Seq<char>,
}

impl View for RunConfig {
    type V = RunConfigView;

    open spec fn view(&self) -> RunConfigView {
        RunConfigView {
            host: self.host@,
            user: self.user@,
            password: self.password@,
            remote_path: self.remote_path@,
            local_folder: self.local_folder@,
            run_hour: self.run_hour,
            webhook_url: self.webhook_url@,
        }
    }
}

/// Why no configuration could be built.
#[derive(Clone, Copy, Debug, PartialEq, Eq, Structural)]
pub enum ConfigError {
    /// No remote host address was given.
    MissingHost,
    /// No remote user name was given.
    MissingUser,
    /// No remote password was given.
    MissingPassword,
    /// No remote destination path was given.
    MissingRemotePath,
    /// The run hour is not a decimal number that fits 32 bits.
    InvalidRunHour,
}

/// The ASCII code of the plus sign.
const PLUS: u8 = 0x2b;

/// The ASCII code of the digit zero.
const DIGIT_ZERO: u8 = 0x30;

/// The ASCII code of the digit nine.
const DIGIT_NINE: u8 = 0x39;

/// The local directory used when none is given.
pub open spec fn default_folder() -> Seq<char> {
    seq!['.', '/', 'l', 'a', 'y', 'e', 'r', 's']
}

/// `c` is one of the decimal digits `0` to `9`.
pub open spec fn is_decimal_digit(c: char) -> bool {
    '0' <= c <= '9'
}

/// Every character of `s` is a decimal digit.
pub open spec fn digits_only(s: Seq<char>) -> bool {
    forall|i: int| 0 <= i < s.len() ==> is_decimal_digit(#[trigger] s[i])
}

/// The number that the digits `s` write in base ten.
pub open spec fn decimal_value(s: Seq<char>) -> nat
    decreases s.len(),
{
    if s.len() == 0 {
        0
    } else {
        decimal_value(s.drop_last()) * 10 + (s.last() as nat - '0' as nat) as nat
    }
}

/// `s` without one leading plus sign.
pub open spec fn without_plus(s: Seq<char>) -> Seq<char> {
    if s.len() > 0 && s[0] == '+' {
        s.skip(1)
    } else {
        s
    }
}

/// The number that `s` writes: an optional plus sign, then one or more
/// decimal digits and nothing else, with a value that fits 32 bits.
pub open spec fn decimal_u32(s: Seq<char>) -> Option<u32> {
    let digits = without_plus(s);
    if digits.len() > 0 && digits_only(digits) && decimal_value(digits) <= u32::MAX {
        Some(decimal_value(digits) as u32)
    } else {
        None
    }
}

/// What an environment resolves to: the first missing required value is the
/// error, in the order host, user, password, remote path; then a run hour
/// that is given must be a number; what is optional and absent takes its
/// default.
pub open spec fn resolved(env: EnvironmentView) -> Result<RunConfigView, ConfigError> {
    if env.host is None {
        Err(ConfigError::MissingHost)
    } else if env.user is None {
        Err(ConfigError::MissingUser)
    } else if env.password is None {
        Err(ConfigError::MissingPassword)
    } else if env.remote_path is None {
        Err(ConfigError::MissingRemotePath)
    } else if env.run_hour is Some && decimal_u32(env.run_hour->0) is None {
        Err(ConfigError::InvalidRunHour)
    } else {
        Ok(
            RunConfigView {
                host: env.host->0,
                user: env.user->0,
                password: env.password->0,
                remote_path: env.remote_path->0,
                local_folder: if env.local_folder is Some {
                    env.local_folder->0
                } else {
                    default_folder()
                },
                run_hour: if env.run_hour is Some {
                    decimal_u32(env.run_hour->0)->0
                } else {
                    ALWAYS_DUE
                },
                webhook_url: if env.webhook_url is Some {
                    env.webhook_url->0
                } else {
                    Seq::empty()
                },
            },
        )
    }
}

/// A longer run of digits writes a number at least as large as any of its
/// prefixes.
proof fn lemma_decimal_value_grows(s: Seq<char>, k: int)
    requires
        0 <= k <= s.len(),
    ensures
        decimal_value(s.take(k)) <= decimal_value(s),
    decreases s.len(),
{
    if k == s.len() {
        assert(s.take(k) == s);
    } else {
        assert(s.drop_last().take(k) == s.take(k));
        lemma_decimal_value_grows(s.drop_last(), k);
    }
}

/// Reads a run hour from text: an optional plus sign, then decimal digits.
pub fn parse_run_hour(text: &str) -> (r: Option<u32>)
    ensures
        r == decimal_u32(text@),
{
    broadcast use vstd::string::is_ascii_spec_bytes;

    if !text.is_ascii() {
        proof {
            // A character beyond ASCII is no plus sign and no digit.
            let at = choose|i: int|
                0 <= i < text@.len() && !('\0' <= #[trigger] text@[i] <= '\u{7f}');
            let digits = without_plus(text@);
            if digits.len() < text@.len() {
                assert(digits[at - 1] == text@[at]);
            }
        }
        return None;
    }
    let bytes = text.as_bytes();
    let n = bytes.len();
    let start: usize = if n > 0 && bytes[0] == PLUS {
        1
    } else {
        0
    };
    let ghost digits = text@.skip(start as int);
    if start == n {
        return None;
    }
    let mut value: u32 = 0;
    let mut i: usize = start;
    while i < n
        invariant
            start <= i <= n,
            n == text@.len(),
            text.is_ascii(),
            bytes@ == text.spec_bytes(),
            digits == text@.skip(start as int),
            digits == without_plus(text@),
            digits_only(digits.take(i - start)),
            value == decimal_value(digits.take(i - start)),
        decreases n - i,
    {
        let b = bytes[i];
        proof {
            let seen = digits.take(i - start);
            assert(digits.take(i + 1 - start) == seen.push(text@[i as int]));
            assert(seen.push(text@[i as int]).drop_last() == seen);
            lemma_decimal_value_grows(digits, i + 1 - start);
        }
        if b < DIGIT_ZERO || b > DIGIT_NINE {
            return None;
        }
        let digit = (b - DIGIT_ZERO) as u32;
        let tenfold = match value.checked_mul(10) {
            Some(t) => t,
            None => {
                return None;
            },
        };
        value = match tenfold.checked_add(digit) {
            Some(v) => v,
            None => {
                return None;
            },
        };
        i += 1;
    }
    assert(digits.take(n - start) == digits);
    Some(value)
}

impl ConfigError {
    /// The error in words.
    pub open spec fn spec_message(&self) -> Seq<char> {
        match self {
            ConfigError::MissingHost => "SFTP_HOST not set"@,
            ConfigError::MissingUser => "SFTP_USER not set"@,
            ConfigError::MissingPassword => "SFTP_PASSWORD not set"@,
            ConfigError::MissingRemotePath => "SFTP_REMOTE_PATH not set"@,
            ConfigError::InvalidRunHour => "RUN_HOUR must be a number"@,
        }
    }

    /// The error in words, for the operator.
    pub fn message(&self) -> (text: String)
        ensures
            text@ == self.spec_message(),
    {
        match self {
            ConfigError::MissingHost => "SFTP_HOST not set".to_owned(),
            ConfigError::MissingUser => "SFTP_USER not set".to_owned(),
            ConfigError::MissingPassword => "SFTP_PASSWORD not set".to_owned(),
            ConfigError::MissingRemotePath => "SFTP_REMOTE_PATH not set".to_owned(),
            ConfigError::InvalidRunHour => "RUN_HOUR must be a number".to_owned(),
        }
    }
}

impl RunConfig {
    /// Builds the configuration from what the environment holds. It fails on
    /// the first required value that is missing and on a run hour that is no
    /// number; the directory defaults to `./layers`, the run hour to "always
    /// due" and the notification endpoint to none.
    pub fn from_environment(env: Environment) -> (r: Result<RunConfig, ConfigError>)
        ensures
            match r {
                Ok(config) => resolved(env@) == Ok::<RunConfigView, ConfigError>(config@),
                Err(e) => resolved(env@) == Err::<RunConfigView, ConfigError>(e),
            },
    {
        let host = match env.host {
            Some(host) => host,
            None => {
                return Err(ConfigError::MissingHost);
            },
        };
        let user = match env.user {
            Some(user) => user,
            None => {
                return Err(ConfigError::MissingUser);
            },
        };
        let password = match env.password {
            Some(password) => password,
            None => {
                return Err(ConfigError::MissingPassword);
            },
        };
        let remote_path = match env.remote_path {
            Some(remote_path) => remote_path,
            None => {
                return Err(ConfigError::MissingRemotePath);
            },
        };
        let local_folder = match env.local_folder {
            Some(folder) => folder,
            None => {
                proof {
                    reveal_strlit("./layers");
                    assert("./layers"@ == default_folder());
                }
                "./layers".to_owned()
            },
        };
        let run_hour = match env.run_hour {
            Some(text) => match parse_run_hour(text.as_str()) {
                Some(hour) => hour,
                None => {
                    return Err(ConfigError::InvalidRunHour);
                },
            },
            None => ALWAYS_DUE,
        };
        let webhook_url = match env.webhook_url {
            Some(url) => url,
            None => String::new(),
        };
        Ok(RunConfig { host, user, password, remote_path, local_folder, run_hour, webhook_url })
    }
}

} // verus!
