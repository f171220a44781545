//! The persisted configuration and the choices made around it: where the
//! system-wide file lies, which source to take the device from, and which
//! device an operator's typed answer selects.

use vstd::prelude::*;
use vstd::string::*;

verus! {

/// The persisted settings: the identifier of the input device to record from.
#[derive(Clone, Debug, PartialEq, Eq)]
pub struct MainConfig {
    pub selected_device: Option<String>,
}

impl Default for MainConfig {
    fn default() -> (r: Self)
        ensures
            r.selected_device is None,
    {
        MainConfig { selected_device: None }
    }
}

/// Operating systems with a known system-wide configuration location.
#[derive(Clone, Copy, Debug, PartialEq, Eq)]
pub enum Platform {
    Linux,
    Windows,
    MacOs,
}

/// The system-wide configuration directory's parent, with its trailing separator.
pub open spec fn global_base(p: Platform) -> Seq<char> {
    match p {
        Platform::Linux => "/etc/"@,
        Platform::Windows => "C:\\ProgramData\\"@,
        Platform::MacOs => "/Library/Application Support/"@,
    }
}

/// The path separator.
pub open spec fn separator(p: Platform) -> Seq<char> {
    match p {
        Platform::Windows => "\\"@,
        _ => "/"@,
    }
}

/// The system-wide configuration directory of the application `app_name`.
pub fn get_global_config_path(platform: Platform, app_name: &str) -> (r: String)
    ensures
        r@ == global_base(platform) + app_name@,
{
    let base = match platform {
        Platform::Linux => "/etc/",
        Platform::Windows => "C:\\ProgramData\\",
        Platform::MacOs => "/Library/Application Support/",
    };
    proof {
        reveal_strlit("/etc/");
        reveal_strlit("C:\\ProgramData\\");
        reveal_strlit("/Library/Application Support/");
    }
    let mut r = String::from_str(base);
    r.append(app_name);
    r
}

/// The system-wide configuration file of the application `app_name`.
pub fn global_config_file(platform: Platform, app_name: &str) -> (r: String)
    ensures
        r@ == global_base(platform) + app_name@ + separator(platform) + "default-config.ron"@,
{
    let mut r = get_global_config_path(platform, app_name);
    match platform {
        Platform::Windows => {
            proof { reveal_strlit("\\"); }
            r.append("\\");
        },
        _ => {
            proof { reveal_strlit("/"); }
            r.append("/");
        },
    }
    proof { reveal_strlit("default-config.ron"); }
    r.append("default-config.ron");
    r
}

/// Where the device selection comes from.
#[derive(Clone, Copy, Debug, PartialEq, Eq)]
pub enum ConfigSource {
    /// Ask the operator and store the answer in the user's configuration.
    Interactive,
    /// The user's configuration, which names a device.
    User,
    /// The system-wide configuration file.
    Global,
}

/// Picks the configuration source: a forced re-initialization asks the
/// operator; else the user's configuration when it names a device; else the
/// system-wide file when it exists; else the operator is asked.
pub fn config_source(reinit: bool, user_has_device: bool, global_exists: bool) -> (r: ConfigSource)
    ensures
        reinit ==> r == ConfigSource::Interactive,
        !reinit && user_has_device ==> r == ConfigSource::User,
        !reinit && !user_has_device && global_exists ==> r == ConfigSource::Global,
        !reinit && !user_has_device && !global_exists ==> r == ConfigSource::Interactive,
{
    if reinit {
        ConfigSource::Interactive
    } else if user_has_device {
        ConfigSource::User
    } else if global_exists {
        ConfigSource::Global
    } else {
        ConfigSource::Interactive
    }
}

/// An ASCII decimal digit.
pub open spec fn is_digit(c: char) -> bool {
    '0' <= c && c <= '9'
}

/// Value of a string of decimal digits.
pub open spec fn digits_value(s: Seq<char>) -> int
    decreases s.len(),
{
    if s.len() == 0 {
        0
    } else {
        digits_value(s.drop_last()) * 10 + ((s.last() as u32) as int - ('0' as u32) as int)
    }
}

/// The digits after an optional leading `+`.
pub open spec fn unsigned_digits(s: Seq<char>) -> Seq<char> {
    if s.len() > 0 && s[0] == '+' { s.drop_first() } else { s }
}

/// What parsing `s` as a `usize` gives: an optional `+` followed by one or
/// more decimal digits whose value fits.
pub open spec fn parsed_usize(s: Seq<char>) -> Option<int> {
    let d = unsigned_digits(s);
    if d.len() > 0 && (forall|i: int| 0 <= i < d.len() ==> is_digit(#[trigger] d[i]))
        && digits_value(d) <= usize::MAX {
        Some(digits_value(d))
    } else {
        None
    }
}

/// Relies on `<usize as FromStr>::from_str`: an optional `+` then decimal
/// digits, with an error on anything else and on overflow.
#[verifier::external_body]
fn parse_usize(s: &str) -> (r: Option<usize>)
    ensures
        r matches Some(n) ==> parsed_usize(s@) == Some(n as int),
        r is None ==> parsed_usize(s@) is None,
{
    s.parse::<usize>().ok()
}

/// A character of the Unicode White_Space property.
pub open spec fn is_white_space(c: char) -> bool {
    let u = c as u32;
    (0x09 <= u && u <= 0x0D) || u == 0x20 || u == 0x85 || u == 0xA0 || u == 0x1680
        || (0x2000 <= u && u <= 0x200A) || u == 0x2028 || u == 0x2029 || u == 0x202F
        || u == 0x205F || u == 0x3000
}

/// `s` without its leading white space.
pub open spec fn trim_start(s: Seq<char>) -> Seq<char>
    decreases s.len(),
{
    if s.len() > 0 && is_white_space(s[0]) { trim_start(s.drop_first()) } else { s }
}

/// `s` without its trailing white space.
pub open spec fn trim_end(s: Seq<char>) -> Seq<char>
    decreases s.len(),
{
    if s.len() > 0 && is_white_space(s.last()) { trim_end(s.drop_last()) } else { s }
}

/// `s` without its leading and trailing white space.
pub open spec fn trimmed(s: Seq<char>) -> Seq<char> {
    trim_end(trim_start(s))
}

/// Relies on str::trim: leading and trailing characters of the Unicode
/// White_Space property are removed.
#[verifier::external_body]
fn trim(s: &str) -> (r: &str)
    ensures
        r@ == trimmed(s@),
{
    s.trim()
}

/// Why a typed device number was refused.
#[derive(Clone, Copy, Debug, PartialEq, Eq)]
pub enum ChoiceError {
    /// The answer is not a number.
    NotANumber,
    /// The number names no listed device (devices are numbered from 1).
    OutOfRange,
}

/// The zero-based index of the device selected by a one-based number typed
/// as `text`, among `count` listed devices.
pub open spec fn choice_of(text: Seq<char>, count: nat) -> Result<int, ChoiceError> {
    match parsed_usize(text) {
        None => Err(ChoiceError::NotANumber),
        Some(n) => if 1 <= n && n <= count {
            Ok(n - 1)
        } else {
            Err(ChoiceError::OutOfRange)
        },
    }
}

/// Reads an already trimmed answer as a one-based device number among
/// `count` devices and gives its zero-based index.
pub fn device_index(text: &str, count: usize) -> (r: Result<usize, ChoiceError>)
    ensures
        r matches Ok(i) ==> choice_of(text@, count as nat) == Ok::<int, ChoiceError>(i as int),
        r matches Err(e) ==> choice_of(text@, count as nat) == Err::<int, ChoiceError>(e),
{
    match parse_usize(text) {
        None => Err(ChoiceError::NotANumber),
        Some(n) => {
            if n >= 1 && n <= count {
                Ok(n - 1)
            } else {
                Err(ChoiceError::OutOfRange)
            }
        },
    }
}

/// Reads the operator's answer (surrounding white space ignored) as a
/// one-based device number among `count` devices.
pub fn choose_device(answer: &str, count: usize) -> (r: Result<usize, ChoiceError>)
    ensures
        r matches Ok(i) ==> choice_of(trimmed(answer@), count as nat) == Ok::<int, ChoiceError>(i as int),
        r matches Err(e) ==> choice_of(trimmed(answer@), count as nat) == Err::<int, ChoiceError>(e),
{
    device_index(trim(answer), count)
}

} // verus!
