//! Log severities, and what a host writes to its log when a plugin logs a message.

use vstd::prelude::*;
use vstd::string::StringSliceAdditionalSpecFns;

verus! {

/// The severity of a logged message, ordered from least to most severe.
#[derive(Copy, Clone, Eq, PartialEq, Ord, PartialOrd, Debug)]
pub enum LogSeverity {
    Debug,
    Info,
    Warning,
    Error,
    Fatal,
    HostMisbehaving,
    PluginMisbehaving,
}

impl LogSeverity {
    /// The raw value of a severity.
    pub open spec fn spec_to_raw(self) -> i32 {
        match self {
            LogSeverity::Debug => 0,
            LogSeverity::Info => 1,
            LogSeverity::Warning => 2,
            LogSeverity::Error => 3,
            LogSeverity::Fatal => 4,
            LogSeverity::HostMisbehaving => 5,
            LogSeverity::PluginMisbehaving => 6,
        }
    }

    /// The severity a raw value stands for, if any.
    pub open spec fn spec_from_raw(raw: i32) -> Option<LogSeverity> {
        if raw == 0 {
            Some(LogSeverity::Debug)
        } else if raw == 1 {
            Some(LogSeverity::Info)
        } else if raw == 2 {
            Some(LogSeverity::Warning)
        } else if raw == 3 {
            Some(LogSeverity::Error)
        } else if raw == 4 {
            Some(LogSeverity::Fatal)
        } else if raw == 5 {
            Some(LogSeverity::HostMisbehaving)
        } else if raw == 6 {
            Some(LogSeverity::PluginMisbehaving)
        } else {
            None
        }
    }

    /// The label of a severity.
    pub open spec fn spec_label(self) -> Seq<char> {
        match self {
            LogSeverity::Debug => "DEBUG"@,
            LogSeverity::Info => "INFO"@,
            LogSeverity::Warning => "WARN"@,
            LogSeverity::Error => "ERROR"@,
            LogSeverity::Fatal => "FATAL"@,
            LogSeverity::HostMisbehaving => "HOST_MISBEHAVING"@,
            LogSeverity::PluginMisbehaving => "PLUGIN_MISBEHAVING"@,
        }
    }

    /// Returns the severity a raw value stands for, or `None` for an unknown value.
    pub fn from_raw(raw: i32) -> (severity: Option<LogSeverity>)
        ensures
            severity == Self::spec_from_raw(raw),
            severity is Some <==> 0 <= raw <= 6,
            severity matches Some(s) ==> s.spec_to_raw() == raw,
            raw == 0 ==> severity == Some(LogSeverity::Debug),
            raw == 1 ==> severity == Some(LogSeverity::Info),
            raw == 2 ==> severity == Some(LogSeverity::Warning),
            raw == 3 ==> severity == Some(LogSeverity::Error),
            raw == 4 ==> severity == Some(LogSeverity::Fatal),
            raw == 5 ==> severity == Some(LogSeverity::HostMisbehaving),
            raw == 6 ==> severity == Some(LogSeverity::PluginMisbehaving),
    {
        if raw == 0 {
            Some(LogSeverity::Debug)
        } else if raw == 1 {
            Some(LogSeverity::Info)
        } else if raw == 2 {
            Some(LogSeverity::Warning)
        } else if raw == 3 {
            Some(LogSeverity::Error)
        } else if raw == 4 {
            Some(LogSeverity::Fatal)
        } else if raw == 5 {
            Some(LogSeverity::HostMisbehaving)
        } else if raw == 6 {
            Some(LogSeverity::PluginMisbehaving)
        } else {
            None
        }
    }

    /// Returns the raw value of this severity.
    pub fn to_raw(self) -> (raw: i32)
        ensures
            raw == self.spec_to_raw(),
    {
        match self {
            LogSeverity::Debug => 0,
            LogSeverity::Info => 1,
            LogSeverity::Warning => 2,
            LogSeverity::Error => 3,
            LogSeverity::Fatal => 4,
            LogSeverity::HostMisbehaving => 5,
            LogSeverity::PluginMisbehaving => 6,
        }
    }

    /// Returns the label of this severity, as it is displayed.
    pub fn label(&self) -> (text: &'static str)
        ensures
            text@ == self.spec_label(),
    {
        match self {
            LogSeverity::Debug => "DEBUG",
            LogSeverity::Info => "INFO",
            LogSeverity::Warning => "WARN",
            LogSeverity::Error => "ERROR",
            LogSeverity::Fatal => "FATAL",
            LogSeverity::HostMisbehaving => "HOST_MISBEHAVING",
            LogSeverity::PluginMisbehaving => "PLUGIN_MISBEHAVING",
        }
    }
}

/// A severity survives the trip through its raw value, and a known raw value survives the trip
/// through its severity.
pub proof fn lemma_log_severity_raw_roundtrip(severity: LogSeverity, raw: i32)
    ensures
        LogSeverity::spec_from_raw(severity.spec_to_raw()) == Some(severity),
        LogSeverity::spec_from_raw(raw) matches Some(s) ==> s.spec_to_raw() == raw,
{
}

/// One message that a host writes to its own log when a plugin logs something.
#[derive(Copy, Clone, Eq, PartialEq, Debug)]
pub enum HostLogEntry {
    /// The plugin's message, with the given severity.
    Message(LogSeverity),
    /// A note that the plugin's message was not valid UTF-8 and was repaired.
    InvalidUtf8,
    /// A note that the plugin used the given unknown raw severity.
    UnknownLevel(i32),
}

/// The text of the note that a plugin logged a message that was not valid UTF-8.
pub open spec fn spec_invalid_utf8_note() -> Seq<char> {
    "Plugin logged invalid UTF-8 data. Some characters may be invalid."@
}

/// Returns the text of the note that a plugin logged a message that was not valid UTF-8.
pub fn invalid_utf8_note() -> (text: &'static str)
    ensures
        text@ == spec_invalid_utf8_note(),
{
    "Plugin logged invalid UTF-8 data. Some characters may be invalid."
}

/// What a host writes to its log for one message of a plugin: the message itself, with the
/// plugin's severity or `Warning` for an unknown one; then, as plugin misbehaviour, a note if the
/// message had to be repaired, and a note if the severity was unknown.
pub open spec fn spec_host_log_entries(raw_severity: i32, message_repaired: bool) -> Seq<
    HostLogEntry,
> {
    let severity = LogSeverity::spec_from_raw(raw_severity);
    let first = seq![
        HostLogEntry::Message(
            match severity {
                Some(s) => s,
                None => LogSeverity::Warning,
            },
        ),
    ];
    let second = if message_repaired {
        seq![HostLogEntry::InvalidUtf8]
    } else {
        Seq::empty()
    };
    let third = if severity is None {
        seq![HostLogEntry::UnknownLevel(raw_severity)]
    } else {
        Seq::empty()
    };
    first + second + third
}

/// Returns what a host writes to its log for one message of a plugin, in order. The notes are
/// logged with [`LogSeverity::PluginMisbehaving`].
pub fn host_log_entries(raw_severity: i32, message_repaired: bool) -> (entries: Vec<HostLogEntry>)
    ensures
        entries@ == spec_host_log_entries(raw_severity, message_repaired),
        entries@.len() == 1 + (if message_repaired {
            1int
        } else {
            0int
        }) + (if 0 <= raw_severity <= 6 {
            0int
        } else {
            1int
        }),
        0 <= raw_severity <= 6 ==> (entries@[0] matches HostLogEntry::Message(s)
            && s.spec_to_raw() == raw_severity),
        LogSeverity::spec_from_raw(raw_severity) matches Some(s) ==> entries@[0]
            == HostLogEntry::Message(s),
        0 <= raw_severity <= 6 ==> forall|i: int|
            0 <= i < entries@.len() ==> !(#[trigger] entries@[i] is UnknownLevel),
        !(0 <= raw_severity <= 6) ==> entries@[0] == HostLogEntry::Message(LogSeverity::Warning)
            && entries@.last() == HostLogEntry::UnknownLevel(raw_severity),
        message_repaired ==> entries@[1] == HostLogEntry::InvalidUtf8,
{
    let severity = LogSeverity::from_raw(raw_severity);
    let mut entries: Vec<HostLogEntry> = Vec::new();
    let shown = match severity {
        Some(s) => s,
        None => LogSeverity::Warning,
    };
    entries.push(HostLogEntry::Message(shown));
    if message_repaired {
        entries.push(HostLogEntry::InvalidUtf8);
    }
    if severity.is_none() {
        entries.push(HostLogEntry::UnknownLevel(raw_severity));
    }
    assert(entries@ =~= spec_host_log_entries(raw_severity, message_repaired));
    entries
}

/// An error that can occur when trying to log a message.
#[derive(Copy, Clone, Eq, PartialEq, Debug)]
pub enum LogError {
    /// The message could not become a C string: it holds a nul byte at the given position.
    NulError(usize),
    /// Formatting the message failed.
    FmtError,
}

/// The host side of the log extension.
pub trait HostLogImpl {
    /// Logs a message with the given severity.
    fn log(&self, severity: LogSeverity, message: &str);
}

/// The ASCII decimal digits of a number, most significant first, without leading zeros.
pub open spec fn spec_decimal(n: nat) -> Seq<u8>
    decreases n,
{
    if n < 10 {
        seq![(48 + n) as u8]
    } else {
        spec_decimal(n / 10).push((48 + n % 10) as u8)
    }
}

/// The ASCII decimal text of a signed number: a minus sign before the digits of a negative one.
pub open spec fn spec_decimal_i32(v: i32) -> Seq<u8> {
    if v < 0 {
        seq![45u8] + spec_decimal((-v) as nat)
    } else {
        spec_decimal(v as nat)
    }
}

/// Returns the ASCII decimal digits of a number.
fn decimal_digits(n: u64) -> (digits: Vec<u8>)
    ensures
        digits@ == spec_decimal(n as nat),
    decreases n,
{
    if n < 10 {
        let mut digits: Vec<u8> = Vec::new();
        digits.push((48 + n) as u8);
        assert(digits@ =~= spec_decimal(n as nat));
        digits
    } else {
        let mut digits = decimal_digits(n / 10);
        digits.push((48 + n % 10) as u8);
        digits
    }
}

/// The text before the raw severity in the note that a plugin used an unknown severity.
pub open spec fn spec_unknown_level_prefix() -> Seq<u8> {
    "Plugin logged with unknown log level: ".spec_bytes()
}

/// Returns the note, as ASCII bytes, that a plugin logged with the given unknown raw severity.
pub fn unknown_level_note(raw_severity: i32) -> (text: Vec<u8>)
    ensures
        text@ == spec_unknown_level_prefix() + spec_decimal_i32(raw_severity),
{
    let prefix = "Plugin logged with unknown log level: ".as_bytes();
    let mut text: Vec<u8> = Vec::new();
    let mut i: usize = 0;
    while i < prefix.len()
        invariant
            i <= prefix@.len(),
            prefix@ == spec_unknown_level_prefix(),
            text@ == prefix@.take(i as int),
        decreases prefix@.len() - i,
    {
        text.push(prefix[i]);
        i = i + 1;
        assert(text@ =~= prefix@.take(i as int));
    }
    assert(text@ =~= spec_unknown_level_prefix());
    let magnitude: u64 = if raw_severity < 0 {
        (-(raw_severity as i64)) as u64
    } else {
        raw_severity as u64
    };
    if raw_severity < 0 {
        text.push(45u8);
    }
    let digits = decimal_digits(magnitude);
    let ghost before = text@;
    let mut j: usize = 0;
    while j < digits.len()
        invariant
            j <= digits@.len(),
            text@ == before + digits@.take(j as int),
        decreases digits@.len() - j,
    {
        text.push(digits[j]);
        j = j + 1;
        assert(text@ =~= before + digits@.take(j as int));
    }
    assert(digits@.take(digits@.len() as int) =~= digits@);
    assert(text@ =~= spec_unknown_level_prefix() + spec_decimal_i32(raw_severity));
    text
}

/// A message with a known raw severity (any of zero to six) is logged with the severity of that
/// raw value, and no note of an unknown level follows it.
pub proof fn lemma_known_severity_logged_as_is(raw_severity: i32, message_repaired: bool)
    requires
        0 <= raw_severity <= 6,
    ensures
        spec_host_log_entries(raw_severity, message_repaired)[0] matches HostLogEntry::Message(s)
            && s.spec_to_raw() == raw_severity,
        spec_host_log_entries(raw_severity, message_repaired)[0] == HostLogEntry::Message(
            LogSeverity::spec_from_raw(raw_severity).unwrap(),
        ),
        forall|i: int|
            0 <= i < spec_host_log_entries(raw_severity, message_repaired).len() ==> !(
            #[trigger] spec_host_log_entries(raw_severity, message_repaired)[i] is UnknownLevel),
{
    let e = spec_host_log_entries(raw_severity, message_repaired);
    assert forall|i: int| 0 <= i < e.len() implies !(#[trigger] e[i] is UnknownLevel) by {
        if message_repaired && i == 1 {
            assert(e[i] == HostLogEntry::InvalidUtf8);
        }
    }
}

/// A message with an unknown raw severity is logged as a warning, and the last note names the
/// raw severity.
pub proof fn lemma_unknown_severity_noted(raw_severity: i32, message_repaired: bool)
    requires
        !(0 <= raw_severity <= 6),
    ensures
        spec_host_log_entries(raw_severity, message_repaired)[0] == HostLogEntry::Message(
            LogSeverity::Warning,
        ),
        spec_host_log_entries(raw_severity, message_repaired).last() == HostLogEntry::UnknownLevel(
            raw_severity,
        ),
{
}

} // verus!
