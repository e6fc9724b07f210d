//! Typed errors for the flashing pipeline, and the one-line message each
//! one is shown with.
use vstd::prelude::*;
use crate::text::{cat, cat3, copy_strings, join, join_strings, owned};

verus! {

/// Why a board can't be flashed right now.
#[derive(Debug, Clone, Copy, PartialEq, Eq, Structural)]
pub enum RecoveryError {
    /// The board answers as a running L4T system (0955:7020).
    RunningL4t,
    /// No Jetson is on the USB bus.
    Absent,
}

/// Typed errors for the flashing pipeline. Errors raised by I/O carry the
/// text of the underlying error.
#[derive(Debug)]
pub enum Error {
    Config(String),
    Io { context: String, source: String },
    Usb(String),
    Spawn { cmd: String, source: String },
    Command { cmd: String, status: String, log: String },
    Sudo,
    /// A required input is missing (tarball, script, or unstaged rootfs).
    Missing(String),
    WifiPskMissing,
    UnknownProfile { name: String, known: Vec<String> },
    UnknownJetpack { name: String, known: Vec<String> },
    MissingSecret(String),
    Recovery(RecoveryError),
}

/// The mathematical value of an [`Error`]: its texts as character sequences.
pub enum ErrorView {
    Config(Seq<char>),
    Io { context: Seq<char>, source: Seq<char> },
    Usb(Seq<char>),
    Spawn { cmd: Seq<char>, source: Seq<char> },
    Command { cmd: Seq<char>, status: Seq<char>, log: Seq<char> },
    Sudo,
    Missing(Seq<char>),
    WifiPskMissing,
    UnknownProfile { name: Seq<char>, known: Seq<Seq<char>> },
    UnknownJetpack { name: Seq<char>, known: Seq<Seq<char>> },
    MissingSecret(Seq<char>),
    Recovery(RecoveryError),
}

impl View for Error {
    type V = ErrorView;

    open spec fn view(&self) -> ErrorView {
        match self {
            Error::Config(s) => ErrorView::Config(s@),
            Error::Io { context, source } => ErrorView::Io { context: context@, source: source@ },
            Error::Usb(s) => ErrorView::Usb(s@),
            Error::Spawn { cmd, source } => ErrorView::Spawn { cmd: cmd@, source: source@ },
            Error::Command { cmd, status, log } => ErrorView::Command {
                cmd: cmd@,
                status: status@,
                log: log@,
            },
            Error::Sudo => ErrorView::Sudo,
            Error::Missing(s) => ErrorView::Missing(s@),
            Error::WifiPskMissing => ErrorView::WifiPskMissing,
            Error::UnknownProfile { name, known } => ErrorView::UnknownProfile {
                name: name@,
                known: known.deep_view(),
            },
            Error::UnknownJetpack { name, known } => ErrorView::UnknownJetpack {
                name: name@,
                known: known.deep_view(),
            },
            Error::MissingSecret(s) => ErrorView::MissingSecret(s@),
            Error::Recovery(r) => ErrorView::Recovery(*r),
        }
    }
}

/// The message of a [`RecoveryError`].
pub open spec fn recovery_message(e: RecoveryError) -> Seq<char> {
    match e {
        RecoveryError::RunningL4t => "board is running L4T (0955:7020), not in APX recovery"@,
        RecoveryError::Absent => "no Jetson detected on USB"@,
    }
}

/// The message of an error.
pub open spec fn error_message(e: ErrorView) -> Seq<char> {
    match e {
        ErrorView::Config(s) => "config: "@ + s,
        ErrorView::Io { context, source } => context + ": "@ + source,
        ErrorView::Usb(s) => "usb: "@ + s,
        ErrorView::Spawn { cmd, source } => "failed to spawn `"@ + cmd + "`: "@ + source,
        ErrorView::Command { cmd, status, log } => "`"@ + cmd + "` exited with "@ + status
            + " (see "@ + log + ")"@,
        ErrorView::Sudo => "sudo authentication failed"@,
        ErrorView::Missing(s) => s,
        ErrorView::WifiPskMissing => "wifi ssid set but wifi psk is empty (set JETSON_NETWORK_WIFI_PSK)"@,
        ErrorView::UnknownProfile { name, known } => "unknown profile `"@ + name + "` (available: "@
            + join(known, ", "@) + ")"@,
        ErrorView::UnknownJetpack { name, known } => "unknown jetpack `"@ + name + "` (known: "@
            + join(known, ", "@) + ")"@,
        ErrorView::MissingSecret(s) => s
            + " is required — supply it via environment (e.g. JETSON_IDENTITY_PASSWORD)"@,
        ErrorView::Recovery(r) => "Jetson not ready to flash: "@ + recovery_message(r),
    }
}

impl RecoveryError {
    /// The text this error is shown with.
    pub fn message(&self) -> (r: String)
        ensures
            r@ == recovery_message(*self),
    {
        match self {
            RecoveryError::RunningL4t => owned("board is running L4T (0955:7020), not in APX recovery"),
            RecoveryError::Absent => owned("no Jetson detected on USB"),
        }
    }
}

impl Error {
    /// An identical error.
    pub fn copy(&self) -> (r: Error)
        ensures
            r@ == self@,
    {
        match self {
            Error::Config(s) => Error::Config(s.clone()),
            Error::Io { context, source } => Error::Io { context: context.clone(), source: source.clone() },
            Error::Usb(s) => Error::Usb(s.clone()),
            Error::Spawn { cmd, source } => Error::Spawn { cmd: cmd.clone(), source: source.clone() },
            Error::Command { cmd, status, log } => Error::Command {
                cmd: cmd.clone(),
                status: status.clone(),
                log: log.clone(),
            },
            Error::Sudo => Error::Sudo,
            Error::Missing(s) => Error::Missing(s.clone()),
            Error::WifiPskMissing => Error::WifiPskMissing,
            Error::UnknownProfile { name, known } => Error::UnknownProfile {
                name: name.clone(),
                known: copy_strings(known),
            },
            Error::UnknownJetpack { name, known } => Error::UnknownJetpack {
                name: name.clone(),
                known: copy_strings(known),
            },
            Error::MissingSecret(s) => Error::MissingSecret(s.clone()),
            Error::Recovery(e) => Error::Recovery(*e),
        }
    }

    /// The text this error is shown with.
    pub fn message(&self) -> (r: String)
        ensures
            r@ == error_message(self@),
    {
        match self {
            Error::Config(s) => cat("config: ", s.as_str()),
            Error::Io { context, source } => cat3(context.as_str(), ": ", source.as_str()),
            Error::Usb(s) => cat("usb: ", s.as_str()),
            Error::Spawn { cmd, source } => {
                let r = cat3("failed to spawn `", cmd.as_str(), "`: ");
                r.concat(source.as_str())
            },
            Error::Command { cmd, status, log } => {
                let r = cat3("`", cmd.as_str(), "` exited with ");
                let r = r.concat(status.as_str());
                let r = r.concat(" (see ");
                let r = r.concat(log.as_str());
                r.concat(")")
            },
            Error::Sudo => owned("sudo authentication failed"),
            Error::Missing(s) => owned(s.as_str()),
            Error::WifiPskMissing => owned(
                "wifi ssid set but wifi psk is empty (set JETSON_NETWORK_WIFI_PSK)",
            ),
            Error::UnknownProfile { name, known } => {
                let list = join_strings(known, ", ");
                let r = cat3("unknown profile `", name.as_str(), "` (available: ");
                let r = r.concat(list.as_str());
                r.concat(")")
            },
            Error::UnknownJetpack { name, known } => {
                let list = join_strings(known, ", ");
                let r = cat3("unknown jetpack `", name.as_str(), "` (known: ");
                let r = r.concat(list.as_str());
                r.concat(")")
            },
            Error::MissingSecret(s) => cat(
                s.as_str(),
                " is required — supply it via environment (e.g. JETSON_IDENTITY_PASSWORD)",
            ),
            Error::Recovery(e) => {
                let m = e.message();
                cat("Jetson not ready to flash: ", m.as_str())
            },
        }
    }
}

} // verus!
