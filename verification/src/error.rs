//! What can be wrong with a profile.

use vstd::prelude::*;

verus! {

/// A profile that breaks one of its own rules.
#[derive(Clone, Copy, Debug, PartialEq, Eq, Structural)]
pub enum ConfigError {
    /// The lowest TLS version allowed is above the highest.
    VersionRange,
    /// No curve is offered.
    EmptyCurves,
    /// A curve is offered twice.
    DuplicateCurve,
    /// No cipher suite is offered.
    EmptyCiphers,
    /// ECH GREASE is asked for, but TLS 1.3 is not allowed.
    EchGreaseWithoutTls13,
    /// A pre-shared key is asked for, but TLS 1.3 is not allowed.
    PreSharedKeyWithoutTls13,
    /// A certificate compression algorithm is advertised twice.
    DuplicateCertCompression,
    /// A name that is no cipher suite.
    UnknownCipher,
    /// A name that is no signature scheme.
    UnknownSignatureScheme,
    /// A name that is no curve.
    UnknownCurve,
    /// ALPN offers `h2`, but the profile has no HTTP/2 part.
    MissingHttp2,
    /// A SETTINGS identifier occurs twice.
    DuplicateSetting,
    /// A SETTINGS value, or a window size, is outside what HTTP/2 permits.
    SettingOutOfRange,
    /// `enable_push` disagrees with the `ENABLE_PUSH` setting.
    EnablePushMismatch,
    /// The pseudo-header order does not hold each pseudo-header once.
    PseudoHeaderOrder,
    /// The stream that header priority depends on needs more than 31 bits.
    PriorityOutOfRange,
}

/// A name that no identity in the registry has.
#[derive(Clone, Copy, Debug, PartialEq, Eq, Structural)]
pub struct BuilderError;

} // verus!
