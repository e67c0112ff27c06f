//! The TLS profile: what one ClientHello offers, and in which order.

use vstd::prelude::*;
use crate::error::ConfigError;
use crate::wire::{CertCompressionAlgorithm, CipherSuite, Curve, SignatureScheme, TlsVersion};

verus! {

/// Which protocols ALPN offers, and in which order.
#[derive(Clone, Copy, Debug, PartialEq, Eq, Structural)]
pub enum Alpn {
    /// ALPN is not sent.
    Disabled,
    /// `h2` only.
    H2,
    /// `http/1.1` only.
    Http11,
    /// `h2`, then `http/1.1`.
    H2ThenHttp11,
    /// `http/1.1`, then `h2`.
    Http11ThenH2,
}

impl Alpn {
    /// Whether `h2` is offered.
    pub open spec fn includes_h2(self) -> bool {
        self == Alpn::H2 || self == Alpn::H2ThenHttp11 || self == Alpn::Http11ThenH2
    }

    /// Whether `h2` is offered.
    pub fn offers_h2(self) -> (yes: bool)
        ensures
            yes == self.includes_h2(),
    {
        match self {
            Alpn::H2 => true,
            Alpn::H2ThenHttp11 => true,
            Alpn::Http11ThenH2 => true,
            _ => false,
        }
    }
}

/// The switches of a TLS profile.
#[derive(Clone, Copy, Debug, PartialEq, Eq, Structural)]
pub struct TlsToggles {
    /// Send the server's name.
    pub sni: bool,
    /// Put GREASE values into the lists.
    pub grease: bool,
    /// Send an ECH extension with dummy contents.
    pub ech_grease: bool,
    /// Offer a pre-shared key where a session is cached.
    pub pre_shared_key: bool,
    /// Advertise application settings (ALPS) for `h2`.
    pub application_settings: bool,
    /// Ask for a stapled OCSP response.
    pub ocsp_stapling: bool,
    /// Ask for signed certificate timestamps.
    pub signed_cert_timestamps: bool,
    /// Offer session tickets.
    pub session_ticket: bool,
    /// Let the engine shuffle the extensions that may be shuffled.
    pub permute_extensions: bool,
}

/// A TLS profile while it can still be changed.
#[derive(Debug)]
pub struct TlsConfig {
    pub min_version: TlsVersion,
    pub max_version: TlsVersion,
    /// The curves of `supported_groups`, in wire order.
    pub curves: Vec<Curve>,
    /// The schemes of `signature_algorithms`, in wire order.
    pub sigalgs: Vec<SignatureScheme>,
    /// The cipher suites, in wire order.
    pub ciphers: Vec<CipherSuite>,
    pub alpn: Alpn,
    pub toggles: TlsToggles,
    /// The algorithms of `compress_certificate`, in wire order.
    pub cert_compression_algs: Vec<CertCompressionAlgorithm>,
}

/// A TLS profile as the contracts see it.
pub struct TlsProfileView {
    pub min_version: TlsVersion,
    pub max_version: TlsVersion,
    pub curves: Seq<Curve>,
    pub sigalgs: Seq<SignatureScheme>,
    pub ciphers: Seq<CipherSuite>,
    pub alpn: Alpn,
    pub toggles: TlsToggles,
    pub cert_compression_algs: Seq<CertCompressionAlgorithm>,
}

impl View for TlsConfig {
    type V = TlsProfileView;

    open spec fn view(&self) -> TlsProfileView {
        TlsProfileView {
            min_version: self.min_version,
            max_version: self.max_version,
            curves: self.curves@,
            sigalgs: self.sigalgs@,
            ciphers: self.ciphers@,
            alpn: self.alpn,
            toggles: self.toggles,
            cert_compression_algs: self.cert_compression_algs@,
        }
    }
}

/// The TLS part of a profile. It cannot be changed; `apply_overrides` makes
/// another one from it.
#[derive(Debug)]
pub struct TlsProfile {
    config: TlsConfig,
}

impl View for TlsProfile {
    type V = TlsProfileView;

    closed spec fn view(&self) -> TlsProfileView {
        self.config@
    }
}

/// Whether no value occurs twice.
pub open spec fn no_repeats<T>(items: Seq<T>) -> bool {
    forall|i: int, j: int| 0 <= i < j < items.len() ==> #[trigger] items[i] != #[trigger] items[j]
}

/// The first rule that a TLS profile breaks, if it breaks any.
pub open spec fn tls_error(profile: TlsProfileView) -> Option<ConfigError> {
    if !profile.min_version.at_most(profile.max_version) {
        Some(ConfigError::VersionRange)
    } else if profile.curves.len() == 0 {
        Some(ConfigError::EmptyCurves)
    } else if !no_repeats(profile.curves) {
        Some(ConfigError::DuplicateCurve)
    } else if profile.ciphers.len() == 0 {
        Some(ConfigError::EmptyCiphers)
    } else if profile.toggles.ech_grease && profile.max_version != TlsVersion::Tls13 {
        Some(ConfigError::EchGreaseWithoutTls13)
    } else if profile.toggles.pre_shared_key && profile.max_version != TlsVersion::Tls13 {
        Some(ConfigError::PreSharedKeyWithoutTls13)
    } else if !no_repeats(profile.cert_compression_algs) {
        Some(ConfigError::DuplicateCertCompression)
    } else {
        None
    }
}

/// What to replace in a TLS profile. A field that is `None` leaves the
/// profile's value as it is.
#[derive(Debug)]
pub struct TlsOverrides {
    pub curves: Option<Vec<Curve>>,
    pub min_version: Option<TlsVersion>,
    pub max_version: Option<TlsVersion>,
    pub sni: Option<bool>,
    pub grease: Option<bool>,
    pub ech_grease: Option<bool>,
    pub pre_shared_key: Option<bool>,
    pub application_settings: Option<bool>,
    pub ocsp_stapling: Option<bool>,
    pub signed_cert_timestamps: Option<bool>,
    pub session_ticket: Option<bool>,
    pub permute_extensions: Option<bool>,
}

/// `replacement` where there is one, `current` otherwise.
pub open spec fn replaced<T>(current: T, replacement: Option<T>) -> T {
    match replacement {
        Some(v) => v,
        None => current,
    }
}

impl TlsOverrides {
    /// `profile` with the fields replaced that these overrides name.
    pub open spec fn applied_to(&self, profile: TlsProfileView) -> TlsProfileView {
        TlsProfileView {
            min_version: replaced(profile.min_version, self.min_version),
            max_version: replaced(profile.max_version, self.max_version),
            curves: match self.curves {
                Some(curves) => curves@,
                None => profile.curves,
            },
            sigalgs: profile.sigalgs,
            ciphers: profile.ciphers,
            alpn: profile.alpn,
            toggles: TlsToggles {
                sni: replaced(profile.toggles.sni, self.sni),
                grease: replaced(profile.toggles.grease, self.grease),
                ech_grease: replaced(profile.toggles.ech_grease, self.ech_grease),
                pre_shared_key: replaced(profile.toggles.pre_shared_key, self.pre_shared_key),
                application_settings: replaced(
                    profile.toggles.application_settings,
                    self.application_settings,
                ),
                ocsp_stapling: replaced(profile.toggles.ocsp_stapling, self.ocsp_stapling),
                signed_cert_timestamps: replaced(
                    profile.toggles.signed_cert_timestamps,
                    self.signed_cert_timestamps,
                ),
                session_ticket: replaced(profile.toggles.session_ticket, self.session_ticket),
                permute_extensions: replaced(
                    profile.toggles.permute_extensions,
                    self.permute_extensions,
                ),
            },
            cert_compression_algs: profile.cert_compression_algs,
        }
    }

    /// Overrides that replace nothing: every field is `None`, so that a
    /// profile they are applied to comes out as it went in.
    pub fn none() -> (overrides: TlsOverrides)
        ensures
            overrides.curves is None,
            overrides.min_version is None,
            overrides.max_version is None,
            overrides.sni is None,
            overrides.grease is None,
            overrides.ech_grease is None,
            overrides.pre_shared_key is None,
            overrides.application_settings is None,
            overrides.ocsp_stapling is None,
            overrides.signed_cert_timestamps is None,
            overrides.session_ticket is None,
            overrides.permute_extensions is None,
            forall|profile: TlsProfileView| #[trigger] overrides.applied_to(profile) == profile,
    {
        TlsOverrides {
            curves: None,
            min_version: None,
            max_version: None,
            sni: None,
            grease: None,
            ech_grease: None,
            pre_shared_key: None,
            application_settings: None,
            ocsp_stapling: None,
            signed_cert_timestamps: None,
            session_ticket: None,
            permute_extensions: None,
        }
    }
}

/// `replacement` where there is one, `current` otherwise.
pub fn pick<T: Copy>(current: T, replacement: Option<T>) -> (value: T)
    ensures
        value == replaced(current, replacement),
{
    match replacement {
        Some(v) => v,
        None => current,
    }
}

/// A copy of a list of plain values.
pub fn copy_list<T: Copy>(items: &Vec<T>) -> (out: Vec<T>)
    ensures
        out@ == items@,
{
    let mut out: Vec<T> = Vec::new();
    let mut i: usize = 0;
    while i < items.len()
        invariant
            i <= items@.len(),
            out@ == items@.take(i as int),
        decreases items@.len() - i,
    {
        out.push(items[i]);
        assert(out@ =~= items@.take(i + 1));
        i += 1;
    }
    assert(items@.take(i as int) =~= items@);
    out
}

/// Whether no value of the list occurs twice. `same` tells whether two
/// values are equal.
fn all_distinct<T: Copy, F: Fn(T, T) -> bool>(items: &Vec<T>, same: F) -> (ok: bool)
    requires
        forall|a: T, b: T| call_requires(same, (a, b)),
        forall|a: T, b: T, r: bool| call_ensures(same, (a, b), r) ==> r == (a == b),
    ensures
        ok == no_repeats(items@),
{
    let mut j: usize = 0;
    while j < items.len()
        invariant
            j <= items@.len(),
            forall|a: T, b: T| call_requires(same, (a, b)),
            forall|a: T, b: T, r: bool| call_ensures(same, (a, b), r) ==> r == (a == b),
            forall|a: int, b: int| 0 <= a < b < j ==> #[trigger] items@[a] != #[trigger] items@[b],
        decreases items@.len() - j,
    {
        let mut i: usize = 0;
        while i < j
            invariant
                i <= j < items@.len(),
                forall|a: T, b: T| call_requires(same, (a, b)),
                forall|a: T, b: T, r: bool| call_ensures(same, (a, b), r) ==> r == (a == b),
                forall|a: int| 0 <= a < i ==> #[trigger] items@[a] != items@[j as int],
            decreases j - i,
        {
            if same(items[i], items[j]) {
                return false;
            }
            i += 1;
        }
        j += 1;
    }
    true
}

fn same_curve(a: Curve, b: Curve) -> (same: bool)
    ensures
        same == (a == b),
{
    a == b
}

fn same_algorithm(a: CertCompressionAlgorithm, b: CertCompressionAlgorithm) -> (same: bool)
    ensures
        same == (a == b),
{
    a == b
}

impl TlsProfile {
    /// The profile that `config` describes, from now on unchangeable.
    pub fn new(config: TlsConfig) -> (profile: TlsProfile)
        ensures
            profile@ == config@,
    {
        TlsProfile { config }
    }

    /// The lowest protocol version that is allowed.
    pub fn min_version(&self) -> (v: TlsVersion)
        ensures
            v == self@.min_version,
    {
        self.config.min_version
    }

    /// The highest protocol version that is allowed.
    pub fn max_version(&self) -> (v: TlsVersion)
        ensures
            v == self@.max_version,
    {
        self.config.max_version
    }

    /// The curves of `supported_groups`, in wire order.
    pub fn curves(&self) -> (out: Vec<Curve>)
        ensures
            out@ == self@.curves,
    {
        copy_list(&self.config.curves)
    }

    /// The schemes of `signature_algorithms`, in wire order.
    pub fn sigalgs(&self) -> (out: Vec<SignatureScheme>)
        ensures
            out@ == self@.sigalgs,
    {
        copy_list(&self.config.sigalgs)
    }

    /// The cipher suites, in wire order.
    pub fn ciphers(&self) -> (out: Vec<CipherSuite>)
        ensures
            out@ == self@.ciphers,
    {
        copy_list(&self.config.ciphers)
    }

    /// Which protocols ALPN offers.
    pub fn alpn(&self) -> (alpn: Alpn)
        ensures
            alpn == self@.alpn,
    {
        self.config.alpn
    }

    /// The switches.
    pub fn toggles(&self) -> (toggles: TlsToggles)
        ensures
            toggles == self@.toggles,
    {
        self.config.toggles
    }

    /// The algorithms of `compress_certificate`, in wire order.
    pub fn cert_compression_algs(&self) -> (out: Vec<CertCompressionAlgorithm>)
        ensures
            out@ == self@.cert_compression_algs,
    {
        copy_list(&self.config.cert_compression_algs)
    }

    /// A copy of this profile.
    pub fn duplicate(&self) -> (profile: TlsProfile)
        ensures
            profile@ == self@,
    {
        TlsProfile {
            config: TlsConfig {
                min_version: self.config.min_version,
                max_version: self.config.max_version,
                curves: copy_list(&self.config.curves),
                sigalgs: copy_list(&self.config.sigalgs),
                ciphers: copy_list(&self.config.ciphers),
                alpn: self.config.alpn,
                toggles: self.config.toggles,
                cert_compression_algs: copy_list(&self.config.cert_compression_algs),
            },
        }
    }

    /// Whether the profile keeps its rules, and the first rule it breaks
    /// where it does not.
    pub fn validate(&self) -> (result: Result<(), ConfigError>)
        ensures
            match result {
                Ok(_) => tls_error(self@) is None,
                Err(e) => tls_error(self@) == Some(e),
            },
    {
        let c = &self.config;
        if !c.min_version.is_at_most(c.max_version) {
            Err(ConfigError::VersionRange)
        } else if c.curves.len() == 0 {
            Err(ConfigError::EmptyCurves)
        } else if !all_distinct(&c.curves, same_curve) {
            Err(ConfigError::DuplicateCurve)
        } else if c.ciphers.len() == 0 {
            Err(ConfigError::EmptyCiphers)
        } else if c.toggles.ech_grease && c.max_version != TlsVersion::Tls13 {
            Err(ConfigError::EchGreaseWithoutTls13)
        } else if c.toggles.pre_shared_key && c.max_version != TlsVersion::Tls13 {
            Err(ConfigError::PreSharedKeyWithoutTls13)
        } else if !all_distinct(&c.cert_compression_algs, same_algorithm) {
            Err(ConfigError::DuplicateCertCompression)
        } else {
            Ok(())
        }
    }
}

/// A new profile: `profile` with the fields replaced that `overrides` names.
/// `profile` itself stays as it is.
pub fn apply_overrides(profile: &TlsProfile, overrides: &TlsOverrides) -> (changed: TlsProfile)
    ensures
        changed@ == overrides.applied_to(profile@),
{
    let c = &profile.config;
    let curves = match &overrides.curves {
        Some(curves) => copy_list(curves),
        None => copy_list(&c.curves),
    };
    let t = c.toggles;
    TlsProfile {
        config: TlsConfig {
            min_version: pick(c.min_version, overrides.min_version),
            max_version: pick(c.max_version, overrides.max_version),
            curves,
            sigalgs: copy_list(&c.sigalgs),
            ciphers: copy_list(&c.ciphers),
            alpn: c.alpn,
            toggles: TlsToggles {
                sni: pick(t.sni, overrides.sni),
                grease: pick(t.grease, overrides.grease),
                ech_grease: pick(t.ech_grease, overrides.ech_grease),
                pre_shared_key: pick(t.pre_shared_key, overrides.pre_shared_key),
                application_settings: pick(t.application_settings, overrides.application_settings),
                ocsp_stapling: pick(t.ocsp_stapling, overrides.ocsp_stapling),
                signed_cert_timestamps: pick(
                    t.signed_cert_timestamps,
                    overrides.signed_cert_timestamps,
                ),
                session_ticket: pick(t.session_ticket, overrides.session_ticket),
                permute_extensions: pick(t.permute_extensions, overrides.permute_extensions),
            },
            cert_compression_algs: copy_list(&c.cert_compression_algs),
        },
    }
}

} // verus!
