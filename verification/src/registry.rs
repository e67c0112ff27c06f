//! The registry: the browser builds that can be impersonated, by name, and
//! the profile of each.

use vstd::prelude::*;
use crate::connector::engine_directives;
use crate::error::BuilderError;
use crate::hello::extension_block;
use crate::http2::connection_prelude;
use crate::profile::{profile_error, ImpersonateProfile, ImpersonateProfileView};
use crate::text::str_eq;

verus! {

/// A browser build that can be impersonated.
#[derive(Clone, Copy, Debug, PartialEq, Eq, Structural)]
pub enum Impersonate {
    Chrome130,
    Safari17_2_1,
}

/// The profile that the registry has for each identity.
pub open spec fn template(identity: Impersonate) -> ImpersonateProfileView {
    match identity {
        Impersonate::Chrome130 => crate::chrome::v130::settings_view(),
        Impersonate::Safari17_2_1 => crate::safari::safari17_2_1::settings_view(),
    }
}

impl Impersonate {
    /// The identity's name.
    pub open spec fn spec_name(self) -> Seq<char> {
        match self {
            Impersonate::Chrome130 => "chrome_130"@,
            Impersonate::Safari17_2_1 => "safari_17.2.1"@,
        }
    }

    /// The identity's name.
    pub fn name(self) -> (text: &'static str)
        ensures
            text@ == self.spec_name(),
    {
        match self {
            Impersonate::Chrome130 => "chrome_130",
            Impersonate::Safari17_2_1 => "safari_17.2.1",
        }
    }

    /// The identity of the given name; an error where the registry has none
    /// of that name.
    pub fn from_name(text: &str) -> (found: Result<Impersonate, BuilderError>)
        ensures
            match found {
                Ok(identity) => identity.spec_name() == text@,
                Err(_) => forall|identity: Impersonate| #[trigger] identity.spec_name() != text@,
            },
    {
        if str_eq(text, "chrome_130") {
            Ok(Impersonate::Chrome130)
        } else if str_eq(text, "safari_17.2.1") {
            Ok(Impersonate::Safari17_2_1)
        } else {
            Err(BuilderError)
        }
    }

    /// No two identities share a name.
    pub proof fn lemma_name_distinct(a: Impersonate, b: Impersonate)
        requires
            a.spec_name() == b.spec_name(),
        ensures
            a == b,
    {
        reveal_strlit("chrome_130");
        reveal_strlit("safari_17.2.1");
        let x = a.spec_name();
        let y = b.spec_name();
        assert(x.len() == y.len());
        assert(x[0] == y[0]);
    }
}

/// The profile of an identity. Every identity has one, and every call gives
/// the same.
pub fn resolve(identity: Impersonate) -> (profile: ImpersonateProfile)
    ensures
        profile@ == template(identity),
{
    let made = match identity {
        Impersonate::Chrome130 => crate::chrome::v130::get_settings(),
        Impersonate::Safari17_2_1 => crate::safari::safari17_2_1::profile(),
    };
    match made {
        Ok(profile) => profile,
        Err(_) => {
            assert(false);
            vstd::pervasive::unreached()
        },
    }
}

/// Every profile of the registry keeps the rules of a profile.
pub proof fn lemma_every_template_is_consistent(identity: Impersonate)
    ensures
        profile_error(template(identity)) is None,
{
    crate::chrome::v130::lemma_settings_consistent();
    crate::safari::safari17_2_1::lemma_settings_consistent();
}

/// Resolving is deterministic. Two profiles that the registry gives for one
/// identity agree in everything that reaches the wire: the cipher suites,
/// curves and signature schemes and their order, the switches of the TLS
/// part, the HTTP/2 settings and their order, the order of the
/// pseudo-headers, and the default headers and their order.
pub proof fn lemma_resolve_is_deterministic(
    identity: Impersonate,
    first: ImpersonateProfileView,
    second: ImpersonateProfileView,
)
    requires
        first == template(identity),
        second == template(identity),
    ensures
        first.tls.ciphers == second.tls.ciphers,
        first.tls.curves == second.tls.curves,
        first.tls.sigalgs == second.tls.sigalgs,
        first.tls.toggles == second.tls.toggles,
        forall|session_cached: bool, padding: bool| #[trigger]
            extension_block(first.tls, session_cached, padding) == extension_block(
                second.tls,
                session_cached,
                padding,
            ),
        engine_directives(first.tls) == engine_directives(second.tls),
        first.http2 is Some,
        second.http2 is Some,
        first.http2->0.settings == second.http2->0.settings,
        first.http2->0.pseudo_header_order == second.http2->0.pseudo_header_order,
        connection_prelude(first.http2->0) == connection_prelude(second.http2->0),
        first.headers.defaults == second.headers.defaults,
        first.headers.order == second.headers.order,
        first == second,
{
}

} // verus!
