//! The composed profile: TLS, HTTP/2 and headers of one browser build, and
//! what the rest of a client takes from it.

use vstd::prelude::*;
use crate::connector::{build_connector_factory, ConnectorFactory};
use crate::error::ConfigError;
use crate::headers::{compose_headers, composed, fields_of, names_of, Header, HeaderProfile, HeaderProfileView};
use crate::http2_frames::{header_block, pseudo_fields};
use crate::http2::{apply_http2, connection_prelude, http2_error, Http2Profile, Http2ProfileView};
use crate::tls::{apply_overrides, tls_error, TlsOverrides, TlsProfile, TlsProfileView};

verus! {

/// A composed profile as the contracts see it.
pub struct ImpersonateProfileView {
    pub tls: TlsProfileView,
    pub http2: Option<Http2ProfileView>,
    pub headers: HeaderProfileView,
}

/// The first rule that a composed profile breaks, if it breaks any: a rule
/// of its TLS part, the rule that a profile which offers `h2` has an HTTP/2
/// part, or a rule of that part.
pub open spec fn profile_error(profile: ImpersonateProfileView) -> Option<ConfigError> {
    if tls_error(profile.tls) is Some {
        tls_error(profile.tls)
    } else {
        match profile.http2 {
            Some(http2) => http2_error(http2),
            None => if profile.tls.alpn.includes_h2() {
                Some(ConfigError::MissingHttp2)
            } else {
                None
            },
        }
    }
}

/// The TLS, HTTP/2 and header profile of one browser build. Every value of
/// this type keeps the rules of its parts, and none can be changed: what a
/// client needs in another form, it builds anew.
#[derive(Debug)]
pub struct ImpersonateProfile {
    tls: TlsProfile,
    http2: Option<Http2Profile>,
    headers: HeaderProfile,
}

/// The view of an HTTP/2 part that may be missing.
pub open spec fn http2_view(http2: Option<Http2Profile>) -> Option<Http2ProfileView> {
    match http2 {
        Some(h) => Some(h@),
        None => None,
    }
}

impl View for ImpersonateProfile {
    type V = ImpersonateProfileView;

    closed spec fn view(&self) -> ImpersonateProfileView {
        ImpersonateProfileView {
            tls: self.tls@,
            http2: http2_view(self.http2),
            headers: self.headers@,
        }
    }
}

impl ImpersonateProfile {
    #[verifier::type_invariant]
    spec fn consistent(self) -> bool {
        profile_error(self@) is None
    }

    /// The profile made of the given parts; the first rule that the parts
    /// break where they break one.
    pub fn compose(tls: TlsProfile, http2: Option<Http2Profile>, headers: HeaderProfile) -> (result:
        Result<ImpersonateProfile, ConfigError>)
        ensures
            match result {
                Ok(profile) => profile@ == (ImpersonateProfileView {
                    tls: tls@,
                    http2: http2_view(http2),
                    headers: headers@,
                }) && profile_error(profile@) is None,
                Err(e) => profile_error(
                    ImpersonateProfileView { tls: tls@, http2: http2_view(http2), headers: headers@ },
                ) == Some(e),
            },
    {
        match tls.validate() {
            Err(e) => {
                return Err(e);
            },
            Ok(_) => {},
        }
        match &http2 {
            Some(h) => {
                match h.validate() {
                    Err(e) => {
                        return Err(e);
                    },
                    Ok(_) => {},
                }
            },
            None => {
                if tls.alpn().offers_h2() {
                    return Err(ConfigError::MissingHttp2);
                }
            },
        }
        Ok(ImpersonateProfile { tls, http2, headers })
    }

    /// The TLS part.
    pub fn tls(&self) -> (tls: &TlsProfile)
        ensures
            tls@ == self@.tls,
            tls_error(tls@) is None,
    {
        proof {
            use_type_invariant(self);
        }
        &self.tls
    }

    /// The HTTP/2 part, where the profile has one.
    pub fn http2(&self) -> (http2: Option<&Http2Profile>)
        ensures
            match http2 {
                Some(h) => self@.http2 == Some(h@) && http2_error(h@) is None,
                None => self@.http2 is None,
            },
    {
        proof {
            use_type_invariant(self);
        }
        match &self.http2 {
            Some(h) => Some(h),
            None => None,
        }
    }

    /// The header part.
    pub fn headers(&self) -> (headers: &HeaderProfile)
        ensures
            headers@ == self@.headers,
    {
        &self.headers
    }

    /// A copy of this profile.
    pub fn duplicate(&self) -> (profile: ImpersonateProfile)
        ensures
            profile@ == self@,
    {
        proof {
            use_type_invariant(self);
        }
        let http2 = match &self.http2 {
            Some(h) => Some(h.duplicate()),
            None => None,
        };
        ImpersonateProfile {
            tls: self.tls.duplicate(),
            http2,
            headers: self.headers.duplicate(),
        }
    }

    /// The connector factory of this profile. A composed profile keeps the
    /// rules, so there always is one.
    pub fn connector_factory(&self) -> (factory: ConnectorFactory)
        ensures
            factory@ == self@.tls,
    {
        proof {
            use_type_invariant(self);
        }
        match build_connector_factory(&self.tls) {
            Ok(factory) => factory,
            Err(_) => {
                assert(false);
                vstd::pervasive::unreached()
            },
        }
    }

    /// The bytes that open an HTTP/2 connection under this profile; `None`
    /// where the profile has no HTTP/2 part.
    pub fn http2_prelude(&self) -> (bytes: Option<Vec<u8>>)
        ensures
            match bytes {
                Some(b) => self@.http2 is Some && b@ == connection_prelude(self@.http2->0),
                None => self@.http2 is None,
            },
    {
        proof {
            use_type_invariant(self);
        }
        match &self.http2 {
            Some(h) => {
                match apply_http2(h) {
                    Ok(bytes) => Some(bytes),
                    Err(_) => {
                        assert(false);
                        vstd::pervasive::unreached()
                    },
                }
            },
            None => None,
        }
    }

    /// The header block of a request on an HTTP/2 connection under this
    /// profile: the pseudo-headers in the profile's order, then the headers
    /// of the request as `request_headers` orders them; `None` where the
    /// profile has no HTTP/2 part.
    pub fn request_block(
        &self,
        method: &[u8],
        scheme: &[u8],
        authority: &[u8],
        path: &[u8],
        caller_headers: &Vec<Header>,
    ) -> (block: Option<Vec<Header>>)
        ensures
            match block {
                Some(b) => self@.http2 is Some && fields_of(b@) == pseudo_fields(
                    self@.http2->0.pseudo_header_order,
                    method@,
                    scheme@,
                    authority@,
                    path@,
                ) + composed(
                    self@.headers.defaults,
                    self@.headers.order,
                    fields_of(caller_headers@),
                ),
                None => self@.http2 is None,
            },
    {
        match &self.http2 {
            Some(h) => {
                let regular = compose_headers(&self.headers, caller_headers);
                Some(header_block(h, method, scheme, authority, path, &regular))
            },
            None => None,
        }
    }

    /// The headers of a request as they go on the wire under this profile.
    pub fn request_headers(&self, caller_headers: &Vec<Header>) -> (out: Vec<Header>)
        ensures
            fields_of(out@) == composed(
                self@.headers.defaults,
                self@.headers.order,
                fields_of(caller_headers@),
            ),
    {
        compose_headers(&self.headers, caller_headers)
    }
}

/// What a client may replace in a profile when it builds one.
#[derive(Debug)]
pub struct ProfileOverrides {
    /// Replaces the header order.
    pub headers_order: Option<Vec<Vec<u8>>>,
    /// Replaces fields of the TLS part.
    pub tls: TlsOverrides,
}

impl ProfileOverrides {
    /// `profile` with the parts replaced that these overrides name.
    pub open spec fn applied_to(&self, profile: ImpersonateProfileView) -> ImpersonateProfileView {
        ImpersonateProfileView {
            tls: self.tls.applied_to(profile.tls),
            http2: profile.http2,
            headers: HeaderProfileView {
                defaults: profile.headers.defaults,
                order: match self.headers_order {
                    Some(order) => names_of(order@),
                    None => profile.headers.order,
                },
            },
        }
    }
}

/// A new profile: `base` with the parts replaced that `overrides` names,
/// where what comes of it keeps the rules; the first rule it breaks
/// otherwise. `base` stays as it is.
pub fn build_profile(base: &ImpersonateProfile, overrides: ProfileOverrides) -> (result: Result<
    ImpersonateProfile,
    ConfigError,
>)
    ensures
        match result {
            Ok(profile) => profile@ == overrides.applied_to(base@) && profile_error(profile@)
                is None,
            Err(e) => profile_error(overrides.applied_to(base@)) == Some(e),
        },
{
    let tls = apply_overrides(&base.tls, &overrides.tls);
    let http2 = match &base.http2 {
        Some(h) => Some(h.duplicate()),
        None => None,
    };
    let headers = match overrides.headers_order {
        Some(order) => base.headers.with_order(order),
        None => base.headers.duplicate(),
    };
    ImpersonateProfile::compose(tls, http2, headers)
}

} // verus!
