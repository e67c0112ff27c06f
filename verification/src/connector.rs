//! The connector factory: a TLS profile that was found consistent, and the
//! calls by which a TLS engine is set up for each new connection.

use vstd::prelude::*;
use vstd::string::*;
use crate::error::ConfigError;
use crate::hello::{alpn_protocols, alpn_wire, h2_entry, present};
use crate::text::{free_of, joined, lemma_split_joined, split};
use crate::tls::{tls_error, Alpn, TlsProfile, TlsProfileView};
use crate::wire::{CertCompressionAlgorithm, CipherSuite, Curve, SignatureScheme, TlsVersion};

verus! {

/// One call on the TLS engine's context builder.
#[derive(Debug)]
pub enum EngineDirective {
    /// Switch GREASE on or off.
    SetGreaseEnabled(bool),
    /// Ask for a stapled OCSP response.
    EnableOcspStapling,
    /// Set the curves, in wire order.
    SetCurves(Vec<Curve>),
    /// Set the signature schemes: their names, joined by colons.
    SetSigalgsList(String),
    /// Set the cipher suites: their names, joined by colons.
    SetCipherList(String),
    /// Ask for signed certificate timestamps.
    EnableSignedCertTimestamps,
    /// Set the lowest protocol version.
    SetMinProtoVersion(TlsVersion),
    /// Set the highest protocol version.
    SetMaxProtoVersion(TlsVersion),
    /// Let the engine shuffle extensions, or not.
    SetPermuteExtensions(bool),
    /// Advertise one more certificate compression algorithm.
    AddCertCompression(CertCompressionAlgorithm),
    /// Offer no session ticket.
    DisableSessionTickets,
    /// Set the ALPN protocol list, in wire form.
    SetAlpnProtos(Vec<u8>),
    /// Advertise application settings for the protocol of this name.
    AddApplicationSettings(Vec<u8>),
    /// Send an ECH extension with dummy contents.
    EnableEchGrease,
    /// Do not send the server's name.
    DisableServerName,
    /// Offer a cached session as a pre-shared key where there is one.
    OfferPreSharedKey,
}

/// An engine call as the contracts see it.
pub enum Directive {
    SetGreaseEnabled(bool),
    EnableOcspStapling,
    SetCurves(Seq<Curve>),
    SetSigalgsList(Seq<char>),
    SetCipherList(Seq<char>),
    EnableSignedCertTimestamps,
    SetMinProtoVersion(TlsVersion),
    SetMaxProtoVersion(TlsVersion),
    SetPermuteExtensions(bool),
    AddCertCompression(CertCompressionAlgorithm),
    DisableSessionTickets,
    SetAlpnProtos(Seq<u8>),
    AddApplicationSettings(Seq<u8>),
    EnableEchGrease,
    DisableServerName,
    OfferPreSharedKey,
}

impl View for EngineDirective {
    type V = Directive;

    open spec fn view(&self) -> Directive {
        match self {
            EngineDirective::SetGreaseEnabled(on) => Directive::SetGreaseEnabled(*on),
            EngineDirective::EnableOcspStapling => Directive::EnableOcspStapling,
            EngineDirective::SetCurves(curves) => Directive::SetCurves(curves@),
            EngineDirective::SetSigalgsList(names) => Directive::SetSigalgsList(names@),
            EngineDirective::SetCipherList(names) => Directive::SetCipherList(names@),
            EngineDirective::EnableSignedCertTimestamps => Directive::EnableSignedCertTimestamps,
            EngineDirective::SetMinProtoVersion(v) => Directive::SetMinProtoVersion(*v),
            EngineDirective::SetMaxProtoVersion(v) => Directive::SetMaxProtoVersion(*v),
            EngineDirective::SetPermuteExtensions(on) => Directive::SetPermuteExtensions(*on),
            EngineDirective::AddCertCompression(a) => Directive::AddCertCompression(*a),
            EngineDirective::DisableSessionTickets => Directive::DisableSessionTickets,
            EngineDirective::SetAlpnProtos(wire) => Directive::SetAlpnProtos(wire@),
            EngineDirective::AddApplicationSettings(name) => Directive::AddApplicationSettings(
                name@,
            ),
            EngineDirective::EnableEchGrease => Directive::EnableEchGrease,
            EngineDirective::DisableServerName => Directive::DisableServerName,
            EngineDirective::OfferPreSharedKey => Directive::OfferPreSharedKey,
        }
    }
}

/// The views of a list of engine calls.
pub open spec fn directives_of(calls: Seq<EngineDirective>) -> Seq<Directive> {
    Seq::new(calls.len(), |i: int| calls[i]@)
}

/// The names of a list of cipher suites.
pub open spec fn cipher_names(ciphers: Seq<CipherSuite>) -> Seq<Seq<char>> {
    Seq::new(ciphers.len(), |i: int| ciphers[i].spec_name())
}

/// The names of a list of signature schemes.
pub open spec fn scheme_names(schemes: Seq<SignatureScheme>) -> Seq<Seq<char>> {
    Seq::new(schemes.len(), |i: int| schemes[i].spec_name())
}

/// The cipher list as the engine takes it: the names in the profile's
/// order, joined by colons.
pub open spec fn cipher_list(ciphers: Seq<CipherSuite>) -> Seq<char> {
    joined(cipher_names(ciphers), ":"@)
}

/// The signature scheme list as the engine takes it: the names in the
/// profile's order, joined by colons.
pub open spec fn sigalgs_list(schemes: Seq<SignatureScheme>) -> Seq<char> {
    joined(scheme_names(schemes), ":"@)
}

/// The calls that come first, each with the condition under which it is
/// made.
pub open spec fn leading_calls(profile: TlsProfileView) -> Seq<(bool, Directive)> {
    let t = profile.toggles;
    seq![
        (true, Directive::SetGreaseEnabled(t.grease)),
        (t.ocsp_stapling, Directive::EnableOcspStapling),
        (true, Directive::SetCurves(profile.curves)),
        (profile.sigalgs.len() > 0, Directive::SetSigalgsList(sigalgs_list(profile.sigalgs))),
        (true, Directive::SetCipherList(cipher_list(profile.ciphers))),
        (t.signed_cert_timestamps, Directive::EnableSignedCertTimestamps),
        (true, Directive::SetMinProtoVersion(profile.min_version)),
        (true, Directive::SetMaxProtoVersion(profile.max_version)),
        (true, Directive::SetPermuteExtensions(t.permute_extensions)),
    ]
}

/// One call for each certificate compression algorithm, in the profile's
/// order.
pub open spec fn compression_calls(algorithms: Seq<CertCompressionAlgorithm>) -> Seq<Directive> {
    Seq::new(algorithms.len(), |i: int| Directive::AddCertCompression(algorithms[i]))
}

/// The calls that come last, each with the condition under which it is made.
pub open spec fn closing_calls(profile: TlsProfileView) -> Seq<(bool, Directive)> {
    let t = profile.toggles;
    seq![
        (!t.session_ticket, Directive::DisableSessionTickets),
        (profile.alpn != Alpn::Disabled, Directive::SetAlpnProtos(alpn_wire(profile.alpn))),
        (t.application_settings, Directive::AddApplicationSettings(h2_entry().skip(1))),
        (t.ech_grease, Directive::EnableEchGrease),
        (!t.sni, Directive::DisableServerName),
        (t.pre_shared_key, Directive::OfferPreSharedKey),
    ]
}

/// The calls that set an engine up for a profile, in the order in which they
/// are made.
pub open spec fn engine_directives(profile: TlsProfileView) -> Seq<Directive> {
    present(leading_calls(profile)) + compression_calls(profile.cert_compression_algs) + present(
        closing_calls(profile),
    )
}

/// The lists that the engine takes read back: the cipher list of at least
/// one cipher suite, split at its colons, gives the names of the suites in
/// their order, and so does the list of signature schemes.
pub proof fn lemma_engine_lists_round_trip(
    ciphers: Seq<CipherSuite>,
    schemes: Seq<SignatureScheme>,
)
    ensures
        ciphers.len() >= 1 ==> split(cipher_list(ciphers), ':') == cipher_names(ciphers),
        schemes.len() >= 1 ==> split(sigalgs_list(schemes), ':') == scheme_names(schemes),
{
    reveal_strlit(":");
    assert(":"@ =~= seq![':']);
    if ciphers.len() >= 1 {
        assert forall|i: int| 0 <= i < ciphers.len() implies free_of(
            #[trigger] cipher_names(ciphers)[i],
            ':',
        ) by {
            CipherSuite::lemma_name_has_no_colon(ciphers[i]);
        }
        lemma_split_joined(cipher_names(ciphers), ':');
    }
    if schemes.len() >= 1 {
        assert forall|i: int| 0 <= i < schemes.len() implies free_of(
            #[trigger] scheme_names(schemes)[i],
            ':',
        ) by {
            SignatureScheme::lemma_name_has_no_colon(schemes[i]);
        }
        lemma_split_joined(scheme_names(schemes), ':');
    }
}

/// The names of the items, in their order, joined by colons. `name` gives
/// the name of an item, `spec_name` says which name that is.
fn join_names<T: Copy, F: Fn(T) -> &'static str>(
    items: &Vec<T>,
    name: F,
    Ghost(spec_name): Ghost<spec_fn(T) -> Seq<char>>,
) -> (text: String)
    requires
        forall|t: T| call_requires(name, (t,)),
        forall|t: T, r: &'static str| call_ensures(name, (t,), r) ==> r@ == spec_name(t),
    ensures
        text@ == joined(Seq::new(items@.len(), |i: int| spec_name(items@[i])), ":"@),
{
    let ghost names = Seq::new(items@.len(), |i: int| spec_name(items@[i]));
    let mut text = String::new();
    let mut i: usize = 0;
    assert(names.take(0) =~= Seq::empty());
    while i < items.len()
        invariant
            i <= items@.len() == names.len(),
            names == Seq::new(items@.len(), |i: int| spec_name(items@[i])),
            forall|t: T| call_requires(name, (t,)),
            forall|t: T, r: &'static str| call_ensures(name, (t,), r) ==> r@ == spec_name(t),
            text@ == joined(names.take(i as int), ":"@),
        decreases items@.len() - i,
    {
        proof {
            let next = names.take(i + 1);
            assert(next.drop_last() =~= names.take(i as int));
            assert(next.last() == spec_name(items@[i as int]));
        }
        if i > 0 {
            text.append(":");
        }
        text.append(name(items[i]));
        assert(text@ =~= joined(names.take(i + 1), ":"@));
        i += 1;
    }
    assert(names.take(i as int) =~= names);
    text
}

/// The names of the cipher suites, in their order, joined by colons.
pub fn join_cipher_names(ciphers: &Vec<CipherSuite>) -> (text: String)
    ensures
        text@ == cipher_list(ciphers@),
{
    let ghost spec_name = |c: CipherSuite| c.spec_name();
    assert(cipher_names(ciphers@) =~= Seq::new(
        ciphers@.len(),
        |i: int| spec_name(ciphers@[i]),
    ));
    join_names(ciphers, CipherSuite::name, Ghost(spec_name))
}

/// The names of the signature schemes, in their order, joined by colons.
pub fn join_scheme_names(schemes: &Vec<SignatureScheme>) -> (text: String)
    ensures
        text@ == sigalgs_list(schemes@),
{
    let ghost spec_name = |s: SignatureScheme| s.spec_name();
    assert(scheme_names(schemes@) =~= Seq::new(
        schemes@.len(),
        |i: int| spec_name(schemes@[i]),
    ));
    join_names(schemes, SignatureScheme::name, Ghost(spec_name))
}

/// A TLS profile that keeps its rules, ready to set up an engine for each
/// new connection.
#[derive(Debug)]
pub struct ConnectorFactory {
    profile: TlsProfile,
}

impl View for ConnectorFactory {
    type V = TlsProfileView;

    closed spec fn view(&self) -> TlsProfileView {
        self.profile@
    }
}

fn put(
    calls: &mut Vec<EngineDirective>,
    made: bool,
    call: EngineDirective,
    Ghost(slots): Ghost<Seq<(bool, Directive)>>,
)
    requires
        directives_of(old(calls)@) == present(slots),
    ensures
        directives_of(final(calls)@) == present(slots.push((made, call@))),
{
    assert(slots.push((made, call@)).drop_last() =~= slots);
    if made {
        calls.push(call);
        assert(directives_of(calls@) =~= present(slots).push(call@));
    }
}

impl ConnectorFactory {
    #[verifier::type_invariant]
    spec fn consistent(self) -> bool {
        tls_error(self.profile@) is None
    }

    /// The profile that this factory sets engines up for.
    pub fn profile(&self) -> (profile: &TlsProfile)
        ensures
            profile@ == self@,
            tls_error(self@) is None,
    {
        proof {
            use_type_invariant(self);
        }
        &self.profile
    }

    /// The calls that set an engine up for a new connection, in the order in
    /// which they are made. Every invocation gives the same calls.
    pub fn directives(&self) -> (calls: Vec<EngineDirective>)
        ensures
            directives_of(calls@) == engine_directives(self@),
            tls_error(self@) is None,
    {
        proof {
            use_type_invariant(self);
        }
        let mut calls = leading(&self.profile);
        let mut middle = compression(&self.profile);
        let mut last = closing(&self.profile);
        let ghost a = directives_of(calls@);
        let ghost b = directives_of(middle@);
        let ghost c = directives_of(last@);
        calls.append(&mut middle);
        assert(directives_of(calls@) =~= a + b);
        calls.append(&mut last);
        assert(directives_of(calls@) =~= a + b + c);
        calls
    }
}

fn leading(p: &TlsProfile) -> (calls: Vec<EngineDirective>)
    ensures
        directives_of(calls@) == present(leading_calls(p@)),
{
    let t = p.toggles();
    let schemes = p.sigalgs();
    let mut calls: Vec<EngineDirective> = Vec::new();
    let ghost mut slots: Seq<(bool, Directive)> = Seq::empty();
    assert(directives_of(calls@) =~= present(slots));
    put(&mut calls, true, EngineDirective::SetGreaseEnabled(t.grease), Ghost(slots));
    proof {
        slots = slots.push((true, Directive::SetGreaseEnabled(t.grease)));
    }
    put(&mut calls, t.ocsp_stapling, EngineDirective::EnableOcspStapling, Ghost(slots));
    proof {
        slots = slots.push((t.ocsp_stapling, Directive::EnableOcspStapling));
    }
    put(&mut calls, true, EngineDirective::SetCurves(p.curves()), Ghost(slots));
    proof {
        slots = slots.push((true, Directive::SetCurves(p@.curves)));
    }
    put(
        &mut calls,
        schemes.len() > 0,
        EngineDirective::SetSigalgsList(join_scheme_names(&schemes)),
        Ghost(slots),
    );
    proof {
        slots = slots.push(
            (p@.sigalgs.len() > 0, Directive::SetSigalgsList(sigalgs_list(p@.sigalgs))),
        );
    }
    put(
        &mut calls,
        true,
        EngineDirective::SetCipherList(join_cipher_names(&p.ciphers())),
        Ghost(slots),
    );
    proof {
        slots = slots.push((true, Directive::SetCipherList(cipher_list(p@.ciphers))));
        assert(slots =~= leading_calls(p@).take(5));
    }
    more_leading(p, calls, Ghost(slots))
}

fn more_leading(
    p: &TlsProfile,
    calls: Vec<EngineDirective>,
    Ghost(done): Ghost<Seq<(bool, Directive)>>,
) -> (out: Vec<EngineDirective>)
    requires
        directives_of(calls@) == present(done),
        done == leading_calls(p@).take(5),
    ensures
        directives_of(out@) == present(leading_calls(p@)),
{
    let t = p.toggles();
    let mut calls = calls;
    let ghost mut slots = done;
    put(
        &mut calls,
        t.signed_cert_timestamps,
        EngineDirective::EnableSignedCertTimestamps,
        Ghost(slots),
    );
    proof {
        slots = slots.push((t.signed_cert_timestamps, Directive::EnableSignedCertTimestamps));
    }
    put(&mut calls, true, EngineDirective::SetMinProtoVersion(p.min_version()), Ghost(slots));
    proof {
        slots = slots.push((true, Directive::SetMinProtoVersion(p@.min_version)));
    }
    put(&mut calls, true, EngineDirective::SetMaxProtoVersion(p.max_version()), Ghost(slots));
    proof {
        slots = slots.push((true, Directive::SetMaxProtoVersion(p@.max_version)));
    }
    put(
        &mut calls,
        true,
        EngineDirective::SetPermuteExtensions(t.permute_extensions),
        Ghost(slots),
    );
    proof {
        slots = slots.push((true, Directive::SetPermuteExtensions(t.permute_extensions)));
        assert(slots =~= leading_calls(p@));
    }
    calls
}

fn compression(p: &TlsProfile) -> (calls: Vec<EngineDirective>)
    ensures
        directives_of(calls@) == compression_calls(p@.cert_compression_algs),
{
    let algorithms = p.cert_compression_algs();
    let mut calls: Vec<EngineDirective> = Vec::new();
    let mut i: usize = 0;
    while i < algorithms.len()
        invariant
            i <= algorithms@.len(),
            directives_of(calls@) == compression_calls(algorithms@).take(i as int),
        decreases algorithms@.len() - i,
    {
        let ghost before = directives_of(calls@);
        calls.push(EngineDirective::AddCertCompression(algorithms[i]));
        assert(directives_of(calls@) =~= before.push(
            Directive::AddCertCompression(algorithms@[i as int]),
        ));
        assert(directives_of(calls@) =~= compression_calls(algorithms@).take(i + 1));
        i += 1;
    }
    assert(compression_calls(algorithms@).take(i as int) =~= compression_calls(algorithms@));
    calls
}

fn closing(p: &TlsProfile) -> (last: Vec<EngineDirective>)
    ensures
        directives_of(last@) == present(closing_calls(p@)),
{
    let t = p.toggles();
    let mut last: Vec<EngineDirective> = Vec::new();
    let ghost mut slots: Seq<(bool, Directive)> = Seq::empty();
    assert(directives_of(last@) =~= present(slots));
    put(&mut last, !t.session_ticket, EngineDirective::DisableSessionTickets, Ghost(slots));
    proof {
        slots = slots.push((!t.session_ticket, Directive::DisableSessionTickets));
    }
    put(
        &mut last,
        p.alpn() != Alpn::Disabled,
        EngineDirective::SetAlpnProtos(alpn_protocols(p.alpn())),
        Ghost(slots),
    );
    proof {
        slots = slots.push(
            (p@.alpn != Alpn::Disabled, Directive::SetAlpnProtos(alpn_wire(p@.alpn))),
        );
    }
    let mut h2: Vec<u8> = Vec::new();
    h2.push(0x68);
    h2.push(0x32);
    assert(h2@ =~= h2_entry().skip(1));
    put(&mut last, t.application_settings, EngineDirective::AddApplicationSettings(h2), Ghost(slots));
    proof {
        slots = slots.push(
            (t.application_settings, Directive::AddApplicationSettings(h2_entry().skip(1))),
        );
    }
    put(&mut last, t.ech_grease, EngineDirective::EnableEchGrease, Ghost(slots));
    proof {
        slots = slots.push((t.ech_grease, Directive::EnableEchGrease));
    }
    put(&mut last, !t.sni, EngineDirective::DisableServerName, Ghost(slots));
    proof {
        slots = slots.push((!t.sni, Directive::DisableServerName));
    }
    put(&mut last, t.pre_shared_key, EngineDirective::OfferPreSharedKey, Ghost(slots));
    proof {
        slots = slots.push((t.pre_shared_key, Directive::OfferPreSharedKey));
        assert(slots =~= closing_calls(p@));
    }
    last
}

/// The factory for a profile. A profile that breaks one of its rules gives
/// the first rule it breaks, and no factory.
pub fn build_connector_factory(profile: &TlsProfile) -> (result: Result<
    ConnectorFactory,
    ConfigError,
>)
    ensures
        match result {
            Ok(factory) => tls_error(profile@) is None && factory@ == profile@,
            Err(e) => tls_error(profile@) == Some(e),
        },
{
    match profile.validate() {
        Ok(_) => Ok(ConnectorFactory { profile: profile.duplicate() }),
        Err(e) => Err(e),
    }
}

} // verus!
