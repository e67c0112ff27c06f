//! What a profile puts into a ClientHello: the lists in their wire order,
//! the GREASE values at their places, and the block of extensions.

use vstd::prelude::*;
use crate::tls::{Alpn, TlsProfile, TlsProfileView};
use crate::wire::{
    CertCompressionAlgorithm, CipherSuite, Curve, ExtensionId, SignatureScheme, TlsVersion,
};

verus! {

/// The GREASE value with the given number: `0x0a0a`, `0x1a1a`, up to
/// `0xfafa`.
pub open spec fn grease_code(number: u8) -> u16 {
    (0x0a0a + 0x1010 * (number % 16)) as u16
}

/// Whether a code is one of the sixteen GREASE values.
pub open spec fn is_grease(code: u16) -> bool {
    exists|number: u8| code == #[trigger] grease_code(number)
}

/// The GREASE value with the given number.
pub fn grease_value(number: u8) -> (code: u16)
    ensures
        code == grease_code(number),
        is_grease(code),
{
    let k: u16 = (number % 16) as u16;
    let code: u16 = 0x0a0a + 0x1010 * k;
    assert(code == grease_code(number));
    code
}

/// The wire codes of a list of cipher suites.
pub open spec fn cipher_codes(ciphers: Seq<CipherSuite>) -> Seq<u16> {
    Seq::new(ciphers.len(), |i: int| ciphers[i].wire())
}

/// The wire codes of a list of curves.
pub open spec fn curve_codes(curves: Seq<Curve>) -> Seq<u16> {
    Seq::new(curves.len(), |i: int| curves[i].wire())
}

/// The wire codes of a list of signature schemes.
pub open spec fn scheme_codes(schemes: Seq<SignatureScheme>) -> Seq<u16> {
    Seq::new(schemes.len(), |i: int| schemes[i].wire())
}

/// The wire codes of a list of compression algorithms.
pub open spec fn algorithm_codes(algorithms: Seq<CertCompressionAlgorithm>) -> Seq<u16> {
    Seq::new(algorithms.len(), |i: int| algorithms[i].wire())
}

/// A list of codes with a GREASE value in front, where GREASE is on.
pub open spec fn with_grease(grease: bool, code: u16, codes: Seq<u16>) -> Seq<u16> {
    if grease {
        seq![code] + codes
    } else {
        codes
    }
}

/// The `cipher_suites` of the ClientHello: the profile's cipher suites in
/// their order, behind one GREASE value where GREASE is on.
pub fn cipher_suites(profile: &TlsProfile, grease_number: u8) -> (codes: Vec<u16>)
    ensures
        codes@ == with_grease(
            profile@.toggles.grease,
            grease_code(grease_number),
            cipher_codes(profile@.ciphers),
        ),
{
    let ciphers = profile.ciphers();
    let mut codes: Vec<u16> = Vec::new();
    if profile.toggles().grease {
        codes.push(grease_value(grease_number));
    }
    let ghost head = codes@;
    let mut i: usize = 0;
    while i < ciphers.len()
        invariant
            i <= ciphers@.len(),
            codes@ == head + cipher_codes(ciphers@).take(i as int),
        decreases ciphers@.len() - i,
    {
        codes.push(ciphers[i].wire_id());
        assert(codes@ =~= head + cipher_codes(ciphers@).take(i + 1));
        i += 1;
    }
    assert(cipher_codes(ciphers@).take(i as int) =~= cipher_codes(ciphers@));
    assert(codes@ =~= with_grease(
        profile@.toggles.grease,
        grease_code(grease_number),
        cipher_codes(profile@.ciphers),
    ));
    codes
}

/// The `supported_groups` of the ClientHello: the profile's curves in their
/// order, behind one GREASE value where GREASE is on.
pub fn supported_groups(profile: &TlsProfile, grease_number: u8) -> (codes: Vec<u16>)
    ensures
        codes@ == with_grease(
            profile@.toggles.grease,
            grease_code(grease_number),
            curve_codes(profile@.curves),
        ),
{
    let curves = profile.curves();
    let mut codes: Vec<u16> = Vec::new();
    if profile.toggles().grease {
        codes.push(grease_value(grease_number));
    }
    let ghost head = codes@;
    let mut i: usize = 0;
    while i < curves.len()
        invariant
            i <= curves@.len(),
            codes@ == head + curve_codes(curves@).take(i as int),
        decreases curves@.len() - i,
    {
        codes.push(curves[i].wire_id());
        assert(codes@ =~= head + curve_codes(curves@).take(i + 1));
        i += 1;
    }
    assert(curve_codes(curves@).take(i as int) =~= curve_codes(curves@));
    assert(codes@ =~= with_grease(
        profile@.toggles.grease,
        grease_code(grease_number),
        curve_codes(profile@.curves),
    ));
    codes
}

/// The `signature_algorithms` of the ClientHello: the profile's schemes in
/// their order.
pub fn signature_algorithms(profile: &TlsProfile) -> (codes: Vec<u16>)
    ensures
        codes@ == scheme_codes(profile@.sigalgs),
{
    let schemes = profile.sigalgs();
    let mut codes: Vec<u16> = Vec::new();
    let mut i: usize = 0;
    while i < schemes.len()
        invariant
            i <= schemes@.len(),
            codes@ == scheme_codes(schemes@).take(i as int),
        decreases schemes@.len() - i,
    {
        codes.push(schemes[i].wire_id());
        assert(codes@ =~= scheme_codes(schemes@).take(i + 1));
        i += 1;
    }
    assert(scheme_codes(schemes@).take(i as int) =~= scheme_codes(schemes@));
    codes
}

/// The algorithms that `compress_certificate` advertises: the profile's, in
/// their order.
pub fn certificate_compression(profile: &TlsProfile) -> (codes: Vec<u16>)
    ensures
        codes@ == algorithm_codes(profile@.cert_compression_algs),
{
    let algorithms = profile.cert_compression_algs();
    let mut codes: Vec<u16> = Vec::new();
    let mut i: usize = 0;
    while i < algorithms.len()
        invariant
            i <= algorithms@.len(),
            codes@ == algorithm_codes(algorithms@).take(i as int),
        decreases algorithms@.len() - i,
    {
        codes.push(algorithms[i].wire_id());
        assert(codes@ =~= algorithm_codes(algorithms@).take(i + 1));
        i += 1;
    }
    assert(algorithm_codes(algorithms@).take(i as int) =~= algorithm_codes(algorithms@));
    codes
}

/// `h2` as a protocol name with its length in front.
pub open spec fn h2_entry() -> Seq<u8> {
    seq![2, 0x68, 0x32]
}

/// `http/1.1` as a protocol name with its length in front.
pub open spec fn http11_entry() -> Seq<u8> {
    seq![8, 0x68, 0x74, 0x74, 0x70, 0x2f, 0x31, 0x2e, 0x31]
}

/// The protocol list of ALPN in wire form: each name with its length in
/// front, in the order of preference.
pub open spec fn alpn_wire(alpn: Alpn) -> Seq<u8> {
    match alpn {
        Alpn::Disabled => Seq::empty(),
        Alpn::H2 => h2_entry(),
        Alpn::Http11 => http11_entry(),
        Alpn::H2ThenHttp11 => h2_entry() + http11_entry(),
        Alpn::Http11ThenH2 => http11_entry() + h2_entry(),
    }
}

fn put_h2(out: &mut Vec<u8>)
    ensures
        final(out)@ == old(out)@ + h2_entry(),
{
    out.push(2);
    out.push(0x68);
    out.push(0x32);
    assert(out@ =~= old(out)@ + h2_entry());
}

fn put_http11(out: &mut Vec<u8>)
    ensures
        final(out)@ == old(out)@ + http11_entry(),
{
    out.push(8);
    out.push(0x68);
    out.push(0x74);
    out.push(0x74);
    out.push(0x70);
    out.push(0x2f);
    out.push(0x31);
    out.push(0x2e);
    out.push(0x31);
    assert(out@ =~= old(out)@ + http11_entry());
}

/// The protocol list of ALPN in wire form.
pub fn alpn_protocols(alpn: Alpn) -> (wire: Vec<u8>)
    ensures
        wire@ == alpn_wire(alpn),
{
    let mut wire: Vec<u8> = Vec::new();
    match alpn {
        Alpn::Disabled => {},
        Alpn::H2 => {
            put_h2(&mut wire);
        },
        Alpn::Http11 => {
            put_http11(&mut wire);
        },
        Alpn::H2ThenHttp11 => {
            put_h2(&mut wire);
            put_http11(&mut wire);
        },
        Alpn::Http11ThenH2 => {
            put_http11(&mut wire);
            put_h2(&mut wire);
        },
    }
    assert(wire@ =~= alpn_wire(alpn));
    wire
}

/// An extension of the ClientHello.
#[derive(Clone, Copy, Debug, PartialEq, Eq, Structural)]
pub enum Extension {
    /// A GREASE extension: its code is chosen for each connection.
    Grease,
    /// An extension with a code of its own.
    Known(ExtensionId),
}

/// A place in the extension block: whether the extension is sent, and which
/// one it is.
pub type Slot = (bool, Extension);

/// What the slots hold that are sent, in the order of the slots.
pub open spec fn present<T>(slots: Seq<(bool, T)>) -> Seq<T>
    decreases slots.len(),
{
    if slots.len() == 0 {
        Seq::empty()
    } else if slots.last().0 {
        present(slots.drop_last()).push(slots.last().1)
    } else {
        present(slots.drop_last())
    }
}

/// The places of the extension block, in their fixed order, each with the
/// condition under which its extension is sent. `session_cached` says
/// whether a session is at hand to offer as a pre-shared key; `padding`
/// whether the hello has the length at which it is padded.
pub open spec fn extension_slots(
    profile: TlsProfileView,
    session_cached: bool,
    padding: bool,
) -> Seq<Slot> {
    let t = profile.toggles;
    let tls13 = profile.max_version == TlsVersion::Tls13;
    seq![
        (t.grease, Extension::Grease),
        (t.sni, Extension::Known(ExtensionId::ServerName)),
        (true, Extension::Known(ExtensionId::ExtendedMasterSecret)),
        (true, Extension::Known(ExtensionId::RenegotiationInfo)),
        (true, Extension::Known(ExtensionId::SupportedGroups)),
        (true, Extension::Known(ExtensionId::EcPointFormats)),
        (t.session_ticket, Extension::Known(ExtensionId::SessionTicket)),
        (
            profile.alpn != Alpn::Disabled,
            Extension::Known(ExtensionId::ApplicationLayerProtocolNegotiation),
        ),
        (t.ocsp_stapling, Extension::Known(ExtensionId::StatusRequest)),
        (profile.sigalgs.len() > 0, Extension::Known(ExtensionId::SignatureAlgorithms)),
        (t.signed_cert_timestamps, Extension::Known(ExtensionId::SignedCertificateTimestamp)),
        (tls13, Extension::Known(ExtensionId::KeyShare)),
        (tls13, Extension::Known(ExtensionId::PskKeyExchangeModes)),
        (tls13, Extension::Known(ExtensionId::SupportedVersions)),
        (
            profile.cert_compression_algs.len() > 0,
            Extension::Known(ExtensionId::CompressCertificate),
        ),
        (t.application_settings, Extension::Known(ExtensionId::ApplicationSettings)),
        (t.ech_grease, Extension::Known(ExtensionId::EncryptedClientHello)),
        (padding, Extension::Known(ExtensionId::Padding)),
        (t.pre_shared_key && session_cached, Extension::Known(ExtensionId::PreSharedKey)),
    ]
}

/// The extension block of a profile, in its fixed order.
pub open spec fn extension_block(
    profile: TlsProfileView,
    session_cached: bool,
    padding: bool,
) -> Seq<Extension> {
    present(extension_slots(profile, session_cached, padding))
}

/// The extension block of a profile, in its fixed order.
pub fn extensions(profile: &TlsProfile, session_cached: bool, padding: bool) -> (block: Vec<
    Extension,
>)
    ensures
        block@ == extension_block(profile@, session_cached, padding),
{
    let t = profile.toggles();
    let tls13 = profile.max_version() == TlsVersion::Tls13;
    let has_sigalgs = profile.sigalgs().len() > 0;
    let has_compression = profile.cert_compression_algs().len() > 0;
    let mut slots: Vec<Slot> = Vec::new();
    slots.push((t.grease, Extension::Grease));
    slots.push((t.sni, Extension::Known(ExtensionId::ServerName)));
    slots.push((true, Extension::Known(ExtensionId::ExtendedMasterSecret)));
    slots.push((true, Extension::Known(ExtensionId::RenegotiationInfo)));
    slots.push((true, Extension::Known(ExtensionId::SupportedGroups)));
    slots.push((true, Extension::Known(ExtensionId::EcPointFormats)));
    slots.push((t.session_ticket, Extension::Known(ExtensionId::SessionTicket)));
    slots.push(
        (
            profile.alpn() != Alpn::Disabled,
            Extension::Known(ExtensionId::ApplicationLayerProtocolNegotiation),
        ),
    );
    slots.push((t.ocsp_stapling, Extension::Known(ExtensionId::StatusRequest)));
    slots.push((has_sigalgs, Extension::Known(ExtensionId::SignatureAlgorithms)));
    slots.push(
        (t.signed_cert_timestamps, Extension::Known(ExtensionId::SignedCertificateTimestamp)),
    );
    slots.push((tls13, Extension::Known(ExtensionId::KeyShare)));
    slots.push((tls13, Extension::Known(ExtensionId::PskKeyExchangeModes)));
    slots.push((tls13, Extension::Known(ExtensionId::SupportedVersions)));
    slots.push((has_compression, Extension::Known(ExtensionId::CompressCertificate)));
    slots.push((t.application_settings, Extension::Known(ExtensionId::ApplicationSettings)));
    slots.push((t.ech_grease, Extension::Known(ExtensionId::EncryptedClientHello)));
    slots.push((padding, Extension::Known(ExtensionId::Padding)));
    slots.push(
        (t.pre_shared_key && session_cached, Extension::Known(ExtensionId::PreSharedKey)),
    );
    assert(slots@ =~= extension_slots(profile@, session_cached, padding));
    let mut block: Vec<Extension> = Vec::new();
    let mut i: usize = 0;
    assert(slots@.take(0) =~= Seq::empty());
    while i < slots.len()
        invariant
            i <= slots@.len(),
            block@ == present(slots@.take(i as int)),
        decreases slots@.len() - i,
    {
        proof {
            let next = slots@.take(i + 1);
            assert(next.drop_last() =~= slots@.take(i as int));
            assert(next.last() == slots@[i as int]);
        }
        if slots[i].0 {
            block.push(slots[i].1);
        }
        i += 1;
    }
    assert(slots@.take(i as int) =~= slots@);
    block
}

/// The codes of a block of extensions, with the given GREASE value for each
/// GREASE extension.
pub open spec fn extension_codes(block: Seq<Extension>, grease: u16) -> Seq<u16> {
    Seq::new(
        block.len(),
        |i: int|
            match block[i] {
                Extension::Grease => grease,
                Extension::Known(id) => id.wire(),
            },
    )
}

/// The codes of a block of extensions, as a ClientHello lists them.
pub fn extension_ids(block: &Vec<Extension>, grease_number: u8) -> (codes: Vec<u16>)
    ensures
        codes@ == extension_codes(block@, grease_code(grease_number)),
{
    let grease = grease_value(grease_number);
    let mut codes: Vec<u16> = Vec::new();
    let mut i: usize = 0;
    while i < block.len()
        invariant
            i <= block@.len(),
            grease == grease_code(grease_number),
            codes@ == extension_codes(block@, grease).take(i as int),
        decreases block@.len() - i,
    {
        let code = match block[i] {
            Extension::Grease => grease,
            Extension::Known(id) => id.wire_id(),
        };
        codes.push(code);
        assert(codes@ =~= extension_codes(block@, grease).take(i + 1));
        i += 1;
    }
    assert(extension_codes(block@, grease).take(i as int) =~= extension_codes(block@, grease));
    codes
}

} // verus!
