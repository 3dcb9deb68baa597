//! Keys and certificates for SSH, by ssh_key. A key stands here as the text in
//! which OpenSSH keeps it.

use crate::outside::{returned_for, told_text};
use ssh_key::certificate::{Builder, CertType};
use ssh_key::{Algorithm, Certificate, LineEnding, PrivateKey};
use vstd::prelude::*;

verus! {

/// The name of the algorithm of a key, and whether the key is encrypted.
#[derive(Debug, PartialEq, Eq)]
pub struct SshKey {
    pub algorithm: String,
    pub encrypted: bool,
}

/// [`SshKey`], as texts.
pub struct SshKeyView {
    pub algorithm: Seq<char>,
    pub encrypted: bool,
}

impl View for SshKey {
    type V = SshKeyView;

    open spec fn view(&self) -> SshKeyView {
        SshKeyView { algorithm: self.algorithm@, encrypted: self.encrypted }
    }
}

/// What came of reading a key.
pub open spec fn told_key(r: Result<SshKey, String>) -> Result<SshKeyView, Seq<char>> {
    match r {
        Ok(key) => Ok(key@),
        Err(e) => Err(e@),
    }
}

/// The key that `PrivateKey::from_openssh` reads in a text, or the debug text of
/// its error.
pub uninterp spec fn ssh_key_read(pem: Seq<char>) -> Result<SshKeyView, Seq<char>>;

/// Whether a text is a key of the given algorithm that is not encrypted.
pub open spec fn open_key(pem: Seq<char>, algorithm: Seq<char>) -> bool {
    ssh_key_read(pem) == Ok::<SshKeyView, Seq<char>>(SshKeyView { algorithm, encrypted: false })
}

/// Calls `PrivateKey::from_openssh` and tells of the key that it reads.
#[verifier::external_body]
pub(crate) fn read_ssh_key(pem: &str) -> (r: Result<SshKey, String>)
    ensures
        told_key(r) == ssh_key_read(pem@),
{
    match PrivateKey::from_openssh(pem) {
        Ok(key) => Ok(
            SshKey { algorithm: key.algorithm().to_string(), encrypted: key.is_encrypted() },
        ),
        Err(e) => Err(format!("{:?}", e)),
    }
}

/// Whether an open key of the given algorithm was made and written.
pub open spec fn made_open(
    made: Result<Result<String, String>, String>,
    algorithm: Seq<char>,
) -> bool {
    made matches Ok(Ok(pem)) && open_key(pem@, algorithm)
}

/// Calls `PrivateKey::random` for the algorithm of a name and gives the key as
/// `to_openssh` writes it. Which key comes is left to chance. For Ed25519 neither
/// call fails, and `from_openssh` reads an open key of the algorithm in the text;
/// of other algorithms nothing is stated. The outer error is that of the
/// generation, the inner one that of the writing.
#[verifier::external_body]
pub(crate) fn generate_ssh_key(algorithm: &str) -> (r: Result<Result<String, String>, String>)
    ensures
        algorithm@ == "ssh-ed25519"@ ==> made_open(r, algorithm@),
{
    Algorithm::new(algorithm)
        .and_then(|algorithm| PrivateKey::random(&mut rand::thread_rng(), algorithm))
        .map(|key| {
            key.to_openssh(LineEnding::LF)
                .map(|pem| pem.to_string())
                .map_err(|e| format!("{:?}", e))
        })
        .map_err(|e| format!("{:?}", e))
}

/// Whether a key of the given algorithm was made: it is one that a call of
/// [`generate_ssh_key`] may have returned.
pub closed spec fn generated(algorithm: Seq<char>, pem: Seq<char>) -> bool {
    exists|a: &str, s: String|
        a@ == algorithm && s@ == pem && #[trigger] call_ensures(generate_ssh_key, (a,), Ok(Ok(s)))
}

/// A key that was made is one that [`generate_ssh_key`] returns for the algorithm.
pub(crate) proof fn generated_is_returned(algorithm: Seq<char>, pem: Seq<char>)
    ensures
        generated(algorithm, pem) <==> exists|a: &str, s: String|
            a@ == algorithm && s@ == pem && #[trigger] call_ensures(
                generate_ssh_key,
                (a,),
                Ok(Ok(s)),
            ),
{
}

/// Makes a key for the algorithm of a name.
pub(crate) fn make_ssh_key(algorithm: &str) -> (r: Result<Result<String, String>, String>)
    ensures
        algorithm@ == "ssh-ed25519"@ ==> made_open(r, algorithm@),
        r matches Ok(Ok(pem)) ==> generated(algorithm@, pem@),
{
    returned_for(generate_ssh_key, algorithm)
}

/// The public half of a key in one line, as `PublicKey::to_openssh` writes it,
/// or the debug text of the error.
pub uninterp spec fn ssh_public_line(pem: Seq<char>) -> Result<Seq<char>, Seq<char>>;

/// Calls `PublicKey::to_openssh` on the public half of a key. For Ed25519 it does
/// not fail.
#[verifier::external_body]
pub(crate) fn write_ssh_public_line(pem: &str) -> (r: Result<String, String>)
    ensures
        told_text(r) == ssh_public_line(pem@),
        open_key(pem@, "ssh-ed25519"@) ==> r is Ok,
{
    PrivateKey::from_openssh(pem)
        .and_then(|key| key.public_key().to_openssh())
        .map_err(|e| format!("{:?}", e))
}

/// The public half of the key that is read in a text, as the bytes that
/// `PublicKey::to_bytes` gives.
pub uninterp spec fn ssh_public(pem: Seq<char>) -> Seq<u8>;

#[verifier::external_type_specification]
#[verifier::external_body]
pub struct ExBuilder(Builder);

#[verifier::external_type_specification]
#[verifier::external_body]
pub struct ExCertificate(Certificate);

/// Whom a certificate identifies.
#[derive(Debug, Clone, Copy, PartialEq, Eq)]
pub enum CertificateKind {
    User,
    Host,
}

/// What a certificate in the making holds. What was not set is none.
pub struct DraftView {
    pub nonce: Seq<u8>,
    pub public_key: Seq<u8>,
    pub serial: Option<u64>,
    pub kind: Option<CertificateKind>,
    pub key_id: Option<Seq<char>>,
    pub principals: Option<Seq<Seq<char>>>,
    pub valid_after: u64,
    pub valid_before: u64,
    pub critical_options: Map<Seq<char>, Seq<char>>,
    pub extensions: Map<Seq<char>, Seq<char>>,
    pub comment: Option<Seq<char>>,
}

/// What a signed certificate holds. The keys are as `PublicKey::to_bytes` gives
/// them, the signature as it stands in the certificate.
pub struct CertificateView {
    pub nonce: Seq<u8>,
    pub public_key: Seq<u8>,
    pub serial: u64,
    pub kind: CertificateKind,
    pub key_id: Seq<char>,
    pub principals: Seq<Seq<char>>,
    pub valid_after: u64,
    pub valid_before: u64,
    pub critical_options: Map<Seq<char>, Seq<char>>,
    pub extensions: Map<Seq<char>, Seq<char>>,
    pub reserved: Seq<u8>,
    pub comment: Seq<char>,
    pub signature_key: Seq<u8>,
    pub signature: Seq<u8>,
}

/// What a `Builder` holds.
pub uninterp spec fn draft_fields(builder: Builder) -> DraftView;

/// What a `Certificate` holds.
pub uninterp spec fn certificate_fields(certificate: Certificate) -> CertificateView;

/// No options at all.
pub open spec fn no_options() -> Map<Seq<char>, Seq<char>> {
    Map::empty()
}

/// The draft in which nothing is set yet.
pub open spec fn empty_draft(
    nonce: Seq<u8>,
    public_key: Seq<u8>,
    valid_after: u64,
    valid_before: u64,
) -> DraftView {
    DraftView {
        nonce,
        public_key,
        serial: None,
        kind: None,
        key_id: None,
        principals: None,
        valid_after,
        valid_before,
        critical_options: no_options(),
        extensions: no_options(),
        comment: None,
    }
}

/// A window of time that a certificate can have: it does not end before it
/// begins, and its end is no later than ssh_key allows for a time.
pub open spec fn window(valid_after: u64, valid_before: u64) -> bool {
    valid_after <= valid_before <= i64::MAX
}

/// Calls `Builder::new_with_random_nonce` for the public half of a key. The nonce
/// is left to chance; nothing else is set. The window is the only thing that it
/// refuses, on a machine whose times count the seconds in 64 bits.
#[verifier::external_body]
pub(crate) fn new_builder(pem: &str, valid_after: u64, valid_before: u64) -> (r: Result<
    Builder,
    String,
>)
    requires
        ssh_key_read(pem@) is Ok,
    ensures
        r is Ok <==> window(valid_after, valid_before),
        r matches Ok(b) ==> draft_fields(b) == empty_draft(
            draft_fields(b).nonce,
            ssh_public(pem@),
            valid_after,
            valid_before,
        ),
{
    let key = PrivateKey::from_openssh(pem).map_err(|e| format!("{:?}", e))?;
    Builder::new_with_random_nonce(
        &mut rand::thread_rng(),
        key.public_key(),
        valid_after,
        valid_before,
    ).map_err(|e| format!("{:?}", e))
}

/// Calls `Builder::serial`, which refuses a serial number only if one was set.
#[verifier::external_body]
pub(crate) fn set_serial(builder: &mut Builder, serial: u64) -> (r: Result<(), String>)
    ensures
        r is Ok <==> draft_fields(*old(builder)).serial is None,
        draft_fields(*final(builder)) == (if r is Ok {
            DraftView { serial: Some(serial), ..draft_fields(*old(builder)) }
        } else {
            draft_fields(*old(builder))
        }),
{
    builder.serial(serial).map(|_| ()).map_err(|e| format!("{:?}", e))
}

/// Calls `Builder::cert_type`, which refuses a kind only if one was set.
#[verifier::external_body]
pub(crate) fn set_kind(builder: &mut Builder, kind: CertificateKind) -> (r: Result<(), String>)
    ensures
        r is Ok <==> draft_fields(*old(builder)).kind is None,
        draft_fields(*final(builder)) == (if r is Ok {
            DraftView { kind: Some(kind), ..draft_fields(*old(builder)) }
        } else {
            draft_fields(*old(builder))
        }),
{
    let cert_type = match kind {
        CertificateKind::User => CertType::User,
        CertificateKind::Host => CertType::Host,
    };
    builder.cert_type(cert_type).map(|_| ()).map_err(|e| format!("{:?}", e))
}

/// Calls `Builder::key_id`, which refuses a label only if one was set.
#[verifier::external_body]
pub(crate) fn set_key_id(builder: &mut Builder, key_id: &str) -> (r: Result<(), String>)
    ensures
        r is Ok <==> draft_fields(*old(builder)).key_id is None,
        draft_fields(*final(builder)) == (if r is Ok {
            DraftView { key_id: Some(key_id@), ..draft_fields(*old(builder)) }
        } else {
            draft_fields(*old(builder))
        }),
{
    builder.key_id(key_id).map(|_| ()).map_err(|e| format!("{:?}", e))
}

/// Calls `Builder::valid_principal`, which adds a principal and never refuses.
#[verifier::external_body]
pub(crate) fn add_principal(builder: &mut Builder, principal: &str) -> (r: Result<(), String>)
    ensures
        r is Ok,
        draft_fields(*final(builder)) == (DraftView {
            principals: Some(
                match draft_fields(*old(builder)).principals {
                    Some(list) => list.push(principal@),
                    None => seq![principal@],
                },
            ),
            ..draft_fields(*old(builder))
        }),
{
    builder.valid_principal(principal).map(|_| ()).map_err(|e| format!("{:?}", e))
}

/// Calls `Builder::extension`, which refuses an extension only if one of that
/// name was added.
#[verifier::external_body]
pub(crate) fn add_extension(builder: &mut Builder, name: &str, data: &str) -> (r: Result<
    (),
    String,
>)
    ensures
        r is Ok <==> !draft_fields(*old(builder)).extensions.contains_key(name@),
        draft_fields(*final(builder)) == (if r is Ok {
            DraftView {
                extensions: draft_fields(*old(builder)).extensions.insert(name@, data@),
                ..draft_fields(*old(builder))
            }
        } else {
            draft_fields(*old(builder))
        }),
{
    builder.extension(name, data).map(|_| ()).map_err(|e| format!("{:?}", e))
}

/// What a certificate holds that is made of a draft and was signed. What the draft
/// leaves open is zero or empty, and the certificate is for a user.
pub open spec fn made_of(
    draft: DraftView,
    signature_key: Seq<u8>,
    signature: Seq<u8>,
) -> CertificateView {
    CertificateView {
        nonce: draft.nonce,
        public_key: draft.public_key,
        serial: match draft.serial {
            Some(serial) => serial,
            None => 0,
        },
        kind: match draft.kind {
            Some(kind) => kind,
            None => CertificateKind::User,
        },
        key_id: match draft.key_id {
            Some(label) => label,
            None => Seq::empty(),
        },
        principals: match draft.principals {
            Some(list) => list,
            None => Seq::empty(),
        },
        valid_after: draft.valid_after,
        valid_before: draft.valid_before,
        critical_options: draft.critical_options,
        extensions: draft.extensions,
        reserved: Seq::empty(),
        comment: match draft.comment {
            Some(text) => text,
            None => Seq::empty(),
        },
        signature_key,
        signature,
    }
}

/// Whether `Certificate::verify_signature` accepts a certificate: its signature is
/// one over its other fields by the key whose public half it names.
pub uninterp spec fn certificate_verifies(certificate: CertificateView) -> bool;

/// How many characters a label or a principal may have, at the least, for a
/// certificate to be written. The lengths in a certificate have 32 bits.
pub const LONGEST_TEXT: u64 = 67_108_864;

/// Options of which there are not too many and that are not too long.
pub open spec fn short_options(options: Map<Seq<char>, Seq<char>>) -> bool {
    &&& options.dom().finite()
    &&& options.dom().len() <= 100
    &&& forall|name: Seq<char>| #[trigger]
        options.contains_key(name) ==> name.len() <= 1000 && options[name].len() <= 1000
}

/// A certificate with one principal whose texts are not too long to be written.
pub open spec fn short(certificate: CertificateView) -> bool {
    &&& certificate.key_id.len() <= LONGEST_TEXT
    &&& certificate.principals.len() == 1
    &&& certificate.principals[0].len() <= LONGEST_TEXT
    &&& certificate.reserved.len() <= 1000
    &&& certificate.comment.len() <= 1000
    &&& short_options(certificate.critical_options)
    &&& short_options(certificate.extensions)
}

/// Calls `Builder::sign` with a key. Only an open key of Ed25519 signs. It does so
/// if one principal was named, the window is not empty and nothing is too long. The
/// certificate holds what the draft holds, and its signature verifies.
#[verifier::external_body]
pub(crate) fn sign_draft(builder: Builder, pem: &str) -> (r: Result<Certificate, String>)
    requires
        ssh_key_read(pem@) is Ok,
    ensures
        r is Ok ==> open_key(pem@, "ssh-ed25519"@),
        open_key(pem@, "ssh-ed25519"@) && draft_fields(builder).valid_after < draft_fields(
            builder,
        ).valid_before && short(made_of(draft_fields(builder), ssh_public(pem@), Seq::empty()))
            ==> r is Ok,
        r matches Ok(c) ==> certificate_fields(c) == made_of(
            draft_fields(builder),
            ssh_public(pem@),
            certificate_fields(c).signature,
        ) && certificate_verifies(certificate_fields(c)),
{
    let key = PrivateKey::from_openssh(pem).map_err(|e| format!("{:?}", e))?;
    builder.sign(&key).map_err(|e| format!("{:?}", e))
}

/// The line in which `Certificate::to_openssh` writes a certificate, or the debug
/// text of the error.
pub uninterp spec fn certificate_line(certificate: CertificateView) -> Result<
    Seq<char>,
    Seq<char>,
>;

/// Calls `Certificate::to_openssh`. The line depends on the fields alone. Nothing
/// but a length is refused.
#[verifier::external_body]
pub(crate) fn write_certificate(certificate: &Certificate) -> (r: Result<String, String>)
    ensures
        told_text(r) == certificate_line(certificate_fields(*certificate)),
        short(certificate_fields(*certificate)) ==> r is Ok,
{
    certificate.to_openssh().map_err(|e| format!("{:?}", e))
}

} // verus!
