//! SSH user certificates: each comes with a fresh key and holds for as long as
//! its holder's kind of token warrants.

use crate::error::{at, fail, failure, ApiError, Failure, Status};
use crate::models::{APIClaims, Claims, ISCClaims, SshCertResponse};
use crate::outside::clock::{clocked, read_clock, seconds, shown, LAST_SECOND};
use crate::outside::random::{draw_number, draw_text, drawn, drawn_number, token_of};
use crate::outside::ssh::{
    add_extension, add_principal, certificate_fields, certificate_line, certificate_verifies,
    draft_fields, generated, made_of, make_ssh_key, new_builder, no_options, open_key, read_ssh_key,
    set_key_id, set_kind, set_serial, short_options, sign_draft, ssh_key_read, ssh_public,
    ssh_public_line, window, write_certificate, write_ssh_public_line, CertificateKind,
    CertificateView, DraftView, LONGEST_TEXT,
};
use crate::outside::told_text;
use crate::text::{digits, natural_text};
use crate::tokens::settled_text;
use ssh_key::certificate::Builder;
use vstd::prelude::*;

verus! {

/// Where the signing key of the authority is mounted.
pub const CA_KEY_PATH: &'static str = "/etc/ssh-ca/ca_key";

/// The signing key of the authority, from what reading its file gave.
pub open spec fn ca_key(file: Result<Seq<char>, Seq<char>>) -> Result<Seq<char>, Failure> {
    match file {
        Err(e) => Err(
            failure(
                Status::InternalServerError,
                at("load_ca_key"@, "reading CA key file at '"@ + CA_KEY_PATH@ + "'"@),
                e,
            ),
        ),
        Ok(pem) => match ssh_key_read(pem) {
            Err(e) => Err(
                failure(Status::InternalServerError, at("load_ca_key"@, "parsing CA key PEM"@), e),
            ),
            Ok(_) => Ok(pem),
        },
    }
}

/// Loads the signing key of the authority, from what reading its file gave.
pub fn load_ca_key(file: &Result<String, String>) -> (r: Result<String, ApiError>)
    ensures
        settled_text(r) == ca_key(told_text(*file)),
        r matches Ok(pem) ==> ssh_key_read(pem@) is Ok,
{
    match file {
        Err(e) => Err(
            fail(
                Status::InternalServerError,
                "load_ca_key",
                "reading CA key file at '".to_owned().concat(CA_KEY_PATH).concat("'").as_str(),
                e.as_str(),
            ),
        ),
        Ok(pem) => match read_ssh_key(pem.as_str()) {
            Err(e) => Err(
                fail(
                    Status::InternalServerError,
                    "load_ca_key",
                    "parsing CA key PEM",
                    e.as_str(),
                ),
            ),
            Ok(_) => Ok(pem.clone()),
        },
    }
}

/// How long a certificate holds, in words: in whole days, in whole hours, or in
/// whole minutes.
pub open spec fn validity(ttl_seconds: nat) -> Seq<char> {
    let minutes = ttl_seconds / 60;
    if minutes >= 1440 {
        digits(minutes / 1440) + " day(s)"@
    } else if minutes >= 60 {
        digits(minutes / 60) + " hour(s)"@
    } else {
        digits(minutes) + " minute(s)"@
    }
}

/// Tells in words how long a certificate holds.
pub fn tell_validity(ttl_seconds: u64) -> (r: String)
    ensures
        r@ == validity(ttl_seconds as nat),
{
    let minutes = ttl_seconds / 60;
    if minutes >= 60 * 24 {
        natural_text(minutes / (60 * 24)).concat(" day(s)")
    } else if minutes >= 60 {
        natural_text(minutes / 60).concat(" hour(s)")
    } else {
        natural_text(minutes).concat(" minute(s)")
    }
}

/// A failure of [`issue_cert`].
pub open spec fn issue_failure(what: Seq<char>, cause: Seq<char>) -> Failure {
    failure(Status::InternalServerError, at("issue_cert"@, what), cause)
}

fn issue_fail(what: &str, cause: &str) -> (r: ApiError)
    ensures
        r@ == issue_failure(what@, cause@),
{
    fail(Status::InternalServerError, "issue_cert", what, cause)
}

/// A failure to draft a certificate.
pub open spec fn draft_failed(principal: Seq<char>, f: Failure) -> bool {
    exists|cause: Seq<char>|
        f == #[trigger] issue_failure(
            "CertBuilder::new_with_random_nonce for principal '"@ + principal + "'"@,
            cause,
        )
}

/// A failure to sign a certificate.
pub open spec fn signing_failed(principal: Seq<char>, f: Failure) -> bool {
    exists|cause: Seq<char>|
        f == #[trigger] issue_failure(
            "signing certificate for principal '"@ + principal + "'"@,
            cause,
        )
}

/// A failure to write a certificate.
pub open spec fn writing_failed(f: Failure) -> bool {
    exists|cause: Seq<char>|
        f == #[trigger] issue_failure("serializing certificate to OpenSSH format"@, cause)
}

/// What a certificate permits. Nothing more is said of any of it.
pub open spec fn permissions() -> Map<Seq<char>, Seq<char>> {
    no_options().insert("permit-pty"@, ""@).insert("permit-port-forwarding"@, ""@).insert(
        "permit-agent-forwarding"@,
        ""@,
    ).insert("permit-user-rc"@, ""@)
}

/// When a certificate that is made at a time begins to be valid: ten seconds
/// before.
pub open spec fn valid_from(now: i64) -> u64 {
    if seconds(now) >= 10 {
        (seconds(now) - 10) as u64
    } else {
        0
    }
}

/// When a certificate that is made at a time and holds for some seconds ends to
/// be valid.
pub open spec fn valid_until(now: i64, ttl_seconds: u64) -> u64 {
    (seconds(now) + ttl_seconds) as u64
}

/// The draft of the user certificate for a principal that is made at a time and
/// holds for some seconds, with a serial number and a random end of its label.
pub open spec fn draft_for(
    principal: Seq<char>,
    ttl_seconds: u64,
    now: i64,
    serial: u64,
    suffix: Seq<char>,
    public_key: Seq<u8>,
    nonce: Seq<u8>,
) -> DraftView {
    DraftView {
        nonce,
        public_key,
        serial: Some(serial),
        kind: Some(CertificateKind::User),
        key_id: Some(principal + "-ephemeral-"@ + suffix),
        principals: Some(seq![principal]),
        valid_after: valid_from(now),
        valid_before: valid_until(now, ttl_seconds),
        critical_options: no_options(),
        extensions: permissions(),
        comment: None,
    }
}

/// A life that ends before the calendar of the machine does.
pub open spec fn fits_calendar(ttl_seconds: u64) -> bool {
    ttl_seconds + LAST_SECOND <= u64::MAX
}

/// Adds what a certificate permits to a draft that permits nothing.
fn permit(builder: &mut Builder) -> (r: Result<(), ApiError>)
    requires
        draft_fields(*old(builder)).extensions == no_options(),
    ensures
        r is Ok,
        draft_fields(*final(builder)) == (DraftView {
            extensions: permissions(),
            ..draft_fields(*old(builder))
        }),
{
    proof {
        reveal_strlit("permit-pty");
        reveal_strlit("permit-port-forwarding");
        reveal_strlit("permit-agent-forwarding");
        reveal_strlit("permit-user-rc");
        assert("permit-pty"@.len() == 10);
        assert("permit-port-forwarding"@.len() == 22);
        assert("permit-agent-forwarding"@.len() == 23);
        assert("permit-user-rc"@.len() == 14);
    }
    if let Err(e) = add_extension(builder, "permit-pty", "") {
        return Err(issue_fail("adding permit-pty extension", e.as_str()));
    }
    if let Err(e) = add_extension(builder, "permit-port-forwarding", "") {
        return Err(issue_fail("adding permit-port-forwarding extension", e.as_str()));
    }
    if let Err(e) = add_extension(builder, "permit-agent-forwarding", "") {
        return Err(issue_fail("adding permit-agent-forwarding extension", e.as_str()));
    }
    if let Err(e) = add_extension(builder, "permit-user-rc", "") {
        return Err(issue_fail("adding permit-user-rc extension", e.as_str()));
    }
    Ok(())
}

/// Drafts the user certificate for a principal, for the public half of a key. It
/// fails only if the window of time is one that a certificate cannot have.
pub fn draft_certificate(
    principal: &str,
    ttl_seconds: u64,
    now: i64,
    serial: u64,
    suffix: &str,
    user_pem: &str,
) -> (r: Result<Builder, ApiError>)
    requires
        shown(now),
        fits_calendar(ttl_seconds),
        ssh_key_read(user_pem@) is Ok,
    ensures
        r is Ok <==> window(valid_from(now), valid_until(now, ttl_seconds)),
        r matches Ok(builder) ==> draft_fields(builder) == draft_for(
            principal@,
            ttl_seconds,
            now,
            serial,
            suffix@,
            ssh_public(user_pem@),
            draft_fields(builder).nonce,
        ),
        r matches Err(e) ==> draft_failed(principal@, e@),
{
    let time: u64 = (now / 1_000_000) as u64;
    let mut builder = match new_builder(user_pem, time.saturating_sub(10), time + ttl_seconds) {
        Err(e) => {
            return Err(
                issue_fail(
                    "CertBuilder::new_with_random_nonce for principal '".to_owned().concat(
                        principal,
                    ).concat("'").as_str(),
                    e.as_str(),
                ),
            );
        },
        Ok(builder) => builder,
    };
    if let Err(e) = set_serial(&mut builder, serial) {
        return Err(issue_fail("setting serial", e.as_str()));
    }
    if let Err(e) = set_kind(&mut builder, CertificateKind::User) {
        return Err(issue_fail("setting cert_type", e.as_str()));
    }
    let key_id = principal.to_owned().concat("-ephemeral-").concat(suffix);
    if let Err(e) = set_key_id(&mut builder, key_id.as_str()) {
        return Err(issue_fail("setting key_id", e.as_str()));
    }
    if let Err(e) = add_principal(&mut builder, principal) {
        return Err(
            issue_fail(
                "setting valid_principal '".to_owned().concat(principal).concat("'").as_str(),
                e.as_str(),
            ),
        );
    }
    match permit(&mut builder) {
        Err(e) => Err(e),
        Ok(()) => Ok(builder),
    }
}

/// What is answered for a certificate: the key that it is for, and the line of the
/// certificate, or the first failure. The public half of the key is written
/// before the certificate.
pub open spec fn certified(
    principal: Seq<char>,
    ttl_seconds: u64,
    user_pem: String,
    public_key: Result<String, String>,
    certificate: Result<String, String>,
    r: Result<SshCertResponse, ApiError>,
) -> bool {
    match (public_key, certificate, r) {
        (Err(e), _, Err(f)) => f@ == issue_failure(
            "serializing public key to OpenSSH format"@,
            e@,
        ),
        (Ok(_), Err(e), Err(f)) => f@ == issue_failure(
            "serializing certificate to OpenSSH format"@,
            e@,
        ),
        (Ok(public_key), Ok(certificate), Ok(response)) => {
            &&& response.private_key_pem == user_pem
            &&& response.public_key == public_key
            &&& response.certificate == certificate
            &&& response.valid_for@ == validity(ttl_seconds as nat)
            &&& response.principal@ == principal
        },
        _ => false,
    }
}

/// Answers once the public half of the key and the certificate were written.
pub fn answer_certificate(
    principal: &str,
    ttl_seconds: u64,
    user_pem: String,
    public_key: Result<String, String>,
    certificate: Result<String, String>,
) -> (r: Result<SshCertResponse, ApiError>)
    ensures
        certified(principal@, ttl_seconds, user_pem, public_key, certificate, r),
{
    match public_key {
        Err(e) => Err(issue_fail("serializing public key to OpenSSH format", e.as_str())),
        Ok(public_key) => match certificate {
            Err(e) => Err(issue_fail("serializing certificate to OpenSSH format", e.as_str())),
            Ok(certificate) => Ok(
                SshCertResponse {
                    private_key_pem: user_pem,
                    public_key,
                    certificate,
                    valid_for: tell_validity(ttl_seconds),
                    principal: principal.to_owned(),
                },
            ),
        },
    }
}

/// The certificate of an authority for a principal and the public half of a key
/// that is made at a time and holds for some seconds, with a serial number and an
/// end of its label.
pub open spec fn certificate_for(
    principal: Seq<char>,
    ttl_seconds: u64,
    now: i64,
    serial: u64,
    suffix: Seq<char>,
    user_pem: Seq<char>,
    authority: Seq<char>,
    nonce: Seq<u8>,
    signature: Seq<u8>,
) -> CertificateView {
    made_of(
        draft_for(principal, ttl_seconds, now, serial, suffix, ssh_public(user_pem), nonce),
        ssh_public(authority),
        signature,
    )
}

/// Whether a response comes with a key, its public half and a certificate for a
/// principal, the signature of which verifies.
pub open spec fn carries(
    principal: Seq<char>,
    ttl_seconds: u64,
    user_pem: Seq<char>,
    certificate: CertificateView,
    response: SshCertResponse,
) -> bool {
    &&& response.private_key_pem@ == user_pem
    &&& ssh_public_line(user_pem) == Ok::<Seq<char>, Seq<char>>(response.public_key@)
    &&& certificate_line(certificate) == Ok::<Seq<char>, Seq<char>>(response.certificate@)
    &&& certificate_verifies(certificate)
    &&& response.valid_for@ == validity(ttl_seconds as nat)
    &&& response.principal@ == principal
}

/// Whether a result is one that is owed for a principal, a life in seconds, a time,
/// a serial number, an end of the label and a key, given what reading the key of
/// the authority gave. The nonce and the signature are all that is left open.
pub open spec fn issued_with(
    principal: Seq<char>,
    ttl_seconds: u64,
    now: i64,
    serial: u64,
    suffix: Seq<char>,
    user_pem: Seq<char>,
    file: Result<Seq<char>, Seq<char>>,
    r: Result<SshCertResponse, ApiError>,
) -> bool {
    let holds = window(valid_from(now), valid_until(now, ttl_seconds));
    match (ca_key(file), r) {
        (Err(f), Err(e)) => e@ == f,
        (Err(f), Ok(_)) => false,
        (Ok(authority), Ok(response)) => {
            &&& holds
            &&& open_key(authority, "ssh-ed25519"@)
            &&& exists|nonce: Seq<u8>, signature: Seq<u8>|
                carries(
                    principal,
                    ttl_seconds,
                    user_pem,
                    #[trigger] certificate_for(
                        principal,
                        ttl_seconds,
                        now,
                        serial,
                        suffix,
                        user_pem,
                        authority,
                        nonce,
                        signature,
                    ),
                    response,
                )
        },
        (Ok(authority), Err(e)) => {
            ||| !holds && draft_failed(principal, e@)
            ||| holds && signing_failed(principal, e@) && !(open_key(authority, "ssh-ed25519"@)
                && valid_from(now) < valid_until(now, ttl_seconds) && fits_label(principal))
            ||| holds && writing_failed(e@) && open_key(authority, "ssh-ed25519"@) && !fits_label(
                principal,
            )
        },
    }
}

/// Whether a response comes with an open Ed25519 key that was made for it, its public
/// half and a certificate for it, which the authority signed at a time that the clock
/// gave for a principal and a life in seconds, with a serial number and an end of the
/// label that were drawn.
pub open spec fn issued_at(
    principal: Seq<char>,
    ttl_seconds: u64,
    now: i64,
    authority: Seq<char>,
    response: SshCertResponse,
    certificate: CertificateView,
) -> bool {
    &&& shown(now)
    &&& clocked(now)
    &&& generated("ssh-ed25519"@, response.private_key_pem@)
    &&& exists|serial: u64, suffix: Seq<char>|
        token_of(8, suffix) && drawn(8, suffix) && drawn_number(serial) && certificate
            == #[trigger] certificate_for(
            principal,
            ttl_seconds,
            now,
            serial,
            suffix,
            response.private_key_pem@,
            authority,
            certificate.nonce,
            certificate.signature,
        )
    &&& open_key(response.private_key_pem@, "ssh-ed25519"@)
    &&& carries(principal, ttl_seconds, response.private_key_pem@, certificate, response)
}

/// A life that is not empty and that ends in time for every certificate, whenever
/// it is made.
pub open spec fn fits_certificate(ttl_seconds: u64) -> bool {
    0 < ttl_seconds && ttl_seconds + LAST_SECOND <= i64::MAX
}

/// A principal that is not too long for a certificate, label and all.
pub open spec fn fits_label(principal: Seq<char>) -> bool {
    principal.len() + 19 <= LONGEST_TEXT
}

/// Whether a result is one that is owed for a principal and a life in seconds,
/// given what reading the key of the authority gave. Without the key, it is that
/// failure. An authority with an open Ed25519 key gives a certificate; any other
/// key does not sign.
pub open spec fn issued_to(
    principal: Seq<char>,
    ttl_seconds: u64,
    file: Result<Seq<char>, Seq<char>>,
    r: Result<SshCertResponse, ApiError>,
) -> bool {
    match (ca_key(file), r) {
        (Err(f), Err(e)) => e@ == f,
        (Err(f), Ok(_)) => false,
        (Ok(authority), Ok(response)) => {
            &&& open_key(authority, "ssh-ed25519"@)
            &&& exists|now: i64, certificate: CertificateView| #[trigger]
                issued_at(principal, ttl_seconds, now, authority, response, certificate)
        },
        (Ok(authority), Err(e)) => {
            ||| draft_failed(principal, e@) && !fits_certificate(ttl_seconds)
            ||| signing_failed(principal, e@) && !(open_key(authority, "ssh-ed25519"@)
                && fits_certificate(ttl_seconds) && fits_label(principal))
            ||| writing_failed(e@) && open_key(authority, "ssh-ed25519"@) && !fits_label(principal)
        },
    }
}

/// What a certificate permits is short.
proof fn permissions_are_short()
    ensures
        short_options(permissions()),
        short_options(no_options()),
{
    reveal_strlit("");
    reveal_strlit("permit-pty");
    reveal_strlit("permit-port-forwarding");
    reveal_strlit("permit-agent-forwarding");
    reveal_strlit("permit-user-rc");
}

/// Issues a certificate for a principal as of a given time, for a given key, with a
/// given serial number and end of its label: the authority signs a certificate for
/// that key, and the key is handed out with it.
pub fn issue_cert_at(
    principal: &str,
    ttl_seconds: u64,
    now: i64,
    serial: u64,
    suffix: &str,
    user_pem: String,
    file: &Result<String, String>,
) -> (r: Result<SshCertResponse, ApiError>)
    requires
        shown(now),
        fits_calendar(ttl_seconds),
        token_of(8, suffix@),
        open_key(user_pem@, "ssh-ed25519"@),
    ensures
        issued_with(
            principal@,
            ttl_seconds,
            now,
            serial,
            suffix@,
            user_pem@,
            told_text(*file),
            r,
        ),
        r matches Ok(response) ==> response.private_key_pem == user_pem,
{
    let authority = match load_ca_key(file) {
        Err(e) => {
            return Err(e);
        },
        Ok(pem) => pem,
    };
    let draft = draft_certificate(
        principal,
        ttl_seconds,
        now,
        serial,
        suffix,
        user_pem.as_str(),
    );
    let builder = match draft {
        Err(e) => {
            return Err(e);
        },
        Ok(builder) => builder,
    };
    let ghost held = draft_fields(builder);
    proof {
        permissions_are_short();
        reveal_strlit("-ephemeral-");
        assert("-ephemeral-"@.len() == 11);
    }
    let certificate = match sign_draft(builder, authority.as_str()) {
        Err(e) => {
            return Err(
                issue_fail(
                    "signing certificate for principal '".to_owned().concat(principal).concat(
                        "'",
                    ).as_str(),
                    e.as_str(),
                ),
            );
        },
        Ok(certificate) => certificate,
    };
    let public_key = write_ssh_public_line(user_pem.as_str());
    let line = write_certificate(&certificate);
    let ghost fields = certificate_fields(certificate);
    assert(fields == certificate_for(
        principal@,
        ttl_seconds,
        now,
        serial,
        suffix@,
        user_pem@,
        authority@,
        held.nonce,
        fields.signature,
    ));
    answer_certificate(principal, ttl_seconds, user_pem, public_key, line)
}

/// What is owed at a time and with a key, a serial number and an end of the label
/// is owed in general.
proof fn issued_with_is_issued_to(
    principal: Seq<char>,
    ttl_seconds: u64,
    now: i64,
    serial: u64,
    suffix: Seq<char>,
    user_pem: Seq<char>,
    file: Result<Seq<char>, Seq<char>>,
    r: Result<SshCertResponse, ApiError>,
)
    requires
        shown(now),
        clocked(now),
        drawn_number(serial),
        drawn(8, suffix),
        generated("ssh-ed25519"@, user_pem),
        fits_calendar(ttl_seconds),
        token_of(8, suffix),
        open_key(user_pem, "ssh-ed25519"@),
        issued_with(principal, ttl_seconds, now, serial, suffix, user_pem, file, r),
    ensures
        issued_to(principal, ttl_seconds, file, r),
{
    match (ca_key(file), r) {
        (Ok(authority), Ok(response)) => {
            let (nonce, signature) = choose|nonce: Seq<u8>, signature: Seq<u8>|
                carries(
                    principal,
                    ttl_seconds,
                    user_pem,
                    #[trigger] certificate_for(
                        principal,
                        ttl_seconds,
                        now,
                        serial,
                        suffix,
                        user_pem,
                        authority,
                        nonce,
                        signature,
                    ),
                    response,
                );
            let certificate = certificate_for(
                principal,
                ttl_seconds,
                now,
                serial,
                suffix,
                user_pem,
                authority,
                nonce,
                signature,
            );
            assert(issued_at(principal, ttl_seconds, now, authority, response, certificate));
        },
        _ => {},
    }
}

/// Issues a certificate for a principal: a fresh key is made and the authority
/// signs a certificate for it, as of now.
pub fn issue_cert(principal: &str, ttl_seconds: u64, file: &Result<String, String>) -> (r: Result<
    SshCertResponse,
    ApiError,
>)
    requires
        fits_calendar(ttl_seconds),
    ensures
        issued_to(principal@, ttl_seconds, told_text(*file), r),
{
    let made = match make_ssh_key("ssh-ed25519") {
        Err(e) => {
            return Err(
                issue_fail(
                    "generating ephemeral keypair for principal '".to_owned().concat(
                        principal,
                    ).concat("'").as_str(),
                    e.as_str(),
                ),
            );
        },
        Ok(made) => made,
    };
    let user_pem = match made {
        Err(e) => {
            return Err(issue_fail("serializing private key to OpenSSH PEM", e.as_str()));
        },
        Ok(pem) => pem,
    };
    let now = read_clock();
    let serial = draw_number();
    let suffix = draw_text(8);
    let r = issue_cert_at(principal, ttl_seconds, now, serial, suffix.as_str(), user_pem, file);
    proof {
        issued_with_is_issued_to(
            principal@,
            ttl_seconds,
            now,
            serial,
            suffix@,
            user_pem@,
            told_text(*file),
            r,
        );
    }
    r
}

/// Issues a certificate for a user; it holds for ten hours.
pub fn ssh_cert_user_land(claims: Claims, file: Result<String, String>) -> (r: Result<
    SshCertResponse,
    ApiError,
>)
    ensures
        issued_to(claims.sub@, 36_000, told_text(file), r),
{
    let ttl: u64 = 10 * 60 * 60;
    issue_cert(claims.sub.as_str(), ttl, &file)
}

/// Issues a certificate for the holder of a session token; it holds for twenty
/// minutes.
pub fn ssh_cert_api_land(claims: APIClaims, file: Result<String, String>) -> (r: Result<
    SshCertResponse,
    ApiError,
>)
    ensures
        issued_to(claims.sub@, 1_200, told_text(file), r),
{
    let ttl: u64 = 20 * 60;
    issue_cert(claims.sub.as_str(), ttl, &file)
}

/// Issues a certificate for another service; it holds for 365 days.
pub fn ssh_cert_isc_land(claims: ISCClaims, file: Result<String, String>) -> (r: Result<
    SshCertResponse,
    ApiError,
>)
    ensures
        issued_to(claims.sub@, 31_536_000, told_text(file), r),
{
    let ttl: u64 = 365 * 24 * 60 * 60;
    issue_cert(claims.sub.as_str(), ttl, &file)
}

} // verus!
