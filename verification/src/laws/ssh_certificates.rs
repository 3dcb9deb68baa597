//! Laws of SSH certificates.

use crate::error::{ApiError, Failure};
use crate::models::{APIClaims, Claims, ISCClaims, SshCertResponse};
use crate::outside::clock::{clocked, seconds, shown, LAST_SECOND};
use crate::outside::random::{drawn, drawn_number, token_of};
use crate::outside::ssh::{
    certificate_line, certificate_verifies, draft_fields, generated, no_options, open_key, ssh_key_read,
    ssh_public, ssh_public_line, CertificateKind, CertificateView, LONGEST_TEXT,
};
use crate::outside::told_text;
use crate::routes::ssh_certificates::{
    answer_certificate, ca_key, carries, certificate_for, draft_certificate, fits_calendar, fits_certificate,
    fits_label, issue_cert, issue_cert_at, issued_at, issued_to, load_ca_key, permissions,
    ssh_cert_api_land, ssh_cert_isc_land, ssh_cert_user_land, tell_validity, valid_from,
    valid_until, validity, CA_KEY_PATH,
};
use crate::text::decimal;
use ssh_key::certificate::Builder;
use vstd::prelude::*;

verus! {

/// A certificate is valid when it is issued and for as long as was asked, from ten
/// seconds before.
pub proof fn certificate_is_valid_for_its_life(ttl_seconds: u64, now: i64)
    requires
        shown(now),
        fits_calendar(ttl_seconds),
    ensures
        valid_until(now, ttl_seconds) == seconds(now) + ttl_seconds,
        valid_from(now) <= seconds(now),
        seconds(now) - 10 <= valid_from(now),
{
}

/// A certificate that was issued comes with the key that it is for. It is one for
/// a user, the principal alone, and permits what every certificate does.
pub proof fn issued_certificate_is_for_its_principal(
    principal: Seq<char>,
    ttl_seconds: u64,
    file: Result<Seq<char>, Seq<char>>,
    response: SshCertResponse,
)
    requires
        issued_to(principal, ttl_seconds, file, Ok::<SshCertResponse, ApiError>(response)),
    ensures
        response.principal@ == principal,
        ca_key(file) matches Ok(authority) && exists|now: i64, certificate: CertificateView|
            #[trigger] issued_at(principal, ttl_seconds, now, authority, response, certificate)
                && certificate.kind == CertificateKind::User && certificate.principals == seq![
                principal,
            ] && certificate.valid_after == valid_from(now) && certificate.valid_before
                == valid_until(now, ttl_seconds) && certificate.extensions == permissions()
                && certificate.critical_options == no_options(),
{
}

/// An authority with an open Ed25519 key issues a certificate for every principal
/// that is not too long.
pub proof fn authority_issues(
    principal: Seq<char>,
    ttl_seconds: u64,
    file: Result<Seq<char>, Seq<char>>,
    r: Result<SshCertResponse, ApiError>,
)
    requires
        ca_key(file) matches Ok(authority) && open_key(authority, "ssh-ed25519"@),
        fits_certificate(ttl_seconds),
        fits_label(principal),
        issued_to(principal, ttl_seconds, file, r),
    ensures
        r is Ok,
{
}

/// Without the key of the authority nothing is issued, and the failure is the one
/// to load it.
pub proof fn nothing_is_issued_without_authority(
    principal: Seq<char>,
    ttl_seconds: u64,
    file: Result<Seq<char>, Seq<char>>,
    r: Result<SshCertResponse, ApiError>,
)
    requires
        ca_key(file) is Err,
        issued_to(principal, ttl_seconds, file, r),
    ensures
        r matches Err(e) && ca_key(file) == Err::<Seq<char>, Failure>(e@) && e@.status_code == 500,
{
}

/// How long a life of some seconds is, in words: in whole days from a day on, below
/// that in whole hours from an hour on, and below that in whole minutes.
pub open spec fn in_words(ttl_seconds: u64) -> Seq<char> {
    if ttl_seconds >= 86_400 {
        decimal(ttl_seconds as int / 86_400) + " day(s)"@
    } else if ttl_seconds >= 3_600 {
        decimal(ttl_seconds as int / 3_600) + " hour(s)"@
    } else {
        decimal(ttl_seconds as int / 60) + " minute(s)"@
    }
}

proof fn validity_is_in_words(ttl_seconds: u64)
    ensures
        validity(ttl_seconds as nat) == in_words(ttl_seconds),
{
    let t = ttl_seconds as int;
    assert((t / 60) / 1440 == t / 86_400) by (nonlinear_arith)
        requires
            t >= 0,
    ;
    assert((t / 60) / 60 == t / 3_600) by (nonlinear_arith)
        requires
            t >= 0,
    ;
}

/// How long a certificate holds is told in whole days, hours or minutes.
pub proof fn life_is_told_in_words(ttl_seconds: u64, r: String)
    requires
        call_ensures(tell_validity, (ttl_seconds,), r),
    ensures
        r@ == in_words(ttl_seconds),
{
    validity_is_in_words(ttl_seconds);
}

/// The key of the authority is the one in its file, and one that can be read. A file
/// that cannot be read and a key that cannot be read are failures.
pub proof fn authority_is_the_one_in_the_file(
    file: Result<String, String>,
    r: Result<String, ApiError>,
)
    requires
        call_ensures(load_ca_key, (&file,), r),
    ensures
        match r {
            Ok(pem) => file matches Ok(text) && pem@ == text@ && ssh_key_read(text@) is Ok,
            Err(e) => e.error && e.status_code == 500 && match file {
                Ok(text) => ssh_key_read(text@) matches Err(cause) && e.message@
                    == "load_ca_key"@ + ": "@ + "parsing CA key PEM"@ + ": "@ + cause,
                Err(cause) => e.message@ == "load_ca_key"@ + ": "@ + (
                "reading CA key file at '"@ + "/etc/ssh-ca/ca_key"@ + "'"@) + ": "@ + cause@,
            },
        },
        CA_KEY_PATH@ == "/etc/ssh-ca/ca_key"@,
{
}

/// What every certificate permits: a terminal, the forwarding of ports and of the
/// agent, and the commands of the user at the start. Nothing more is said of any.
pub open spec fn four_permissions() -> Map<Seq<char>, Seq<char>> {
    map![
        "permit-pty"@ => ""@,
        "permit-port-forwarding"@ => ""@,
        "permit-agent-forwarding"@ => ""@,
        "permit-user-rc"@ => ""@,
    ]
}

/// Whether a certificate begins to be valid ten seconds before a time, if there are
/// ten, and ends some seconds after it.
pub open spec fn valid_around(
    valid_after: u64,
    valid_before: u64,
    now: i64,
    ttl_seconds: u64,
) -> bool {
    &&& valid_before == seconds(now) + ttl_seconds
    &&& if seconds(now) >= 10 {
        valid_after == seconds(now) - 10
    } else {
        valid_after == 0
    }
}

/// A draft is one of a user certificate for the principal alone and for the public
/// half of the key, labelled with the principal. It is valid from ten seconds before
/// the time for as long as was asked, and permits what every certificate does.
pub proof fn draft_is_for_its_principal(
    principal: &str,
    ttl_seconds: u64,
    now: i64,
    serial: u64,
    suffix: &str,
    user_pem: &str,
    builder: Builder,
)
    requires
        shown(now),
        ttl_seconds + LAST_SECOND <= u64::MAX,
        call_ensures(
            draft_certificate,
            (principal, ttl_seconds, now, serial, suffix, user_pem),
            Ok(builder),
        ),
    ensures
        ({
            let draft = draft_fields(builder);
            &&& draft.public_key == ssh_public(user_pem@)
            &&& draft.serial == Some(serial)
            &&& draft.kind == Some(CertificateKind::User)
            &&& draft.key_id == Some(principal@ + "-ephemeral-"@ + suffix@)
            &&& draft.principals == Some(seq![principal@])
            &&& valid_around(draft.valid_after, draft.valid_before, now, ttl_seconds)
            &&& draft.critical_options == Map::<Seq<char>, Seq<char>>::empty()
            &&& draft.extensions == four_permissions()
            &&& draft.comment is None
        }),
{
    assert(four_permissions() =~= permissions());
}

/// Whether a response holds an open Ed25519 key, the line of its public half, and the
/// line of a certificate for it, which the authority signed for a principal alone, and
/// says for whom and for how long.
pub open spec fn hands_out(
    response: SshCertResponse,
    certificate: CertificateView,
    principal: Seq<char>,
    ttl_seconds: u64,
    now: i64,
    suffix: Seq<char>,
    authority: Seq<char>,
) -> bool {
    &&& ssh_public_line(response.private_key_pem@) == Ok::<Seq<char>, Seq<char>>(
        response.public_key@,
    )
    &&& certificate_line(certificate) == Ok::<Seq<char>, Seq<char>>(response.certificate@)
    &&& certificate_verifies(certificate)
    &&& response.principal@ == principal
    &&& response.valid_for@ == in_words(ttl_seconds)
    &&& certificate.public_key == ssh_public(response.private_key_pem@)
    &&& certificate.signature_key == ssh_public(authority)
    &&& certificate.kind == CertificateKind::User
    &&& certificate.principals == seq![principal]
    &&& certificate.key_id == principal + "-ephemeral-"@ + suffix
    &&& valid_around(certificate.valid_after, certificate.valid_before, now, ttl_seconds)
    &&& certificate.critical_options == Map::<Seq<char>, Seq<char>>::empty()
    &&& certificate.extensions == four_permissions()
}

proof fn carried_is_handed_out(
    principal: Seq<char>,
    ttl_seconds: u64,
    now: i64,
    serial: u64,
    suffix: Seq<char>,
    authority: Seq<char>,
    nonce: Seq<u8>,
    signature: Seq<u8>,
    response: SshCertResponse,
)
    requires
        shown(now),
        ttl_seconds + LAST_SECOND <= u64::MAX,
        carries(
            principal,
            ttl_seconds,
            response.private_key_pem@,
            certificate_for(
                principal,
                ttl_seconds,
                now,
                serial,
                suffix,
                response.private_key_pem@,
                authority,
                nonce,
                signature,
            ),
            response,
        ),
    ensures
        hands_out(
            response,
            certificate_for(
                principal,
                ttl_seconds,
                now,
                serial,
                suffix,
                response.private_key_pem@,
                authority,
                nonce,
                signature,
            ),
            principal,
            ttl_seconds,
            now,
            suffix,
            authority,
        ),
{
    validity_is_in_words(ttl_seconds);
    assert(four_permissions() =~= permissions());
}

/// A certificate that was issued at a time for a key comes with that key. It is for
/// the principal alone, valid from ten seconds before the time for as long as was
/// asked, has the serial number and the label that were given, and is signed by the
/// authority whose key is in the file.
pub proof fn certificate_is_as_asked(
    principal: &str,
    ttl_seconds: u64,
    now: i64,
    serial: u64,
    suffix: &str,
    user_pem: String,
    file: Result<String, String>,
    response: SshCertResponse,
)
    requires
        shown(now),
        ttl_seconds + LAST_SECOND <= u64::MAX,
        call_ensures(
            issue_cert_at,
            (principal, ttl_seconds, now, serial, suffix, user_pem, &file),
            Ok(response),
        ),
    ensures
        response.private_key_pem == user_pem,
        file matches Ok(authority) && open_key(authority@, "ssh-ed25519"@) && exists|
            certificate: CertificateView,
        | #[trigger]
            hands_out(
                response,
                certificate,
                principal@,
                ttl_seconds,
                now,
                suffix@,
                authority@,
            ) && certificate.serial == serial,
{
    let authority = file->Ok_0@;
    let (nonce, signature) = choose|nonce: Seq<u8>, signature: Seq<u8>|
        carries(
            principal@,
            ttl_seconds,
            user_pem@,
            #[trigger] certificate_for(
                principal@,
                ttl_seconds,
                now,
                serial,
                suffix@,
                user_pem@,
                authority,
                nonce,
                signature,
            ),
            response,
        );
    carried_is_handed_out(
        principal@,
        ttl_seconds,
        now,
        serial,
        suffix@,
        authority,
        nonce,
        signature,
        response,
    );
}

/// Whether a result is the answer to a request for a certificate for a principal and a
/// life in seconds. An authority with an open Ed25519 key gives one for a key that was
/// made for it, as of a time that the clock gave, with a serial number that was drawn
/// and a label that ends in eight letters and digits that were drawn, if the principal
/// is not too long. Any other key gives none.
pub open spec fn answers_with_certificate(
    principal: Seq<char>,
    ttl_seconds: u64,
    file: Result<String, String>,
    r: Result<SshCertResponse, ApiError>,
) -> bool {
    match r {
        Ok(response) => {
            &&& open_key(response.private_key_pem@, "ssh-ed25519"@)
            &&& generated("ssh-ed25519"@, response.private_key_pem@)
            &&& file matches Ok(authority) && open_key(authority@, "ssh-ed25519"@) && exists|
                certificate: CertificateView,
                now: i64,
                suffix: Seq<char>,
            | #[trigger]
                hands_out(
                    response,
                    certificate,
                    principal,
                    ttl_seconds,
                    now,
                    suffix,
                    authority@,
                ) && shown(now) && token_of(8, suffix) && clocked(now) && drawn(8, suffix)
                    && drawn_number(certificate.serial)
        },
        Err(e) => {
            &&& e.error
            &&& e.status_code == 500
            &&& file matches Ok(authority) ==> !(open_key(authority@, "ssh-ed25519"@)
                && principal.len() + 19 <= LONGEST_TEXT)
        },
    }
}

proof fn issued_answers(
    principal: Seq<char>,
    ttl_seconds: u64,
    file: Result<String, String>,
    r: Result<SshCertResponse, ApiError>,
)
    requires
        0 < ttl_seconds,
        ttl_seconds + LAST_SECOND <= i64::MAX,
        issued_to(principal, ttl_seconds, told_text(file), r),
    ensures
        answers_with_certificate(principal, ttl_seconds, file, r),
{
    match r {
        Ok(response) => {
            let authority = file->Ok_0@;
            let (now, certificate) = choose|now: i64, certificate: CertificateView| #[trigger]
                issued_at(principal, ttl_seconds, now, authority, response, certificate);
            let (serial, suffix) = choose|serial: u64, suffix: Seq<char>|
                token_of(8, suffix) && drawn(8, suffix) && drawn_number(serial) && certificate
                    == #[trigger] certificate_for(
                    principal,
                    ttl_seconds,
                    now,
                    serial,
                    suffix,
                    response.private_key_pem@,
                    authority,
                    certificate.nonce,
                    certificate.signature,
                );
            carried_is_handed_out(
                principal,
                ttl_seconds,
                now,
                serial,
                suffix,
                authority,
                certificate.nonce,
                certificate.signature,
                response,
            );
            assert(hands_out(
                response,
                certificate,
                principal,
                ttl_seconds,
                now,
                suffix,
                authority,
            ) && shown(now) && token_of(8, suffix));
        },
        Err(_) => {},
    }
}

/// A request for a certificate that can be answered at every time is answered for its
/// principal and its life.
pub proof fn certificate_is_issued(
    principal: &str,
    ttl_seconds: u64,
    file: Result<String, String>,
    r: Result<SshCertResponse, ApiError>,
)
    requires
        0 < ttl_seconds,
        ttl_seconds + LAST_SECOND <= i64::MAX,
        call_ensures(issue_cert, (principal, ttl_seconds, &file), r),
    ensures
        answers_with_certificate(principal@, ttl_seconds, file, r),
{
    issued_answers(principal@, ttl_seconds, file, r);
}

/// A user gets a certificate for their address that holds for ten hours, the holder of
/// a session token one for its group that holds for twenty minutes, and another service
/// one for its name that holds for 365 days.
pub proof fn each_kind_of_token_has_its_life(
    claims: Claims,
    api_claims: APIClaims,
    isc_claims: ISCClaims,
    file: Result<String, String>,
    for_user: Result<SshCertResponse, ApiError>,
    for_token: Result<SshCertResponse, ApiError>,
    for_service: Result<SshCertResponse, ApiError>,
)
    requires
        call_ensures(ssh_cert_user_land, (claims, file), for_user),
        call_ensures(ssh_cert_api_land, (api_claims, file), for_token),
        call_ensures(ssh_cert_isc_land, (isc_claims, file), for_service),
    ensures
        answers_with_certificate(claims.sub@, 36_000, file, for_user),
        answers_with_certificate(api_claims.sub@, 1_200, file, for_token),
        answers_with_certificate(isc_claims.sub@, 31_536_000, file, for_service),
        for_user matches Ok(response) ==> response.valid_for@ == decimal(10) + " hour(s)"@,
        for_token matches Ok(response) ==> response.valid_for@ == decimal(20) + " minute(s)"@,
        for_service matches Ok(response) ==> response.valid_for@ == decimal(365) + " day(s)"@,
{
    issued_answers(claims.sub@, 36_000, file, for_user);
    issued_answers(api_claims.sub@, 1_200, file, for_token);
    issued_answers(isc_claims.sub@, 31_536_000, file, for_service);
}

/// What was written of a certificate is handed on with the key that it is for. The
/// first of the two lines that could not be written is the failure.
pub proof fn written_certificate_is_handed_on(
    principal: &str,
    ttl_seconds: u64,
    user_pem: String,
    public_key: Result<String, String>,
    certificate: Result<String, String>,
    r: Result<SshCertResponse, ApiError>,
)
    requires
        call_ensures(
            answer_certificate,
            (principal, ttl_seconds, user_pem, public_key, certificate),
            r,
        ),
    ensures
        match r {
            Ok(response) => {
                &&& public_key == Ok::<String, String>(response.public_key)
                &&& certificate == Ok::<String, String>(response.certificate)
                &&& response.private_key_pem == user_pem
                &&& response.principal@ == principal@
                &&& response.valid_for@ == in_words(ttl_seconds)
            },
            Err(f) => f.error && f.status_code == 500 && match (public_key, certificate) {
                (Err(e), _) => f.message@ == "issue_cert"@ + ": "@
                    + "serializing public key to OpenSSH format"@ + ": "@ + e@,
                (Ok(_), Err(e)) => f.message@ == "issue_cert"@ + ": "@
                    + "serializing certificate to OpenSSH format"@ + ": "@ + e@,
                (Ok(_), Ok(_)) => false,
            },
        },
{
    validity_is_in_words(ttl_seconds);
}

/// An authority with an open Ed25519 key issues a certificate at every time for every
/// life that a certificate can have and every principal that is not too long. Without
/// a key that can be read it issues none.
pub proof fn authority_issues_at_every_time(
    principal: &str,
    ttl_seconds: u64,
    now: i64,
    serial: u64,
    suffix: &str,
    user_pem: String,
    file: Result<String, String>,
    r: Result<SshCertResponse, ApiError>,
)
    requires
        shown(now),
        ttl_seconds + LAST_SECOND <= u64::MAX,
        call_ensures(
            issue_cert_at,
            (principal, ttl_seconds, now, serial, suffix, user_pem, &file),
            r,
        ),
    ensures
        file is Err ==> r is Err,
        file matches Ok(authority) ==> (ssh_key_read(authority@) is Err ==> r is Err),
        file matches Ok(authority) ==> (open_key(authority@, "ssh-ed25519"@) && 0 < ttl_seconds
            && seconds(now) + ttl_seconds <= i64::MAX && principal@.len() + 19 <= LONGEST_TEXT
            ==> r is Ok),
        r matches Err(e) ==> e.error && e.status_code == 500,
{
}

} // verus!
