use iam_service::models::{BasicAuth, DockerAccess};
use iam_service::routes::docker::{
    answer_docker_token, claim_docker_token, compute_libtrust_kid, generate_docker_token,
    generate_docker_token_at, get_docker_token, read_registry_key, read_scope, subject_of,
    write_in_fours, write_kid,
};
use jsonwebtoken::{decode, decode_header, Algorithm, DecodingKey, Validation};
use p256::pkcs8::{EncodePrivateKey, EncodePublicKey, LineEnding};
use sha2::Digest;

const NOON: i64 = 1_700_000_000_000_000;

fn key() -> p256::SecretKey {
    p256::SecretKey::from_slice(&[7u8; 32]).unwrap()
}

fn pkcs8() -> Result<String, String> {
    Ok(key().to_pkcs8_pem(LineEnding::LF).unwrap().to_string())
}

/// The key in the format of SEC 1, with its curve, as OpenSSL writes it.
fn sec1() -> Result<String, String> {
    let mut der = vec![0x30, 0x77, 0x02, 0x01, 0x01, 0x04, 0x20];
    der.extend(key().to_bytes());
    der.extend([0xa0, 0x0a, 0x06, 0x08, 0x2a, 0x86, 0x48, 0xce, 0x3d, 0x03, 0x01, 0x07]);
    der.extend([0xa1, 0x44, 0x03, 0x42, 0x00]);
    der.extend(key().public_key().to_sec1_bytes().iter());
    Ok(sec1::der::pem::encode_string("EC PRIVATE KEY", LineEnding::LF, &der).unwrap())
}

fn kid() -> String {
    let der = key().public_key().to_public_key_der().unwrap();
    let digest = sha2::Sha256::digest(der.as_bytes());
    let text = base32::encode(base32::Alphabet::RFC4648 { padding: false }, &digest[..30]);
    let groups: Vec<&str> = (0..12).map(|i| &text[4 * i..4 * i + 4]).collect();
    groups.join(":")
}

fn read(token: &str, service: &str) -> serde_json::Value {
    let pem = key().public_key().to_public_key_pem(LineEnding::LF).unwrap();
    let mut validation = Validation::new(Algorithm::ES256);
    validation.validate_exp = false;
    validation.set_audience(&[service]);
    let key = DecodingKey::from_ec_pem(pem.as_bytes()).unwrap();
    decode::<serde_json::Value>(token, &key, &validation).unwrap().claims
}

fn access(resource_type: &str, name: &str, actions: &[&str]) -> DockerAccess {
    DockerAccess {
        resource_type: resource_type.to_string(),
        name: name.to_string(),
        actions: actions.iter().map(|a| a.to_string()).collect(),
    }
}

#[test]
fn a_scope_is_read_word_by_word() {
    assert_eq!(
        read_scope("repository:team/app:pull,push registry:catalog:*"),
        vec![
            access("repository", "team/app", &["pull", "push"]),
            access("registry", "catalog", &["*"]),
        ]
    );
    assert_eq!(read_scope(""), vec![]);
    assert_eq!(read_scope("  malformed  two:parts "), vec![]);
    assert_eq!(
        read_scope("a:b:c:d,,e, ::"),
        vec![access("a", "b", &["c:d", "e"]), access("", "", &[])]
    );
}

#[test]
fn a_scope_of_two_scopes_gives_access_to_both() {
    let (a, b) = ("repository:x:pull junk", "repository:y:push");
    let mut both = read_scope(a);
    both.extend(read_scope(b));
    assert_eq!(read_scope(&format!("{}\t{}", a, b)), both);
}

#[test]
fn a_kid_has_twelve_groups_of_four() {
    assert_eq!(write_in_fours("ABCDEFGHIJ"), "ABCD:EFGH:IJ");
    assert_eq!(write_in_fours("ABCD"), "ABCD");
    assert_eq!(write_in_fours(""), "");
    let digest: Vec<u8> = (0..32).collect();
    let text = write_kid(&digest);
    assert_eq!(text, "AAAQ:EAYE:AUDA:OCAJ:BIFQ:YDIO:B4IB:CEQT:CQKR:MFYY:DENB:WHA5");
    assert_eq!(text.len(), 59);
}

#[test]
fn the_kid_is_that_of_the_public_key() {
    let secret = key().to_bytes().to_vec();
    assert_eq!(compute_libtrust_kid(&secret).unwrap(), kid());
}

#[test]
fn a_key_is_read_in_either_format() {
    let (text, id) = read_registry_key(&pkcs8()).unwrap();
    assert_eq!(text, pkcs8().unwrap());
    assert_eq!(id, kid());
    let (text, id) = read_registry_key(&sec1()).unwrap();
    assert_eq!(text, pkcs8().unwrap());
    assert_eq!(id, kid());
}

#[test]
fn a_missing_or_malformed_key_is_reported() {
    let message = |pem: Result<String, String>| {
        let e = generate_docker_token("registry", &None, "ada", &pem, &None).unwrap_err();
        assert_eq!(e.status_code, 500);
        e.message
    };
    assert_eq!(
        message(Err("NotPresent".to_string())),
        "generate_docker_token: reading DOCKER_REGISTRY_PRIVATE_KEY env var: NotPresent"
    );
    assert!(message(Ok("BEGIN EC PRIVATE KEY".to_string()))
        .starts_with("generate_docker_token: parsing SEC1 PEM private key: "));
    assert!(message(Ok("nothing".to_string()))
        .starts_with("generate_docker_token: parsing PKCS8 PEM private key: "));
}

#[test]
fn a_token_says_what_was_asked() {
    let scope = Some("repository:team/app:pull,push".to_string());
    let issuer = Some("issuer".to_string());
    let made = generate_docker_token_at(
        NOON,
        "id".to_string(),
        "registry",
        &scope,
        "ada",
        &sec1(),
        &issuer,
    )
    .unwrap();
    assert_eq!(made.expires_in, 300);
    let header = decode_header(&made.token).unwrap();
    assert_eq!(header.kid, Some(kid()));
    assert_eq!(header.typ, Some("JWT".to_string()));
    assert_eq!(header.alg, Algorithm::ES256);
    let claims = read(&made.token, "registry");
    assert_eq!(claims["iss"], "issuer");
    assert_eq!(claims["sub"], "ada");
    assert_eq!(claims["aud"], "registry");
    assert_eq!(claims["iat"], 1_700_000_000);
    assert_eq!(claims["nbf"], 1_699_999_990);
    assert_eq!(claims["exp"], 1_700_000_300);
    assert_eq!(claims["jti"], "id");
    let entry = &claims["access"][0];
    assert_eq!(entry["type"], "repository");
    assert_eq!(entry["name"], "team/app");
    assert_eq!(entry["actions"][0], "pull");
    assert_eq!(entry["actions"][1], "push");
    assert!(claims["access"][1].is_null());
}

#[test]
fn the_format_of_the_key_does_not_matter() {
    let scope = Some("repository:name:".to_string());
    let made = |pem: Result<String, String>| {
        generate_docker_token("registry", &scope, "ada", &pem, &None).unwrap().token
    };
    let (one, other) = (made(sec1()), made(pkcs8()));
    assert_eq!(decode_header(&one).unwrap(), decode_header(&other).unwrap());
    let (one, other) = (read(&one, "registry"), read(&other, "registry"));
    for claim in ["iss", "sub", "aud", "access"] {
        assert_eq!(one[claim], other[claim]);
    }
    assert_eq!(one["access"][0]["actions"], serde_json::Value::Array(vec![]));
}

#[test]
fn without_a_scope_a_token_gives_access_to_nothing() {
    let made = generate_docker_token("registry", &None, "ada", &pkcs8(), &None).unwrap();
    assert_eq!(read(&made.token, "registry")["access"], serde_json::Value::Array(vec![]));
}

#[test]
fn claims_have_defaults() {
    let claims = claim_docker_token("registry", &None, "", &None, 3_000_000, "j".to_string());
    assert_eq!(claims.iss, "my-auth-server");
    assert_eq!(claims.access, vec![]);
    assert_eq!((claims.nbf, claims.iat, claims.exp), (0, 3, 303));
}

#[test]
fn a_token_is_made_as_of_now_for_the_subject() {
    let auth = BasicAuth { subject: "ada".to_string() };
    let made = get_docker_token(
        auth,
        "registry".to_string(),
        None,
        Some("other".to_string()),
        pkcs8(),
        None,
    )
    .unwrap();
    let claims = read(&made.token, "registry");
    assert_eq!(claims["sub"], "ada");
    assert_eq!(claims["jti"].as_str().unwrap().len(), 32);
    let now = chrono::Utc::now().timestamp();
    assert!((now - claims["iat"].as_i64().unwrap()).abs() < 10);
}

#[test]
fn the_subject_is_the_authenticated_one_if_there_is_one() {
    let auth = |subject: &str| BasicAuth { subject: subject.to_string() };
    let account = Some("account".to_string());
    assert_eq!(subject_of(auth("ada"), &account), "ada");
    assert_eq!(subject_of(auth(""), &account), "account");
    assert_eq!(subject_of(auth(""), &None), "");
}

#[test]
fn a_failed_signing_is_reported() {
    let e = answer_docker_token(Err("InvalidKeyFormat".to_string())).unwrap_err();
    assert_eq!(e.message, "generate_docker_token: encoding JWT: InvalidKeyFormat");
    assert_eq!(answer_docker_token(Ok("t".to_string())).unwrap().token, "t");
}
