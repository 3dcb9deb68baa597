use iam_service::models::{Claims, TokenOrder, User};
use iam_service::outside::clock::{FIRST_SECOND, LAST_SECOND};
use iam_service::protocol::{perform, Reply, Task};
use iam_service::tokens::{
    create_jwt, create_jwt_at, day_of, moment_after, order_for_holder, order_for_user,
};
use ginger_shared_rs::rocket_utils;
use jsonwebtoken::{decode, Algorithm, DecodingKey, Validation};

const NOON: i64 = 1_700_000_000_000_000;

fn secret() -> Result<String, String> {
    Ok("a secret for tests".to_string())
}

fn some(text: &str) -> Option<String> {
    Some(text.to_string())
}

fn read(token: &str) -> rocket_utils::Claims {
    let mut validation = Validation::new(Algorithm::HS256);
    validation.validate_exp = false;
    let key = DecodingKey::from_secret(b"a secret for tests");
    decode::<rocket_utils::Claims>(token, &key, &validation).unwrap().claims
}

fn user() -> User {
    User {
        id: 42,
        first_name: some("Ada"),
        last_name: some("King"),
        middle_name: None,
        email_id: "ada@example.org".to_string(),
        mobile_number: None,
        password_hash: None,
        is_root: false,
        is_active: true,
    }
}

#[test]
fn an_access_token_holds_for_a_quarter_of_an_hour() {
    let token = create_jwt_at(
        NOON,
        "ada@example.org",
        "42",
        "access",
        &some("Ada"),
        &None,
        &some("B"),
        &some("shop"),
        &secret(),
    )
    .unwrap();
    let claims = read(&token);
    assert_eq!(claims.sub, "ada@example.org");
    assert_eq!(claims.user_id, "42");
    assert_eq!(claims.token_type, "access");
    assert_eq!(claims.exp, 1_700_000_900);
    assert_eq!(claims.first_name, some("Ada"));
    assert_eq!(claims.last_name, None);
    assert_eq!(claims.middle_name, some("B"));
    assert_eq!(claims.client_id, some("shop"));
}

#[test]
fn a_refresh_token_holds_for_ten_hours() {
    let token =
        create_jwt_at(NOON, "a@b", "1", "refresh", &None, &None, &None, &None, &secret()).unwrap();
    assert_eq!(read(&token).exp, 1_700_036_000);
    assert_eq!(read(&token).token_type, "refresh");
}

#[test]
fn another_type_of_token_is_refused() {
    let e = create_jwt_at(NOON, "a@b", "1", "api", &None, &None, &None, &None, &secret())
        .unwrap_err();
    assert_eq!(e.status_code, 500);
    assert_eq!(
        e.message,
        "create_jwt: invalid token_type requested: \"expected 'access' or 'refresh', got 'api'\""
    );
}

#[test]
fn a_missing_secret_is_reported() {
    let e = create_jwt(
        "a@b",
        "1",
        "access",
        &None,
        &None,
        &None,
        &None,
        &Err("NotPresent".to_string()),
    )
    .unwrap_err();
    assert_eq!(e.message, "create_jwt: reading JWT_SECRET env var: NotPresent");
    assert_eq!(e.status_code, 500);
}

#[test]
fn a_token_is_made_as_of_now() {
    let before = chrono::Utc::now().timestamp() as usize;
    let token = create_jwt("a@b", "1", "access", &None, &None, &None, &None, &secret()).unwrap();
    let after = chrono::Utc::now().timestamp() as usize;
    let exp = read(&token).exp;
    assert!(before + 900 <= exp && exp <= after + 900);
}

#[test]
fn orders_name_the_user_or_the_holder() {
    let order = order_for_user(&user(), "access", some("shop"), &secret());
    let expected = TokenOrder {
        email: "ada@example.org".to_string(),
        user_id: "42".to_string(),
        token_type: "access".to_string(),
        first_name: some("Ada"),
        last_name: some("King"),
        middle_name: None,
        client_id: some("shop"),
        secret: secret(),
    };
    assert_eq!(order, expected);
    let holder = Claims {
        sub: "ada@example.org".to_string(),
        exp: 7,
        user_id: "42".to_string(),
        token_type: "refresh".to_string(),
        first_name: some("Ada"),
        last_name: some("King"),
        middle_name: None,
        client_id: None,
    };
    assert_eq!(order_for_holder(&holder, "access", some("shop"), &secret()), expected);
}

#[test]
fn a_token_carries_its_claims() {
    let claims = Claims {
        sub: "s".to_string(),
        exp: 4_000_000_000,
        user_id: "9".to_string(),
        token_type: "api".to_string(),
        first_name: None,
        last_name: some("L\u{f6}w"),
        middle_name: None,
        client_id: None,
    };
    let signed = perform(Task::SignClaims { claims, secret: "k".to_string() });
    let token = match signed {
        Reply::Text(Ok(token)) => token,
        _ => panic!("no token"),
    };
    match perform(Task::ReadClaims { token: token.clone(), secret: "k".to_string() }) {
        Reply::Claims(Ok(read)) => {
            assert_eq!(read.sub, "s");
            assert_eq!(read.exp, 4_000_000_000);
            assert_eq!(read.user_id, "9");
            assert_eq!(read.token_type, "api");
            assert_eq!(read.last_name, some("L\u{f6}w"));
        }
        _ => panic!("not read"),
    }
    match perform(Task::ReadClaims { token, secret: "another".to_string() }) {
        Reply::Claims(Err(e)) => assert_eq!(e, "Error(InvalidSignature)"),
        _ => panic!("read with another secret"),
    }
}

#[test]
fn an_expired_token_is_not_read() {
    let token =
        create_jwt_at(NOON, "a@b", "1", "refresh", &None, &None, &None, &None, &secret()).unwrap();
    match perform(Task::ReadClaims { token, secret: secret().unwrap() }) {
        Reply::Claims(Err(e)) => assert_eq!(e, "Error(ExpiredSignature)"),
        _ => panic!("read although expired"),
    }
}

#[test]
fn the_calendar_is_that_of_chrono() {
    assert_eq!(chrono::DateTime::<chrono::Utc>::MAX_UTC.timestamp(), LAST_SECOND);
    assert_eq!(chrono::DateTime::<chrono::Utc>::MIN_UTC.timestamp(), FIRST_SECOND);
    let now = chrono::DateTime::from_timestamp_micros(NOON).unwrap();
    for days in [-200_000_000i64, -1, 0, 30, 365, 95_000_000, 95_100_000] {
        let expected =
            now.checked_add_signed(chrono::Duration::days(days)).map(|t| t.timestamp());
        assert_eq!(moment_after(NOON, days as i128 * 86_400), expected);
    }
    assert_eq!(moment_after(NOON, i64::MAX as i128 * 86_400), None);
    assert_eq!(moment_after(NOON, i64::MIN as i128 * 86_400), None);
}

#[test]
fn the_day_of_a_time_is_that_of_chrono() {
    let epoch = chrono::NaiveDate::from_ymd_opt(1970, 1, 1).unwrap();
    for time in [FIRST_SECOND, -86_401, -86_400, -1, 0, 86_399, 86_400, 1_700_000_000, LAST_SECOND] {
        let date = chrono::DateTime::from_timestamp(time, 0).unwrap().naive_utc().date();
        assert_eq!(day_of(time), (date - epoch).num_days());
    }
}

#[test]
fn passwords_are_checked_against_their_hashes() {
    let hash = match perform(Task::Hash("hunter2".to_string())) {
        Reply::Text(Ok(hash)) => hash,
        _ => panic!("no hash"),
    };
    assert_ne!(hash, "hunter2");
    assert!(bcrypt::verify("hunter2", &hash).unwrap());
    match perform(Task::Verify { password: "hunter2".to_string(), hash: hash.clone() }) {
        Reply::Flag(Ok(valid)) => assert!(valid),
        _ => panic!("not verified"),
    }
    match perform(Task::Verify { password: "hunter3".to_string(), hash }) {
        Reply::Flag(Ok(valid)) => assert!(!valid),
        _ => panic!("not verified"),
    }
    match perform(Task::Verify { password: "hunter2".to_string(), hash: "plain".to_string() }) {
        Reply::Flag(Err(e)) => assert!(e.contains("InvalidHash"), "{}", e),
        _ => panic!("verified against no hash"),
    }
}

#[test]
fn drawn_texts_are_letters_and_digits() {
    for length in [0u8, 8, 30, 32] {
        match perform(Task::Draw(length)) {
            Reply::Drawn(text) => {
                assert_eq!(text.len(), length as usize);
                assert!(text.chars().all(|c| c.is_ascii_alphanumeric()));
            }
            _ => panic!("nothing drawn"),
        }
    }
}

#[test]
fn lists_are_written_and_read_back() {
    let groups = vec!["staff".to_string(), "q\"x".to_string()];
    let json = match perform(Task::WriteList(groups)) {
        Reply::Text(Ok(json)) => json,
        _ => panic!("not written"),
    };
    assert_eq!(json, "[\"staff\",\"q\\\"x\"]");
    match perform(Task::ReadList(json)) {
        Reply::Texts(Ok(read)) => assert_eq!(read, vec!["staff".to_string(), "q\"x".to_string()]),
        _ => panic!("not read"),
    }
    match perform(Task::ReadList("{}".to_string())) {
        Reply::Texts(Err(e)) => assert!(e.starts_with("Error("), "{}", e),
        _ => panic!("read as a list"),
    }
}

#[test]
fn the_clock_shows_the_time() {
    let before = chrono::Utc::now().timestamp_micros();
    match perform(Task::Clock) {
        Reply::Now(now) => assert!(before <= now && now <= chrono::Utc::now().timestamp_micros()),
        _ => panic!("no time"),
    }
}
