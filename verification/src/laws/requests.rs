//! Laws of the functions that answer at once, of how requests begin, and of how they
//! are carried on.

use crate::models::{
    APIClaims, BasicAuth, Claims, GroupMemberships, RefreshTokenRequest, ValidateAPITokenResponse,
    ValidateTokenResponse,
};
use crate::outside::clock::{clocked, seconds, shown, FIRST_SECOND, LAST_SECOND};
use crate::outside::json::{json_of_list, list_of_json, reads_as};
use crate::outside::jwt::{
    api_claims_of_jwt, claims_of_jwt, decoded, jwt_of_api_claims, jwt_of_claims,
};
use crate::outside::passwords::{accepts, bcrypt_verify, hashed};
use crate::outside::random::{drawn, token_of};
use crate::outside::{told, told_text, told_texts};
use crate::protocol::{
    advance, outcome, perform, possible_run, run, settle, settles, Handler, NeedView, Outcome,
    Progress, Reply, Task, TaskView,
};
use crate::routes::apps::{get_accessible_apps, GetAccessibleApps};
use crate::routes::docker::subject_of;
use crate::routes::sessions::{refresh_token, validate_api_token, validate_token, RefreshToken};
use crate::text::{decimal, decimal_is_read_back, digits, i64_value, integer_text, texts};
use crate::tokens::{day_of, moment_after};
use vstd::prelude::*;

verus! {

/// What is told of a valid token is what it says.
pub proof fn valid_token_is_told(claims: Claims, r: ValidateTokenResponse)
    requires
        call_ensures(validate_token, (claims,), r),
    ensures
        r.sub == claims.sub,
        r.exp == claims.exp,
        r.user_id == claims.user_id,
        r.first_name == claims.first_name,
        r.last_name == claims.last_name,
        r.middle_name == claims.middle_name,
        r.client_id == claims.client_id,
{
}

/// What is told of a valid session token is what it says.
pub proof fn valid_session_token_is_told(claims: APIClaims, r: ValidateAPITokenResponse)
    requires
        call_ensures(validate_api_token, (claims,), r),
    ensures
        r.sub == claims.sub,
        r.exp == claims.exp,
        r.group_id == claims.group_id,
        r.scopes == claims.scopes,
{
}

/// A token for a registry is for the authenticated subject; without one, for the
/// account that is named; without that, for nobody in particular.
pub proof fn subject_comes_before_account(
    auth: BasicAuth,
    account: Option<String>,
    r: String,
)
    requires
        call_ensures(subject_of, (auth, &account), r),
    ensures
        auth.subject@.len() > 0 ==> r@ == auth.subject@,
        auth.subject@.len() == 0 ==> (account matches Some(name) ==> r@ == name@),
        auth.subject@.len() == 0 && account is None ==> r@.len() == 0,
{
}

/// A request for a new access token begins with the refresh token that was given, and
/// a question for applications with the groups that were given.
pub proof fn requests_begin_as_asked(
    refreshing: RefreshTokenRequest,
    refresh: RefreshToken,
    claims: Claims,
    groups: GroupMemberships,
    apps: GetAccessibleApps,
)
    requires
        call_ensures(refresh_token, (refreshing,), refresh),
        call_ensures(get_accessible_apps, (claims, groups), apps),
    ensures
        refresh.request == refreshing,
        refresh.stage is OpenCache,
        apps.claims == claims,
        apps.groups == groups,
        apps.stage is OpenDatabase,
{
}

/// A natural number is written without leading zeros, in digits alone.
proof fn digits_are_plain(n: nat)
    ensures
        digits(n).len() > 0,
        forall|i: int| 0 <= i < digits(n).len() ==> '0' <= #[trigger] digits(n)[i] <= '9',
        digits(n)[0] == '0' <==> n == 0,
        n < 10 <==> digits(n).len() == 1,
    decreases n,
{
    if n >= 10 {
        digits_are_plain(n / 10);
        let head = digits(n / 10);
        assert forall|i: int| 0 <= i < digits(n).len() implies '0' <= #[trigger] digits(n)[i]
            <= '9' by {
            if i < head.len() {
                assert(digits(n)[i] == head[i]);
            }
        }
        assert(digits(n)[0] == head[0]);
    }
}

/// An integer is written in the one way in which it is read back without a plus sign
/// and without leading zeros.
pub proof fn integers_are_written_plainly(n: i64, r: String)
    requires
        call_ensures(integer_text, (n,), r),
    ensures
        r@ == decimal(n as int),
        i64_value(r@) == Some(n),
        r@.len() > 0,
        n < 0 ==> r@[0] == '-' && r@.len() > 1 && r@[1] != '0',
        n >= 0 ==> forall|i: int| 0 <= i < r@.len() ==> '0' <= #[trigger] r@[i] <= '9',
        n == 0 ==> r@ == seq!['0'],
        n > 0 ==> r@[0] != '0',
{
    decimal_is_read_back(n);
    if n < 0 {
        digits_are_plain((-n) as nat);
        assert(decimal(n as int)[1] == digits((-n) as nat)[0]);
    } else {
        digits_are_plain(n as nat);
    }
}

/// A time that is some seconds after another is so many seconds later, if the calendar
/// has it.
pub proof fn moments_are_as_far_ahead(now: i64, ahead: i128, r: Option<i64>)
    requires
        call_ensures(moment_after, (now, ahead), r),
    ensures
        r matches Some(then) ==> then == seconds(now) + ahead,
        r is None <==> !(FIRST_SECOND <= seconds(now) + ahead <= LAST_SECOND),
{
}

/// The day of a time has begun then, and the next one has not.
pub proof fn days_have_begun(time: i64, r: i64)
    requires
        call_ensures(day_of, (time,), r),
    ensures
        r * 86_400 <= time < (r + 1) * 86_400,
{
}

/// Whether a reply is what a task asks for: the password is checked against the hash,
/// the hash takes the password, the text has the length, the time is the clock's, the
/// token says the claims, the claims are those of the token, and a list is written so
/// that it is read again.
pub open spec fn carried_out(task: Task, reply: Reply) -> bool {
    match (task, reply) {
        (Task::Verify { password, hash }, Reply::Flag(r)) => told(r) == bcrypt_verify(
            password@,
            hash@,
        ),
        (Task::Hash(password), Reply::Text(r)) => hashed(password@, r) && (r matches Ok(hash)
            ==> accepts(password@, hash@)),
        (Task::Draw(length), Reply::Drawn(text)) => drawn(length, text@) && token_of(
            length as nat,
            text@,
        ),
        (Task::Clock, Reply::Now(now)) => clocked(now) && shown(now),
        (Task::CreateJwt(order), Reply::Token(r)) => r matches Ok(token) ==> order.secret is Ok && (
        claims_of_jwt(token@, order.secret->Ok_0@) matches Some(claims) && claims.sub
            == order.email@ && claims.user_id == order.user_id@ && claims.token_type
            == order.token_type@),
        (Task::SignClaims { claims, secret }, Reply::Text(r)) => told_text(r) == jwt_of_claims(
            claims@,
            secret@,
        ) && (r matches Ok(token) ==> claims_of_jwt(token@, secret@) == Some(claims@)),
        (Task::SignApiClaims { api_claims, secret }, Reply::Text(r)) => told_text(r)
            == jwt_of_api_claims(api_claims@, secret@) && (r matches Ok(token)
            ==> api_claims_of_jwt(token@, secret@) == Some(api_claims@)),
        (Task::ReadClaims { token, secret }, Reply::Claims(r)) => decoded(token@, secret@, r) && (
        r matches Ok(claims) ==> claims_of_jwt(token@, secret@) == Some(claims@)),
        (Task::ReadList(json), Reply::Texts(r)) => told_texts(r) == list_of_json(json@),
        (Task::WriteList(list), Reply::Text(r)) => told_text(r) == json_of_list(texts(list@)) && (
        r matches Ok(json) ==> reads_as(json@, texts(list@))),
        _ => false,
    }
}

/// A task that is carried out gives what it asks for.
pub proof fn tasks_are_carried_out(task: Task, reply: Reply)
    requires
        call_ensures(perform, (task,), reply),
    ensures
        carried_out(task, reply),
{
}

proof fn settling_is_running<H: Handler>(
    from: Outcome<H, <H::Answer as View>::V>,
    replies: Seq<Reply>,
    to: Outcome<H, <H::Answer as View>::V>,
)
    requires
        settles(from, replies, to),
    ensures
        run(from, replies) == to,
        possible_run(from, replies),
    decreases replies.len(),
{
    reveal_with_fuel(run, 2);
    reveal_with_fuel(possible_run, 2);
    reveal_with_fuel(settles, 2);
    if replies.len() > 0 {
        match from {
            Outcome::Ask(h) => {
                settling_is_running(h.next(replies[0]), replies.drop_first(), to);
            },
            _ => {},
        }
    }
}

/// A handler that is handed a reply stands where that reply and the replies to its own
/// tasks take it: it has answered, or it asks a service.
pub proof fn handlers_are_carried_on<H: Handler>(
    handler: H,
    reply: Reply,
    r: Progress<H, H::Answer>,
)
    requires
        call_ensures(advance::<H>, (handler, reply), r),
    ensures
        exists|replies: Seq<Reply>| #[trigger]
            possible_run(handler.next(reply), replies) && run(handler.next(reply), replies)
                == outcome(r),
        r matches Progress::Ask(h) ==> h.asks() is Query,
{
    let replies = choose|replies: Seq<Reply>|
        #[trigger] settles(handler.next(reply), replies, outcome(r));
    settling_is_running(handler.next(reply), replies, outcome(r));
}

/// A handler that waits for a service, or has answered, is left as it is.
pub proof fn handlers_wait_for_services<H: Handler>(
    progress: Progress<H, H::Answer>,
    r: Progress<H, H::Answer>,
)
    requires
        call_ensures(settle::<H>, (progress,), r),
        progress matches Progress::Ask(h) ==> h.asks() is Query,
    ensures
        outcome(r) == outcome(progress),
{
    let replies = choose|replies: Seq<Reply>|
        #[trigger] settles(outcome(progress), replies, outcome(r));
    reveal_with_fuel(settles, 2);
    assert(replies.len() == 0);
}

/// A handler that waits for the time is handed one that the clock gave, and one that
/// waits for a random text one that was drawn, before it is carried on.
pub proof fn handlers_get_the_time_and_chance<H: Handler>(
    handler: H,
    length: u8,
    r: Progress<H, H::Answer>,
)
    requires
        call_ensures(settle::<H>, (Progress::Ask(handler),), r),
    ensures
        handler.asks() == NeedView::Task(TaskView::Clock) ==> exists|
            now: i64,
            replies: Seq<Reply>,
        |
            clocked(now) && #[trigger] possible_run(handler.next(Reply::Now(now)), replies) && run(
                handler.next(Reply::Now(now)),
                replies,
            ) == outcome(r),
        handler.asks() == NeedView::Task(TaskView::Draw(length)) ==> exists|
            text: String,
            replies: Seq<Reply>,
        |
            drawn(length, text@) && #[trigger] possible_run(
                handler.next(Reply::Drawn(text)),
                replies,
            ) && run(handler.next(Reply::Drawn(text)), replies) == outcome(r),
{
    let replies = choose|replies: Seq<Reply>|
        #[trigger] settles(outcome(Progress::<H, H::Answer>::Ask(handler)), replies, outcome(r));
    reveal_with_fuel(settles, 2);
    if handler.asks() is Task {
        if replies.len() == 0 {
            assert(outcome(r) == Outcome::<H, <H::Answer as View>::V>::Ask(handler));
            assert(false);
        }
        let rest = replies.drop_first();
        settling_is_running(handler.next(replies[0]), rest, outcome(r));
        match replies[0] {
            Reply::Now(now) => {
                assert(possible_run(handler.next(Reply::Now(now)), rest));
            },
            Reply::Drawn(text) => {
                assert(possible_run(handler.next(Reply::Drawn(text)), rest));
            },
            _ => {},
        }
    }
}

} // verus!
