//! Laws of accounts: what registering, confirming and changing them leaves, and
//! which passwords they take afterwards.

use crate::error::{at, refusal, Failure, Status};
use crate::laws::sessions::{password_right, password_wrong};
use crate::models::{
    AcceptInviteRequest, ChangePasswordRequest, Claims, EmailView, RegisterRequest,
    RequestPasswordRequest, ResetPasswordRequest, UpdateProfileRequest, User,
};
use crate::outside::clock::shown;
use crate::outside::passwords::{accepts, bcrypt_verify};
use crate::outside::random::token_of;
use crate::protocol::{Handler, NeedView, Outcome, QueryView, Reply};
use crate::routes::account::{
    accept_invite, change_password, register, registeration_confirmation, request_password_reset,
    reset_password, update_profile,
    AcceptInvite, AcceptInviteStage, ChangePassword, ChangePasswordStage, PasswordResetRequest,
    PasswordResetRequestStage, Register, RegisterStage, RegistrationConfirmation,
    RegistrationConfirmationStage, ResetPassword, ResetPasswordStage, UpdateProfile,
    UpdateProfileStage,
};
use crate::text::{decimal, decimal_is_read_back, i64_value};
use crate::world::{
    account_of, begun, invite_view, kept_throughout, luck, lucky, lucky_is_truthful, new_user_id,
    rehashed, rehashed_by_id, reprofiled, served, truth, truthful, Account, InviteView,
    PendingView, Standing, World,
};
use vstd::prelude::*;

verus! {

/// Whether an account is one with the given address that takes a password.
pub open spec fn takes(account: Account, email: Seq<char>, password: Seq<char>) -> bool {
    account.email == email && (account.password_hash matches Some(hash) && accepts(password, hash))
}

/// What a change of password has left at the end.
pub open spec fn password_changed(request: ChangePassword, before: World, after: World) -> bool {
    &&& exists|a: Account| #[trigger]
        before.users.contains(a) && takes(
            a,
            request.request.email@,
            request.request.current_password@,
        )
    &&& exists|hash: Seq<char>|
        accepts(request.request.new_password@, hash) && after == (World {
            users: #[trigger] rehashed(before.users, request.request.email@, hash),
            ..before
        })
}

/// A password is changed only by who knows the current one. From then on, the
/// account takes the new one. All else is as before.
pub proof fn new_password_is_taken(request: ChangePassword, world: World, replies: Seq<Reply>)
    requires
        request.stage is OpenDatabase,
        truthful(begun(request, world), replies),
    ensures
        served(begun(request, world), replies).outcome matches Outcome::Done(Ok(_))
            ==> password_changed(request, world, served(begun(request, world), replies).world),
        served(begun(request, world), replies).outcome matches Outcome::Ask(_) ==> served(
            begun(request, world),
            replies,
        ).world == world,
{
    let r = request.request;
    kept_throughout(
        begun(request, world),
        replies,
        truth(),
        |s: Standing<ChangePassword, Seq<char>>|
            match s.outcome {
                Outcome::Ask(h) => {
                    &&& s.world == world
                    &&& h.request == r
                    &&& match h.stage {
                        ChangePasswordStage::Verify { user, hash } => world.users.contains(
                            account_of(user),
                        ) && user.email_id@ == r.email@ && user.password_hash == Some(hash),
                        ChangePasswordStage::Hash { user } => world.users.contains(
                            account_of(user),
                        ) && takes(account_of(user), r.email@, r.current_password@),
                        ChangePasswordStage::Store { user, hash } => world.users.contains(
                            account_of(user),
                        ) && takes(account_of(user), r.email@, r.current_password@) && accepts(
                            r.new_password@,
                            hash@,
                        ),
                        _ => true,
                    }
                },
                Outcome::Done(Ok(_)) => password_changed(request, world, s.world),
                _ => true,
            },
    );
}

/// Once a password was changed, every account with the address takes the new one,
/// and an account with another address is as before.
pub proof fn changed_password_is_taken(request: ChangePassword, before: World, after: World)
    requires
        password_changed(request, before, after),
    ensures
        forall|a: Account| #[trigger]
            after.users.contains(a) && a.email == request.request.email@ ==> takes(
                a,
                request.request.email@,
                request.request.new_password@,
            ),
        forall|a: Account|
            a.email != request.request.email@ ==> (#[trigger] after.users.contains(a)
                <==> before.users.contains(a)),
{
    let email = request.request.email@;
    let hash = choose|hash: Seq<char>|
        accepts(request.request.new_password@, hash) && after == (World {
            users: #[trigger] rehashed(before.users, email, hash),
            ..before
        });
    assert forall|a: Account| a.email != email implies (#[trigger] after.users.contains(a)
        <==> before.users.contains(a)) by {
        if before.users.contains(a) {
            assert(rehashed(before.users, email, hash).contains(a));
        }
    }
}

/// Whether a token stands for a pending registration of an address, with a hash
/// that takes a password.
pub open spec fn awaits_confirmation(
    world: World,
    token: Seq<char>,
    email: Seq<char>,
    password: Seq<char>,
) -> bool {
    &&& world.cache.contains_key(token)
    &&& world.pending.contains_key(world.cache[token])
    &&& world.pending[world.cache[token]].email == email
    &&& accepts(password, world.pending[world.cache[token]].hashed_password)
}

/// What a registration has left at the end: nothing but a pending registration
/// under a random token, and a message with that token.
pub open spec fn registered(
    request: Register,
    before: World,
    after: World,
    token: Seq<char>,
) -> bool {
    &&& token_of(30, token)
    &&& awaits_confirmation(after, token, request.request.email@, request.request.password@)
    &&& after == World {
        cache: before.cache.insert(token, after.cache[token]),
        pending: before.pending.insert(after.cache[token], after.pending[after.cache[token]]),
        sent: before.sent.push(
            EmailView {
                to: request.request.email@,
                subject: "Confirm Registration"@,
                message: "Use this link (expires within 5 minutes) to confirm your registration: "@
                    + "https://iam-staging.gingersociety.org/#/"@ + request.request.app_id@
                    + "/registration-confirmation/"@ + token,
            },
        ),
        ..before
    }
}

/// How a registration stands on its way.
spec fn registering(request: Register, before: World, s: Standing<Register, Seq<char>>) -> bool {
    let r = request.request;
    match s.outcome {
        Outcome::Ask(h) => {
            &&& h.request == r
            &&& match h.stage {
                RegisterStage::OpenDatabase => s.world == before,
                RegisterStage::OpenCache => s.world == before,
                RegisterStage::FindUser => s.world == before,
                RegisterStage::Hash => s.world == before && !before.has_email(r.email@),
                RegisterStage::Draw { hash } => s.world == before && !before.has_email(r.email@)
                    && accepts(r.password@, hash@),
                RegisterStage::Write { hash, token } => s.world == before && !before.has_email(
                    r.email@,
                ) && accepts(r.password@, hash@) && token_of(30, token@),
                RegisterStage::Put { token, payload } => {
                    &&& !before.has_email(r.email@)
                    &&& token_of(30, token@)
                    &&& s.world.pending.contains_key(payload@)
                    &&& s.world.pending[payload@].email == r.email@
                    &&& accepts(r.password@, s.world.pending[payload@].hashed_password)
                    &&& s.world == World {
                        pending: before.pending.insert(payload@, s.world.pending[payload@]),
                        ..before
                    }
                },
                RegisterStage::Secret { token } | RegisterStage::Send { token, .. } => {
                    &&& !before.has_email(r.email@)
                    &&& token_of(30, token@)
                    &&& awaits_confirmation(s.world, token@, r.email@, r.password@)
                    &&& s.world == World {
                        cache: before.cache.insert(token@, s.world.cache[token@]),
                        pending: before.pending.insert(
                            s.world.cache[token@],
                            s.world.pending[s.world.cache[token@]],
                        ),
                        ..before
                    }
                },
            }
        },
        Outcome::Done(Ok(_)) => !before.has_email(r.email@) && exists|token: Seq<char>| #[trigger]
            registered(request, before, s.world, token),
        _ => true,
    }
}

/// A registration that succeeds was for an address without an account. It waits
/// for its confirmation under a random token, which was sent to that address. No
/// account is stored yet.
pub proof fn registration_awaits_confirmation(
    request: Register,
    world: World,
    replies: Seq<Reply>,
)
    requires
        request.stage is OpenDatabase,
        truthful(begun(request, world), replies),
    ensures
        served(begun(request, world), replies).outcome matches Outcome::Done(Ok(_))
            ==> !world.has_email(request.request.email@) && exists|token: Seq<char>| #[trigger]
            registered(request, world, served(begun(request, world), replies).world, token),
{
    assert forall|h: Register, now: World, reply: Reply|
        registering(request, world, begun(h, now)) && #[trigger] truth()(
            now,
            h.asks(),
            reply,
        ) implies registering(
        request,
        world,
        Standing { outcome: h.next(reply), world: now.left_by(h.asks(), reply) },
    ) by {
        let next = now.left_by(h.asks(), reply);
        match (h.stage, reply) {
            (RegisterStage::Write { hash, token }, Reply::Text(Ok(payload))) => {
                assert(registering(
                    request,
                    world,
                    Standing { outcome: h.next(reply), world: next },
                ));
            },
            (RegisterStage::Put { token, payload }, Reply::Done(Ok(_))) => {
                assert(next.cache[token@] == payload@);
            },
            (RegisterStage::Send { token, secret }, Reply::Done(Ok(_))) => {
                assert(registered(request, world, next, token@));
            },
            _ => {},
        }
    }
    kept_throughout(
        begun(request, world),
        replies,
        truth(),
        |s: Standing<Register, Seq<char>>| registering(request, world, s),
    );
}

/// The refusal of an address that has an account.
pub open spec fn address_taken(email: Seq<char>) -> Failure {
    refusal(
        Status::Conflict,
        at("register"@, "a user with email '"@ + email + "' already exists"@),
    )
}

/// An address that has an account is refused with a conflict, and nothing changes.
pub proof fn taken_address_is_refused(request: Register, world: World, replies: Seq<Reply>)
    requires
        request.stage is OpenDatabase,
        world.has_email(request.request.email@),
        lucky(begun(request, world), replies),
    ensures
        served(begun(request, world), replies).world == world,
        match served(begun(request, world), replies).outcome {
            Outcome::Ask(_) => true,
            Outcome::Done(Err(f)) => f == address_taken(request.request.email@),
            _ => false,
        },
{
    kept_throughout(
        begun(request, world),
        replies,
        luck(),
        |s: Standing<Register, Seq<char>>|
            s.world == world && match s.outcome {
                Outcome::Ask(h) => h.request == request.request && (h.stage is OpenDatabase
                    || h.stage is OpenCache || h.stage is FindUser),
                Outcome::Done(Err(f)) => f == address_taken(request.request.email@),
                _ => false,
            },
    );
}

/// The account that the confirmation of a registration stores.
pub open spec fn confirmed_account(pending: PendingView, id: i64) -> Account {
    Account {
        id,
        first_name: None,
        last_name: None,
        middle_name: None,
        email: pending.email,
        mobile_number: None,
        password_hash: Some(pending.hashed_password),
        is_root: false,
        is_active: true,
    }
}

/// What a confirmation has left at the end: the account of the registration that
/// was kept under the token. The token is forgotten unless the cache failed.
pub open spec fn confirmed(token: Seq<char>, before: World, after: World) -> bool {
    &&& before.cache.contains_key(token)
    &&& before.pending.contains_key(before.cache[token])
    &&& after == World {
        users: before.users.insert(
            confirmed_account(before.pending[before.cache[token]], new_user_id(before.users)),
        ),
        cache: after.cache,
        ..before
    }
    &&& after.cache == before.cache || after.cache == before.cache.remove(token)
}

/// How a confirmation stands on its way.
spec fn confirming(
    token: Seq<char>,
    before: World,
    forgets: bool,
    s: Standing<RegistrationConfirmation, Seq<char>>,
) -> bool {
    let dropped = World { cache: s.world.cache, ..before };
    let kept_or_dropped = (!forgets && s.world.cache == before.cache) || s.world.cache
        == before.cache.remove(token);
    match s.outcome {
        Outcome::Ask(h) => {
            &&& h.registration_token@ == token
            &&& match h.stage {
                RegistrationConfirmationStage::OpenDatabase => s.world == before,
                RegistrationConfirmationStage::OpenCache => s.world == before,
                RegistrationConfirmationStage::Fetch => s.world == before,
                RegistrationConfirmationStage::Forget { payload } => s.world == before
                    && before.cache.contains_pair(token, payload@),
                RegistrationConfirmationStage::Read { payload } => s.world == dropped
                    && kept_or_dropped && before.cache.contains_pair(token, payload@),
                RegistrationConfirmationStage::Created { pending }
                | RegistrationConfirmationStage::Updated { pending, .. }
                | RegistrationConfirmationStage::Insert { pending, .. } => {
                    &&& s.world == dropped
                    &&& kept_or_dropped
                    &&& before.cache.contains_key(token)
                    &&& before.pending.contains_pair(
                        before.cache[token],
                        PendingView {
                            email: pending.email@,
                            hashed_password: pending.hashed_password@,
                        },
                    )
                },
            }
        },
        Outcome::Done(Ok(_)) => confirmed(token, before, s.world) && kept_or_dropped,
        _ => true,
    }
}

/// A confirmation that succeeds stores the account of the registration that was
/// kept under its token, and nothing else.
pub proof fn confirmation_stores_account(
    request: RegistrationConfirmation,
    world: World,
    replies: Seq<Reply>,
)
    requires
        request.stage is OpenDatabase,
        truthful(begun(request, world), replies),
    ensures
        served(begun(request, world), replies).outcome matches Outcome::Done(Ok(_)) ==> confirmed(
            request.registration_token@,
            world,
            served(begun(request, world), replies).world,
        ),
{
    kept_throughout(
        begun(request, world),
        replies,
        truth(),
        |s: Standing<RegistrationConfirmation, Seq<char>>|
            confirming(request.registration_token@, world, false, s),
    );
}

/// The token of a registration is confirmed unless a service fails: the account
/// is stored, it is active and not a root account, it takes the password of the
/// registration, and the token is used up.
pub proof fn pending_registration_is_confirmed(
    request: RegistrationConfirmation,
    world: World,
    replies: Seq<Reply>,
    email: Seq<char>,
    password: Seq<char>,
)
    requires
        request.stage is OpenDatabase,
        awaits_confirmation(world, request.registration_token@, email, password),
        lucky(begun(request, world), replies),
    ensures
        match served(begun(request, world), replies).outcome {
            Outcome::Ask(_) => true,
            Outcome::Done(Ok(_)) => {
                let after = served(begun(request, world), replies).world;
                let account = confirmed_account(
                    world.pending[world.cache[request.registration_token@]],
                    new_user_id(world.users),
                );
                &&& confirmed(request.registration_token@, world, after)
                &&& after.users == world.users.insert(account)
                &&& takes(account, email, password)
                &&& !after.cache.contains_key(request.registration_token@)
            },
            _ => false,
        },
{
    kept_throughout(
        begun(request, world),
        replies,
        luck(),
        |s: Standing<RegistrationConfirmation, Seq<char>>|
            confirming(request.registration_token@, world, true, s) && !(
            s.outcome matches Outcome::Done(Err(_))),
    );
}

/// A token that stands for nothing, such as one that was used, confirms nothing.
pub proof fn unknown_token_confirms_nothing(
    request: RegistrationConfirmation,
    world: World,
    replies: Seq<Reply>,
)
    requires
        request.stage is OpenDatabase,
        !world.cache.contains_key(request.registration_token@),
        truthful(begun(request, world), replies),
    ensures
        served(begun(request, world), replies).world == world,
        match served(begun(request, world), replies).outcome {
            Outcome::Ask(_) => true,
            Outcome::Done(Err(f)) => f.status_code == 404 || f.status_code == 503,
            _ => false,
        },
{
    kept_throughout(
        begun(request, world),
        replies,
        truth(),
        |s: Standing<RegistrationConfirmation, Seq<char>>|
            s.world == world && match s.outcome {
                Outcome::Ask(h) => h.registration_token == request.registration_token && (
                h.stage is OpenDatabase || h.stage is OpenCache || h.stage is Fetch),
                Outcome::Done(Err(f)) => f.status_code == 404 || f.status_code == 503,
                _ => false,
            },
    );
}

/// What a change of profile has left at the end.
pub open spec fn profile_changed(request: UpdateProfile, before: World, after: World) -> bool {
    i64_value(request.claims.user_id@) matches Some(id) && after == (World {
        users: reprofiled(before.users, id, request.request),
        ..before
    })
}

/// A change of profile overwrites the names and the number of the holder of the
/// token, and nothing else.
pub proof fn own_profile_is_changed(request: UpdateProfile, world: World, replies: Seq<Reply>)
    requires
        request.stage is OpenDatabase,
        truthful(begun(request, world), replies),
    ensures
        served(begun(request, world), replies).outcome matches Outcome::Done(Ok(_))
            ==> profile_changed(request, world, served(begun(request, world), replies).world),
{
    kept_throughout(
        begun(request, world),
        replies,
        truth(),
        |s: Standing<UpdateProfile, Seq<char>>|
            match s.outcome {
                Outcome::Ask(h) => {
                    &&& s.world == world
                    &&& h.claims == request.claims
                    &&& h.request == request.request
                    &&& h.stage matches UpdateProfileStage::Store { id } ==> i64_value(
                        request.claims.user_id@,
                    ) == Some(id)
                },
                Outcome::Done(Ok(_)) => profile_changed(request, world, s.world),
                _ => true,
            },
    );
}

/// What a request for a link has left at the end: the id of an account with the
/// address, under a random token, and a message with that token.
pub open spec fn link_sent(
    request: PasswordResetRequest,
    before: World,
    after: World,
    account: Account,
    token: Seq<char>,
) -> bool {
    &&& before.users.contains(account)
    &&& account.email == request.request.email_id@
    &&& token_of(30, token)
    &&& after == World {
        cache: before.cache.insert(token, decimal(account.id as int)),
        sent: before.sent.push(
            EmailView {
                to: request.request.email_id@,
                subject: "Password Reset"@,
                message: "Use this link(expires within 5 minutes) to reset your password: "@
                    + "https://iam.gingersociety.org/#/public/"@ + request.request.app_id@
                    + "/reset-password/"@ + token,
            },
        ),
        ..before
    }
}

/// How a request for a link stands on its way.
spec fn sending_link(
    request: PasswordResetRequest,
    world: World,
    s: Standing<PasswordResetRequest, Seq<char>>,
) -> bool {
    match s.outcome {
        Outcome::Ask(h) => {
            &&& h.request == request.request
            &&& match h.stage {
                PasswordResetRequestStage::Draw { user } => s.world == world
                    && world.users.contains(account_of(user)) && user.email_id@
                    == request.request.email_id@,
                PasswordResetRequestStage::Put { user, token } => s.world == world
                    && world.users.contains(account_of(user)) && user.email_id@
                    == request.request.email_id@ && token_of(30, token@),
                PasswordResetRequestStage::Secret { token }
                | PasswordResetRequestStage::Send { token, .. } => token_of(30, token@)
                    && exists|a: Account| #[trigger]
                    world.users.contains(a) && a.email == request.request.email_id@
                        && s.world == (World {
                        cache: world.cache.insert(token@, decimal(a.id as int)),
                        ..world
                    }),
                _ => s.world == world,
            }
        },
        Outcome::Done(Ok(_)) => exists|account: Account, token: Seq<char>| #[trigger]
            link_sent(request, world, s.world, account, token),
        _ => true,
    }
}

/// A link that was sent resets the password of an account with the address.
pub proof fn reset_link_is_sent(request: PasswordResetRequest, world: World, replies: Seq<Reply>)
    requires
        request.stage is OpenCache,
        truthful(begun(request, world), replies),
    ensures
        served(begun(request, world), replies).outcome matches Outcome::Done(Ok(_))
            ==> exists|account: Account, token: Seq<char>| #[trigger]
            link_sent(
                request,
                world,
                served(begun(request, world), replies).world,
                account,
                token,
            ),
{
    assert forall|h: PasswordResetRequest, now: World, reply: Reply|
        sending_link(request, world, begun(h, now)) && #[trigger] truth()(
            now,
            h.asks(),
            reply,
        ) implies sending_link(
        request,
        world,
        Standing { outcome: h.next(reply), world: now.left_by(h.asks(), reply) },
    ) by {
        let next = now.left_by(h.asks(), reply);
        match (h.stage, reply) {
            (PasswordResetRequestStage::Put { user, token }, Reply::Done(Ok(_))) => {
                assert(world.users.contains(account_of(user)));
            },
            (PasswordResetRequestStage::Send { token, .. }, Reply::Done(Ok(_))) => {
                let a = choose|a: Account| #[trigger]
                    world.users.contains(a) && a.email == request.request.email_id@ && now == (
                    World {
                        cache: world.cache.insert(token@, decimal(a.id as int)),
                        ..world
                    });
                let s = Standing { outcome: h.next(reply), world: next };
                assert(link_sent(request, world, s.world, a, token@));
                assert(sending_link(request, world, s));
            },
            _ => {},
        }
    }
    kept_throughout(
        begun(request, world),
        replies,
        truth(),
        |s: Standing<PasswordResetRequest, Seq<char>>| sending_link(request, world, s),
    );
}

/// What a reset of a password has left at the end: the account whose id was kept
/// under the token takes the new password. The token is forgotten unless the
/// cache failed.
pub open spec fn password_reset(
    request: ResetPassword,
    before: World,
    after: World,
    id: i64,
    hash: Seq<char>,
) -> bool {
    &&& before.cache.contains_key(request.request.token@)
    &&& i64_value(before.cache[request.request.token@]) == Some(id)
    &&& accepts(request.request.new_password@, hash)
    &&& after == World {
        users: rehashed_by_id(before.users, id, hash),
        cache: after.cache,
        ..before
    }
    &&& after.cache == before.cache || after.cache == before.cache.remove(request.request.token@)
}

/// How a reset of a password stands on its way.
spec fn resetting(
    request: ResetPassword,
    before: World,
    forgets: bool,
    s: Standing<ResetPassword, Seq<char>>,
) -> bool {
    let token = request.request.token@;
    match s.outcome {
        Outcome::Ask(h) => {
            &&& h.request == request.request
            &&& match h.stage {
                ResetPasswordStage::Hash { id } => s.world == before && before.cache.contains_key(
                    token,
                ) && i64_value(before.cache[token]) == Some(id),
                ResetPasswordStage::Store { id, hash } => s.world == before
                    && before.cache.contains_key(token) && i64_value(before.cache[token]) == Some(
                    id,
                ) && accepts(request.request.new_password@, hash@),
                ResetPasswordStage::Forget => s.world.cache == before.cache && exists|
                    id: i64,
                    hash: Seq<char>,
                | #[trigger]
                    password_reset(request, before, s.world, id, hash),
                _ => s.world == before,
            }
        },
        Outcome::Done(Ok(_)) => (forgets ==> s.world.cache == before.cache.remove(token))
            && exists|id: i64, hash: Seq<char>| #[trigger]
            password_reset(request, before, s.world, id, hash),
        _ => true,
    }
}

proof fn resetting_goes_on(
    request: ResetPassword,
    before: World,
    forgets: bool,
    h: ResetPassword,
    now: World,
    reply: Reply,
)
    requires
        resetting(request, before, forgets, begun(h, now)),
        now.true_reply(h.asks(), reply),
        forgets ==> now.smooth_reply(h.asks(), reply),
    ensures
        resetting(
            request,
            before,
            forgets,
            Standing { outcome: h.next(reply), world: now.left_by(h.asks(), reply) },
        ),
{
    let next = now.left_by(h.asks(), reply);
    match (h.stage, reply) {
        (ResetPasswordStage::Store { id, hash }, Reply::Rows(Ok(rows))) => {
            let s = Standing { outcome: h.next(reply), world: next };
            assert(password_reset(request, before, s.world, id, hash@));
            assert(resetting(request, before, forgets, s));
        },
        (ResetPasswordStage::Forget, Reply::Done(r)) => {
            let (id, hash) = choose|id: i64, hash: Seq<char>| #[trigger]
                password_reset(request, before, now, id, hash);
            let s = Standing { outcome: h.next(reply), world: next };
            assert(password_reset(request, before, s.world, id, hash));
            assert(resetting(request, before, forgets, s));
        },
        _ => {},
    }
}

/// A reset that succeeds gives the account whose id was kept under the token the
/// new password, and changes no other account.
pub proof fn token_resets_one_password(request: ResetPassword, world: World, replies: Seq<Reply>)
    requires
        request.stage is OpenCache,
        truthful(begun(request, world), replies),
    ensures
        served(begun(request, world), replies).outcome matches Outcome::Done(Ok(_)) ==> exists|
            id: i64,
            hash: Seq<char>,
        | #[trigger]
            password_reset(
                request,
                world,
                served(begun(request, world), replies).world,
                id,
                hash,
            ),
{
    assert forall|h: ResetPassword, now: World, reply: Reply|
        resetting(request, world, false, begun(h, now)) && #[trigger] truth()(
            now,
            h.asks(),
            reply,
        ) implies resetting(
        request,
        world,
        false,
        Standing { outcome: h.next(reply), world: now.left_by(h.asks(), reply) },
    ) by {
        resetting_goes_on(request, world, false, h, now, reply);
    }
    kept_throughout(
        begun(request, world),
        replies,
        truth(),
        |s: Standing<ResetPassword, Seq<char>>| resetting(request, world, false, s),
    );
}

/// The token of a link that was sent resets the password of the account for which
/// it was sent, unless a service fails, and is used up by that.
pub proof fn sent_token_resets_password(
    request: ResetPassword,
    world: World,
    replies: Seq<Reply>,
    account: Account,
)
    requires
        request.stage is OpenCache,
        world.users.contains(account),
        world.cache.contains_pair(request.request.token@, decimal(account.id as int)),
        lucky(begun(request, world), replies),
    ensures
        match served(begun(request, world), replies).outcome {
            Outcome::Ask(_) => true,
            Outcome::Done(Ok(_)) => {
                let after = served(begun(request, world), replies).world;
                &&& !after.cache.contains_key(request.request.token@)
                &&& exists|hash: Seq<char>| #[trigger]
                    password_reset(request, world, after, account.id, hash)
            },
            _ => false,
        },
{
    decimal_is_read_back(account.id);
    assert forall|h: ResetPassword, now: World, reply: Reply|
        resetting(request, world, true, begun(h, now)) && #[trigger] luck()(
            now,
            h.asks(),
            reply,
        ) implies resetting(
        request,
        world,
        true,
        Standing { outcome: h.next(reply), world: now.left_by(h.asks(), reply) },
    ) by {
        resetting_goes_on(request, world, true, h, now, reply);
    }
    kept_throughout(
        begun(request, world),
        replies,
        luck(),
        |s: Standing<ResetPassword, Seq<char>>|
            resetting(request, world, true, s) && !(s.outcome matches Outcome::Done(Err(_))),
    );
}

/// The account that the acceptance of an invitation stores.
pub open spec fn invited_account(invite: InviteView, hash: Seq<char>, id: i64) -> Account {
    Account {
        id,
        first_name: Some(invite.first_name),
        last_name: Some(invite.last_name),
        middle_name: invite.middle_name,
        email: invite.email,
        mobile_number: None,
        password_hash: Some(hash),
        is_root: invite.is_root,
        is_active: true,
    }
}

/// Whether a token stands for an invitation.
pub open spec fn invited(world: World, token: Seq<char>) -> bool {
    world.cache.contains_key(token) && world.invites.contains_key(world.cache[token])
}

/// What the acceptance of an invitation has left at the end: the account of the
/// invitation that was kept under the token, with the chosen password. The token
/// is forgotten unless the cache failed.
pub open spec fn accepted(
    request: AcceptInvite,
    before: World,
    after: World,
    hash: Seq<char>,
) -> bool {
    let token = request.invitation_token@;
    &&& invited(before, token)
    &&& accepts(request.request.password@, hash)
    &&& after == World {
        users: before.users.insert(
            invited_account(
                before.invites[before.cache[token]],
                hash,
                new_user_id(before.users),
            ),
        ),
        cache: after.cache,
        ..before
    }
    &&& after.cache == before.cache || after.cache == before.cache.remove(token)
}

/// How the acceptance of an invitation stands on its way.
spec fn accepting(
    request: AcceptInvite,
    world: World,
    forgets: bool,
    s: Standing<AcceptInvite, Seq<char>>,
) -> bool {
    let token = request.invitation_token@;
    let gone = (!forgets && s.world.cache == world.cache) || s.world.cache == world.cache.remove(
        token,
    );
    let dropped = s.world == (World { cache: s.world.cache, ..world }) && gone;
    match s.outcome {
        Outcome::Ask(h) => {
            &&& h.request == request.request
            &&& h.invitation_token == request.invitation_token
            &&& match h.stage {
                AcceptInviteStage::OpenDatabase => s.world == world,
                AcceptInviteStage::OpenCache => s.world == world,
                AcceptInviteStage::Fetch => s.world == world,
                AcceptInviteStage::Forget { payload } => s.world == world
                    && world.cache.contains_pair(token, payload@),
                AcceptInviteStage::Read { payload } => dropped && world.cache.contains_pair(
                    token,
                    payload@,
                ),
                AcceptInviteStage::Hash { invite } => dropped && invited(world, token)
                    && world.invites[world.cache[token]] == invite_view(invite),
                AcceptInviteStage::Created { invite, hash }
                | AcceptInviteStage::Updated { invite, hash, .. }
                | AcceptInviteStage::Insert { invite, hash, .. } => dropped && invited(
                    world,
                    token,
                ) && world.invites[world.cache[token]] == invite_view(invite) && accepts(
                    request.request.password@,
                    hash@,
                ),
            }
        },
        Outcome::Done(Ok(_)) => gone && exists|hash: Seq<char>| #[trigger]
            accepted(request, world, s.world, hash),
        _ => true,
    }
}

proof fn accepting_goes_on(
    request: AcceptInvite,
    world: World,
    forgets: bool,
    h: AcceptInvite,
    now: World,
    reply: Reply,
)
    requires
        accepting(request, world, forgets, begun(h, now)),
        now.true_reply(h.asks(), reply),
        forgets ==> now.smooth_reply(h.asks(), reply),
    ensures
        accepting(
            request,
            world,
            forgets,
            Standing { outcome: h.next(reply), world: now.left_by(h.asks(), reply) },
        ),
{
    let s = Standing { outcome: h.next(reply), world: now.left_by(h.asks(), reply) };
    match (h.stage, reply) {
        (AcceptInviteStage::Insert { invite, hash, .. }, Reply::Rows(Ok(_))) => {
            assert(accepted(request, world, s.world, hash@));
            assert(accepting(request, world, forgets, s));
        },
        _ => {},
    }
}

/// An acceptance that succeeds stores the account of the invitation that was kept
/// under its token, with the chosen password, and nothing else.
pub proof fn invited_account_is_stored(request: AcceptInvite, world: World, replies: Seq<Reply>)
    requires
        request.stage is OpenDatabase,
        truthful(begun(request, world), replies),
    ensures
        served(begun(request, world), replies).outcome matches Outcome::Done(Ok(_)) ==> exists|
            hash: Seq<char>,
        | #[trigger] accepted(request, world, served(begun(request, world), replies).world, hash),
{
    assert forall|h: AcceptInvite, now: World, reply: Reply|
        accepting(request, world, false, begun(h, now)) && #[trigger] truth()(
            now,
            h.asks(),
            reply,
        ) implies accepting(
        request,
        world,
        false,
        Standing { outcome: h.next(reply), world: now.left_by(h.asks(), reply) },
    ) by {
        accepting_goes_on(request, world, false, h, now, reply);
    }
    kept_throughout(
        begun(request, world),
        replies,
        truth(),
        |s: Standing<AcceptInvite, Seq<char>>| accepting(request, world, false, s),
    );
}

/// A token that stands for an invitation is accepted unless a service fails: the
/// account of the invitation is stored with the chosen password, and the token is
/// used up.
pub proof fn invitation_is_accepted(request: AcceptInvite, world: World, replies: Seq<Reply>)
    requires
        request.stage is OpenDatabase,
        invited(world, request.invitation_token@),
        lucky(begun(request, world), replies),
    ensures
        match served(begun(request, world), replies).outcome {
            Outcome::Ask(_) => true,
            Outcome::Done(Ok(_)) => {
                let after = served(begun(request, world), replies).world;
                &&& exists|hash: Seq<char>| #[trigger] accepted(request, world, after, hash)
                &&& !after.cache.contains_key(request.invitation_token@)
            },
            Outcome::Done(Err(_)) => false,
        },
{
    assert forall|h: AcceptInvite, now: World, reply: Reply|
        accepting(request, world, true, begun(h, now)) && #[trigger] luck()(
            now,
            h.asks(),
            reply,
        ) implies accepting(
        request,
        world,
        true,
        Standing { outcome: h.next(reply), world: now.left_by(h.asks(), reply) },
    ) by {
        accepting_goes_on(request, world, true, h, now, reply);
    }
    kept_throughout(
        begun(request, world),
        replies,
        luck(),
        |s: Standing<AcceptInvite, Seq<char>>|
            accepting(request, world, true, s) && !(s.outcome matches Outcome::Done(Err(_))),
    );
}

/// A token that stands for nothing, such as one that was used, is accepted by
/// nobody, and nothing changes. If no service fails, it is not found.
pub proof fn unknown_invitation_is_refused(
    request: AcceptInvite,
    world: World,
    replies: Seq<Reply>,
)
    requires
        request.stage is OpenDatabase,
        !world.cache.contains_key(request.invitation_token@),
        truthful(begun(request, world), replies),
    ensures
        served(begun(request, world), replies).world == world,
        match served(begun(request, world), replies).outcome {
            Outcome::Ask(_) => true,
            Outcome::Done(Err(f)) => f.status_code == 404 || f.status_code == 503,
            Outcome::Done(Ok(_)) => false,
        },
        lucky(begun(request, world), replies) ==> (served(
            begun(request, world),
            replies,
        ).outcome matches Outcome::Done(Err(f)) ==> f.status_code == 404),
{
    let kept = |s: Standing<AcceptInvite, Seq<char>>, code: u16|
        s.world == world && match s.outcome {
            Outcome::Ask(h) => h.invitation_token == request.invitation_token && (
            h.stage is OpenDatabase || h.stage is OpenCache || h.stage is Fetch),
            Outcome::Done(Err(f)) => f.status_code == 404 || f.status_code == code,
            _ => false,
        };
    kept_throughout(
        begun(request, world),
        replies,
        truth(),
        |s: Standing<AcceptInvite, Seq<char>>| kept(s, 503),
    );
    if lucky(begun(request, world), replies) {
        kept_throughout(
            begun(request, world),
            replies,
            luck(),
            |s: Standing<AcceptInvite, Seq<char>>| kept(s, 404),
        );
    }
}

/// An invitation is accepted once: after an acceptance that succeeded without a
/// failing service, the same token is not found.
pub proof fn invitation_is_accepted_once(
    request: AcceptInvite,
    world: World,
    replies: Seq<Reply>,
    again: AcceptInvite,
    later: Seq<Reply>,
)
    requires
        request.stage is OpenDatabase,
        again.stage is OpenDatabase,
        again.invitation_token@ == request.invitation_token@,
        invited(world, request.invitation_token@),
        lucky(begun(request, world), replies),
        served(begun(request, world), replies).outcome is Done,
        lucky(begun(again, served(begun(request, world), replies).world), later),
    ensures
        served(begun(again, served(begun(request, world), replies).world), later).world == served(
            begun(request, world),
            replies,
        ).world,
        match served(begun(again, served(begun(request, world), replies).world), later).outcome {
            Outcome::Ask(_) => true,
            Outcome::Done(Err(f)) => f.status_code == 404,
            Outcome::Done(Ok(_)) => false,
        },
{
    let after = served(begun(request, world), replies).world;
    invitation_is_accepted(request, world, replies);
    lucky_is_truthful(begun(again, after), later);
    unknown_invitation_is_refused(again, after, later);
}

/// Who knows the current password changes it, unless a service fails: the request is
/// answered with success, and every account with the address takes the new password.
pub proof fn right_password_changes_it(
    asked: ChangePasswordRequest,
    request: ChangePassword,
    world: World,
    replies: Seq<Reply>,
)
    requires
        call_ensures(change_password, (asked,), request),
        password_right(world, asked.email@, asked.current_password@),
        lucky(begun(request, world), replies),
    ensures
        match served(begun(request, world), replies).outcome {
            Outcome::Ask(_) => true,
            Outcome::Done(Ok(message)) => {
                let after = served(begun(request, world), replies).world;
                &&& message == "Password updated successfully"@
                &&& after == World { users: after.users, ..world }
                &&& forall|a: Account| #[trigger]
                    after.users.contains(a) && a.email == asked.email@ ==> takes(
                        a,
                        asked.email@,
                        asked.new_password@,
                    )
                &&& forall|a: Account|
                    a.email != asked.email@ ==> (#[trigger] after.users.contains(a)
                        <==> world.users.contains(a))
            },
            Outcome::Done(Err(_)) => false,
        },
{
    kept_throughout(
        begun(request, world),
        replies,
        luck(),
        |s: Standing<ChangePassword, Seq<char>>|
            match s.outcome {
                Outcome::Ask(h) => s.world == world && h.request == asked && match h.stage {
                    ChangePasswordStage::Verify { user, hash } => user.password_hash == Some(hash)
                        && world.users.contains(account_of(user)) && user.email_id@
                        == asked.email@,
                    _ => true,
                },
                Outcome::Done(Ok(message)) => message == "Password updated successfully"@,
                Outcome::Done(Err(_)) => false,
            },
    );
    lucky_is_truthful(begun(request, world), replies);
    new_password_is_taken(request, world, replies);
    match served(begun(request, world), replies).outcome {
        Outcome::Done(Ok(_)) => {
            changed_password_is_taken(
                request,
                world,
                served(begun(request, world), replies).world,
            );
        },
        _ => {},
    }
}

/// Whether every account with an address has a password to which another does not
/// belong, and there is one.
pub open spec fn password_refused(world: World, email: Seq<char>, password: Seq<char>) -> bool {
    &&& world.has_email(email)
    &&& forall|a: Account| #[trigger]
        world.users.contains(a) && a.email == email ==> (a.password_hash matches Some(hash)
            && bcrypt_verify(password, hash) == Ok::<bool, Seq<char>>(false))
}

/// Who does not know the current password changes nothing. If no service fails, the
/// request is refused: as unauthorized with a wrong password, as not found with an
/// address that no account has, and as failed with one whose accounts have no
/// password.
pub proof fn wrong_password_changes_nothing(
    asked: ChangePasswordRequest,
    request: ChangePassword,
    world: World,
    replies: Seq<Reply>,
)
    requires
        call_ensures(change_password, (asked,), request),
        password_wrong(world, asked.email@, asked.current_password@),
        truthful(begun(request, world), replies),
    ensures
        served(begun(request, world), replies).world == world,
        !(served(begun(request, world), replies).outcome matches Outcome::Done(Ok(_))),
        lucky(begun(request, world), replies) ==> (served(
            begun(request, world),
            replies,
        ).outcome matches Outcome::Done(Err(f)) ==> {
            &&& password_refused(world, asked.email@, asked.current_password@) ==> f.status_code
                == 401
            &&& !world.has_email(asked.email@) ==> f.status_code == 404
            &&& world.has_email(asked.email@) && (forall|a: Account| #[trigger]
                world.users.contains(a) && a.email == asked.email@ ==> a.password_hash is None)
                ==> f.status_code == 500
        }),
{
    let found = |user: User| world.users.contains(account_of(user)) && user.email_id@
        == asked.email@;
    kept_throughout(
        begun(request, world),
        replies,
        truth(),
        |s: Standing<ChangePassword, Seq<char>>|
            s.world == world && match s.outcome {
                Outcome::Ask(h) => h.request == asked && match h.stage {
                    ChangePasswordStage::Verify { user, hash } => found(user)
                        && user.password_hash == Some(hash),
                    ChangePasswordStage::Hash { .. } => false,
                    ChangePasswordStage::Store { .. } => false,
                    _ => true,
                },
                Outcome::Done(Ok(_)) => false,
                Outcome::Done(Err(_)) => true,
            },
    );
    if lucky(begun(request, world), replies) {
        let refused = password_refused(world, asked.email@, asked.current_password@);
        let unknown = !world.has_email(asked.email@);
        let unset = world.has_email(asked.email@) && (forall|a: Account| #[trigger]
            world.users.contains(a) && a.email == asked.email@ ==> a.password_hash is None);
        let kept = |s: Standing<ChangePassword, Seq<char>>|
            s.world == world && match s.outcome {
                Outcome::Ask(h) => h.request == asked && match h.stage {
                    ChangePasswordStage::Verify { user, hash } => found(user)
                        && user.password_hash == Some(hash),
                    ChangePasswordStage::Hash { .. } => false,
                    ChangePasswordStage::Store { .. } => false,
                    _ => true,
                },
                Outcome::Done(Ok(_)) => false,
                Outcome::Done(Err(f)) => (refused ==> f.status_code == 401) && (unknown
                    ==> f.status_code == 404) && (unset ==> f.status_code == 500),
            };
        assert forall|h: ChangePassword, now: World, reply: Reply|
            kept(begun(h, now)) && #[trigger] luck()(now, h.asks(), reply) implies kept(
            Standing { outcome: h.next(reply), world: now.left_by(h.asks(), reply) },
        ) by {
            match (h.stage, reply) {
                (ChangePasswordStage::FindUser, Reply::User(Ok(user))) => {
                    assert(world.users.contains(account_of(user)));
                },
                (ChangePasswordStage::Verify { user, .. }, _) => {
                    assert(world.users.contains(account_of(user)));
                },
                _ => {},
            }
        }
        kept_throughout(begun(request, world), replies, luck(), kept);
    }
}

/// An address without an account can be registered: the request is answered with
/// success unless a service fails.
pub proof fn new_address_is_not_refused(
    asked: RegisterRequest,
    request: Register,
    world: World,
    replies: Seq<Reply>,
)
    requires
        call_ensures(register, (asked,), request),
        !world.has_email(asked.email@),
        world.environment.contains_key("ISC_SECRET"@),
        lucky(begun(request, world), replies),
    ensures
        match served(begun(request, world), replies).outcome {
            Outcome::Ask(_) => true,
            Outcome::Done(Ok(message)) => message
                == "User registration request generated successfully"@,
            Outcome::Done(Err(_)) => false,
        },
{
    let kept = |s: Standing<Register, Seq<char>>|
        s.world == (World {
            cache: s.world.cache,
            pending: s.world.pending,
            sent: s.world.sent,
            ..world
        }) && match s.outcome {
            Outcome::Ask(h) => h.request == asked,
            Outcome::Done(Ok(message)) => message
                == "User registration request generated successfully"@,
            Outcome::Done(Err(_)) => false,
        };
    assert forall|h: Register, now: World, reply: Reply|
        kept(begun(h, now)) && #[trigger] luck()(now, h.asks(), reply) implies kept(
        Standing { outcome: h.next(reply), world: now.left_by(h.asks(), reply) },
    ) by {
        match (h.stage, reply) {
            (RegisterStage::FindUser, Reply::MaybeUser(Ok(Some(user)))) => {
                assert(world.users.contains(account_of(user)));
            },
            _ => {},
        }
    }
    kept_throughout(begun(request, world), replies, luck(), kept);
}

/// Whoever registers is registered under the address and the password of their
/// request, and the link that is sent to them is one of the application that they
/// named.
pub proof fn registration_is_as_asked(
    asked: RegisterRequest,
    request: Register,
    world: World,
    replies: Seq<Reply>,
)
    requires
        call_ensures(register, (asked,), request),
        truthful(begun(request, world), replies),
    ensures
        served(begun(request, world), replies).outcome matches Outcome::Done(Ok(_)) ==> exists|
            token: Seq<char>,
        |
            {
                let after = served(begun(request, world), replies).world;
                &&& #[trigger] token_of(30, token)
                &&& awaits_confirmation(after, token, asked.email@, asked.password@)
                &&& after.users == world.users
                &&& after.sent == world.sent.push(
                    EmailView {
                        to: asked.email@,
                        subject: "Confirm Registration"@,
                        message: "Use this link (expires within 5 minutes) to confirm your registration: "@
                            + "https://iam-staging.gingersociety.org/#/"@ + asked.app_id@
                            + "/registration-confirmation/"@ + token,
                    },
                )
            },
{
    registration_awaits_confirmation(request, world, replies);
    match served(begun(request, world), replies).outcome {
        Outcome::Done(Ok(_)) => {
            let token = choose|token: Seq<char>| #[trigger]
                registered(request, world, served(begun(request, world), replies).world, token);
            assert(token_of(30, token));
        },
        _ => {},
    }
}

/// A confirmation is of the token that was given and is answered with success. If no
/// service fails, a token that stands for nothing is not found, and the token is used
/// up whatever comes of it.
pub proof fn confirmation_is_answered(
    registration_token: String,
    request: RegistrationConfirmation,
    world: World,
    replies: Seq<Reply>,
)
    requires
        call_ensures(registeration_confirmation, (registration_token,), request),
        lucky(begun(request, world), replies),
    ensures
        request.registration_token == registration_token,
        request.stage is OpenDatabase,
        match served(begun(request, world), replies).outcome {
            Outcome::Ask(_) => true,
            Outcome::Done(Ok(message)) => message == "User registered successfully"@
                && world.cache.contains_key(registration_token@),
            Outcome::Done(Err(f)) => if world.cache.contains_key(registration_token@) {
                f.status_code == 500 && !world.pending.contains_key(
                    world.cache[registration_token@],
                )
            } else {
                f.status_code == 404
            },
        },
        served(begun(request, world), replies).outcome is Done ==> served(
            begun(request, world),
            replies,
        ).world.cache == world.cache.remove(registration_token@),
{
    let token = registration_token@;
    kept_throughout(
        begun(request, world),
        replies,
        luck(),
        |s: Standing<RegistrationConfirmation, Seq<char>>|
            (s.outcome is Ask ==> s.world == World { cache: s.world.cache, ..world })
                && match s.outcome {
                Outcome::Ask(h) => h.registration_token == registration_token && match h.stage {
                    RegistrationConfirmationStage::OpenDatabase
                    | RegistrationConfirmationStage::OpenCache
                    | RegistrationConfirmationStage::Fetch => s.world == world,
                    RegistrationConfirmationStage::Forget { payload } =>
                        world.cache.contains_pair(token, payload@) && s.world == world,
                    RegistrationConfirmationStage::Read { payload } => world.cache.contains_pair(
                        token,
                        payload@,
                    ) && s.world.cache == world.cache.remove(token),
                    _ => world.cache.contains_key(token) && s.world.cache == world.cache.remove(
                        token,
                    ),
                },
                Outcome::Done(Ok(message)) => message == "User registered successfully"@
                    && world.cache.contains_key(token) && s.world.cache == world.cache.remove(
                    token,
                ),
                Outcome::Done(Err(f)) => s.world.cache =~= world.cache.remove(token)
                    && if world.cache.contains_key(token) {
                    f.status_code == 500 && !world.pending.contains_key(world.cache[token])
                } else {
                    f.status_code == 404
                },
            },
    );
}

/// A change of profile is that of the holder of the token, to what was asked. If no
/// service fails, it succeeds if the token has the id of an account; an id of no
/// account is not found, and an id that is no number is a failure, neither of which
/// changes anything.
pub proof fn profile_of_holder_is_changed(
    claims: Claims,
    asked: UpdateProfileRequest,
    request: UpdateProfile,
    world: World,
    replies: Seq<Reply>,
)
    requires
        call_ensures(update_profile, (claims, asked), request),
        lucky(begun(request, world), replies),
    ensures
        match served(begun(request, world), replies).outcome {
            Outcome::Ask(_) => true,
            Outcome::Done(Ok(message)) => {
                &&& message == "Profile updated successfully"@
                &&& i64_value(claims.user_id@) matches Some(id) && has_account(world, id)
                    && served(begun(request, world), replies).world == (World {
                    users: reprofiled(world.users, id, asked),
                    ..world
                })
            },
            Outcome::Done(Err(f)) => match i64_value(claims.user_id@) {
                Some(id) => f.status_code == 404 && !has_account(world, id),
                None => f.status_code == 500 && served(begun(request, world), replies).world
                    == world,
            },
        },
{
    kept_throughout(
        begun(request, world),
        replies,
        luck(),
        |s: Standing<UpdateProfile, Seq<char>>|
            match s.outcome {
                Outcome::Ask(h) => s.world == world && h.claims == claims && h.request == asked && (
                h.stage matches UpdateProfileStage::Store { id } ==> i64_value(claims.user_id@)
                    == Some(id)),
                Outcome::Done(Ok(message)) => {
                    &&& message == "Profile updated successfully"@
                    &&& i64_value(claims.user_id@) matches Some(id) && has_account(world, id)
                        && s.world == (World {
                        users: reprofiled(world.users, id, asked),
                        ..world
                    })
                },
                Outcome::Done(Err(f)) => match i64_value(claims.user_id@) {
                    Some(id) => f.status_code == 404 && !has_account(world, id),
                    None => f.status_code == 500 && s.world == world,
                },
            },
    );
}

/// Whether an id is that of an account.
pub open spec fn has_account(world: World, id: i64) -> bool {
    exists|a: Account| #[trigger] world.users.contains(a) && a.id == id
}

/// A link is sent to an address that has an account. If none has it, none is sent: the
/// address is not found, and nothing changes. A service that fails is the only
/// exception.
pub proof fn link_is_sent_to_known_address_alone(
    asked: RequestPasswordRequest,
    request: PasswordResetRequest,
    world: World,
    replies: Seq<Reply>,
)
    requires
        call_ensures(request_password_reset, (asked,), request),
        world.environment.contains_key("ISC_SECRET"@),
        lucky(begun(request, world), replies),
    ensures
        match served(begun(request, world), replies).outcome {
            Outcome::Ask(_) => true,
            Outcome::Done(Ok(message)) => message == "Password reset token created successfully"@
                && world.has_email(asked.email_id@),
            Outcome::Done(Err(f)) => {
                &&& !world.has_email(asked.email_id@)
                &&& f.status_code == 404
                &&& served(begun(request, world), replies).world == world
            },
        },
{
    let known = world.has_email(asked.email_id@);
    let kept = |s: Standing<PasswordResetRequest, Seq<char>>|
        s.world == (World { cache: s.world.cache, sent: s.world.sent, ..world })
            && match s.outcome {
            Outcome::Ask(h) => h.request == asked && match h.stage {
                PasswordResetRequestStage::OpenCache
                | PasswordResetRequestStage::OpenDatabase
                | PasswordResetRequestStage::FindUser => s.world == world,
                _ => known,
            },
            Outcome::Done(Ok(message)) => message == "Password reset token created successfully"@
                && known,
            Outcome::Done(Err(f)) => !known && f.status_code == 404 && s.world == world,
        };
    assert forall|h: PasswordResetRequest, now: World, reply: Reply|
        kept(begun(h, now)) && #[trigger] luck()(now, h.asks(), reply) implies kept(
        Standing { outcome: h.next(reply), world: now.left_by(h.asks(), reply) },
    ) by {
        match (h.stage, reply) {
            (PasswordResetRequestStage::FindUser, Reply::User(Ok(user))) => {
                assert(world.users.contains(account_of(user)));
            },
            _ => {},
        }
    }
    kept_throughout(begun(request, world), replies, luck(), kept);
}

/// A link that is sent is sent to the address that was given and is one of the
/// application that was named; what is kept under its token is the id of an account
/// with that address.
pub proof fn link_is_as_asked(
    asked: RequestPasswordRequest,
    request: PasswordResetRequest,
    world: World,
    replies: Seq<Reply>,
)
    requires
        call_ensures(request_password_reset, (asked,), request),
        truthful(begun(request, world), replies),
    ensures
        served(begun(request, world), replies).outcome matches Outcome::Done(Ok(_)) ==> exists|
            account: Account,
            token: Seq<char>,
        |
            {
                let after = served(begun(request, world), replies).world;
                &&& #[trigger] world.users.contains(account)
                &&& account.email == asked.email_id@
                &&& #[trigger] token_of(30, token)
                &&& after.cache.contains_key(token)
                &&& i64_value(after.cache[token]) == Some(account.id)
                &&& after.sent == world.sent.push(
                    EmailView {
                        to: asked.email_id@,
                        subject: "Password Reset"@,
                        message: "Use this link(expires within 5 minutes) to reset your password: "@
                            + "https://iam.gingersociety.org/#/public/"@ + asked.app_id@
                            + "/reset-password/"@ + token,
                    },
                )
            },
{
    reset_link_is_sent(request, world, replies);
    match served(begun(request, world), replies).outcome {
        Outcome::Done(Ok(_)) => {
            let (account, token) = choose|account: Account, token: Seq<char>| #[trigger]
                link_sent(
                    request,
                    world,
                    served(begun(request, world), replies).world,
                    account,
                    token,
                );
            decimal_is_read_back(account.id);
            assert(world.users.contains(account) && token_of(30, token));
        },
        _ => {},
    }
}

/// A reset is by the token and to the password that were given. If no service fails,
/// it succeeds if the token stands for the id of an account; a token that stands for
/// no number is not found, and one that stands for the id of no account is a failure,
/// neither of which resets a password.
pub proof fn reset_is_answered(
    asked: ResetPasswordRequest,
    request: ResetPassword,
    world: World,
    replies: Seq<Reply>,
)
    requires
        call_ensures(reset_password, (asked,), request),
        lucky(begun(request, world), replies),
    ensures
        request.request == asked,
        request.stage is OpenCache,
        match served(begun(request, world), replies).outcome {
            Outcome::Ask(_) => true,
            Outcome::Done(Ok(message)) => message == "Password updated successfully"@
                && world.cache.contains_key(asked.token@) && (i64_value(
                world.cache[asked.token@],
            ) matches Some(id) && has_account(world, id)),
            Outcome::Done(Err(f)) => if world.cache.contains_key(asked.token@) && i64_value(
                world.cache[asked.token@],
            ) is Some {
                f.status_code == 500 && !has_account(
                    world,
                    i64_value(world.cache[asked.token@])->0,
                ) && served(begun(request, world), replies).world.cache == world.cache
            } else {
                f.status_code == 404 && served(begun(request, world), replies).world == world
            },
        },
{
    let token = asked.token@;
    kept_throughout(
        begun(request, world),
        replies,
        luck(),
        |s: Standing<ResetPassword, Seq<char>>|
            match s.outcome {
                Outcome::Ask(h) => h.request == asked && match h.stage {
                    ResetPasswordStage::OpenCache
                    | ResetPasswordStage::OpenDatabase
                    | ResetPasswordStage::Fetch => s.world == world,
                    ResetPasswordStage::Hash { id } | ResetPasswordStage::Store { id, .. } =>
                        s.world == world && world.cache.contains_key(token) && i64_value(
                            world.cache[token],
                        ) == Some(id),
                    ResetPasswordStage::Forget => world.cache.contains_key(token) && (i64_value(
                        world.cache[token],
                    ) matches Some(id) && has_account(world, id)),
                },
                Outcome::Done(Ok(message)) => message == "Password updated successfully"@
                    && world.cache.contains_key(token) && (i64_value(
                    world.cache[token],
                ) matches Some(id) && has_account(world, id)),
                Outcome::Done(Err(f)) => if world.cache.contains_key(token) && i64_value(
                    world.cache[token],
                ) is Some {
                    f.status_code == 500 && !has_account(world, i64_value(world.cache[token])->0)
                        && s.world.cache == world.cache
                } else {
                    f.status_code == 404 && s.world == world
                },
            },
    );
}

/// Once a password was reset, the account of the token takes the new one and is
/// otherwise as before, and so is every other account.
pub proof fn reset_password_is_taken(
    request: ResetPassword,
    before: World,
    after: World,
    id: i64,
    hash: Seq<char>,
)
    requires
        password_reset(request, before, after, id, hash),
    ensures
        forall|a: Account| #[trigger]
            after.users.contains(a) && a.id == id ==> takes(
                a,
                a.email,
                request.request.new_password@,
            ),
        forall|a: Account|
            a.id != id ==> (#[trigger] after.users.contains(a) <==> before.users.contains(a)),
{
    assert forall|a: Account| a.id != id implies (#[trigger] after.users.contains(a)
        <==> before.users.contains(a)) by {
        if before.users.contains(a) {
            assert(rehashed_by_id(before.users, id, hash).contains(a));
        }
    }
}

/// The acceptance of an invitation is of the token and with the password that were
/// given, and is answered with success. If no service fails, a token that stands for
/// nothing is not found, and the token is used up whatever comes of it.
pub proof fn acceptance_is_answered(
    invitation_token: String,
    asked: AcceptInviteRequest,
    request: AcceptInvite,
    world: World,
    replies: Seq<Reply>,
)
    requires
        call_ensures(accept_invite, (invitation_token, asked), request),
        lucky(begun(request, world), replies),
    ensures
        request.invitation_token == invitation_token,
        request.request == asked,
        request.stage is OpenDatabase,
        match served(begun(request, world), replies).outcome {
            Outcome::Ask(_) => true,
            Outcome::Done(Ok(message)) => message
                == "Invitation accepted, user registered successfully"@ && invited(
                world,
                invitation_token@,
            ),
            Outcome::Done(Err(f)) => !invited(world, invitation_token@)
                && if world.cache.contains_key(invitation_token@) {
                f.status_code == 500
            } else {
                f.status_code == 404
            },
        },
        served(begun(request, world), replies).outcome is Done ==> served(
            begun(request, world),
            replies,
        ).world.cache == world.cache.remove(invitation_token@),
{
    let token = invitation_token@;
    kept_throughout(
        begun(request, world),
        replies,
        luck(),
        |s: Standing<AcceptInvite, Seq<char>>|
            (s.outcome is Ask ==> s.world == World { cache: s.world.cache, ..world })
                && match s.outcome {
                Outcome::Ask(h) => h.invitation_token == invitation_token && match h.stage {
                    AcceptInviteStage::OpenDatabase
                    | AcceptInviteStage::OpenCache
                    | AcceptInviteStage::Fetch => s.world == world,
                    AcceptInviteStage::Forget { payload } => world.cache.contains_pair(
                        token,
                        payload@,
                    ) && s.world == world,
                    AcceptInviteStage::Read { payload } => world.cache.contains_pair(
                        token,
                        payload@,
                    ) && s.world.cache == world.cache.remove(token),
                    _ => invited(world, token) && s.world.cache == world.cache.remove(token),
                },
                Outcome::Done(Ok(message)) => message
                    == "Invitation accepted, user registered successfully"@ && invited(
                    world,
                    token,
                ) && s.world.cache == world.cache.remove(token),
                Outcome::Done(Err(f)) => s.world.cache =~= world.cache.remove(token) && !invited(
                    world,
                    token,
                ) && if world.cache.contains_key(token) {
                    f.status_code == 500
                } else {
                    f.status_code == 404
                },
            },
    );
}

/// What waits for a link to be followed, a registration as well as a reset, is cached
/// for five minutes.
pub proof fn links_hold_for_five_minutes(registering: Register, resetting: PasswordResetRequest)
    ensures
        registering.asks() matches NeedView::Query(QueryView::CachePut { seconds, .. })
            ==> seconds == 5 * 60,
        resetting.asks() matches NeedView::Query(QueryView::CachePut { seconds, .. })
            ==> seconds == 5 * 60,
{
}

/// A message is sent only with the key that the environment keeps for it.
pub proof fn messages_are_authorized(
    registering: Register,
    resetting: PasswordResetRequest,
    world: World,
    replies: Seq<Reply>,
    others: Seq<Reply>,
)
    requires
        registering.stage is OpenDatabase,
        resetting.stage is OpenCache,
        truthful(begun(registering, world), replies),
        truthful(begun(resetting, world), others),
    ensures
        served(begun(registering, world), replies).outcome matches Outcome::Ask(h) ==> (
        h.asks() matches NeedView::Query(QueryView::SendEmail { api_key, .. })
            ==> world.environment.contains_pair("ISC_SECRET"@, api_key)),
        served(begun(resetting, world), others).outcome matches Outcome::Ask(h) ==> (
        h.asks() matches NeedView::Query(QueryView::SendEmail { api_key, .. })
            ==> world.environment.contains_pair("ISC_SECRET"@, api_key)),
{
    kept_throughout(
        begun(registering, world),
        replies,
        truth(),
        |s: Standing<Register, Seq<char>>|
            s.world.environment == world.environment && (s.outcome matches Outcome::Ask(h) ==> (
            h.stage matches RegisterStage::Send { secret, .. } ==> world.environment.contains_pair(
                "ISC_SECRET"@,
                secret@,
            ))),
    );
    kept_throughout(
        begun(resetting, world),
        others,
        truth(),
        |s: Standing<PasswordResetRequest, Seq<char>>|
            s.world.environment == world.environment && (s.outcome matches Outcome::Ask(h) ==> (
            h.stage matches PasswordResetRequestStage::Send { secret, .. }
                ==> world.environment.contains_pair("ISC_SECRET"@, secret@))),
    );
}

/// An account is stored with the times that the clock showed on the way.
pub proof fn accounts_are_dated(
    confirming: RegistrationConfirmation,
    accepting: AcceptInvite,
    world: World,
    replies: Seq<Reply>,
    others: Seq<Reply>,
)
    requires
        confirming.stage is OpenDatabase,
        accepting.stage is OpenDatabase,
        truthful(begun(confirming, world), replies),
        truthful(begun(accepting, world), others),
    ensures
        served(begun(confirming, world), replies).outcome matches Outcome::Ask(h) ==> (
        h.asks() matches NeedView::Query(QueryView::InsertUser(user)) ==> shown(user.created_at)
            && shown(user.updated_at)),
        served(begun(accepting, world), others).outcome matches Outcome::Ask(h) ==> (
        h.asks() matches NeedView::Query(QueryView::InsertUser(user)) ==> shown(user.created_at)
            && shown(user.updated_at)),
{
    kept_throughout(
        begun(confirming, world),
        replies,
        truth(),
        |s: Standing<RegistrationConfirmation, Seq<char>>|
            s.outcome matches Outcome::Ask(h) ==> match h.stage {
                RegistrationConfirmationStage::Updated { created_at, .. } => shown(created_at),
                RegistrationConfirmationStage::Insert { created_at, updated_at, .. } => shown(
                    created_at,
                ) && shown(updated_at),
                _ => true,
            },
    );
    kept_throughout(
        begun(accepting, world),
        others,
        truth(),
        |s: Standing<AcceptInvite, Seq<char>>|
            s.outcome matches Outcome::Ask(h) ==> match h.stage {
                AcceptInviteStage::Updated { created_at, .. } => shown(created_at),
                AcceptInviteStage::Insert { created_at, updated_at, .. } => shown(created_at)
                    && shown(updated_at),
                _ => true,
            },
    );
}

} // verus!
