//! Accounts: how one is registered, confirmed or taken up by invitation, and how
//! its password and profile are changed.

use crate::error::{
    Status, at, fail, failure, failure_is_reported, refusal, refusal_is_reported, refuse,
};
use crate::models::{
    AcceptInviteRequest, ChangePasswordRequest, Claims, Created, Email, EmailView,
    InviteRequest, MessageResponse, NewUser, PendingRegistration, RegisterRequest,
    RequestPasswordRequest, ResetPasswordRequest, UpdateProfileRequest, User,
};
use crate::outside::std_text::{integer_error, parse_i64};
use crate::protocol::{
    Handler, Need, NeedView, Outcome, Progress, Query, QueryView, Reply, Task, TaskView,
};
use crate::text::{copy_maybe, decimal, i64_value, integer_text};
use vstd::prelude::*;

verus! {

/// The message with the link that confirms a registration.
pub open spec fn confirmation_email(
    email: Seq<char>,
    app_id: Seq<char>,
    token: Seq<char>,
) -> EmailView {
    EmailView {
        to: email,
        subject: "Confirm Registration"@,
        message: "Use this link (expires within 5 minutes) to confirm your registration: "@
            + "https://iam-staging.gingersociety.org/#/"@ + app_id
            + "/registration-confirmation/"@ + token,
    }
}

/// Writes the message with the link that confirms a registration.
pub fn write_confirmation_email(email: &str, app_id: &str, token: &str) -> (r: Email)
    ensures
        r@ == confirmation_email(email@, app_id@, token@),
{
    Email {
        to: email.to_owned(),
        subject: "Confirm Registration".to_owned(),
        message: "Use this link (expires within 5 minutes) to confirm your registration: ".to_owned()
            .concat("https://iam-staging.gingersociety.org/#/")
            .concat(app_id)
            .concat("/registration-confirmation/")
            .concat(token),
    }
}

/// The message with the link that resets a password.
pub open spec fn reset_email(email: Seq<char>, app_id: Seq<char>, token: Seq<char>) -> EmailView {
    EmailView {
        to: email,
        subject: "Password Reset"@,
        message: "Use this link(expires within 5 minutes) to reset your password: "@
            + "https://iam.gingersociety.org/#/public/"@ + app_id + "/reset-password/"@ + token,
    }
}

/// Writes the message with the link that resets a password.
pub fn write_reset_email(email: &str, app_id: &str, token: &str) -> (r: Email)
    ensures
        r@ == reset_email(email@, app_id@, token@),
{
    Email {
        to: email.to_owned(),
        subject: "Password Reset".to_owned(),
        message: "Use this link(expires within 5 minutes) to reset your password: ".to_owned()
            .concat("https://iam.gingersociety.org/#/public/")
            .concat(app_id)
            .concat("/reset-password/")
            .concat(token),
    }
}

/// A change of password on its way.
pub struct ChangePassword {
    pub request: ChangePasswordRequest,
    pub stage: ChangePasswordStage,
}

/// How far [`ChangePassword`] has come: what it waits for.
pub enum ChangePasswordStage {
    OpenDatabase,
    FindUser,
    Verify { user: User, hash: String },
    Hash { user: User },
    Store { user: User, hash: String },
}

/// Starts a change of password: the account is looked up, the current password
/// checked and a hash of the new one stored.
pub fn change_password(request: ChangePasswordRequest) -> (r: ChangePassword)
    ensures
        r == (ChangePassword { request, stage: ChangePasswordStage::OpenDatabase }),
{
    ChangePassword { request, stage: ChangePasswordStage::OpenDatabase }
}

impl Handler for ChangePassword {
    type Answer = MessageResponse;

    open spec fn asks(&self) -> NeedView {
        match self.stage {
            ChangePasswordStage::OpenDatabase => NeedView::Query(QueryView::OpenDatabase),
            ChangePasswordStage::FindUser => NeedView::Query(
                QueryView::UserByEmail(self.request.email@),
            ),
            ChangePasswordStage::Verify { hash, .. } => NeedView::Task(
                TaskView::Verify { password: self.request.current_password@, hash: hash@ },
            ),
            ChangePasswordStage::Hash { .. } => NeedView::Task(
                TaskView::Hash(self.request.new_password@),
            ),
            ChangePasswordStage::Store { hash, .. } => NeedView::Query(
                QueryView::SetPasswordByEmail { email: self.request.email@, hash: hash@ },
            ),
        }
    }

    open spec fn next(self, reply: Reply) -> Outcome<Self, Seq<char>> {
        match (self.stage, reply) {
            (ChangePasswordStage::OpenDatabase, Reply::Done(Ok(_))) => Outcome::Ask(
                ChangePassword { stage: ChangePasswordStage::FindUser, ..self },
            ),
            (ChangePasswordStage::OpenDatabase, Reply::Done(Err(e))) => Outcome::Done(
                Err(
                    failure(
                        Status::ServiceUnavailable,
                        at("change_password"@, "failed to get DB connection"@),
                        e@,
                    ),
                ),
            ),
            (ChangePasswordStage::FindUser, Reply::User(Ok(user))) => match user.password_hash {
                Some(hash) => Outcome::Ask(
                    ChangePassword { stage: ChangePasswordStage::Verify { user, hash }, ..self },
                ),
                None => Outcome::Done(
                    Err(
                        failure(
                            Status::InternalServerError,
                            at(
                                "change_password"@,
                                "user '"@ + user.email_id@ + "' has no password hash set"@,
                            ),
                            "\"password_hash column was NULL\""@,
                        ),
                    ),
                ),
            },
            (ChangePasswordStage::FindUser, Reply::User(Err(e))) => Outcome::Done(
                Err(
                    failure(
                        Status::NotFound,
                        at(
                            "change_password"@,
                            "user with email '"@ + self.request.email@ + "' not found"@,
                        ),
                        e@,
                    ),
                ),
            ),
            (ChangePasswordStage::Verify { user, .. }, Reply::Flag(Ok(valid))) => if valid {
                Outcome::Ask(ChangePassword { stage: ChangePasswordStage::Hash { user }, ..self })
            } else {
                Outcome::Done(
                    Err(
                        refusal(
                            Status::Unauthorized,
                            at(
                                "change_password"@,
                                "current password incorrect for user '"@ + user.email_id@ + "'"@,
                            ),
                        ),
                    ),
                )
            },
            (ChangePasswordStage::Verify { user, .. }, Reply::Flag(Err(e))) => Outcome::Done(
                Err(
                    failure(
                        Status::InternalServerError,
                        at("change_password"@, "bcrypt verify for user '"@ + user.email_id@ + "'"@),
                        e@,
                    ),
                ),
            ),
            (ChangePasswordStage::Hash { user }, Reply::Text(Ok(hash))) => Outcome::Ask(
                ChangePassword { stage: ChangePasswordStage::Store { user, hash }, ..self },
            ),
            (ChangePasswordStage::Hash { .. }, Reply::Text(Err(e))) => Outcome::Done(
                Err(
                    failure(
                        Status::InternalServerError,
                        at("change_password"@, "hashing new password"@),
                        e@,
                    ),
                ),
            ),
            (ChangePasswordStage::Store { user, .. }, Reply::Rows(Ok(rows))) => if rows > 0 {
                Outcome::Done(Ok("Password updated successfully"@))
            } else {
                Outcome::Done(
                    Err(
                        failure(
                            Status::InternalServerError,
                            at(
                                "change_password"@,
                                "update touched 0 rows for user '"@ + user.email_id@ + "'"@,
                            ),
                            "\"expected 1 row to be updated\""@,
                        ),
                    ),
                )
            },
            (ChangePasswordStage::Store { user, .. }, Reply::Rows(Err(e))) => Outcome::Done(
                Err(
                    failure(
                        Status::InternalServerError,
                        at(
                            "change_password"@,
                            "updating password for user '"@ + user.email_id@ + "'"@,
                        ),
                        e@,
                    ),
                ),
            ),
            _ => Outcome::Ask(self),
        }
    }

    open spec fn rank(&self) -> nat {
        match self.stage {
            ChangePasswordStage::OpenDatabase => 5,
            ChangePasswordStage::FindUser => 4,
            ChangePasswordStage::Verify { .. } => 3,
            ChangePasswordStage::Hash { .. } => 2,
            ChangePasswordStage::Store { .. } => 1,
        }
    }

    open spec fn speaks_as(name: Seq<char>) -> bool {
        name == "change_password"@
    }

    proof fn moves(self, reply: Reply) {
    }

    proof fn ignores(self, reply: Reply) {
    }

    proof fn reports(self, reply: Reply) {
        broadcast use refusal_is_reported, failure_is_reported;

        assert(Self::speaks_as("change_password"@));
    }

    fn need(&self) -> (r: Need) {
        match &self.stage {
            ChangePasswordStage::OpenDatabase => Need::Query(Query::OpenDatabase),
            ChangePasswordStage::FindUser => Need::Query(
                Query::UserByEmail(self.request.email.clone()),
            ),
            ChangePasswordStage::Verify { hash, .. } => Need::Task(
                Task::Verify {
                    password: self.request.current_password.clone(),
                    hash: hash.clone(),
                },
            ),
            ChangePasswordStage::Hash { .. } => Need::Task(
                Task::Hash(self.request.new_password.clone()),
            ),
            ChangePasswordStage::Store { hash, .. } => Need::Query(
                Query::SetPasswordByEmail { email: self.request.email.clone(), hash: hash.clone() },
            ),
        }
    }

    fn resume(self, reply: Reply) -> (r: Progress<Self, Self::Answer>) {
        match (self.stage, reply) {
            (ChangePasswordStage::OpenDatabase, Reply::Done(Ok(_))) => Progress::Ask(
                ChangePassword { request: self.request, stage: ChangePasswordStage::FindUser },
            ),
            (ChangePasswordStage::OpenDatabase, Reply::Done(Err(e))) => Progress::Done(
                Err(
                    fail(
                        Status::ServiceUnavailable,
                        "change_password",
                        "failed to get DB connection",
                        e.as_str(),
                    ),
                ),
            ),
            (ChangePasswordStage::FindUser, Reply::User(Ok(user))) => match copy_maybe(
                &user.password_hash,
            ) {
                Some(hash) => Progress::Ask(
                    ChangePassword {
                        request: self.request,
                        stage: ChangePasswordStage::Verify { user, hash },
                    },
                ),
                None => Progress::Done(
                    Err(
                        fail(
                            Status::InternalServerError,
                            "change_password",
                            "user '".to_owned()
                                .concat(user.email_id.as_str())
                                .concat("' has no password hash set").as_str(),
                            "\"password_hash column was NULL\"",
                        ),
                    ),
                ),
            },
            (ChangePasswordStage::FindUser, Reply::User(Err(e))) => Progress::Done(
                Err(
                    fail(
                        Status::NotFound,
                        "change_password",
                        "user with email '".to_owned()
                            .concat(self.request.email.as_str())
                            .concat("' not found").as_str(),
                        e.as_str(),
                    ),
                ),
            ),
            (ChangePasswordStage::Verify { user, .. }, Reply::Flag(Ok(valid))) => if valid {
                Progress::Ask(
                    ChangePassword {
                        request: self.request,
                        stage: ChangePasswordStage::Hash { user },
                    },
                )
            } else {
                Progress::Done(
                    Err(
                        refuse(
                            Status::Unauthorized,
                            "change_password",
                            "current password incorrect for user '".to_owned()
                                .concat(user.email_id.as_str())
                                .concat("'").as_str(),
                        ),
                    ),
                )
            },
            (ChangePasswordStage::Verify { user, .. }, Reply::Flag(Err(e))) => Progress::Done(
                Err(
                    fail(
                        Status::InternalServerError,
                        "change_password",
                        "bcrypt verify for user '".to_owned()
                            .concat(user.email_id.as_str())
                            .concat("'").as_str(),
                        e.as_str(),
                    ),
                ),
            ),
            (ChangePasswordStage::Hash { user }, Reply::Text(Ok(hash))) => Progress::Ask(
                ChangePassword {
                    request: self.request,
                    stage: ChangePasswordStage::Store { user, hash },
                },
            ),
            (ChangePasswordStage::Hash { .. }, Reply::Text(Err(e))) => Progress::Done(
                Err(
                    fail(
                        Status::InternalServerError,
                        "change_password",
                        "hashing new password",
                        e.as_str(),
                    ),
                ),
            ),
            (ChangePasswordStage::Store { user, .. }, Reply::Rows(Ok(rows))) => if rows > 0 {
                Progress::Done(
                    Ok(MessageResponse { message: "Password updated successfully".to_owned() }),
                )
            } else {
                Progress::Done(
                    Err(
                        fail(
                            Status::InternalServerError,
                            "change_password",
                            "update touched 0 rows for user '".to_owned()
                                .concat(user.email_id.as_str())
                                .concat("'").as_str(),
                            "\"expected 1 row to be updated\"",
                        ),
                    ),
                )
            },
            (ChangePasswordStage::Store { user, .. }, Reply::Rows(Err(e))) => Progress::Done(
                Err(
                    fail(
                        Status::InternalServerError,
                        "change_password",
                        "updating password for user '".to_owned()
                            .concat(user.email_id.as_str())
                            .concat("'").as_str(),
                        e.as_str(),
                    ),
                ),
            ),
            (stage, _) => Progress::Ask(ChangePassword { request: self.request, stage }),
        }
    }
}

/// A registration on its way.
pub struct Register {
    pub request: RegisterRequest,
    pub stage: RegisterStage,
}

/// How far [`Register`] has come: what it waits for.
pub enum RegisterStage {
    OpenDatabase,
    OpenCache,
    FindUser,
    Hash,
    Draw { hash: String },
    Write { hash: String, token: String },
    Put { token: String, payload: String },
    Secret { token: String },
    Send { token: String, secret: String },
}

/// Starts a registration: unless the address is taken, the address and a hash of
/// the password are kept for five minutes under a random token, and a link with
/// that token is sent to the address.
pub fn register(request: RegisterRequest) -> (r: Register)
    ensures
        r == (Register { request, stage: RegisterStage::OpenDatabase }),
{
    Register { request, stage: RegisterStage::OpenDatabase }
}

impl Handler for Register {
    type Answer = String;

    open spec fn asks(&self) -> NeedView {
        match self.stage {
            RegisterStage::OpenDatabase => NeedView::Query(QueryView::OpenDatabase),
            RegisterStage::OpenCache => NeedView::Query(QueryView::OpenCache),
            RegisterStage::FindUser => NeedView::Query(
                QueryView::MaybeUserByEmail(self.request.email@),
            ),
            RegisterStage::Hash => NeedView::Task(TaskView::Hash(self.request.password@)),
            RegisterStage::Draw { .. } => NeedView::Task(TaskView::Draw(30)),
            RegisterStage::Write { hash, .. } => NeedView::Query(
                QueryView::WritePending(
                    PendingRegistration { email: self.request.email, hashed_password: hash },
                ),
            ),
            RegisterStage::Put { token, payload } => NeedView::Query(
                QueryView::CachePut { key: token@, value: payload@, seconds: 300 },
            ),
            RegisterStage::Secret { .. } => NeedView::Query(QueryView::Variable("ISC_SECRET"@)),
            RegisterStage::Send { token, secret } => NeedView::Query(
                QueryView::SendEmail {
                    api_key: secret@,
                    message: confirmation_email(self.request.email@, self.request.app_id@, token@),
                },
            ),
        }
    }

    open spec fn next(self, reply: Reply) -> Outcome<Self, Seq<char>> {
        match (self.stage, reply) {
            (RegisterStage::OpenDatabase, Reply::Done(Ok(_))) => Outcome::Ask(
                Register { stage: RegisterStage::OpenCache, ..self },
            ),
            (RegisterStage::OpenDatabase, Reply::Done(Err(e))) => Outcome::Done(
                Err(
                    failure(
                        Status::ServiceUnavailable,
                        at("register"@, "failed to get DB connection"@),
                        e@,
                    ),
                ),
            ),
            (RegisterStage::OpenCache, Reply::Done(Ok(_))) => Outcome::Ask(
                Register { stage: RegisterStage::FindUser, ..self },
            ),
            (RegisterStage::OpenCache, Reply::Done(Err(e))) => Outcome::Done(
                Err(
                    failure(
                        Status::ServiceUnavailable,
                        at("register"@, "failed to get Redis connection"@),
                        e@,
                    ),
                ),
            ),
            (RegisterStage::FindUser, Reply::MaybeUser(Ok(Some(_)))) => Outcome::Done(
                Err(
                    refusal(
                        Status::Conflict,
                        at(
                            "register"@,
                            "a user with email '"@ + self.request.email@ + "' already exists"@,
                        ),
                    ),
                ),
            ),
            (RegisterStage::FindUser, Reply::MaybeUser(Ok(None))) => Outcome::Ask(
                Register { stage: RegisterStage::Hash, ..self },
            ),
            (RegisterStage::FindUser, Reply::MaybeUser(Err(e))) => Outcome::Done(
                Err(
                    failure(
                        Status::InternalServerError,
                        at(
                            "register"@,
                            "checking for existing user with email '"@ + self.request.email@ + "'"@,
                        ),
                        e@,
                    ),
                ),
            ),
            (RegisterStage::Hash, Reply::Text(Ok(hash))) => Outcome::Ask(
                Register { stage: RegisterStage::Draw { hash }, ..self },
            ),
            (RegisterStage::Hash, Reply::Text(Err(e))) => Outcome::Done(
                Err(failure(Status::InternalServerError, at("register"@, "hashing password"@), e@)),
            ),
            (RegisterStage::Draw { hash }, Reply::Drawn(token)) => Outcome::Ask(
                Register { stage: RegisterStage::Write { hash, token }, ..self },
            ),
            (RegisterStage::Write { token, .. }, Reply::Text(Ok(payload))) => Outcome::Ask(
                Register { stage: RegisterStage::Put { token, payload }, ..self },
            ),
            (RegisterStage::Write { .. }, Reply::Text(Err(e))) => Outcome::Done(
                Err(
                    failure(
                        Status::InternalServerError,
                        at("register"@, "serializing pending registration payload"@),
                        e@,
                    ),
                ),
            ),
            (RegisterStage::Put { token, .. }, Reply::Done(Ok(_))) => Outcome::Ask(
                Register { stage: RegisterStage::Secret { token }, ..self },
            ),
            (RegisterStage::Put { .. }, Reply::Done(Err(e))) => Outcome::Done(
                Err(
                    failure(
                        Status::InternalServerError,
                        at("register"@, "caching pending registration token"@),
                        e@,
                    ),
                ),
            ),
            (RegisterStage::Secret { token }, Reply::Text(Ok(secret))) => Outcome::Ask(
                Register { stage: RegisterStage::Send { token, secret }, ..self },
            ),
            (RegisterStage::Secret { .. }, Reply::Text(Err(e))) => Outcome::Done(
                Err(
                    failure(
                        Status::InternalServerError,
                        at("register"@, "reading ISC_SECRET env var"@),
                        e@,
                    ),
                ),
            ),
            (RegisterStage::Send { .. }, Reply::Done(Ok(_))) => Outcome::Done(
                Ok("User registration request generated successfully"@),
            ),
            (RegisterStage::Send { .. }, Reply::Done(Err(e))) => Outcome::Done(
                Err(
                    failure(
                        Status::ServiceUnavailable,
                        at(
                            "register"@,
                            "sending confirmation email to '"@ + self.request.email@ + "'"@,
                        ),
                        e@,
                    ),
                ),
            ),
            _ => Outcome::Ask(self),
        }
    }

    open spec fn rank(&self) -> nat {
        match self.stage {
            RegisterStage::OpenDatabase => 9,
            RegisterStage::OpenCache => 8,
            RegisterStage::FindUser => 7,
            RegisterStage::Hash => 6,
            RegisterStage::Draw { .. } => 5,
            RegisterStage::Write { .. } => 4,
            RegisterStage::Put { .. } => 3,
            RegisterStage::Secret { .. } => 2,
            RegisterStage::Send { .. } => 1,
        }
    }

    open spec fn speaks_as(name: Seq<char>) -> bool {
        name == "register"@
    }

    proof fn moves(self, reply: Reply) {
    }

    proof fn ignores(self, reply: Reply) {
    }

    proof fn reports(self, reply: Reply) {
        broadcast use refusal_is_reported, failure_is_reported;

        assert(Self::speaks_as("register"@));
    }

    fn need(&self) -> (r: Need) {
        match &self.stage {
            RegisterStage::OpenDatabase => Need::Query(Query::OpenDatabase),
            RegisterStage::OpenCache => Need::Query(Query::OpenCache),
            RegisterStage::FindUser => Need::Query(
                Query::MaybeUserByEmail(self.request.email.clone()),
            ),
            RegisterStage::Hash => Need::Task(Task::Hash(self.request.password.clone())),
            RegisterStage::Draw { .. } => Need::Task(Task::Draw(30)),
            RegisterStage::Write { hash, .. } => Need::Query(
                Query::WritePending(
                    PendingRegistration {
                        email: self.request.email.clone(),
                        hashed_password: hash.clone(),
                    },
                ),
            ),
            RegisterStage::Put { token, payload } => Need::Query(
                Query::CachePut { key: token.clone(), value: payload.clone(), seconds: 300 },
            ),
            RegisterStage::Secret { .. } => Need::Query(Query::Variable("ISC_SECRET".to_owned())),
            RegisterStage::Send { token, secret } => Need::Query(
                Query::SendEmail {
                    api_key: secret.clone(),
                    message: write_confirmation_email(
                        self.request.email.as_str(),
                        self.request.app_id.as_str(),
                        token.as_str(),
                    ),
                },
            ),
        }
    }

    fn resume(self, reply: Reply) -> (r: Progress<Self, Self::Answer>) {
        match (self.stage, reply) {
            (RegisterStage::OpenDatabase, Reply::Done(Ok(_))) => Progress::Ask(
                Register { request: self.request, stage: RegisterStage::OpenCache },
            ),
            (RegisterStage::OpenDatabase, Reply::Done(Err(e))) => Progress::Done(
                Err(
                    fail(
                        Status::ServiceUnavailable,
                        "register",
                        "failed to get DB connection",
                        e.as_str(),
                    ),
                ),
            ),
            (RegisterStage::OpenCache, Reply::Done(Ok(_))) => Progress::Ask(
                Register { request: self.request, stage: RegisterStage::FindUser },
            ),
            (RegisterStage::OpenCache, Reply::Done(Err(e))) => Progress::Done(
                Err(
                    fail(
                        Status::ServiceUnavailable,
                        "register",
                        "failed to get Redis connection",
                        e.as_str(),
                    ),
                ),
            ),
            (RegisterStage::FindUser, Reply::MaybeUser(Ok(Some(_)))) => Progress::Done(
                Err(
                    refuse(
                        Status::Conflict,
                        "register",
                        "a user with email '".to_owned()
                            .concat(self.request.email.as_str())
                            .concat("' already exists").as_str(),
                    ),
                ),
            ),
            (RegisterStage::FindUser, Reply::MaybeUser(Ok(None))) => Progress::Ask(
                Register { request: self.request, stage: RegisterStage::Hash },
            ),
            (RegisterStage::FindUser, Reply::MaybeUser(Err(e))) => Progress::Done(
                Err(
                    fail(
                        Status::InternalServerError,
                        "register",
                        "checking for existing user with email '".to_owned()
                            .concat(self.request.email.as_str())
                            .concat("'").as_str(),
                        e.as_str(),
                    ),
                ),
            ),
            (RegisterStage::Hash, Reply::Text(Ok(hash))) => Progress::Ask(
                Register { request: self.request, stage: RegisterStage::Draw { hash } },
            ),
            (RegisterStage::Hash, Reply::Text(Err(e))) => Progress::Done(
                Err(fail(Status::InternalServerError, "register", "hashing password", e.as_str())),
            ),
            (RegisterStage::Draw { hash }, Reply::Drawn(token)) => Progress::Ask(
                Register { request: self.request, stage: RegisterStage::Write { hash, token } },
            ),
            (RegisterStage::Write { token, .. }, Reply::Text(Ok(payload))) => Progress::Ask(
                Register { request: self.request, stage: RegisterStage::Put { token, payload } },
            ),
            (RegisterStage::Write { .. }, Reply::Text(Err(e))) => Progress::Done(
                Err(
                    fail(
                        Status::InternalServerError,
                        "register",
                        "serializing pending registration payload",
                        e.as_str(),
                    ),
                ),
            ),
            (RegisterStage::Put { token, .. }, Reply::Done(Ok(_))) => Progress::Ask(
                Register { request: self.request, stage: RegisterStage::Secret { token } },
            ),
            (RegisterStage::Put { .. }, Reply::Done(Err(e))) => Progress::Done(
                Err(
                    fail(
                        Status::InternalServerError,
                        "register",
                        "caching pending registration token",
                        e.as_str(),
                    ),
                ),
            ),
            (RegisterStage::Secret { token }, Reply::Text(Ok(secret))) => Progress::Ask(
                Register { request: self.request, stage: RegisterStage::Send { token, secret } },
            ),
            (RegisterStage::Secret { .. }, Reply::Text(Err(e))) => Progress::Done(
                Err(
                    fail(
                        Status::InternalServerError,
                        "register",
                        "reading ISC_SECRET env var",
                        e.as_str(),
                    ),
                ),
            ),
            (RegisterStage::Send { .. }, Reply::Done(Ok(_))) => Progress::Done(
                Ok("User registration request generated successfully".to_owned()),
            ),
            (RegisterStage::Send { .. }, Reply::Done(Err(e))) => Progress::Done(
                Err(
                    fail(
                        Status::ServiceUnavailable,
                        "register",
                        "sending confirmation email to '".to_owned()
                            .concat(self.request.email.as_str())
                            .concat("'").as_str(),
                        e.as_str(),
                    ),
                ),
            ),
            (stage, _) => Progress::Ask(Register { request: self.request, stage }),
        }
    }
}

/// A confirmation of a registration on its way.
pub struct RegistrationConfirmation {
    pub registration_token: String,
    pub stage: RegistrationConfirmationStage,
}

/// How far [`RegistrationConfirmation`] has come: what it waits for.
pub enum RegistrationConfirmationStage {
    OpenDatabase,
    OpenCache,
    Fetch,
    Forget { payload: String },
    Read { payload: String },
    Created { pending: PendingRegistration },
    Updated { pending: PendingRegistration, created_at: i64 },
    Insert { pending: PendingRegistration, created_at: i64, updated_at: i64 },
}

/// Starts a confirmation: what is kept under the token is taken out of the cache,
/// whether or not it can be forgotten there, and an active account is stored.
pub fn registeration_confirmation(registration_token: String) -> (r: RegistrationConfirmation)
    ensures
        r == (
            RegistrationConfirmation {
                registration_token,
                stage: RegistrationConfirmationStage::OpenDatabase,
            }
        ),
{
    RegistrationConfirmation {
        registration_token,
        stage: RegistrationConfirmationStage::OpenDatabase,
    }
}

impl Handler for RegistrationConfirmation {
    type Answer = String;

    open spec fn asks(&self) -> NeedView {
        match self.stage {
            RegistrationConfirmationStage::OpenDatabase => NeedView::Query(QueryView::OpenDatabase),
            RegistrationConfirmationStage::OpenCache => NeedView::Query(QueryView::OpenCache),
            RegistrationConfirmationStage::Fetch => NeedView::Query(
                QueryView::CacheText(self.registration_token@),
            ),
            RegistrationConfirmationStage::Forget { .. } => NeedView::Query(
                QueryView::CacheDrop(self.registration_token@),
            ),
            RegistrationConfirmationStage::Read { payload } => NeedView::Query(
                QueryView::ReadPending(payload@),
            ),
            RegistrationConfirmationStage::Created { .. } => NeedView::Task(TaskView::Clock),
            RegistrationConfirmationStage::Updated { .. } => NeedView::Task(TaskView::Clock),
            RegistrationConfirmationStage::Insert {
                pending,
                created_at,
                updated_at,
            } => NeedView::Query(
                QueryView::InsertUser(
                    NewUser {
                        first_name: None,
                        last_name: None,
                        middle_name: None,
                        email_id: pending.email,
                        mobile_number: None,
                        created_at,
                        updated_at,
                        password_hash: Some(pending.hashed_password),
                        is_root: false,
                        is_active: true,
                    },
                ),
            ),
        }
    }

    open spec fn next(self, reply: Reply) -> Outcome<Self, Seq<char>> {
        match (self.stage, reply) {
            (RegistrationConfirmationStage::OpenDatabase, Reply::Done(Ok(_))) => Outcome::Ask(
                RegistrationConfirmation {
                    stage: RegistrationConfirmationStage::OpenCache,
                    ..self
                },
            ),
            (RegistrationConfirmationStage::OpenDatabase, Reply::Done(Err(e))) => Outcome::Done(
                Err(
                    failure(
                        Status::ServiceUnavailable,
                        at("registeration_confirmation"@, "failed to get DB connection"@),
                        e@,
                    ),
                ),
            ),
            (RegistrationConfirmationStage::OpenCache, Reply::Done(Ok(_))) => Outcome::Ask(
                RegistrationConfirmation { stage: RegistrationConfirmationStage::Fetch, ..self },
            ),
            (RegistrationConfirmationStage::OpenCache, Reply::Done(Err(e))) => Outcome::Done(
                Err(
                    failure(
                        Status::ServiceUnavailable,
                        at("registeration_confirmation"@, "failed to get Redis connection"@),
                        e@,
                    ),
                ),
            ),
            (RegistrationConfirmationStage::Fetch, Reply::Text(Ok(payload))) => Outcome::Ask(
                RegistrationConfirmation {
                    stage: RegistrationConfirmationStage::Forget { payload },
                    ..self
                },
            ),
            (RegistrationConfirmationStage::Fetch, Reply::Text(Err(e))) => Outcome::Done(
                Err(
                    failure(
                        Status::NotFound,
                        at(
                            "registeration_confirmation"@,
                            "registration token '"@ + self.registration_token@
                                + "' not found or expired"@,
                        ),
                        e@,
                    ),
                ),
            ),
            (RegistrationConfirmationStage::Forget { payload }, Reply::Done(_)) => Outcome::Ask(
                RegistrationConfirmation {
                    stage: RegistrationConfirmationStage::Read { payload },
                    ..self
                },
            ),
            (
                RegistrationConfirmationStage::Read { .. },
                Reply::Pending(Ok(pending)),
            ) => Outcome::Ask(
                RegistrationConfirmation {
                    stage: RegistrationConfirmationStage::Created { pending },
                    ..self
                },
            ),
            (RegistrationConfirmationStage::Read { .. }, Reply::Pending(Err(e))) => Outcome::Done(
                Err(
                    failure(
                        Status::InternalServerError,
                        at(
                            "registeration_confirmation"@,
                            "deserializing cached registration payload"@,
                        ),
                        e@,
                    ),
                ),
            ),
            (
                RegistrationConfirmationStage::Created { pending },
                Reply::Now(created_at),
            ) => Outcome::Ask(
                RegistrationConfirmation {
                    stage: RegistrationConfirmationStage::Updated { pending, created_at },
                    ..self
                },
            ),
            (
                RegistrationConfirmationStage::Updated { pending, created_at },
                Reply::Now(updated_at),
            ) => Outcome::Ask(
                RegistrationConfirmation {
                    stage: RegistrationConfirmationStage::Insert {
                        pending,
                        created_at,
                        updated_at,
                    },
                    ..self
                },
            ),
            (RegistrationConfirmationStage::Insert { .. }, Reply::Rows(Ok(_))) => Outcome::Done(
                Ok("User registered successfully"@),
            ),
            (
                RegistrationConfirmationStage::Insert { pending, .. },
                Reply::Rows(Err(e)),
            ) => Outcome::Done(
                Err(
                    failure(
                        Status::InternalServerError,
                        at(
                            "registeration_confirmation"@,
                            "inserting new user '"@ + pending.email@ + "'"@,
                        ),
                        e@,
                    ),
                ),
            ),
            _ => Outcome::Ask(self),
        }
    }

    open spec fn rank(&self) -> nat {
        match self.stage {
            RegistrationConfirmationStage::OpenDatabase => 8,
            RegistrationConfirmationStage::OpenCache => 7,
            RegistrationConfirmationStage::Fetch => 6,
            RegistrationConfirmationStage::Forget { .. } => 5,
            RegistrationConfirmationStage::Read { .. } => 4,
            RegistrationConfirmationStage::Created { .. } => 3,
            RegistrationConfirmationStage::Updated { .. } => 2,
            RegistrationConfirmationStage::Insert { .. } => 1,
        }
    }

    open spec fn speaks_as(name: Seq<char>) -> bool {
        name == "registeration_confirmation"@
    }

    proof fn moves(self, reply: Reply) {
    }

    proof fn ignores(self, reply: Reply) {
    }

    proof fn reports(self, reply: Reply) {
        broadcast use refusal_is_reported, failure_is_reported;

        assert(Self::speaks_as("registeration_confirmation"@));
    }

    fn need(&self) -> (r: Need) {
        match &self.stage {
            RegistrationConfirmationStage::OpenDatabase => Need::Query(Query::OpenDatabase),
            RegistrationConfirmationStage::OpenCache => Need::Query(Query::OpenCache),
            RegistrationConfirmationStage::Fetch => Need::Query(
                Query::CacheText(self.registration_token.clone()),
            ),
            RegistrationConfirmationStage::Forget { .. } => Need::Query(
                Query::CacheDrop(self.registration_token.clone()),
            ),
            RegistrationConfirmationStage::Read { payload } => Need::Query(
                Query::ReadPending(payload.clone()),
            ),
            RegistrationConfirmationStage::Created { .. } => Need::Task(Task::Clock),
            RegistrationConfirmationStage::Updated { .. } => Need::Task(Task::Clock),
            RegistrationConfirmationStage::Insert {
                pending,
                created_at,
                updated_at,
            } => Need::Query(
                Query::InsertUser(
                    NewUser {
                        first_name: None,
                        last_name: None,
                        middle_name: None,
                        email_id: pending.email.clone(),
                        mobile_number: None,
                        created_at: *created_at,
                        updated_at: *updated_at,
                        password_hash: Some(pending.hashed_password.clone()),
                        is_root: false,
                        is_active: true,
                    },
                ),
            ),
        }
    }

    fn resume(self, reply: Reply) -> (r: Progress<Self, Self::Answer>) {
        match (self.stage, reply) {
            (RegistrationConfirmationStage::OpenDatabase, Reply::Done(Ok(_))) => Progress::Ask(
                RegistrationConfirmation {
                    registration_token: self.registration_token,
                    stage: RegistrationConfirmationStage::OpenCache,
                },
            ),
            (RegistrationConfirmationStage::OpenDatabase, Reply::Done(Err(e))) => Progress::Done(
                Err(
                    fail(
                        Status::ServiceUnavailable,
                        "registeration_confirmation",
                        "failed to get DB connection",
                        e.as_str(),
                    ),
                ),
            ),
            (RegistrationConfirmationStage::OpenCache, Reply::Done(Ok(_))) => Progress::Ask(
                RegistrationConfirmation {
                    registration_token: self.registration_token,
                    stage: RegistrationConfirmationStage::Fetch,
                },
            ),
            (RegistrationConfirmationStage::OpenCache, Reply::Done(Err(e))) => Progress::Done(
                Err(
                    fail(
                        Status::ServiceUnavailable,
                        "registeration_confirmation",
                        "failed to get Redis connection",
                        e.as_str(),
                    ),
                ),
            ),
            (RegistrationConfirmationStage::Fetch, Reply::Text(Ok(payload))) => Progress::Ask(
                RegistrationConfirmation {
                    registration_token: self.registration_token,
                    stage: RegistrationConfirmationStage::Forget { payload },
                },
            ),
            (RegistrationConfirmationStage::Fetch, Reply::Text(Err(e))) => Progress::Done(
                Err(
                    fail(
                        Status::NotFound,
                        "registeration_confirmation",
                        "registration token '".to_owned()
                            .concat(self.registration_token.as_str())
                            .concat("' not found or expired").as_str(),
                        e.as_str(),
                    ),
                ),
            ),
            (RegistrationConfirmationStage::Forget { payload }, Reply::Done(_)) => Progress::Ask(
                RegistrationConfirmation {
                    registration_token: self.registration_token,
                    stage: RegistrationConfirmationStage::Read { payload },
                },
            ),
            (
                RegistrationConfirmationStage::Read { .. },
                Reply::Pending(Ok(pending)),
            ) => Progress::Ask(
                RegistrationConfirmation {
                    registration_token: self.registration_token,
                    stage: RegistrationConfirmationStage::Created { pending },
                },
            ),
            (RegistrationConfirmationStage::Read { .. }, Reply::Pending(Err(e))) => Progress::Done(
                Err(
                    fail(
                        Status::InternalServerError,
                        "registeration_confirmation",
                        "deserializing cached registration payload",
                        e.as_str(),
                    ),
                ),
            ),
            (
                RegistrationConfirmationStage::Created { pending },
                Reply::Now(created_at),
            ) => Progress::Ask(
                RegistrationConfirmation {
                    registration_token: self.registration_token,
                    stage: RegistrationConfirmationStage::Updated { pending, created_at },
                },
            ),
            (
                RegistrationConfirmationStage::Updated { pending, created_at },
                Reply::Now(updated_at),
            ) => Progress::Ask(
                RegistrationConfirmation {
                    registration_token: self.registration_token,
                    stage: RegistrationConfirmationStage::Insert {
                        pending,
                        created_at,
                        updated_at,
                    },
                },
            ),
            (RegistrationConfirmationStage::Insert { .. }, Reply::Rows(Ok(_))) => Progress::Done(
                Ok("User registered successfully".to_owned()),
            ),
            (
                RegistrationConfirmationStage::Insert { pending, .. },
                Reply::Rows(Err(e)),
            ) => Progress::Done(
                Err(
                    fail(
                        Status::InternalServerError,
                        "registeration_confirmation",
                        "inserting new user '".to_owned()
                            .concat(pending.email.as_str())
                            .concat("'").as_str(),
                        e.as_str(),
                    ),
                ),
            ),
            (stage, _) => Progress::Ask(
                RegistrationConfirmation { registration_token: self.registration_token, stage },
            ),
        }
    }
}

/// A change of profile on its way.
pub struct UpdateProfile {
    pub claims: Claims,
    pub request: UpdateProfileRequest,
    pub stage: UpdateProfileStage,
}

/// How far [`UpdateProfile`] has come: what it waits for.
pub enum UpdateProfileStage {
    OpenDatabase,
    Store { id: i64 },
}

/// Starts a change of profile: the names and the number of the holder of the
/// token are overwritten.
pub fn update_profile(claims: Claims, request: UpdateProfileRequest) -> (r: UpdateProfile)
    ensures
        r == (UpdateProfile { claims, request, stage: UpdateProfileStage::OpenDatabase }),
{
    UpdateProfile { claims, request, stage: UpdateProfileStage::OpenDatabase }
}

impl Handler for UpdateProfile {
    type Answer = MessageResponse;

    open spec fn asks(&self) -> NeedView {
        match self.stage {
            UpdateProfileStage::OpenDatabase => NeedView::Query(QueryView::OpenDatabase),
            UpdateProfileStage::Store { id } => NeedView::Query(
                QueryView::UpdateProfile { id, profile: self.request },
            ),
        }
    }

    open spec fn next(self, reply: Reply) -> Outcome<Self, Seq<char>> {
        match (self.stage, reply) {
            (UpdateProfileStage::OpenDatabase, Reply::Done(Ok(_))) => match i64_value(
                self.claims.user_id@,
            ) {
                Some(id) => Outcome::Ask(
                    UpdateProfile { stage: UpdateProfileStage::Store { id }, ..self },
                ),
                None => Outcome::Done(
                    Err(
                        failure(
                            Status::InternalServerError,
                            at(
                                "update_profile"@,
                                "parsing claims.user_id '"@ + self.claims.user_id@ + "' as i64"@,
                            ),
                            integer_error(self.claims.user_id@),
                        ),
                    ),
                ),
            },
            (UpdateProfileStage::OpenDatabase, Reply::Done(Err(e))) => Outcome::Done(
                Err(
                    failure(
                        Status::ServiceUnavailable,
                        at("update_profile"@, "failed to get DB connection"@),
                        e@,
                    ),
                ),
            ),
            (UpdateProfileStage::Store { id }, Reply::Rows(Ok(rows))) => if rows > 0 {
                Outcome::Done(Ok("Profile updated successfully"@))
            } else {
                Outcome::Done(
                    Err(
                        refusal(
                            Status::NotFound,
                            at("update_profile"@, "no user found with id="@ + decimal(id as int)),
                        ),
                    ),
                )
            },
            (UpdateProfileStage::Store { id }, Reply::Rows(Err(e))) => Outcome::Done(
                Err(
                    failure(
                        Status::InternalServerError,
                        at(
                            "update_profile"@,
                            "updating profile for user id="@ + decimal(id as int),
                        ),
                        e@,
                    ),
                ),
            ),
            _ => Outcome::Ask(self),
        }
    }

    open spec fn rank(&self) -> nat {
        match self.stage {
            UpdateProfileStage::OpenDatabase => 2,
            UpdateProfileStage::Store { .. } => 1,
        }
    }

    open spec fn speaks_as(name: Seq<char>) -> bool {
        name == "update_profile"@
    }

    proof fn moves(self, reply: Reply) {
    }

    proof fn ignores(self, reply: Reply) {
    }

    proof fn reports(self, reply: Reply) {
        broadcast use refusal_is_reported, failure_is_reported;

        assert(Self::speaks_as("update_profile"@));
    }

    fn need(&self) -> (r: Need) {
        match &self.stage {
            UpdateProfileStage::OpenDatabase => Need::Query(Query::OpenDatabase),
            UpdateProfileStage::Store { id } => Need::Query(
                Query::UpdateProfile {
                    id: *id,
                    profile: UpdateProfileRequest {
                        first_name: copy_maybe(&self.request.first_name),
                        middle_name: copy_maybe(&self.request.middle_name),
                        last_name: copy_maybe(&self.request.last_name),
                        mobile_number: copy_maybe(&self.request.mobile_number),
                    },
                },
            ),
        }
    }

    fn resume(self, reply: Reply) -> (r: Progress<Self, Self::Answer>) {
        match (self.stage, reply) {
            (UpdateProfileStage::OpenDatabase, Reply::Done(Ok(_))) => match parse_i64(
                self.claims.user_id.as_str(),
            ) {
                Ok(id) => Progress::Ask(
                    UpdateProfile {
                        claims: self.claims,
                        request: self.request,
                        stage: UpdateProfileStage::Store { id },
                    },
                ),
                Err(e) => Progress::Done(
                    Err(
                        fail(
                            Status::InternalServerError,
                            "update_profile",
                            "parsing claims.user_id '".to_owned()
                                .concat(self.claims.user_id.as_str())
                                .concat("' as i64").as_str(),
                            e.as_str(),
                        ),
                    ),
                ),
            },
            (UpdateProfileStage::OpenDatabase, Reply::Done(Err(e))) => Progress::Done(
                Err(
                    fail(
                        Status::ServiceUnavailable,
                        "update_profile",
                        "failed to get DB connection",
                        e.as_str(),
                    ),
                ),
            ),
            (UpdateProfileStage::Store { id }, Reply::Rows(Ok(rows))) => if rows > 0 {
                Progress::Done(
                    Ok(MessageResponse { message: "Profile updated successfully".to_owned() }),
                )
            } else {
                Progress::Done(
                    Err(
                        refuse(
                            Status::NotFound,
                            "update_profile",
                            "no user found with id=".to_owned().concat(
                                integer_text(id).as_str(),
                            ).as_str(),
                        ),
                    ),
                )
            },
            (UpdateProfileStage::Store { id }, Reply::Rows(Err(e))) => Progress::Done(
                Err(
                    fail(
                        Status::InternalServerError,
                        "update_profile",
                        "updating profile for user id=".to_owned().concat(
                            integer_text(id).as_str(),
                        ).as_str(),
                        e.as_str(),
                    ),
                ),
            ),
            (stage, _) => Progress::Ask(
                UpdateProfile { claims: self.claims, request: self.request, stage },
            ),
        }
    }
}

/// A request for a link to reset a password on its way.
pub struct PasswordResetRequest {
    pub request: RequestPasswordRequest,
    pub stage: PasswordResetRequestStage,
}

/// How far [`PasswordResetRequest`] has come: what it waits for.
pub enum PasswordResetRequestStage {
    OpenCache,
    OpenDatabase,
    FindUser,
    Draw { user: User },
    Put { user: User, token: String },
    Secret { token: String },
    Send { token: String, secret: String },
}

/// Starts a request for a link to reset a password: the id of the account is kept
/// for five minutes under a random token, and a link with that token is sent to
/// the address.
pub fn request_password_reset(request: RequestPasswordRequest) -> (r: PasswordResetRequest)
    ensures
        r == (PasswordResetRequest { request, stage: PasswordResetRequestStage::OpenCache }),
{
    PasswordResetRequest { request, stage: PasswordResetRequestStage::OpenCache }
}

impl Handler for PasswordResetRequest {
    type Answer = MessageResponse;

    open spec fn asks(&self) -> NeedView {
        match self.stage {
            PasswordResetRequestStage::OpenCache => NeedView::Query(QueryView::OpenCache),
            PasswordResetRequestStage::OpenDatabase => NeedView::Query(QueryView::OpenDatabase),
            PasswordResetRequestStage::FindUser => NeedView::Query(
                QueryView::UserByEmail(self.request.email_id@),
            ),
            PasswordResetRequestStage::Draw { .. } => NeedView::Task(TaskView::Draw(30)),
            PasswordResetRequestStage::Put { user, token } => NeedView::Query(
                QueryView::CachePut { key: token@, value: decimal(user.id as int), seconds: 300 },
            ),
            PasswordResetRequestStage::Secret { .. } => NeedView::Query(
                QueryView::Variable("ISC_SECRET"@),
            ),
            PasswordResetRequestStage::Send { token, secret } => NeedView::Query(
                QueryView::SendEmail {
                    api_key: secret@,
                    message: reset_email(self.request.email_id@, self.request.app_id@, token@),
                },
            ),
        }
    }

    open spec fn next(self, reply: Reply) -> Outcome<Self, Seq<char>> {
        match (self.stage, reply) {
            (PasswordResetRequestStage::OpenCache, Reply::Done(Ok(_))) => Outcome::Ask(
                PasswordResetRequest { stage: PasswordResetRequestStage::OpenDatabase, ..self },
            ),
            (PasswordResetRequestStage::OpenCache, Reply::Done(Err(e))) => Outcome::Done(
                Err(
                    failure(
                        Status::ServiceUnavailable,
                        at("request_password_reset"@, "failed to get Redis connection"@),
                        e@,
                    ),
                ),
            ),
            (PasswordResetRequestStage::OpenDatabase, Reply::Done(Ok(_))) => Outcome::Ask(
                PasswordResetRequest { stage: PasswordResetRequestStage::FindUser, ..self },
            ),
            (PasswordResetRequestStage::OpenDatabase, Reply::Done(Err(e))) => Outcome::Done(
                Err(
                    failure(
                        Status::ServiceUnavailable,
                        at("request_password_reset"@, "failed to get DB connection"@),
                        e@,
                    ),
                ),
            ),
            (PasswordResetRequestStage::FindUser, Reply::User(Ok(user))) => Outcome::Ask(
                PasswordResetRequest { stage: PasswordResetRequestStage::Draw { user }, ..self },
            ),
            (PasswordResetRequestStage::FindUser, Reply::User(Err(e))) => Outcome::Done(
                Err(
                    failure(
                        Status::NotFound,
                        at(
                            "request_password_reset"@,
                            "user with email '"@ + self.request.email_id@ + "' not found"@,
                        ),
                        e@,
                    ),
                ),
            ),
            (PasswordResetRequestStage::Draw { user }, Reply::Drawn(token)) => Outcome::Ask(
                PasswordResetRequest {
                    stage: PasswordResetRequestStage::Put { user, token },
                    ..self
                },
            ),
            (PasswordResetRequestStage::Put { token, .. }, Reply::Done(Ok(_))) => Outcome::Ask(
                PasswordResetRequest { stage: PasswordResetRequestStage::Secret { token }, ..self },
            ),
            (PasswordResetRequestStage::Put { user, .. }, Reply::Done(Err(e))) => Outcome::Done(
                Err(
                    failure(
                        Status::InternalServerError,
                        at(
                            "request_password_reset"@,
                            "caching reset token for user "@ + decimal(user.id as int),
                        ),
                        e@,
                    ),
                ),
            ),
            (PasswordResetRequestStage::Secret { token }, Reply::Text(Ok(secret))) => Outcome::Ask(
                PasswordResetRequest {
                    stage: PasswordResetRequestStage::Send { token, secret },
                    ..self
                },
            ),
            (PasswordResetRequestStage::Secret { .. }, Reply::Text(Err(e))) => Outcome::Done(
                Err(
                    failure(
                        Status::InternalServerError,
                        at("request_password_reset"@, "reading ISC_SECRET env var"@),
                        e@,
                    ),
                ),
            ),
            (PasswordResetRequestStage::Send { .. }, Reply::Done(Ok(_))) => Outcome::Done(
                Ok("Password reset token created successfully"@),
            ),
            (PasswordResetRequestStage::Send { .. }, Reply::Done(Err(e))) => Outcome::Done(
                Err(
                    failure(
                        Status::ServiceUnavailable,
                        at(
                            "request_password_reset"@,
                            "sending reset email to '"@ + self.request.email_id@ + "'"@,
                        ),
                        e@,
                    ),
                ),
            ),
            _ => Outcome::Ask(self),
        }
    }

    open spec fn rank(&self) -> nat {
        match self.stage {
            PasswordResetRequestStage::OpenCache => 7,
            PasswordResetRequestStage::OpenDatabase => 6,
            PasswordResetRequestStage::FindUser => 5,
            PasswordResetRequestStage::Draw { .. } => 4,
            PasswordResetRequestStage::Put { .. } => 3,
            PasswordResetRequestStage::Secret { .. } => 2,
            PasswordResetRequestStage::Send { .. } => 1,
        }
    }

    open spec fn speaks_as(name: Seq<char>) -> bool {
        name == "request_password_reset"@
    }

    proof fn moves(self, reply: Reply) {
    }

    proof fn ignores(self, reply: Reply) {
    }

    proof fn reports(self, reply: Reply) {
        broadcast use refusal_is_reported, failure_is_reported;

        assert(Self::speaks_as("request_password_reset"@));
    }

    fn need(&self) -> (r: Need) {
        match &self.stage {
            PasswordResetRequestStage::OpenCache => Need::Query(Query::OpenCache),
            PasswordResetRequestStage::OpenDatabase => Need::Query(Query::OpenDatabase),
            PasswordResetRequestStage::FindUser => Need::Query(
                Query::UserByEmail(self.request.email_id.clone()),
            ),
            PasswordResetRequestStage::Draw { .. } => Need::Task(Task::Draw(30)),
            PasswordResetRequestStage::Put { user, token } => Need::Query(
                Query::CachePut { key: token.clone(), value: integer_text(user.id), seconds: 300 },
            ),
            PasswordResetRequestStage::Secret { .. } => Need::Query(
                Query::Variable("ISC_SECRET".to_owned()),
            ),
            PasswordResetRequestStage::Send { token, secret } => Need::Query(
                Query::SendEmail {
                    api_key: secret.clone(),
                    message: write_reset_email(
                        self.request.email_id.as_str(),
                        self.request.app_id.as_str(),
                        token.as_str(),
                    ),
                },
            ),
        }
    }

    fn resume(self, reply: Reply) -> (r: Progress<Self, Self::Answer>) {
        match (self.stage, reply) {
            (PasswordResetRequestStage::OpenCache, Reply::Done(Ok(_))) => Progress::Ask(
                PasswordResetRequest {
                    request: self.request,
                    stage: PasswordResetRequestStage::OpenDatabase,
                },
            ),
            (PasswordResetRequestStage::OpenCache, Reply::Done(Err(e))) => Progress::Done(
                Err(
                    fail(
                        Status::ServiceUnavailable,
                        "request_password_reset",
                        "failed to get Redis connection",
                        e.as_str(),
                    ),
                ),
            ),
            (PasswordResetRequestStage::OpenDatabase, Reply::Done(Ok(_))) => Progress::Ask(
                PasswordResetRequest {
                    request: self.request,
                    stage: PasswordResetRequestStage::FindUser,
                },
            ),
            (PasswordResetRequestStage::OpenDatabase, Reply::Done(Err(e))) => Progress::Done(
                Err(
                    fail(
                        Status::ServiceUnavailable,
                        "request_password_reset",
                        "failed to get DB connection",
                        e.as_str(),
                    ),
                ),
            ),
            (PasswordResetRequestStage::FindUser, Reply::User(Ok(user))) => Progress::Ask(
                PasswordResetRequest {
                    request: self.request,
                    stage: PasswordResetRequestStage::Draw { user },
                },
            ),
            (PasswordResetRequestStage::FindUser, Reply::User(Err(e))) => Progress::Done(
                Err(
                    fail(
                        Status::NotFound,
                        "request_password_reset",
                        "user with email '".to_owned()
                            .concat(self.request.email_id.as_str())
                            .concat("' not found").as_str(),
                        e.as_str(),
                    ),
                ),
            ),
            (PasswordResetRequestStage::Draw { user }, Reply::Drawn(token)) => Progress::Ask(
                PasswordResetRequest {
                    request: self.request,
                    stage: PasswordResetRequestStage::Put { user, token },
                },
            ),
            (PasswordResetRequestStage::Put { token, .. }, Reply::Done(Ok(_))) => Progress::Ask(
                PasswordResetRequest {
                    request: self.request,
                    stage: PasswordResetRequestStage::Secret { token },
                },
            ),
            (PasswordResetRequestStage::Put { user, .. }, Reply::Done(Err(e))) => Progress::Done(
                Err(
                    fail(
                        Status::InternalServerError,
                        "request_password_reset",
                        "caching reset token for user ".to_owned().concat(
                            integer_text(user.id).as_str(),
                        ).as_str(),
                        e.as_str(),
                    ),
                ),
            ),
            (PasswordResetRequestStage::Secret { token }, Reply::Text(Ok(secret))) => Progress::Ask(
                PasswordResetRequest {
                    request: self.request,
                    stage: PasswordResetRequestStage::Send { token, secret },
                },
            ),
            (PasswordResetRequestStage::Secret { .. }, Reply::Text(Err(e))) => Progress::Done(
                Err(
                    fail(
                        Status::InternalServerError,
                        "request_password_reset",
                        "reading ISC_SECRET env var",
                        e.as_str(),
                    ),
                ),
            ),
            (PasswordResetRequestStage::Send { .. }, Reply::Done(Ok(_))) => Progress::Done(
                Ok(
                    MessageResponse {
                        message: "Password reset token created successfully".to_owned(),
                    },
                ),
            ),
            (PasswordResetRequestStage::Send { .. }, Reply::Done(Err(e))) => Progress::Done(
                Err(
                    fail(
                        Status::ServiceUnavailable,
                        "request_password_reset",
                        "sending reset email to '".to_owned()
                            .concat(self.request.email_id.as_str())
                            .concat("'").as_str(),
                        e.as_str(),
                    ),
                ),
            ),
            (stage, _) => Progress::Ask(PasswordResetRequest { request: self.request, stage }),
        }
    }
}

/// A reset of a password on its way.
pub struct ResetPassword {
    pub request: ResetPasswordRequest,
    pub stage: ResetPasswordStage,
}

/// How far [`ResetPassword`] has come: what it waits for.
pub enum ResetPasswordStage {
    OpenCache,
    OpenDatabase,
    Fetch,
    Hash { id: i64 },
    Store { id: i64, hash: String },
    Forget,
}

/// Starts a reset of a password: the account whose id is kept under the token gets
/// a hash of the new password, and the token is forgotten if it can be.
pub fn reset_password(request: ResetPasswordRequest) -> (r: ResetPassword)
    ensures
        r == (ResetPassword { request, stage: ResetPasswordStage::OpenCache }),
{
    ResetPassword { request, stage: ResetPasswordStage::OpenCache }
}

impl Handler for ResetPassword {
    type Answer = MessageResponse;

    open spec fn asks(&self) -> NeedView {
        match self.stage {
            ResetPasswordStage::OpenCache => NeedView::Query(QueryView::OpenCache),
            ResetPasswordStage::OpenDatabase => NeedView::Query(QueryView::OpenDatabase),
            ResetPasswordStage::Fetch => NeedView::Query(QueryView::CacheId(self.request.token@)),
            ResetPasswordStage::Hash { .. } => NeedView::Task(
                TaskView::Hash(self.request.new_password@),
            ),
            ResetPasswordStage::Store { id, hash } => NeedView::Query(
                QueryView::SetPasswordById { id, hash: hash@ },
            ),
            ResetPasswordStage::Forget => NeedView::Query(
                QueryView::CacheDrop(self.request.token@),
            ),
        }
    }

    open spec fn next(self, reply: Reply) -> Outcome<Self, Seq<char>> {
        match (self.stage, reply) {
            (ResetPasswordStage::OpenCache, Reply::Done(Ok(_))) => Outcome::Ask(
                ResetPassword { stage: ResetPasswordStage::OpenDatabase, ..self },
            ),
            (ResetPasswordStage::OpenCache, Reply::Done(Err(e))) => Outcome::Done(
                Err(
                    failure(
                        Status::ServiceUnavailable,
                        at("reset_password"@, "failed to get Redis connection"@),
                        e@,
                    ),
                ),
            ),
            (ResetPasswordStage::OpenDatabase, Reply::Done(Ok(_))) => Outcome::Ask(
                ResetPassword { stage: ResetPasswordStage::Fetch, ..self },
            ),
            (ResetPasswordStage::OpenDatabase, Reply::Done(Err(e))) => Outcome::Done(
                Err(
                    failure(
                        Status::ServiceUnavailable,
                        at("reset_password"@, "failed to get DB connection"@),
                        e@,
                    ),
                ),
            ),
            (ResetPasswordStage::Fetch, Reply::Id(Ok(id))) => Outcome::Ask(
                ResetPassword { stage: ResetPasswordStage::Hash { id }, ..self },
            ),
            (ResetPasswordStage::Fetch, Reply::Id(Err(e))) => Outcome::Done(
                Err(
                    failure(
                        Status::NotFound,
                        at("reset_password"@, "reset token not found or expired"@),
                        e@,
                    ),
                ),
            ),
            (ResetPasswordStage::Hash { id }, Reply::Text(Ok(hash))) => Outcome::Ask(
                ResetPassword { stage: ResetPasswordStage::Store { id, hash }, ..self },
            ),
            (ResetPasswordStage::Hash { .. }, Reply::Text(Err(e))) => Outcome::Done(
                Err(
                    failure(
                        Status::InternalServerError,
                        at("reset_password"@, "hashing new password"@),
                        e@,
                    ),
                ),
            ),
            (ResetPasswordStage::Store { id, .. }, Reply::Rows(Ok(rows))) => if rows > 0 {
                Outcome::Ask(ResetPassword { stage: ResetPasswordStage::Forget, ..self })
            } else {
                Outcome::Done(
                    Err(
                        failure(
                            Status::InternalServerError,
                            at(
                                "reset_password"@,
                                "update touched 0 rows for user id="@ + decimal(id as int),
                            ),
                            "\"expected 1 row to be updated\""@,
                        ),
                    ),
                )
            },
            (ResetPasswordStage::Store { id, .. }, Reply::Rows(Err(e))) => Outcome::Done(
                Err(
                    failure(
                        Status::InternalServerError,
                        at(
                            "reset_password"@,
                            "updating password for user id="@ + decimal(id as int),
                        ),
                        e@,
                    ),
                ),
            ),
            (ResetPasswordStage::Forget, Reply::Done(_)) => Outcome::Done(
                Ok("Password updated successfully"@),
            ),
            _ => Outcome::Ask(self),
        }
    }

    open spec fn rank(&self) -> nat {
        match self.stage {
            ResetPasswordStage::OpenCache => 6,
            ResetPasswordStage::OpenDatabase => 5,
            ResetPasswordStage::Fetch => 4,
            ResetPasswordStage::Hash { .. } => 3,
            ResetPasswordStage::Store { .. } => 2,
            ResetPasswordStage::Forget => 1,
        }
    }

    open spec fn speaks_as(name: Seq<char>) -> bool {
        name == "reset_password"@
    }

    proof fn moves(self, reply: Reply) {
    }

    proof fn ignores(self, reply: Reply) {
    }

    proof fn reports(self, reply: Reply) {
        broadcast use refusal_is_reported, failure_is_reported;

        assert(Self::speaks_as("reset_password"@));
    }

    fn need(&self) -> (r: Need) {
        match &self.stage {
            ResetPasswordStage::OpenCache => Need::Query(Query::OpenCache),
            ResetPasswordStage::OpenDatabase => Need::Query(Query::OpenDatabase),
            ResetPasswordStage::Fetch => Need::Query(Query::CacheId(self.request.token.clone())),
            ResetPasswordStage::Hash { .. } => Need::Task(
                Task::Hash(self.request.new_password.clone()),
            ),
            ResetPasswordStage::Store { id, hash } => Need::Query(
                Query::SetPasswordById { id: *id, hash: hash.clone() },
            ),
            ResetPasswordStage::Forget => Need::Query(Query::CacheDrop(self.request.token.clone())),
        }
    }

    fn resume(self, reply: Reply) -> (r: Progress<Self, Self::Answer>) {
        match (self.stage, reply) {
            (ResetPasswordStage::OpenCache, Reply::Done(Ok(_))) => Progress::Ask(
                ResetPassword { request: self.request, stage: ResetPasswordStage::OpenDatabase },
            ),
            (ResetPasswordStage::OpenCache, Reply::Done(Err(e))) => Progress::Done(
                Err(
                    fail(
                        Status::ServiceUnavailable,
                        "reset_password",
                        "failed to get Redis connection",
                        e.as_str(),
                    ),
                ),
            ),
            (ResetPasswordStage::OpenDatabase, Reply::Done(Ok(_))) => Progress::Ask(
                ResetPassword { request: self.request, stage: ResetPasswordStage::Fetch },
            ),
            (ResetPasswordStage::OpenDatabase, Reply::Done(Err(e))) => Progress::Done(
                Err(
                    fail(
                        Status::ServiceUnavailable,
                        "reset_password",
                        "failed to get DB connection",
                        e.as_str(),
                    ),
                ),
            ),
            (ResetPasswordStage::Fetch, Reply::Id(Ok(id))) => Progress::Ask(
                ResetPassword { request: self.request, stage: ResetPasswordStage::Hash { id } },
            ),
            (ResetPasswordStage::Fetch, Reply::Id(Err(e))) => Progress::Done(
                Err(
                    fail(
                        Status::NotFound,
                        "reset_password",
                        "reset token not found or expired",
                        e.as_str(),
                    ),
                ),
            ),
            (ResetPasswordStage::Hash { id }, Reply::Text(Ok(hash))) => Progress::Ask(
                ResetPassword {
                    request: self.request,
                    stage: ResetPasswordStage::Store { id, hash },
                },
            ),
            (ResetPasswordStage::Hash { .. }, Reply::Text(Err(e))) => Progress::Done(
                Err(
                    fail(
                        Status::InternalServerError,
                        "reset_password",
                        "hashing new password",
                        e.as_str(),
                    ),
                ),
            ),
            (ResetPasswordStage::Store { id, .. }, Reply::Rows(Ok(rows))) => if rows > 0 {
                Progress::Ask(
                    ResetPassword { request: self.request, stage: ResetPasswordStage::Forget },
                )
            } else {
                Progress::Done(
                    Err(
                        fail(
                            Status::InternalServerError,
                            "reset_password",
                            "update touched 0 rows for user id=".to_owned().concat(
                                integer_text(id).as_str(),
                            ).as_str(),
                            "\"expected 1 row to be updated\"",
                        ),
                    ),
                )
            },
            (ResetPasswordStage::Store { id, .. }, Reply::Rows(Err(e))) => Progress::Done(
                Err(
                    fail(
                        Status::InternalServerError,
                        "reset_password",
                        "updating password for user id=".to_owned().concat(
                            integer_text(id).as_str(),
                        ).as_str(),
                        e.as_str(),
                    ),
                ),
            ),
            (ResetPasswordStage::Forget, Reply::Done(_)) => Progress::Done(
                Ok(MessageResponse { message: "Password updated successfully".to_owned() }),
            ),
            (stage, _) => Progress::Ask(ResetPassword { request: self.request, stage }),
        }
    }
}

/// The acceptance of an invitation on its way.
pub struct AcceptInvite {
    pub invitation_token: String,
    pub request: AcceptInviteRequest,
    pub stage: AcceptInviteStage,
}

/// How far [`AcceptInvite`] has come: what it waits for.
pub enum AcceptInviteStage {
    OpenDatabase,
    OpenCache,
    Fetch,
    Forget { payload: String },
    Read { payload: String },
    Hash { invite: InviteRequest },
    Created { invite: InviteRequest, hash: String },
    Updated { invite: InviteRequest, hash: String, created_at: i64 },
    Insert { invite: InviteRequest, hash: String, created_at: i64, updated_at: i64 },
}

/// Starts the acceptance of an invitation: the invitation that is kept under the
/// token is taken out of the cache, and an active account with the names of the
/// invitation and a hash of the password is stored.
pub fn accept_invite(invitation_token: String, request: AcceptInviteRequest) -> (r: AcceptInvite)
    ensures
        r == (AcceptInvite { invitation_token, request, stage: AcceptInviteStage::OpenDatabase }),
{
    AcceptInvite { invitation_token, request, stage: AcceptInviteStage::OpenDatabase }
}

impl Handler for AcceptInvite {
    type Answer = String;

    open spec fn asks(&self) -> NeedView {
        match self.stage {
            AcceptInviteStage::OpenDatabase => NeedView::Query(QueryView::OpenDatabase),
            AcceptInviteStage::OpenCache => NeedView::Query(QueryView::OpenCache),
            AcceptInviteStage::Fetch => NeedView::Query(
                QueryView::CacheText(self.invitation_token@),
            ),
            AcceptInviteStage::Forget { .. } => NeedView::Query(
                QueryView::CacheDrop(self.invitation_token@),
            ),
            AcceptInviteStage::Read { payload } => NeedView::Query(QueryView::ReadInvite(payload@)),
            AcceptInviteStage::Hash { .. } => NeedView::Task(
                TaskView::Hash(self.request.password@),
            ),
            AcceptInviteStage::Created { .. } => NeedView::Task(TaskView::Clock),
            AcceptInviteStage::Updated { .. } => NeedView::Task(TaskView::Clock),
            AcceptInviteStage::Insert { invite, hash, created_at, updated_at } => NeedView::Query(
                QueryView::InsertUser(
                    NewUser {
                        first_name: Some(invite.first_name),
                        last_name: Some(invite.last_name),
                        middle_name: invite.middle_name,
                        email_id: invite.email,
                        mobile_number: None,
                        created_at,
                        updated_at,
                        password_hash: Some(hash),
                        is_root: invite.is_root,
                        is_active: true,
                    },
                ),
            ),
        }
    }

    open spec fn next(self, reply: Reply) -> Outcome<Self, Seq<char>> {
        match (self.stage, reply) {
            (AcceptInviteStage::OpenDatabase, Reply::Done(Ok(_))) => Outcome::Ask(
                AcceptInvite { stage: AcceptInviteStage::OpenCache, ..self },
            ),
            (AcceptInviteStage::OpenDatabase, Reply::Done(Err(e))) => Outcome::Done(
                Err(
                    failure(
                        Status::ServiceUnavailable,
                        at("accept_invite"@, "failed to get DB connection"@),
                        e@,
                    ),
                ),
            ),
            (AcceptInviteStage::OpenCache, Reply::Done(Ok(_))) => Outcome::Ask(
                AcceptInvite { stage: AcceptInviteStage::Fetch, ..self },
            ),
            (AcceptInviteStage::OpenCache, Reply::Done(Err(e))) => Outcome::Done(
                Err(
                    failure(
                        Status::ServiceUnavailable,
                        at("accept_invite"@, "failed to get Redis connection"@),
                        e@,
                    ),
                ),
            ),
            (AcceptInviteStage::Fetch, Reply::Text(Ok(payload))) => Outcome::Ask(
                AcceptInvite { stage: AcceptInviteStage::Forget { payload }, ..self },
            ),
            (AcceptInviteStage::Fetch, Reply::Text(Err(e))) => Outcome::Done(
                Err(
                    failure(
                        Status::NotFound,
                        at("accept_invite"@, "invitation token not found or expired"@),
                        e@,
                    ),
                ),
            ),
            (AcceptInviteStage::Forget { payload }, Reply::Done(_)) => Outcome::Ask(
                AcceptInvite { stage: AcceptInviteStage::Read { payload }, ..self },
            ),
            (AcceptInviteStage::Read { .. }, Reply::Invite(Ok(invite))) => Outcome::Ask(
                AcceptInvite { stage: AcceptInviteStage::Hash { invite }, ..self },
            ),
            (AcceptInviteStage::Read { .. }, Reply::Invite(Err(e))) => Outcome::Done(
                Err(
                    failure(
                        Status::InternalServerError,
                        at("accept_invite"@, "deserializing cached invitation payload"@),
                        e@,
                    ),
                ),
            ),
            (AcceptInviteStage::Hash { invite }, Reply::Text(Ok(hash))) => Outcome::Ask(
                AcceptInvite { stage: AcceptInviteStage::Created { invite, hash }, ..self },
            ),
            (AcceptInviteStage::Hash { .. }, Reply::Text(Err(e))) => Outcome::Done(
                Err(
                    failure(
                        Status::InternalServerError,
                        at("accept_invite"@, "hashing password"@),
                        e@,
                    ),
                ),
            ),
            (AcceptInviteStage::Created { invite, hash }, Reply::Now(created_at)) => Outcome::Ask(
                AcceptInvite {
                    stage: AcceptInviteStage::Updated { invite, hash, created_at },
                    ..self
                },
            ),
            (
                AcceptInviteStage::Updated { invite, hash, created_at },
                Reply::Now(updated_at),
            ) => Outcome::Ask(
                AcceptInvite {
                    stage: AcceptInviteStage::Insert { invite, hash, created_at, updated_at },
                    ..self
                },
            ),
            (AcceptInviteStage::Insert { .. }, Reply::Rows(Ok(_))) => Outcome::Done(
                Ok("Invitation accepted, user registered successfully"@),
            ),
            (AcceptInviteStage::Insert { invite, .. }, Reply::Rows(Err(e))) => Outcome::Done(
                Err(
                    failure(
                        Status::InternalServerError,
                        at("accept_invite"@, "inserting new user '"@ + invite.email@ + "'"@),
                        e@,
                    ),
                ),
            ),
            _ => Outcome::Ask(self),
        }
    }

    open spec fn rank(&self) -> nat {
        match self.stage {
            AcceptInviteStage::OpenDatabase => 9,
            AcceptInviteStage::OpenCache => 8,
            AcceptInviteStage::Fetch => 7,
            AcceptInviteStage::Forget { .. } => 6,
            AcceptInviteStage::Read { .. } => 5,
            AcceptInviteStage::Hash { .. } => 4,
            AcceptInviteStage::Created { .. } => 3,
            AcceptInviteStage::Updated { .. } => 2,
            AcceptInviteStage::Insert { .. } => 1,
        }
    }

    open spec fn speaks_as(name: Seq<char>) -> bool {
        name == "accept_invite"@
    }

    proof fn moves(self, reply: Reply) {
    }

    proof fn ignores(self, reply: Reply) {
    }

    proof fn reports(self, reply: Reply) {
        broadcast use refusal_is_reported, failure_is_reported;

        assert(Self::speaks_as("accept_invite"@));
    }

    fn need(&self) -> (r: Need) {
        match &self.stage {
            AcceptInviteStage::OpenDatabase => Need::Query(Query::OpenDatabase),
            AcceptInviteStage::OpenCache => Need::Query(Query::OpenCache),
            AcceptInviteStage::Fetch => Need::Query(
                Query::CacheText(self.invitation_token.clone()),
            ),
            AcceptInviteStage::Forget { .. } => Need::Query(
                Query::CacheDrop(self.invitation_token.clone()),
            ),
            AcceptInviteStage::Read { payload } => Need::Query(Query::ReadInvite(payload.clone())),
            AcceptInviteStage::Hash { .. } => Need::Task(Task::Hash(self.request.password.clone())),
            AcceptInviteStage::Created { .. } => Need::Task(Task::Clock),
            AcceptInviteStage::Updated { .. } => Need::Task(Task::Clock),
            AcceptInviteStage::Insert { invite, hash, created_at, updated_at } => Need::Query(
                Query::InsertUser(
                    NewUser {
                        first_name: Some(invite.first_name.clone()),
                        last_name: Some(invite.last_name.clone()),
                        middle_name: copy_maybe(&invite.middle_name),
                        email_id: invite.email.clone(),
                        mobile_number: None,
                        created_at: *created_at,
                        updated_at: *updated_at,
                        password_hash: Some(hash.clone()),
                        is_root: invite.is_root,
                        is_active: true,
                    },
                ),
            ),
        }
    }

    fn resume(self, reply: Reply) -> (r: Progress<Self, Self::Answer>) {
        match (self.stage, reply) {
            (AcceptInviteStage::OpenDatabase, Reply::Done(Ok(_))) => Progress::Ask(
                AcceptInvite {
                    invitation_token: self.invitation_token,
                    request: self.request,
                    stage: AcceptInviteStage::OpenCache,
                },
            ),
            (AcceptInviteStage::OpenDatabase, Reply::Done(Err(e))) => Progress::Done(
                Err(
                    fail(
                        Status::ServiceUnavailable,
                        "accept_invite",
                        "failed to get DB connection",
                        e.as_str(),
                    ),
                ),
            ),
            (AcceptInviteStage::OpenCache, Reply::Done(Ok(_))) => Progress::Ask(
                AcceptInvite {
                    invitation_token: self.invitation_token,
                    request: self.request,
                    stage: AcceptInviteStage::Fetch,
                },
            ),
            (AcceptInviteStage::OpenCache, Reply::Done(Err(e))) => Progress::Done(
                Err(
                    fail(
                        Status::ServiceUnavailable,
                        "accept_invite",
                        "failed to get Redis connection",
                        e.as_str(),
                    ),
                ),
            ),
            (AcceptInviteStage::Fetch, Reply::Text(Ok(payload))) => Progress::Ask(
                AcceptInvite {
                    invitation_token: self.invitation_token,
                    request: self.request,
                    stage: AcceptInviteStage::Forget { payload },
                },
            ),
            (AcceptInviteStage::Fetch, Reply::Text(Err(e))) => Progress::Done(
                Err(
                    fail(
                        Status::NotFound,
                        "accept_invite",
                        "invitation token not found or expired",
                        e.as_str(),
                    ),
                ),
            ),
            (AcceptInviteStage::Forget { payload }, Reply::Done(_)) => Progress::Ask(
                AcceptInvite {
                    invitation_token: self.invitation_token,
                    request: self.request,
                    stage: AcceptInviteStage::Read { payload },
                },
            ),
            (AcceptInviteStage::Read { .. }, Reply::Invite(Ok(invite))) => Progress::Ask(
                AcceptInvite {
                    invitation_token: self.invitation_token,
                    request: self.request,
                    stage: AcceptInviteStage::Hash { invite },
                },
            ),
            (AcceptInviteStage::Read { .. }, Reply::Invite(Err(e))) => Progress::Done(
                Err(
                    fail(
                        Status::InternalServerError,
                        "accept_invite",
                        "deserializing cached invitation payload",
                        e.as_str(),
                    ),
                ),
            ),
            (AcceptInviteStage::Hash { invite }, Reply::Text(Ok(hash))) => Progress::Ask(
                AcceptInvite {
                    invitation_token: self.invitation_token,
                    request: self.request,
                    stage: AcceptInviteStage::Created { invite, hash },
                },
            ),
            (AcceptInviteStage::Hash { .. }, Reply::Text(Err(e))) => Progress::Done(
                Err(
                    fail(
                        Status::InternalServerError,
                        "accept_invite",
                        "hashing password",
                        e.as_str(),
                    ),
                ),
            ),
            (AcceptInviteStage::Created { invite, hash }, Reply::Now(created_at)) => Progress::Ask(
                AcceptInvite {
                    invitation_token: self.invitation_token,
                    request: self.request,
                    stage: AcceptInviteStage::Updated { invite, hash, created_at },
                },
            ),
            (
                AcceptInviteStage::Updated { invite, hash, created_at },
                Reply::Now(updated_at),
            ) => Progress::Ask(
                AcceptInvite {
                    invitation_token: self.invitation_token,
                    request: self.request,
                    stage: AcceptInviteStage::Insert { invite, hash, created_at, updated_at },
                },
            ),
            (AcceptInviteStage::Insert { .. }, Reply::Rows(Ok(_))) => Progress::Done(
                Ok("Invitation accepted, user registered successfully".to_owned()),
            ),
            (AcceptInviteStage::Insert { invite, .. }, Reply::Rows(Err(e))) => Progress::Done(
                Err(
                    fail(
                        Status::InternalServerError,
                        "accept_invite",
                        "inserting new user '".to_owned()
                            .concat(invite.email.as_str())
                            .concat("'").as_str(),
                        e.as_str(),
                    ),
                ),
            ),
            (stage, _) => Progress::Ask(
                AcceptInvite {
                    invitation_token: self.invitation_token,
                    request: self.request,
                    stage,
                },
            ),
        }
    }
}

} // verus!
