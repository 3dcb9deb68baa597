//! The records that the service works on: what it stores, what it is asked
//! and what it answers.

use crate::outside::told_text;
use crate::text::{maybe_text, texts};
use vstd::prelude::*;

verus! {

/// An account.
#[derive(Debug, PartialEq, Eq)]
pub struct User {
    pub id: i64,
    pub first_name: Option<String>,
    pub last_name: Option<String>,
    pub middle_name: Option<String>,
    pub email_id: String,
    pub mobile_number: Option<String>,
    pub password_hash: Option<String>,
    pub is_root: bool,
    pub is_active: bool,
}

/// An account to be stored. The times are microseconds since the Unix epoch.
#[derive(Debug, PartialEq, Eq)]
pub struct NewUser {
    pub first_name: Option<String>,
    pub last_name: Option<String>,
    pub middle_name: Option<String>,
    pub email_id: String,
    pub mobile_number: Option<String>,
    pub created_at: i64,
    pub updated_at: i64,
    pub password_hash: Option<String>,
    pub is_root: bool,
    pub is_active: bool,
}

/// A group of users.
#[derive(Debug, PartialEq, Eq)]
pub struct Group {
    pub id: i64,
    pub identifier: String,
    pub disabled: bool,
    pub short_text: Option<String>,
}

/// A group to be stored.
#[derive(Debug, PartialEq, Eq)]
pub struct NewGroup {
    pub identifier: String,
    pub disabled: bool,
    pub short_text: Option<String>,
}

/// A member of a group, as the store lists it.
#[derive(Debug, PartialEq, Eq)]
pub struct Member {
    pub first_name: Option<String>,
    pub last_name: Option<String>,
    pub middle_name: Option<String>,
    pub email_id: String,
    pub id: i64,
}

/// An application that users sign in to. One without a group is open to everybody.
#[derive(Debug, PartialEq, Eq)]
pub struct App {
    pub id: i64,
    pub client_id: String,
    pub name: String,
    pub logo_url: Option<String>,
    pub disabled: bool,
    pub app_url_dev: Option<String>,
    pub app_url_stage: Option<String>,
    pub app_url_prod: Option<String>,
    pub group_id: Option<i64>,
    pub tnc_link: Option<String>,
    pub allow_registration: bool,
    pub description: Option<String>,
    pub auth_redirection_path: Option<String>,
    pub web_interface: bool,
}

/// An application to be stored.
#[derive(Debug, PartialEq, Eq)]
pub struct NewApp {
    pub client_id: String,
    pub name: String,
    pub logo_url: Option<String>,
    pub disabled: bool,
    pub app_url_dev: Option<String>,
    pub app_url_stage: Option<String>,
    pub app_url_prod: Option<String>,
    pub group_id: Option<i64>,
    pub tnc_link: Option<String>,
    pub allow_registration: bool,
    pub description: Option<String>,
    pub auth_redirection_path: Option<String>,
    pub web_interface: bool,
}

/// The fields of an application that are to be overwritten; the others stay.
#[derive(Debug, PartialEq, Eq)]
pub struct AppChanges {
    pub name: Option<String>,
    pub logo_url: Option<String>,
    pub disabled: Option<bool>,
    pub app_url_dev: Option<String>,
    pub app_url_stage: Option<String>,
    pub app_url_prod: Option<String>,
    pub group_id: Option<i64>,
    pub tnc_link: Option<String>,
    pub allow_registration: Option<bool>,
    pub description: Option<String>,
    pub auth_redirection_path: Option<String>,
    pub web_interface: Option<bool>,
}

/// An application with the identifier of its group.
#[derive(Debug, PartialEq, Eq)]
pub struct AppListing {
    pub name: String,
    pub logo_url: Option<String>,
    pub allow_registration: bool,
    pub tnc_link: Option<String>,
    pub app_url_dev: Option<String>,
    pub app_url_stage: Option<String>,
    pub app_url_prod: Option<String>,
    pub description: Option<String>,
    pub auth_redirection_path: Option<String>,
    pub web_interface: bool,
    pub group_identifier: Option<String>,
}

/// An API token of a group. The expiry date is a number of days, the time of
/// creation a number of microseconds, since the Unix epoch.
#[derive(Debug, PartialEq, Eq)]
pub struct ApiToken {
    pub id: i64,
    pub parent_id: i64,
    pub expiry_date: i64,
    pub created_at: i64,
    pub is_active: bool,
    pub name: String,
    pub token_str: Option<String>,
}

/// An API token to be stored, with dates and times as in [`ApiToken`].
#[derive(Debug, PartialEq, Eq)]
pub struct NewApiToken {
    pub parent_id: i64,
    pub expiry_date: i64,
    pub created_at: i64,
    pub updated_at: i64,
    pub is_active: bool,
    pub name: String,
    pub token_str: Option<String>,
}

/// A registration that waits for its confirmation.
#[derive(Debug, PartialEq, Eq)]
pub struct PendingRegistration {
    pub email: String,
    pub hashed_password: String,
}

/// An invitation that waits to be accepted.
#[derive(Debug, PartialEq, Eq)]
pub struct InviteRequest {
    pub email: String,
    pub first_name: String,
    pub last_name: String,
    pub middle_name: Option<String>,
    pub is_root: bool,
}

/// A message to be sent.
#[derive(Debug, PartialEq, Eq)]
pub struct Email {
    pub to: String,
    pub subject: String,
    pub message: String,
}

/// A token to be made for a user. The secret is what the environment gave for it.
#[derive(Debug, PartialEq, Eq)]
pub struct TokenOrder {
    pub email: String,
    pub user_id: String,
    pub token_type: String,
    pub first_name: Option<String>,
    pub last_name: Option<String>,
    pub middle_name: Option<String>,
    pub client_id: Option<String>,
    pub secret: Result<String, String>,
}

/// Asks for a new password in place of the current one.
#[derive(Debug, PartialEq, Eq)]
pub struct ChangePasswordRequest {
    pub email: String,
    pub current_password: String,
    pub new_password: String,
}

/// Asks for an account, on behalf of an application.
#[derive(Debug, PartialEq, Eq)]
pub struct RegisterRequest {
    pub email: String,
    pub password: String,
    pub app_id: String,
}

/// Asks for tokens, for an application too if one is named.
#[derive(Debug, PartialEq, Eq)]
pub struct LoginRequest {
    pub email: String,
    pub password: String,
    pub client_id: Option<String>,
}

/// Asks for a new access token.
#[derive(Debug, PartialEq, Eq)]
pub struct RefreshTokenRequest {
    pub refresh_token: String,
}

/// Asks that a refresh token be revoked.
#[derive(Debug, PartialEq, Eq)]
pub struct LogoutRequest {
    pub refresh_token: String,
}

/// Asks that the profile be overwritten.
#[derive(Debug, PartialEq, Eq)]
pub struct UpdateProfileRequest {
    pub first_name: Option<String>,
    pub middle_name: Option<String>,
    pub last_name: Option<String>,
    pub mobile_number: Option<String>,
}

/// Asks for a group with the given identifier.
#[derive(Debug, PartialEq, Eq)]
pub struct CreateGroupRequest {
    pub id: String,
    pub description: Option<String>,
}

/// Asks for a message with a link to reset the password.
#[derive(Debug, PartialEq, Eq)]
pub struct RequestPasswordRequest {
    pub email_id: String,
    pub app_id: String,
}

/// Asks for a new password, with the token from such a link.
#[derive(Debug, PartialEq, Eq)]
pub struct ResetPasswordRequest {
    pub token: String,
    pub new_password: String,
}

/// Asks for an API token of a group.
#[derive(Debug, PartialEq, Eq)]
pub struct CreateApiTokenRequest {
    pub group_identifier: String,
    pub name: String,
    pub days_to_expire: i64,
}

/// Asks for a session token in exchange for an API token.
#[derive(Debug, PartialEq, Eq)]
pub struct CreateSessionTokenRequest {
    pub api_token: String,
    pub days_to_expire: Option<i64>,
}

/// Accepts an invitation.
#[derive(Debug, PartialEq, Eq)]
pub struct AcceptInviteRequest {
    pub password: String,
}

/// Asks that an application be stored, or that the one with this client id be changed.
#[derive(Debug, PartialEq, Eq)]
pub struct CreateOrUpdateAppRequest {
    pub client_id: String,
    pub name: Option<String>,
    pub logo_url: Option<String>,
    pub disabled: Option<bool>,
    pub app_url_dev: Option<String>,
    pub app_url_stage: Option<String>,
    pub app_url_prod: Option<String>,
    pub group_id: Option<i64>,
    pub tnc_link: Option<String>,
    pub allow_registration: Option<bool>,
    pub description: Option<String>,
    pub auth_redirection_path: Option<String>,
    pub web_interface: Option<bool>,
}

/// How a group is looked up.
#[derive(Debug, PartialEq, Eq)]
pub enum GroupKey {
    Id(i64),
    Identifier(String),
}

/// [`Email`] as texts.
pub struct EmailView {
    pub to: Seq<char>,
    pub subject: Seq<char>,
    pub message: Seq<char>,
}

impl View for Email {
    type V = EmailView;

    open spec fn view(&self) -> EmailView {
        EmailView { to: self.to@, subject: self.subject@, message: self.message@ }
    }
}

/// [`NewApp`] as texts.
pub struct NewAppView {
    pub client_id: Seq<char>,
    pub name: Seq<char>,
    pub logo_url: Option<Seq<char>>,
    pub disabled: bool,
    pub app_url_dev: Option<Seq<char>>,
    pub app_url_stage: Option<Seq<char>>,
    pub app_url_prod: Option<Seq<char>>,
    pub group_id: Option<i64>,
    pub tnc_link: Option<Seq<char>>,
    pub allow_registration: bool,
    pub description: Option<Seq<char>>,
    pub auth_redirection_path: Option<Seq<char>>,
    pub web_interface: bool,
}

impl View for NewApp {
    type V = NewAppView;

    open spec fn view(&self) -> NewAppView {
        NewAppView {
            client_id: self.client_id@,
            name: self.name@,
            logo_url: maybe_text(self.logo_url),
            disabled: self.disabled,
            app_url_dev: maybe_text(self.app_url_dev),
            app_url_stage: maybe_text(self.app_url_stage),
            app_url_prod: maybe_text(self.app_url_prod),
            group_id: self.group_id,
            tnc_link: maybe_text(self.tnc_link),
            allow_registration: self.allow_registration,
            description: maybe_text(self.description),
            auth_redirection_path: maybe_text(self.auth_redirection_path),
            web_interface: self.web_interface,
        }
    }
}

/// [`TokenOrder`] as texts.
pub struct TokenOrderView {
    pub email: Seq<char>,
    pub user_id: Seq<char>,
    pub token_type: Seq<char>,
    pub first_name: Option<Seq<char>>,
    pub last_name: Option<Seq<char>>,
    pub middle_name: Option<Seq<char>>,
    pub client_id: Option<Seq<char>>,
    pub secret: Result<Seq<char>, Seq<char>>,
}

impl View for TokenOrder {
    type V = TokenOrderView;

    open spec fn view(&self) -> TokenOrderView {
        TokenOrderView {
            email: self.email@,
            user_id: self.user_id@,
            token_type: self.token_type@,
            first_name: maybe_text(self.first_name),
            last_name: maybe_text(self.last_name),
            middle_name: maybe_text(self.middle_name),
            client_id: maybe_text(self.client_id),
            secret: told_text(self.secret),
        }
    }
}

/// What an access, refresh or API token says of its holder.
#[derive(Debug, PartialEq, Eq)]
pub struct Claims {
    pub sub: String,
    pub exp: usize,
    pub user_id: String,
    pub token_type: String,
    pub first_name: Option<String>,
    pub last_name: Option<String>,
    pub middle_name: Option<String>,
    pub client_id: Option<String>,
}

/// [`Claims`] as texts.
pub struct ClaimsView {
    pub sub: Seq<char>,
    pub exp: usize,
    pub user_id: Seq<char>,
    pub token_type: Seq<char>,
    pub first_name: Option<Seq<char>>,
    pub last_name: Option<Seq<char>>,
    pub middle_name: Option<Seq<char>>,
    pub client_id: Option<Seq<char>>,
}

impl View for Claims {
    type V = ClaimsView;

    open spec fn view(&self) -> ClaimsView {
        ClaimsView {
            sub: self.sub@,
            exp: self.exp,
            user_id: self.user_id@,
            token_type: self.token_type@,
            first_name: maybe_text(self.first_name),
            last_name: maybe_text(self.last_name),
            middle_name: maybe_text(self.middle_name),
            client_id: maybe_text(self.client_id),
        }
    }
}

/// What a session token of a group says of its holder.
#[derive(Debug, PartialEq, Eq)]
pub struct APIClaims {
    pub sub: String,
    pub exp: usize,
    pub group_id: i64,
    pub scopes: Vec<String>,
}

/// [`APIClaims`] as texts.
pub struct APIClaimsView {
    pub sub: Seq<char>,
    pub exp: usize,
    pub group_id: i64,
    pub scopes: Seq<Seq<char>>,
}

impl View for APIClaims {
    type V = APIClaimsView;

    open spec fn view(&self) -> APIClaimsView {
        APIClaimsView {
            sub: self.sub@,
            exp: self.exp,
            group_id: self.group_id,
            scopes: texts(self.scopes@),
        }
    }
}

/// What the token of another service says of it.
#[derive(Debug, PartialEq, Eq)]
pub struct ISCClaims {
    pub sub: String,
    pub exp: usize,
    pub org_id: String,
    pub scopes: Vec<String>,
}

/// The groups that a user is a member of, by identifier.
#[derive(Debug, PartialEq, Eq)]
pub struct GroupMemberships(pub Vec<String>);

/// The groups that a user owns, by identifier.
#[derive(Debug, PartialEq, Eq)]
pub struct GroupOwnerships(pub Vec<String>);

/// The subject of a request with basic authentication; empty if it is anonymous.
#[derive(Debug, PartialEq, Eq)]
pub struct BasicAuth {
    pub subject: String,
}

impl View for Group {
    type V = Group;

    open spec fn view(&self) -> Group {
        *self
    }
}

/// An answer in one sentence.
#[derive(Debug, PartialEq, Eq)]
pub struct MessageResponse {
    pub message: String,
}

impl View for MessageResponse {
    type V = Seq<char>;

    open spec fn view(&self) -> Seq<char> {
        self.message@
    }
}

/// An answer in one word.
#[derive(Debug, PartialEq, Eq)]
pub struct StatusResponse {
    pub status: String,
}

impl View for StatusResponse {
    type V = Seq<char>;

    open spec fn view(&self) -> Seq<char> {
        self.status@
    }
}

/// A pair of tokens.
#[derive(Debug, PartialEq, Eq)]
pub struct LoginResponse {
    pub access_token: String,
    pub refresh_token: String,
}

impl View for LoginResponse {
    type V = LoginResponse;

    open spec fn view(&self) -> LoginResponse {
        *self
    }
}

/// The tokens of a session, and those for an application if one was named.
#[derive(Debug, PartialEq, Eq)]
pub struct IAMLoginResponse {
    pub app_tokens: Option<LoginResponse>,
    pub iam_tokens: LoginResponse,
}

impl View for IAMLoginResponse {
    type V = IAMLoginResponse;

    open spec fn view(&self) -> IAMLoginResponse {
        *self
    }
}

/// A new access token.
#[derive(Debug, PartialEq, Eq)]
pub struct RefreshTokenResponse {
    pub access_token: String,
}

impl View for RefreshTokenResponse {
    type V = RefreshTokenResponse;

    open spec fn view(&self) -> RefreshTokenResponse {
        *self
    }
}

/// A new API token.
#[derive(Debug, PartialEq, Eq)]
pub struct CreateApiTokenResponse {
    pub api_token: String,
}

impl View for CreateApiTokenResponse {
    type V = CreateApiTokenResponse;

    open spec fn view(&self) -> CreateApiTokenResponse {
        *self
    }
}

/// A new session token of a group.
#[derive(Debug, PartialEq, Eq)]
pub struct CreateSessionTokenResponse {
    pub session_token: String,
    pub group_identifier: String,
}

impl View for CreateSessionTokenResponse {
    type V = CreateSessionTokenResponse;

    open spec fn view(&self) -> CreateSessionTokenResponse {
        *self
    }
}

/// What anybody may know of an application.
#[derive(Debug, PartialEq, Eq)]
pub struct AppResponse {
    pub name: String,
    pub logo_url: Option<String>,
    pub app_url_dev: Option<String>,
    pub app_url_stage: Option<String>,
    pub app_url_prod: Option<String>,
    pub tnc_link: Option<String>,
    pub allow_registration: bool,
    pub redirection_path: Option<String>,
}

impl View for AppResponse {
    type V = AppResponse;

    open spec fn view(&self) -> AppResponse {
        *self
    }
}

/// An application that a user may sign in to.
#[derive(Debug, PartialEq, Eq)]
pub struct AccessibleApp {
    pub name: String,
    pub logo_url: Option<String>,
    pub allow_registration: bool,
    pub tnc_link: Option<String>,
    pub description: Option<String>,
    pub app_url_dev: Option<String>,
    pub app_url_stage: Option<String>,
    pub app_url_prod: Option<String>,
    pub redirection_path: Option<String>,
    pub has_web_interface: bool,
}

/// An API token as its group sees it, with dates and times as in [`ApiToken`].
#[derive(Debug, PartialEq, Eq)]
pub struct GroupApiTokenResponse {
    pub expiry_date: i64,
    pub created_at: i64,
    pub is_active: bool,
    pub name: String,
    pub pk: i64,
}

/// What a valid token says of its holder.
#[derive(Debug, PartialEq, Eq)]
pub struct ValidateTokenResponse {
    pub sub: String,
    pub exp: usize,
    pub user_id: String,
    pub first_name: Option<String>,
    pub last_name: Option<String>,
    pub middle_name: Option<String>,
    pub client_id: Option<String>,
}

/// What a valid session token says of its group.
#[derive(Debug, PartialEq, Eq)]
pub struct ValidateAPITokenResponse {
    pub sub: String,
    pub exp: usize,
    pub group_id: i64,
    pub scopes: Vec<String>,
}

/// How a user stands to a group.
#[derive(Debug, PartialEq, Eq)]
pub struct IsMemberResponse {
    pub is_member: bool,
    pub is_owner: bool,
}

/// A member of a group.
#[derive(Debug, PartialEq, Eq)]
pub struct UserInfoResponse {
    pub first_name: String,
    pub last_name: String,
    pub middle_name: Option<String>,
    pub pk: i64,
    pub is_admin: bool,
    pub email_id: String,
}

impl View for UserInfoResponse {
    type V = UserInfoView;

    open spec fn view(&self) -> UserInfoView {
        UserInfoView {
            first_name: self.first_name@,
            last_name: self.last_name@,
            middle_name: maybe_text(self.middle_name),
            pk: self.pk,
            is_admin: self.is_admin,
            email_id: self.email_id@,
        }
    }
}

/// [`UserInfoResponse`] as texts.
pub struct UserInfoView {
    pub first_name: Seq<char>,
    pub last_name: Seq<char>,
    pub middle_name: Option<Seq<char>>,
    pub pk: i64,
    pub is_admin: bool,
    pub email_id: Seq<char>,
}

/// The members of a group, in the order of the store.
#[derive(Debug, PartialEq, Eq)]
pub struct Members {
    pub users: Vec<UserInfoResponse>,
}

impl View for Members {
    type V = Seq<UserInfoView>;

    open spec fn view(&self) -> Seq<UserInfoView> {
        self.users@.map_values(|u: UserInfoResponse| u@)
    }
}

/// An answer that tells where something was stored.
#[derive(Debug, PartialEq, Eq)]
pub struct Created {
    pub location: String,
    pub body: MessageResponse,
}

impl View for Created {
    type V = CreatedView;

    open spec fn view(&self) -> CreatedView {
        CreatedView { location: self.location@, message: self.body@ }
    }
}

/// [`Created`] as texts.
pub struct CreatedView {
    pub location: Seq<char>,
    pub message: Seq<char>,
}

/// A token for a Docker registry and for how many seconds it holds.
#[derive(Debug, PartialEq, Eq)]
pub struct DockerTokenResponse {
    pub token: String,
    pub expires_in: u64,
}

/// One entry of what a Docker token gives access to.
#[derive(Debug, PartialEq, Eq)]
pub struct DockerAccess {
    pub resource_type: String,
    pub name: String,
    pub actions: Vec<String>,
}

/// [`DockerAccess`] as texts.
pub struct DockerAccessView {
    pub resource_type: Seq<char>,
    pub name: Seq<char>,
    pub actions: Seq<Seq<char>>,
}

impl View for DockerAccess {
    type V = DockerAccessView;

    open spec fn view(&self) -> DockerAccessView {
        DockerAccessView {
            resource_type: self.resource_type@,
            name: self.name@,
            actions: texts(self.actions@),
        }
    }
}

/// What a Docker token says.
#[derive(Debug, PartialEq, Eq)]
pub struct DockerTokenClaims {
    pub iss: String,
    pub sub: String,
    pub aud: String,
    pub exp: usize,
    pub nbf: usize,
    pub iat: usize,
    pub jti: String,
    pub access: Vec<DockerAccess>,
}

/// [`DockerTokenClaims`] as texts.
pub struct DockerTokenClaimsView {
    pub iss: Seq<char>,
    pub sub: Seq<char>,
    pub aud: Seq<char>,
    pub exp: usize,
    pub nbf: usize,
    pub iat: usize,
    pub jti: Seq<char>,
    pub access: Seq<DockerAccessView>,
}

impl View for DockerTokenClaims {
    type V = DockerTokenClaimsView;

    open spec fn view(&self) -> DockerTokenClaimsView {
        DockerTokenClaimsView {
            iss: self.iss@,
            sub: self.sub@,
            aud: self.aud@,
            exp: self.exp,
            nbf: self.nbf,
            iat: self.iat,
            jti: self.jti@,
            access: self.access@.map_values(|a: DockerAccess| a@),
        }
    }
}

/// A certificate for a user of SSH, with the key that it is for.
#[derive(Debug, PartialEq, Eq)]
pub struct SshCertResponse {
    /// The private key (to be written to ~/.ssh/id_ed25519)
    pub private_key_pem: String,
    /// The public key, one line (to be written to ~/.ssh/id_ed25519.pub)
    pub public_key: String,
    /// The certificate, one line (to be written to ~/.ssh/id_ed25519-cert.pub)
    pub certificate: String,
    /// For how long it is valid, in words
    pub valid_for: String,
    /// Who it is issued to
    pub principal: String,
}

} // verus!
