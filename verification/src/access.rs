//! Who may do what: session checks, credential checks and role checks that
//! the request handlers make between their database reads and writes.

use vstd::prelude::*;
use crate::error::{AuthError, AuthErrorView, outcome};
use crate::model::{
    AuthenticatedUser, AuthResponse, ChangePasswordRequest, LoginRequest, MAX_TIMESTAMP_SECS,
    ProfileResponse, Session, SignupRequest, Timestamp, User,
};
use crate::password::{hash_password, hashable, is_hash_of, spec_verify_password, verify_password};
use crate::role::UserRole;
use crate::validation::{
    byte_len, char_alphabetic, char_lowercase, char_uppercase, spec_validate_password,
    spec_validate_username, validate_password, validate_username,
};

verus! {

/// How long a login session lasts, in days.
pub const SESSION_LIFETIME_DAYS: i64 = 7;

/// How long a login session lasts, in seconds.
pub const SESSION_LIFETIME_SECS: i64 = 604_800;

/// The instant seven days after `now`.
pub open spec fn spec_session_expiry(now: Timestamp) -> Timestamp {
    Timestamp { secs: (now.secs + SESSION_LIFETIME_DAYS * 86_400) as i64, nanos: now.nanos }
}

/// The expiry of a session that starts at `now`: seven days later, to the nanosecond.
/// `now` must lie in the range `chrono` represents with seven days to spare.
pub fn session_expiry(now: &Timestamp) -> (t: Timestamp)
    requires
        now.nanos < 1_000_000_000,
        now.secs <= MAX_TIMESTAMP_SECS - SESSION_LIFETIME_SECS,
    ensures
        t.secs == now.secs + SESSION_LIFETIME_DAYS * 86_400,
        t.nanos == now.nanos,
        t == spec_session_expiry(*now),
{
    Timestamp { secs: now.secs + SESSION_LIFETIME_SECS, nanos: now.nanos }
}

/// What a session lookup yields for a request: the session's user, or why not.
pub open spec fn spec_check_session(found: Option<Session>, now: Timestamp) -> Result<
    i64,
    AuthErrorView,
> {
    match found {
        None => Err(AuthErrorView::Unauthorized),
        Some(s) => if s.expires_at.earlier_than(now) {
            Err(AuthErrorView::SessionExpired)
        } else {
            Ok(s.user_id)
        },
    }
}

/// Decides on the session that a request's cookie named (`None` when there is no
/// cookie or no such session): the id of its user, `Unauthorized` or `SessionExpired`.
pub fn check_session(found: &Option<Session>, now: &Timestamp) -> (r: Result<i64, AuthError>)
    ensures
        outcome(r) == spec_check_session(*found, *now),
{
    match found {
        None => Err(AuthError::Unauthorized),
        Some(s) => {
            if s.expires_at.is_before(now) {
                Err(AuthError::SessionExpired)
            } else {
                Ok(s.user_id)
            }
        },
    }
}

/// Lets a user through when the role reaches `required_role`; refuses with
/// `Unauthorized` otherwise.
pub fn require_minimum_role(user: User, required_role: UserRole) -> (r: Result<
    AuthenticatedUser,
    AuthError,
>)
    ensures
        user.role.at_least(required_role) ==> r == Ok::<AuthenticatedUser, AuthError>(
            AuthenticatedUser { id: user.id, username: user.username, role: user.role },
        ),
        !user.role.at_least(required_role) ==> outcome(r) == Err::<AuthenticatedUser, AuthErrorView>(
            AuthErrorView::Unauthorized,
        ),
{
    if user.role.has_minimum_role(&required_role) {
        Ok(AuthenticatedUser::from(user))
    } else {
        Err(AuthError::Unauthorized)
    }
}

/// Whether an administrator may give `target_id` the role `new_role`: nobody may
/// take the administrator role from themselves.
pub open spec fn spec_role_change_allowed(actor_id: i64, target_id: i64, new_role: UserRole) -> bool {
    !(actor_id == target_id && (new_role == UserRole::Customer || new_role == UserRole::Operator))
}

/// Refuses with `Unauthorized` a role change by which the acting user would
/// demote themselves.
pub fn check_role_change(actor_id: i64, target_id: i64, new_role: &UserRole) -> (r: Result<
    (),
    AuthError,
>)
    ensures
        spec_role_change_allowed(actor_id, target_id, *new_role) ==> r is Ok,
        !spec_role_change_allowed(actor_id, target_id, *new_role) ==> outcome(r) == Err::<
            (),
            AuthErrorView,
        >(AuthErrorView::Unauthorized),
{
    if actor_id == target_id && (matches!(new_role, UserRole::Customer) || matches!(new_role, UserRole::Operator)) {
        Err(AuthError::Unauthorized)
    } else {
        Ok(())
    }
}

/// Which orders a user may list.
#[derive(Debug, Clone, Copy, PartialEq, Eq, Structural)]
pub enum OrderScope {
    /// Every order.
    All,
    /// The orders of this user.
    OwnedBy(i64),
}

/// Administrators see every order; everyone else sees their own.
pub fn order_scope(user: &User) -> (s: OrderScope)
    ensures
        user.role == UserRole::Admin ==> s == OrderScope::All,
        user.role != UserRole::Admin ==> s == OrderScope::OwnedBy(user.id),
{
    match user.role {
        UserRole::Admin => OrderScope::All,
        _ => OrderScope::OwnedBy(user.id),
    }
}

/// What signup and login answer for the credentials they are given, before
/// anything is looked up: the username is checked first, then the password.
pub open spec fn spec_validate_credentials(username: Seq<char>, password: Seq<char>) -> Result<
    (),
    AuthErrorView,
> {
    match spec_validate_username(username) {
        Err(e) => Err(e),
        Ok(()) => spec_validate_password(password),
    }
}

/// Checks the username, then the password, of a signup or login.
pub fn validate_credentials(username: &str, password: &str) -> (r: Result<(), AuthError>)
    ensures
        outcome(r) == spec_validate_credentials(username@, password@),
{
    validate_username(username)?;
    validate_password(password)
}

/// Checks the credentials of a signup request.
pub fn validate_signup(payload: &SignupRequest) -> (r: Result<(), AuthError>)
    ensures
        outcome(r) == spec_validate_credentials(payload.username@, payload.password@),
{
    validate_credentials(payload.username.as_str(), payload.password.as_str())
}

/// Checks the credentials of a login request.
pub fn validate_login(payload: &LoginRequest) -> (r: Result<(), AuthError>)
    ensures
        outcome(r) == spec_validate_credentials(payload.username@, payload.password@),
{
    validate_credentials(payload.username.as_str(), payload.password.as_str())
}

/// What a login answers once the account named in it has been looked up.
pub open spec fn spec_login_verdict(found: Option<User>, password: Seq<char>) -> Result<
    (),
    AuthErrorView,
> {
    match found {
        None => Err(AuthErrorView::InvalidCredentials),
        Some(u) => match spec_verify_password(password, u.password_hash@) {
            Err(e) => Err(e),
            Ok(true) => Ok(()),
            Ok(false) => Err(AuthErrorView::InvalidCredentials),
        },
    }
}

/// Checks a login's password against the account found under its username
/// (`None` when there is none) and hands back that account.
pub fn verify_user(found: Option<User>, payload: &LoginRequest) -> (r: Result<User, AuthError>)
    ensures
        r matches Ok(u) ==> found == Some(u) && spec_login_verdict(found, payload.password@)
            == Ok::<(), AuthErrorView>(()),
        r matches Err(e) ==> spec_login_verdict(found, payload.password@) == Err::<
            (),
            AuthErrorView,
        >(e@),
{
    match found {
        None => Err(AuthError::InvalidCredentials),
        Some(user) => {
            if verify_password(payload.password.as_str(), user.password_hash.as_str())? {
                Ok(user)
            } else {
                Err(AuthError::InvalidCredentials)
            }
        },
    }
}

/// What an account deletion or a password change answers for the password it
/// gives as the current one.
pub open spec fn spec_reauthenticate(stored_hash: Seq<char>, password: Seq<char>) -> Result<
    (),
    AuthErrorView,
> {
    match spec_verify_password(password, stored_hash) {
        Err(e) => Err(e),
        Ok(true) => Ok(()),
        Ok(false) => Err(AuthErrorView::InvalidCredentials),
    }
}

/// Requires the account's current password: `InvalidCredentials` when it does
/// not match the stored hash, `Internal` when the stored hash is unreadable.
pub fn reauthenticate(stored_hash: &str, password: &str) -> (r: Result<(), AuthError>)
    ensures
        outcome(r) == spec_reauthenticate(stored_hash@, password@),
{
    if verify_password(password, stored_hash)? {
        Ok(())
    } else {
        Err(AuthError::InvalidCredentials)
    }
}

/// What a password change answers before the new hash is made.
pub open spec fn spec_password_change_gate(stored_hash: Seq<char>, current: Seq<char>, new: Seq<
    char,
>) -> Result<(), AuthErrorView> {
    match spec_reauthenticate(stored_hash, current) {
        Err(e) => Err(e),
        Ok(()) => spec_validate_password(new),
    }
}

/// Checks a password change against the stored hash and, when it may go ahead,
/// hashes the new password. The new hash is what the account is updated with.
pub fn prepare_password_change(stored_hash: &str, payload: &ChangePasswordRequest) -> (r: Result<
    String,
    AuthError,
>)
    ensures
        spec_password_change_gate(stored_hash@, payload.current_password@, payload.new_password@)
            matches Err(e) ==> outcome(r) == Err::<String, AuthErrorView>(e),
        spec_password_change_gate(stored_hash@, payload.current_password@, payload.new_password@)
            is Ok ==> {
            &&& r matches Ok(h) ==> is_hash_of(payload.new_password@, h@)
            &&& r matches Err(e) ==> e@ == AuthErrorView::Internal
            &&& hashable(payload.new_password@) ==> r is Ok
        },
        r is Ok ==> {
            &&& spec_verify_password(payload.current_password@, stored_hash@) == Ok::<
                bool,
                AuthErrorView,
            >(true)
            &&& spec_validate_password(payload.new_password@) is Ok
            &&& 8 <= byte_len(payload.new_password@) <= 128
            &&& exists|i: int|
                0 <= i < payload.new_password@.len() && char_uppercase(
                    #[trigger] payload.new_password@[i],
                )
            &&& exists|i: int|
                0 <= i < payload.new_password@.len() && char_lowercase(
                    #[trigger] payload.new_password@[i],
                )
            &&& exists|i: int|
                0 <= i < payload.new_password@.len() && !char_alphabetic(
                    #[trigger] payload.new_password@[i],
                )
        },
{
    reauthenticate(stored_hash, payload.current_password.as_str())?;
    validate_password(payload.new_password.as_str())?;
    hash_password(payload.new_password.as_str())
}

/// Checks a signup's credentials (username first) and, when they pass, hashes the
/// password for the new account. The hash is what the account is stored with.
pub fn prepare_signup(payload: &SignupRequest) -> (r: Result<String, AuthError>)
    ensures
        spec_validate_credentials(payload.username@, payload.password@) matches Err(e) ==> outcome(
            r,
        ) == Err::<String, AuthErrorView>(e),
        spec_validate_credentials(payload.username@, payload.password@) is Ok ==> {
            &&& r matches Ok(h) ==> is_hash_of(payload.password@, h@)
            &&& r matches Err(e) ==> e@ == AuthErrorView::Internal
            &&& hashable(payload.password@) ==> r is Ok
        },
        r is Ok ==> spec_validate_username(payload.username@) is Ok && spec_validate_password(
            payload.password@,
        ) is Ok,
{
    validate_signup(payload)?;
    hash_password(payload.password.as_str())
}

/// Refuses a new username with `UserAlreadyExists` when another account holds it.
pub fn check_username_free(taken_by_other: bool) -> (r: Result<(), AuthError>)
    ensures
        !taken_by_other ==> r is Ok,
        taken_by_other ==> outcome(r) == Err::<(), AuthErrorView>(AuthErrorView::UserAlreadyExists),
{
    if taken_by_other {
        Err(AuthError::UserAlreadyExists)
    } else {
        Ok(())
    }
}

/// The guarded things that a signed-in user may ask for.
#[derive(Debug, Clone, Copy, PartialEq, Eq, Structural)]
pub enum Action {
    CreateProduct,
    UpdateProductImage,
    CreateFilament,
    UpdateFilamentImage,
    UpdateOrderStatus,
    MoveQueuedOrder,
    ListUsers,
    ChangeUserRole,
}

/// The least role that may perform an action.
pub open spec fn spec_required_role(action: Action) -> UserRole {
    match action {
        Action::CreateProduct => UserRole::Operator,
        Action::UpdateProductImage => UserRole::Admin,
        Action::CreateFilament => UserRole::Operator,
        Action::UpdateFilamentImage => UserRole::Admin,
        Action::UpdateOrderStatus => UserRole::Operator,
        Action::MoveQueuedOrder => UserRole::Operator,
        Action::ListUsers => UserRole::Admin,
        Action::ChangeUserRole => UserRole::Admin,
    }
}

/// The least role that may perform `action`.
pub fn required_role(action: Action) -> (role: UserRole)
    ensures
        role == spec_required_role(action),
{
    match action {
        Action::CreateProduct => UserRole::Operator,
        Action::UpdateProductImage => UserRole::Admin,
        Action::CreateFilament => UserRole::Operator,
        Action::UpdateFilamentImage => UserRole::Admin,
        Action::UpdateOrderStatus => UserRole::Operator,
        Action::MoveQueuedOrder => UserRole::Operator,
        Action::ListUsers => UserRole::Admin,
        Action::ChangeUserRole => UserRole::Admin,
    }
}

/// Customers may perform no guarded action; administrators may perform every
/// one; operators may perform all but image changes and user management.
pub proof fn lemma_action_permissions(action: Action)
    ensures
        !UserRole::Customer.at_least(spec_required_role(action)),
        UserRole::Admin.at_least(spec_required_role(action)),
        UserRole::Operator.at_least(spec_required_role(action)) <==> !(action
            == Action::UpdateProductImage || action == Action::UpdateFilamentImage || action
            == Action::ListUsers || action == Action::ChangeUserRole),
{
}

/// The answer to a login or to `/api/me` for an account.
pub fn auth_response(user: User) -> (resp: AuthResponse)
    ensures
        resp == (AuthResponse { user_id: user.id, username: user.username, role: user.role }),
{
    AuthResponse { user_id: user.id, username: user.username, role: user.role }
}

/// The answer to `/api/profile` for an account whose creation time reads
/// `created_at` in RFC 3339.
pub fn profile_response(user: User, created_at: String) -> (resp: ProfileResponse)
    ensures
        resp == (ProfileResponse {
            id: user.id,
            username: user.username,
            role: user.role,
            created_at,
        }),
{
    ProfileResponse { id: user.id, username: user.username, role: user.role, created_at }
}

/// A session that has expired is never accepted, and one that has not is
/// accepted for its own user.
pub proof fn lemma_session_acceptance(s: Session, now: Timestamp)
    ensures
        s.expires_at.earlier_than(now) ==> spec_check_session(Some(s), now) == Err::<
            i64,
            AuthErrorView,
        >(AuthErrorView::SessionExpired),
        !s.expires_at.earlier_than(now) ==> spec_check_session(Some(s), now) == Ok::<
            i64,
            AuthErrorView,
        >(s.user_id),
{
}

/// A session issued at `issued` is accepted at `now` exactly when `now` is no
/// later than seven days after `issued`.
pub proof fn lemma_session_lifetime(issued: Timestamp, now: Timestamp, s: Session)
    requires
        s.expires_at.secs == issued.secs + SESSION_LIFETIME_DAYS * 86_400,
        s.expires_at.nanos == issued.nanos,
    ensures
        spec_check_session(Some(s), now) is Ok <==> (now.secs < issued.secs + 604_800 || (
        now.secs == issued.secs + 604_800 && now.nanos <= issued.nanos)),
{
}

/// No administrator can demote themselves, and a role change of anyone else is
/// never refused on that ground.
pub proof fn lemma_no_self_demotion(actor_id: i64, target_id: i64, new_role: UserRole)
    ensures
        actor_id == target_id && new_role != UserRole::Admin ==> !spec_role_change_allowed(
            actor_id,
            target_id,
            new_role,
        ),
        actor_id != target_id ==> spec_role_change_allowed(actor_id, target_id, new_role),
        spec_role_change_allowed(actor_id, target_id, UserRole::Admin),
{
}

/// Login and signup refuse a bad username before they look at the password.
pub proof fn lemma_username_checked_first(username: Seq<char>, password: Seq<char>)
    ensures
        spec_validate_username(username) is Err ==> spec_validate_credentials(username, password)
            == spec_validate_username(username),
        spec_validate_credentials(username, password) is Ok <==> (spec_validate_username(username) is Ok
            && spec_validate_password(password) is Ok),
{
}

/// An account whose stored hash `hash_password` made for a password can log in
/// with that password.
pub proof fn lemma_signup_then_login(user: User, password: Seq<char>)
    requires
        is_hash_of(password, user.password_hash@),
    ensures
        spec_login_verdict(Some(user), password) == Ok::<(), AuthErrorView>(()),
        spec_reauthenticate(user.password_hash@, password) == Ok::<(), AuthErrorView>(()),
{
    crate::password::lemma_hash_then_verify(password, user.password_hash@);
}

/// A session opened at login (`issued`, with the expiry `session_expiry` gives)
/// lets every later request through for the same user until the expiry has passed:
/// the user looked up for it is the one who logged in. The issue time is one that
/// `session_expiry` admits, a clock reading within `chrono`'s range.
pub proof fn lemma_login_then_me(s: Session, issued: Timestamp, now: Timestamp)
    requires
        issued.nanos < 1_000_000_000,
        issued.secs <= MAX_TIMESTAMP_SECS - SESSION_LIFETIME_SECS,
        s.expires_at == spec_session_expiry(issued),
        !s.expires_at.earlier_than(now),
    ensures
        spec_check_session(Some(s), now) == Ok::<i64, AuthErrorView>(s.user_id),
{
}

/// A password change goes ahead only when the current password matches the stored
/// hash and the new password meets every password rule: 8 to 128 bytes, an
/// uppercase letter, a lowercase letter and a character that is not a letter.
pub proof fn lemma_password_change_needs_valid_password(
    stored_hash: Seq<char>,
    current: Seq<char>,
    new: Seq<char>,
)
    ensures
        spec_password_change_gate(stored_hash, current, new) is Ok <==> (spec_verify_password(
            current,
            stored_hash,
        ) == Ok::<bool, AuthErrorView>(true) && spec_validate_password(new) is Ok),
        spec_password_change_gate(stored_hash, current, new) is Ok ==> {
            &&& 8 <= byte_len(new) <= 128
            &&& exists|i: int| 0 <= i < new.len() && char_uppercase(#[trigger] new[i])
            &&& exists|i: int| 0 <= i < new.len() && char_lowercase(#[trigger] new[i])
            &&& exists|i: int| 0 <= i < new.len() && !char_alphabetic(#[trigger] new[i])
        },
{
}

} // verus!
