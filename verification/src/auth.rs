//! The checks that the server functions make before they touch the
//! database: who is asking, whether the request names what it must, and
//! whether the asker owns what the request is about. Also the login page's
//! own small decisions.
use vstd::prelude::*;

use crate::notifications::UserNotification;
use crate::text::{contains_str, contains_text, replace_all, replace_text};

verus! {

/// Why a server function refused a request.
#[derive(Clone, Copy, Debug, PartialEq, Eq, Structural)]
pub enum ServerError {
    /// No authentication session is attached to the request.
    NoAuthSession,
    /// The session belongs to nobody who is logged in.
    NoCurrentUser,
    /// No username was sent.
    UsernameMissing,
    /// No password was sent.
    PasswordMissing,
    /// The login or registration could not reach the session.
    NoAuthContext,
    /// The current user could not be read for lack of a session.
    NoUserContext,
    /// The logout could not reach the session.
    NoLogoutContext,
    /// The notification belongs to another user.
    NotNotificationOwner,
    /// The subscription belongs to another user.
    NotSubscriptionOwner,
    /// A subscription cannot be added or removed while its state is unknown.
    UnknownSubscriptionState,
    /// The credentials were refused.
    LoginFailed,
}

/// The message sent back to the browser for each refusal.
pub open spec fn error_text(e: ServerError) -> Seq<char> {
    match e {
        ServerError::NoAuthSession => "Couldn't find auth session"@,
        ServerError::NoCurrentUser => "Couldn't find current user."@,
        ServerError::UsernameMissing => "Username must be defined"@,
        ServerError::PasswordMissing => "Password must be defined"@,
        ServerError::NoAuthContext => "Couldn't retrieve auth context"@,
        ServerError::NoUserContext => "No auth context found."@,
        ServerError::NoLogoutContext => "Couldn't get the auth context"@,
        ServerError::NotNotificationOwner => "Unauthorized: You can only mark your own notifications as read."@,
        ServerError::NotSubscriptionOwner => "You tried to delete a subscription that doesn't belong to you"@,
        ServerError::UnknownSubscriptionState => "Can't register/delete a subscription with unknown value"@,
        ServerError::LoginFailed => "Couldn't log in users"@,
    }
}

impl ServerError {
    /// The message sent back to the browser.
    pub fn message(&self) -> (r: String)
        ensures
            r@ == error_text(*self),
    {
        match self {
            ServerError::NoAuthSession => "Couldn't find auth session".to_string(),
            ServerError::NoCurrentUser => "Couldn't find current user.".to_string(),
            ServerError::UsernameMissing => "Username must be defined".to_string(),
            ServerError::PasswordMissing => "Password must be defined".to_string(),
            ServerError::NoAuthContext => "Couldn't retrieve auth context".to_string(),
            ServerError::NoUserContext => "No auth context found.".to_string(),
            ServerError::NoLogoutContext => "Couldn't get the auth context".to_string(),
            ServerError::NotNotificationOwner => "Unauthorized: You can only mark your own notifications as read.".to_string(),
            ServerError::NotSubscriptionOwner => "You tried to delete a subscription that doesn't belong to you".to_string(),
            ServerError::UnknownSubscriptionState => "Can't register/delete a subscription with unknown value".to_string(),
            ServerError::LoginFailed => "Couldn't log in users".to_string(),
        }
    }
}

/// The identifier of the logged-in user. `session` is `None` when the
/// request carries no session, else the session's user, if any.
pub fn current_user_id(session: Option<Option<i64>>) -> (r: Result<i64, ServerError>)
    ensures
        session is None ==> r == Err::<i64, ServerError>(ServerError::NoAuthSession),
        session == Some(None::<i64>) ==> r == Err::<i64, ServerError>(ServerError::NoCurrentUser),
        session matches Some(Some(id)) ==> r == Ok::<i64, ServerError>(id),
{
    match session {
        None => Err(ServerError::NoAuthSession),
        Some(None) => Err(ServerError::NoCurrentUser),
        Some(Some(id)) => Ok(id),
    }
}

/// The identifier under which guests fetch audiobooks.
pub open spec fn guest_user_id() -> i64 {
    1
}

/// How many audiobooks a collection fetches for the asker: guests (no user,
/// or the guest account) get `guest_limit`, logged-in users `user_limit`.
pub fn audiobook_limit(session: Option<Option<i64>>, guest_limit: u32, user_limit: u32) -> (r: Result<
    u32,
    ServerError,
>)
    ensures
        session is None ==> r == Err::<u32, ServerError>(ServerError::NoAuthSession),
        session matches Some(user) ==> r == Ok::<u32, ServerError>(
            match user {
                Some(id) => if id == guest_user_id() {
                    guest_limit
                } else {
                    user_limit
                },
                None => guest_limit,
            },
        ),
{
    match session {
        None => Err(ServerError::NoAuthSession),
        Some(user) => {
            let user_id = match user {
                Some(id) => id,
                None => 1,
            };
            if user_id == 1 {
                Ok(guest_limit)
            } else {
                Ok(user_limit)
            }
        },
    }
}

/// Whether `user_id` may mark or delete notification `n`.
pub fn check_notification_owner(user_id: i64, n: &UserNotification) -> (r: Result<(), ServerError>)
    ensures
        r is Ok <==> user_id == n.user_id,
        r is Err ==> r == Err::<(), ServerError>(ServerError::NotNotificationOwner),
{
    if user_id != n.user_id {
        Err(ServerError::NotNotificationOwner)
    } else {
        Ok(())
    }
}

/// Whether `user_id` may delete a subscription held by `owner_id`.
pub fn check_subscription_owner(user_id: i64, owner_id: i64) -> (r: Result<(), ServerError>)
    ensures
        r is Ok <==> user_id == owner_id,
        r is Err ==> r == Err::<(), ServerError>(ServerError::NotSubscriptionOwner),
{
    if user_id != owner_id {
        Err(ServerError::NotSubscriptionOwner)
    } else {
        Ok(())
    }
}

/// The credentials of a login or registration, checked in the order the
/// server checks them: the username, then the password, then whether the
/// session can be reached.
pub fn login_credentials(username: Option<String>, password: Option<String>, has_auth_context: bool) -> (r:
    Result<(String, String), ServerError>)
    ensures
        username is None ==> r == Err::<(String, String), ServerError>(ServerError::UsernameMissing),
        username is Some && password is None ==> r == Err::<(String, String), ServerError>(
            ServerError::PasswordMissing,
        ),
        username is Some && password is Some && !has_auth_context ==> r == Err::<
            (String, String),
            ServerError,
        >(ServerError::NoAuthContext),
        username is Some && password is Some && has_auth_context ==> (r matches Ok(c) && c.0@
            == username->0@ && c.1@ == password->0@),
{
    let u = match username {
        Some(u) => u,
        None => {
            return Err(ServerError::UsernameMissing);
        },
    };
    let p = match password {
        Some(p) => p,
        None => {
            return Err(ServerError::PasswordMissing);
        },
    };
    if !has_auth_context {
        return Err(ServerError::NoAuthContext);
    }
    Ok((u, p))
}

/// What the current-user query answers: the session's user, or an error
/// when the request carries no session.
pub fn current_user_answer(session: Option<Option<i64>>) -> (r: Result<Option<i64>, ServerError>)
    ensures
        session is None ==> r == Err::<Option<i64>, ServerError>(ServerError::NoUserContext),
        session matches Some(u) ==> r == Ok::<Option<i64>, ServerError>(u),
{
    match session {
        None => Err(ServerError::NoUserContext),
        Some(u) => Ok(u),
    }
}

/// What a logout does.
#[derive(Clone, Copy, Debug, PartialEq, Eq, Structural)]
pub enum LogoutStep {
    /// End the session of the logged-in user.
    EndSession,
    /// Nobody is logged in: nothing to end.
    NothingToEnd,
}

/// The logout decision for a request whose session is `session`.
pub fn logout_step(session: Option<Option<i64>>) -> (r: Result<LogoutStep, ServerError>)
    ensures
        session is None ==> r == Err::<LogoutStep, ServerError>(ServerError::NoLogoutContext),
        session == Some(None::<i64>) ==> r == Ok::<LogoutStep, ServerError>(LogoutStep::NothingToEnd),
        session matches Some(Some(_)) ==> r == Ok::<LogoutStep, ServerError>(LogoutStep::EndSession),
{
    match session {
        None => Err(ServerError::NoLogoutContext),
        Some(None) => Ok(LogoutStep::NothingToEnd),
        Some(Some(_)) => Ok(LogoutStep::EndSession),
    }
}

/// What the server answers once the database has tried to log a user in or
/// to register one.
#[derive(Clone, Copy, Debug, PartialEq, Eq, Structural)]
pub enum AccountAnswer {
    /// Open a session for the user with this identifier and answer that user.
    OpenSession(i64),
    /// Answer the default user, with no session opened.
    DefaultUser,
    /// Refuse with this error.
    Refuse(ServerError),
}

/// The answer to a login, given the identifier of the user the database
/// found for the credentials (`None` when the lookup failed): a failed
/// lookup is refused as a failed login.
pub fn login_answer(found: Option<i64>) -> (r: AccountAnswer)
    ensures
        found matches Some(id) ==> r == AccountAnswer::OpenSession(id),
        found is None ==> r == AccountAnswer::Refuse(ServerError::LoginFailed),
{
    match found {
        Some(id) => AccountAnswer::OpenSession(id),
        None => AccountAnswer::Refuse(ServerError::LoginFailed),
    }
}

/// The answer to a registration, given the identifier of the user the
/// database registered (`None` when registration failed): a failed
/// registration answers the default user and opens no session.
pub fn register_answer(registered: Option<i64>) -> (r: AccountAnswer)
    ensures
        registered matches Some(id) ==> r == AccountAnswer::OpenSession(id),
        registered is None ==> r == AccountAnswer::DefaultUser,
{
    match registered {
        Some(id) => AccountAnswer::OpenSession(id),
        None => AccountAnswer::DefaultUser,
    }
}

/// Whether the authentication page opens on its login form: it opens on the
/// registration form when the path mentions `register` or `sign-up`.
pub fn opens_on_login(path: &str) -> (r: bool)
    ensures
        r == !(contains_text(path@, seq!['r', 'e', 'g', 'i', 's', 't', 'e', 'r']) || contains_text(
            path@,
            seq!['s', 'i', 'g', 'n', '-', 'u', 'p'],
        )),
{
    let register = "register";
    let sign_up = "sign-up";
    proof {
        reveal_strlit("register");
        reveal_strlit("sign-up");
    }
    assert(register@ =~= seq!['r', 'e', 'g', 'i', 's', 't', 'e', 'r']);
    assert(sign_up@ =~= seq!['s', 'i', 'g', 'n', '-', 'u', 'p']);
    !(contains_str(path, register) || contains_str(path, sign_up))
}

/// The prefix that server function errors carry in their text.
pub open spec fn server_error_prefix() -> Seq<char> {
    seq!['S', 'e', 'r', 'v', 'e', 'r', ' ', 'F', 'n', ' ', 'E', 'r', 'r', 'o', 'r', ':', ' ']
}

/// The error shown on the authentication page: the error's text with every
/// `"Server Fn Error: "` taken out.
pub fn friendly_error(error_text: &str) -> (r: String)
    ensures
        r@ == replace_all(error_text@, server_error_prefix(), seq![]),
{
    let prefix = "Server Fn Error: ";
    let empty = "";
    proof {
        reveal_strlit("Server Fn Error: ");
        reveal_strlit("");
    }
    assert(prefix@ =~= server_error_prefix());
    assert(empty@ =~= Seq::<char>::empty());
    replace_text(error_text, prefix, empty)
}

/// The heading of the authentication page.
pub fn auth_heading(is_login: bool) -> (r: String)
    ensures
        r@ == (if is_login {
            "Welcome Back"@
        } else {
            "Create Account"@
        }),
{
    if is_login {
        "Welcome Back".to_string()
    } else {
        "Create Account".to_string()
    }
}

/// The label of the authentication page's submit button.
pub fn auth_submit_label(is_login: bool) -> (r: String)
    ensures
        r@ == (if is_login {
            "Log in"@
        } else {
            "Sign up"@
        }),
{
    if is_login {
        "Log in".to_string()
    } else {
        "Sign up".to_string()
    }
}

} // verus!
