//! Errors, and the replies of calls that run on the database pool.

use vstd::prelude::*;

verus! {

/// The messages that clients of the server see.
#[derive(Clone, Copy, Debug, PartialEq, Eq, Structural)]
pub enum ErrorMessage {
    RegistrationClosed,
    PasswordsDontMatch,
    CaptchaIncorrect,
    InvalidUsername,
    UserAlreadyExists,
    EmailAlreadyExists,
    CommunityFollowerAlreadyExists,
    CommunityModeratorAlreadyExists,
    CouldntUpdateSite,
}

impl ErrorMessage {
    /// The text of a message, as it goes over the wire.
    pub open spec fn text(self) -> Seq<char> {
        match self {
            ErrorMessage::RegistrationClosed => "registration_closed"@,
            ErrorMessage::PasswordsDontMatch => "passwords_dont_match"@,
            ErrorMessage::CaptchaIncorrect => "captcha_incorrect"@,
            ErrorMessage::InvalidUsername => "invalid_username"@,
            ErrorMessage::UserAlreadyExists => "user_already_exists"@,
            ErrorMessage::EmailAlreadyExists => "email_already_exists"@,
            ErrorMessage::CommunityFollowerAlreadyExists => "community_follower_already_exists"@,
            ErrorMessage::CommunityModeratorAlreadyExists => "community_moderator_already_exists"@,
            ErrorMessage::CouldntUpdateSite => "couldnt_update_site"@,
        }
    }

    /// Returns the text of the message.
    pub fn as_str(self) -> (res: &'static str)
        ensures
            res@ == self.text(),
    {
        match self {
            ErrorMessage::RegistrationClosed => "registration_closed",
            ErrorMessage::PasswordsDontMatch => "passwords_dont_match",
            ErrorMessage::CaptchaIncorrect => "captcha_incorrect",
            ErrorMessage::InvalidUsername => "invalid_username",
            ErrorMessage::UserAlreadyExists => "user_already_exists",
            ErrorMessage::EmailAlreadyExists => "email_already_exists",
            ErrorMessage::CommunityFollowerAlreadyExists => "community_follower_already_exists",
            ErrorMessage::CommunityModeratorAlreadyExists => "community_moderator_already_exists",
            ErrorMessage::CouldntUpdateSite => "couldnt_update_site",
        }
    }
}

/// An error of a flow: what the client is told, and what caused it.
///
/// An error without a message stands for its cause, together with any message that the
/// cause itself brings: what a call reports is handed on whole. A message takes the place
/// of one that the cause brings.
///
/// `E` is the error type of the program around the library.
#[derive(Clone, Debug, PartialEq, Eq)]
pub struct LemmyError<E> {
    pub message: Option<ErrorMessage>,
    pub cause: Option<E>,
}

impl<E> LemmyError<E> {
    pub open spec fn of_message(message: ErrorMessage) -> LemmyError<E> {
        LemmyError { message: Some(message), cause: None }
    }

    pub open spec fn of_cause(cause: E) -> LemmyError<E> {
        LemmyError { message: None, cause: Some(cause) }
    }

    pub open spec fn of_both(cause: E, message: ErrorMessage) -> LemmyError<E> {
        LemmyError { message: Some(message), cause: Some(cause) }
    }

    /// An error that the library itself found.
    pub fn from_message(message: ErrorMessage) -> (res: Self)
        ensures
            res == Self::of_message(message),
    {
        LemmyError { message: Some(message), cause: None }
    }

    /// An error that a call reported.
    pub fn from_cause(cause: E) -> (res: Self)
        ensures
            res == Self::of_cause(cause),
    {
        LemmyError { message: None, cause: Some(cause) }
    }

    /// The same error, with another message for the client.
    pub fn with_message(self, message: ErrorMessage) -> (res: Self)
        ensures
            res == (LemmyError { message: Some(message), ..self }),
    {
        LemmyError { message: Some(message), cause: self.cause }
    }
}

/// The reply of a database call that runs on the blocking pool: the outer error
/// is the pool's, the inner one the query's.
pub type Blocking<T, E> = Result<Result<T, E>, E>;

/// A query error together with the text that it prints.
#[derive(Clone, Debug, PartialEq, Eq)]
pub struct QueryError<E> {
    pub error: E,
    pub text: String,
}

/// What a reply comes to when the errors of the pool and of the query are
/// treated alike.
pub open spec fn flat<T, E>(reply: Blocking<T, E>) -> Result<T, E> {
    match reply {
        Ok(inner) => inner,
        Err(error) => Err(error),
    }
}

/// Returns the value of a reply, or the error of the pool or of the query.
pub fn flatten<T, E>(reply: Blocking<T, E>) -> (res: Result<T, E>)
    ensures
        res == flat(reply),
{
    match reply {
        Ok(inner) => inner,
        Err(error) => Err(error),
    }
}

/// An error has the message and the cause that it was made of, and no other.
pub proof fn errors_hold_what_they_are_made_of<E>(cause: E, message: ErrorMessage)
    ensures
        LemmyError::<E>::of_message(message) == (LemmyError::<E> {
            message: Some(message),
            cause: None,
        }),
        LemmyError::of_cause(cause) == (LemmyError { message: None, cause: Some(cause) }),
        LemmyError::of_both(cause, message) == (LemmyError {
            message: Some(message),
            cause: Some(cause),
        }),
{
}

/// What a reply comes to is the value if both the pool and the query succeeded, and otherwise the
/// error of the one that failed.
pub proof fn replies_come_to_their_value_or_error<T, E>(reply: Blocking<T, E>, value: T, error: E)
    ensures
        flat(reply) == Ok::<T, E>(value) <==> reply == Ok::<Result<T, E>, E>(Ok(value)),
        flat(reply) == Err::<T, E>(error) <==> (reply == Err::<Result<T, E>, E>(error) || reply
            == Ok::<Result<T, E>, E>(Err(error))),
{
}

/// Clients tell the messages apart by their texts: no two messages have the same one.
pub proof fn messages_differ_in_their_texts(one: ErrorMessage, other: ErrorMessage)
    ensures
        one.text() == other.text() <==> one == other,
{
    reveal_strlit("registration_closed");
    reveal_strlit("passwords_dont_match");
    reveal_strlit("captcha_incorrect");
    reveal_strlit("invalid_username");
    reveal_strlit("user_already_exists");
    reveal_strlit("email_already_exists");
    reveal_strlit("community_follower_already_exists");
    reveal_strlit("community_moderator_already_exists");
    reveal_strlit("couldnt_update_site");
    let a = one.text();
    let b = other.text();
    assert(one != other ==> a.len() != b.len() || a[0] != b[0]);
}

} // verus!
