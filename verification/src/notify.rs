//! The notifier-side decision logic.
//!
//! The QQ-style backends share an access token that may expire mid-session;
//! a notify call must then refresh the token transparently and retry the
//! send exactly once. The decisions of that discipline — when a response
//! means "delivered", "token invalid, renew and resend" or "backend
//! unusable" — are made here; the surrounding application only performs the
//! HTTP calls the machine asks for.

use vstd::prelude::*;

use crate::errors::Error;

verus! {

/// The backend's error code meaning the access token has expired.
pub const CODE_TOKEN_EXPIRED: i32 = 11244;

/// Items per notify call for the QQ channel notifier.
pub const QQ_NUM_ITEMS_EACH_NOTIFY: usize = 3;

/// Items per notify call for the QQ guild notifier.
pub const QQ_GUILD_NUM_ITEMS_EACH_NOTIFY: usize = 5;

/// The default batch size: the whole batch in one notify call.
pub const DEFAULT_NUM_ITEMS_EACH_NOTIFY: usize = 0;

/// The error payload a failing backend attaches to a 500 response.
#[derive(Clone, Debug)]
pub struct ErrorMessage {
    pub message: String,
    pub code: i32,
    pub err_code: i32,
    pub trace_id: String,
}

/// What a send response means: `Ok(true)` delivered with a valid token,
/// `Ok(false)` token invalid (renew it), `Err` backend unusable.
pub open spec fn spec_check_response(status: u16, err: Option<ErrorMessage>) -> Result<
    bool,
    Error,
> {
    if status == 401 {
        Ok(false)
    } else if status == 500 {
        if err->0.code == CODE_TOKEN_EXPIRED {
            Ok(false)
        } else {
            Err(Error::Delivery(err->0.message))
        }
    } else {
        Ok(true)
    }
}

/// Check a send response's status code, and the error payload of a 500,
/// and say whether the token is still valid.
///
/// A 401, or a 500 carrying the token-expired code, means the token must
/// be renewed; any other 500 means the backend is unusable and the
/// delivery fails with its message; everything else counts as delivered.
pub fn check_response(status: u16, err: &Option<ErrorMessage>) -> (r: Result<bool, Error>)
    requires
        status == 500 ==> err is Some,
    ensures
        r == spec_check_response(status, *err),
{
    if status == 401 {
        return Ok(false);
    }
    if status == 500 {
        match err {
            Some(e) => {
                if e.code == CODE_TOKEN_EXPIRED {
                    Ok(false)
                } else {
                    Err(Error::Delivery(e.message.clone()))
                }
            },
            None => {
                proof {
                    assert(false);
                }
                Ok(true)
            },
        }
    } else {
        Ok(true)
    }
}

/// Where one notify call stands.
#[derive(Clone, Debug)]
pub enum NotifyStep {
    /// An access token is being fetched; `resend` says whether this is the
    /// one transparent renewal after an expired-token response.
    FetchingToken { resend: bool },
    /// The message is being sent; `resend` says whether this is already the
    /// retried send.
    Sending { resend: bool },
    /// The call is over and counts as delivered.
    Done,
    /// The call is over; the backend stayed unusable.
    Aborted(Error),
}

/// The step a send response moves the session to.
pub open spec fn spec_on_response(resend: bool, status: u16, err: Option<ErrorMessage>) -> NotifyStep {
    match spec_check_response(status, err) {
        Ok(true) => NotifyStep::Done,
        Ok(false) => if resend {
            NotifyStep::Done
        } else {
            NotifyStep::FetchingToken { resend: true }
        },
        Err(e) => NotifyStep::Aborted(e),
    }
}

impl NotifyStep {
    /// Open a notify call: fetch a token first if none is held.
    pub fn begin(have_token: bool) -> (s: NotifyStep)
        ensures
            s == if have_token {
                NotifyStep::Sending { resend: false }
            } else {
                NotifyStep::FetchingToken { resend: false }
            },
    {
        if have_token {
            NotifyStep::Sending { resend: false }
        } else {
            NotifyStep::FetchingToken { resend: false }
        }
    }

    /// A token arrived: go send.
    pub fn on_token_fetched(&self) -> (s: NotifyStep)
        requires
            *self is FetchingToken,
        ensures
            s == (NotifyStep::Sending { resend: self->FetchingToken_resend }),
    {
        match self {
            NotifyStep::FetchingToken { resend } => NotifyStep::Sending { resend: *resend },
            _ => NotifyStep::Done,
        }
    }

    /// Fetching a token failed: the whole call fails with that error.
    pub fn on_token_error(&self, e: Error) -> (s: NotifyStep)
        requires
            *self is FetchingToken,
        ensures
            s == NotifyStep::Aborted(e),
    {
        NotifyStep::Aborted(e)
    }

    /// The send itself failed at the transport: the call fails.
    pub fn on_send_error(&self, e: Error) -> (s: NotifyStep)
        requires
            *self is Sending,
        ensures
            s == NotifyStep::Aborted(e),
    {
        NotifyStep::Aborted(e)
    }

    /// A send got a response: delivered, renew-and-resend, or unusable.
    pub fn on_response(&self, status: u16, err: &Option<ErrorMessage>) -> (s: NotifyStep)
        requires
            *self is Sending,
            status == 500 ==> err is Some,
        ensures
            s == spec_on_response(self->Sending_resend, status, *err),
    {
        let resend = match self {
            NotifyStep::Sending { resend } => *resend,
            _ => false,
        };
        match check_response(status, err) {
            Ok(true) => NotifyStep::Done,
            Ok(false) => {
                if resend {
                    NotifyStep::Done
                } else {
                    NotifyStep::FetchingToken { resend: true }
                }
            },
            Err(e) => NotifyStep::Aborted(e),
        }
    }
}

/// The token is refreshed and the send retried exactly once per notify
/// call: only a first send can request a renewal, and the renewal it
/// requests is marked as the resend, whose own response can never request
/// another.
pub proof fn lemma_renew_at_most_once(resend: bool, status: u16, err: Option<ErrorMessage>)
    ensures
        spec_on_response(resend, status, err) is FetchingToken ==> !resend && spec_on_response(
            resend,
            status,
            err,
        )->FetchingToken_resend,
{
}

} // verus!
