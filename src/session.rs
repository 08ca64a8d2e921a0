use vstd::prelude::*;

use crate::markup::{chars_of, same_chars};
use crate::model::{plan_spec, Action, PortalError, Status};
use crate::status::{get_status, status_of};

verus! {

/// How many characters of the cookie header make up the session token.
pub const SESSION_ID_LEN: usize = 45;

/// A login response of this many characters or more is the failure page.
pub const LOGIN_FAILURE_LEN: usize = 75000;

/// Takes the session token from the start of the cookie header's text: its
/// first `SESSION_ID_LEN` characters. Fails with `BadHeaderLen`, carrying
/// what there was, where the header is shorter.
pub fn session_id(header: &str) -> (r: Result<String, PortalError>)
    ensures
        header@.len() >= SESSION_ID_LEN ==> (r matches Ok(id) && id@ == header@.take(
            SESSION_ID_LEN as int,
        )),
        header@.len() < SESSION_ID_LEN ==> (r matches Err(PortalError::BadHeaderLen(id)) && id@
            == header@),
{
    let n = header.unicode_len();
    if n < SESSION_ID_LEN {
        let whole = header.to_owned();
        Err(PortalError::BadHeaderLen(whole))
    } else {
        let part = header.substring_char(0, SESSION_ID_LEN);
        Ok(part.to_owned())
    }
}

/// Accepts the login response unless it is as large as the failure page.
pub fn check_login_page(body: String) -> (r: Result<String, PortalError>)
    ensures
        body@.len() < LOGIN_FAILURE_LEN ==> r == Ok::<String, PortalError>(body),
        body@.len() >= LOGIN_FAILURE_LEN ==> r == Err::<String, PortalError>(
            PortalError::LoginFailure,
        ),
{
    let n = body.as_str().unicode_len();
    if n < LOGIN_FAILURE_LEN {
        Ok(body)
    } else {
        Err(PortalError::LoginFailure)
    }
}

/// Reads the intent argument: "on" asks to become active, "off" to become
/// inactive; anything else, or nothing, fails with `NoOperator`.
pub fn parse_operator(arg: Option<&str>) -> (r: Result<bool, PortalError>)
    ensures
        r == (match arg {
            Some(a) => if a@ == "on"@ {
                Ok(true)
            } else if a@ == "off"@ {
                Ok(false)
            } else {
                Err(PortalError::NoOperator)
            },
            None => Err(PortalError::NoOperator),
        }),
{
    match arg {
        Some(a) => {
            let given = chars_of(a);
            let on = chars_of("on");
            let off = chars_of("off");
            if same_chars(&given, &on) {
                Ok(true)
            } else if same_chars(&given, &off) {
                Ok(false)
            } else {
                Err(PortalError::NoOperator)
            }
        },
        None => Err(PortalError::NoOperator),
    }
}

/// The action that the intent asks for from the state that the dashboard
/// markup shows: fails with `BadStatus` where the markup shows no state,
/// and with `NoActionToTake` where no control carries out the intent.
pub fn plan_action(html: &str, turn_on: bool) -> (r: Result<Action, PortalError>)
    ensures
        r == (match status_of(html@) {
            Some(s) => match plan_spec(s, turn_on) {
                Some(a) => Ok(a),
                None => Err(PortalError::NoActionToTake),
            },
            None => Err(PortalError::BadStatus),
        }),
{
    let status: Status = get_status(html)?;
    status.to_action(turn_on)
}

} // verus!
