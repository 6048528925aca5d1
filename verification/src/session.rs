//! The lifecycle hooks' decisions. Opening a session computes the bytes to
//! store and maps the write outcome to a status code; closing a session
//! always succeeds; the remaining hooks declare that this plugin does not
//! provide their capability.

use vstd::prelude::*;

use crate::codes::{PAM_IGNORE, PAM_SERVICE_ERR, PAM_SUCCESS};
use crate::score::{opt_token_view, score_file_content, spec_score_file_content};

verus! {

/// Opaque marker for the host framework's session handle. The plugin never
/// looks inside it; the real handle is owned by the framework.
pub struct PamHandle {}

/// The bytes the session-open hook writes into the control file for an
/// optional first argument token.
pub fn open_session_content(token: Option<&str>) -> (r: Vec<u8>)
    ensures
        r@ == spec_score_file_content(opt_token_view(token)),
{
    score_file_content(token)
}

/// The status the session-open hook reports: success when the control file
/// was written, and otherwise a soft failure that tells the framework to
/// disregard this plugin's outcome — never a denial.
pub fn open_session_status(wrote: bool) -> (r: i32)
    ensures
        r == if wrote {
            PAM_SUCCESS
        } else {
            PAM_IGNORE
        },
        r == PAM_SUCCESS || r == PAM_IGNORE,
{
    if wrote {
        PAM_SUCCESS
    } else {
        PAM_IGNORE
    }
}

/// Closing a session always succeeds: there is nothing to undo.
pub fn pam_sm_close_session(_pamh: &PamHandle, _flags: i32, _args: &Vec<String>) -> (r: i32)
    ensures
        r == PAM_SUCCESS,
{
    PAM_SUCCESS
}

/// Account management is not provided by this plugin.
pub fn pam_sm_acct_mgmt(_pamh: &PamHandle, _flags: i32, _args: &Vec<String>) -> (r: i32)
    ensures
        r == PAM_SERVICE_ERR,
{
    PAM_SERVICE_ERR
}

/// Credential setting is not provided by this plugin.
pub fn pam_sm_setcred(_pamh: &PamHandle, _flags: i32, _args: &Vec<String>) -> (r: i32)
    ensures
        r == PAM_SERVICE_ERR,
{
    PAM_SERVICE_ERR
}

/// Authentication-token changes are not provided by this plugin.
pub fn pam_sm_chauthtok(_pamh: &PamHandle, _flags: i32, _args: &Vec<String>) -> (r: i32)
    ensures
        r == PAM_SERVICE_ERR,
{
    PAM_SERVICE_ERR
}

} // verus!
