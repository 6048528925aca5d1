use pam_oom_score::codes::{PAM_IGNORE, PAM_SERVICE_ERR, PAM_SUCCESS};
use pam_oom_score::session::{
    open_session_content, open_session_status, pam_sm_acct_mgmt, pam_sm_chauthtok,
    pam_sm_close_session, pam_sm_setcred, PamHandle,
};

#[test]
fn open_session_content_matches_token() {
    assert_eq!(open_session_content(Some("600")), b"600".to_vec());
    assert_eq!(open_session_content(Some("nonsense")), b"0".to_vec());
    assert_eq!(open_session_content(None), b"0".to_vec());
}

#[test]
fn open_session_reports_soft_failure_never_denial() {
    assert_eq!(open_session_status(true), PAM_SUCCESS);
    assert_eq!(open_session_status(false), PAM_IGNORE);
    assert_ne!(open_session_status(false), PAM_SUCCESS);
}

#[test]
fn close_session_always_succeeds() {
    let handle = PamHandle {};
    assert_eq!(pam_sm_close_session(&handle, 0, &vec![]), PAM_SUCCESS);
    assert_eq!(
        pam_sm_close_session(&handle, 0x8000, &vec![String::from("600")]),
        PAM_SUCCESS
    );
}

#[test]
fn unimplemented_hooks_declare_non_support() {
    let handle = PamHandle {};
    let args = vec![String::from("whatever"), String::from("else")];
    assert_eq!(pam_sm_acct_mgmt(&handle, 0, &args), PAM_SERVICE_ERR);
    assert_eq!(pam_sm_setcred(&handle, 2, &args), PAM_SERVICE_ERR);
    assert_eq!(pam_sm_chauthtok(&handle, 32, &args), PAM_SERVICE_ERR);
    assert_eq!(pam_sm_acct_mgmt(&handle, 0, &vec![]), PAM_SERVICE_ERR);
    assert_eq!(pam_sm_setcred(&handle, 0, &vec![]), PAM_SERVICE_ERR);
    assert_eq!(pam_sm_chauthtok(&handle, 0, &vec![]), PAM_SERVICE_ERR);
}
