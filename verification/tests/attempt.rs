use pkagent::attempt::{AttemptState, CancelOutcome};
use pkagent::identity::{Detail, Identity, Variant};
use pkagent::PolkitError;
use tokio_util::sync::CancellationToken;

fn unix_user(uid: u32) -> Identity {
    Identity {
        identity_kind: "unix-user".to_string(),
        identity_details: vec![Detail { key: "uid".to_string(), value: Variant::U32(uid) }],
    }
}

fn directory_name(uid: u32) -> Option<String> {
    let found = uzers::get_user_by_uid(uid)?;
    Some(found.name().to_str()?.to_string())
}

#[test]
fn a_new_slot_is_idle() {
    let state = AttemptState::new();
    assert!(!state.is_active());
    assert!(!state.is_active_for(""));
    assert!(!state.is_active_for("c1"));
}

#[test]
fn install_puts_the_attempt_under_way() {
    let mut state = AttemptState::new();
    let r = state.install("c1", Some("ann".to_string()), CancellationToken::new());
    assert_eq!(r, Ok("ann".to_string()));
    assert!(state.is_active());
    assert!(state.is_active_for("c1"));
    assert!(!state.is_active_for("c2"));
}

#[test]
fn install_without_account_is_failed() {
    let mut state = AttemptState::new();
    let r = state.install("c1", None, CancellationToken::new());
    assert_eq!(r, Err(PolkitError::Failed));
    assert!(!state.is_active());
}

#[test]
fn second_install_is_failed_and_leaves_the_first() {
    let mut state = AttemptState::new();
    let first = CancellationToken::new();
    let second = CancellationToken::new();
    assert!(state.install("c1", Some("ann".to_string()), first.clone()).is_ok());
    let r = state.install("c2", Some("bob".to_string()), second.clone());
    assert_eq!(r, Err(PolkitError::Failed));
    assert!(state.is_active_for("c1"));
    assert!(!state.is_active_for("c2"));
    assert_eq!(state.cancel_authentication("c2"), Ok(CancelOutcome::Mismatch));
    assert!(!first.is_cancelled());
    assert_eq!(state.cancel_authentication("c1"), Ok(CancelOutcome::Signalled));
    assert!(first.is_cancelled());
    assert!(!second.is_cancelled());
}

#[test]
fn second_install_with_the_same_cookie_is_failed_too() {
    let mut state = AttemptState::new();
    let first = CancellationToken::new();
    let second = CancellationToken::new();
    assert!(state.install("c1", Some("ann".to_string()), first.clone()).is_ok());
    assert_eq!(
        state.install("c1", Some("ann".to_string()), second.clone()),
        Err(PolkitError::Failed)
    );
    assert_eq!(state.cancel_authentication("c1"), Ok(CancelOutcome::Signalled));
    assert!(first.is_cancelled());
    assert!(!second.is_cancelled());
}

#[test]
fn cancel_without_attempt_is_a_no_op() {
    let state = AttemptState::new();
    assert_eq!(state.cancel_authentication("c1"), Ok(CancelOutcome::Idle));
    assert!(!state.is_active());
}

#[test]
fn cancel_with_another_cookie_is_a_no_op() {
    let mut state = AttemptState::new();
    let token = CancellationToken::new();
    assert!(state.install("c1", Some("ann".to_string()), token.clone()).is_ok());
    assert_eq!(state.cancel_authentication("c"), Ok(CancelOutcome::Mismatch));
    assert_eq!(state.cancel_authentication("c11"), Ok(CancelOutcome::Mismatch));
    assert_eq!(state.cancel_authentication(""), Ok(CancelOutcome::Mismatch));
    assert!(!token.is_cancelled());
    assert!(state.is_active_for("c1"));
}

#[test]
fn cancel_with_the_cookie_signals_the_attempt() {
    let mut state = AttemptState::new();
    let token = CancellationToken::new();
    assert!(state.install("c1", Some("ann".to_string()), token.clone()).is_ok());
    assert!(!token.is_cancelled());
    assert_eq!(state.cancel_authentication("c1"), Ok(CancelOutcome::Signalled));
    assert!(token.is_cancelled());
    assert!(state.is_active_for("c1"));
}

#[test]
fn end_clears_the_slot_for_the_next_attempt() {
    let mut state = AttemptState::new();
    assert!(state.install("c1", Some("ann".to_string()), CancellationToken::new()).is_ok());
    assert_eq!(state.end_authentication(Ok(())), Ok(()));
    assert!(!state.is_active());
    assert_eq!(state.cancel_authentication("c1"), Ok(CancelOutcome::Idle));
    assert_eq!(
        state.install("c2", Some("bob".to_string()), CancellationToken::new()),
        Ok("bob".to_string())
    );
    assert!(state.is_active_for("c2"));
    assert_eq!(state.end_authentication(Err(PolkitError::Failed)), Err(PolkitError::Failed));
    assert_eq!(
        state.end_authentication(Err(PolkitError::Cancelled)),
        Err(PolkitError::Cancelled)
    );
    assert!(!state.is_active());
}

#[test]
fn begin_without_identities_is_failed() {
    let mut state = AttemptState::new();
    assert!(matches!(state.begin_authentication("c1", &[]), Err(PolkitError::Failed)));
    assert!(!state.is_active());
}

#[test]
fn begin_is_let_in_when_the_account_has_a_name() {
    let own = uzers::get_effective_uid();
    let mut state = AttemptState::new();
    match (state.begin_authentication("c1", &[unix_user(own)]), directory_name(own)) {
        (Ok(admission), Some(name)) => {
            assert_eq!(admission.account, name);
            assert!(state.is_active_for("c1"));
            assert!(!admission.token.is_cancelled());
            assert_eq!(state.cancel_authentication("c1"), Ok(CancelOutcome::Signalled));
            assert!(admission.token.is_cancelled());
        }
        (Err(e), None) => {
            assert_eq!(e, PolkitError::Failed);
            assert!(!state.is_active());
        }
        (Ok(_), None) => panic!("let in without an account"),
        (Err(_), Some(_)) => panic!("refused with an account"),
    }
}

#[test]
fn begin_while_an_attempt_is_under_way_is_failed() {
    let own = uzers::get_effective_uid();
    let mut state = AttemptState::new();
    let token = CancellationToken::new();
    assert!(state.install("c1", Some("ann".to_string()), token.clone()).is_ok());
    assert!(matches!(state.begin_authentication("c2", &[unix_user(own)]), Err(PolkitError::Failed)));
    assert!(matches!(state.begin_authentication("c1", &[unix_user(own)]), Err(PolkitError::Failed)));
    assert!(state.is_active_for("c1"));
    assert!(!token.is_cancelled());
}

#[test]
fn each_attempt_gets_a_token_of_its_own() {
    let own = uzers::get_effective_uid();
    if directory_name(own).is_none() {
        return;
    }
    let mut state = AttemptState::new();
    let first = state.begin_authentication("c1", &[unix_user(own)]).ok().unwrap();
    assert_eq!(state.cancel_authentication("c1"), Ok(CancelOutcome::Signalled));
    assert_eq!(
        state.end_authentication(Err(PolkitError::Cancelled)),
        Err(PolkitError::Cancelled)
    );
    let second = state.begin_authentication("c2", &[unix_user(own)]).ok().unwrap();
    assert!(first.token.is_cancelled());
    assert!(!second.token.is_cancelled());
}
