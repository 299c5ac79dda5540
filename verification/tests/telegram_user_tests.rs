use socials::telegram_user::{
    signed_in_message, AuthState, ChannelState, DialogInfo, SignInFailure, UpdateState,
    UpdatesState,
};

#[test]
fn sign_in_needs_a_requested_code() {
    assert_eq!(
        AuthState::disconnected().code_phone(),
        Err("No code requested. Call request_code first.".to_string())
    );
    assert_eq!(AuthState::waiting_code("+33600000000").code_phone(), Ok("+33600000000".to_string()));
    assert!(AuthState::signed_in(1, Some("ann")).code_phone().is_err());
}

#[test]
fn signed_in_states_and_messages() {
    match AuthState::signed_in(77, None) {
        AuthState::Connected { user_id, username } => {
            assert_eq!(user_id, 77);
            assert_eq!(username, "");
        }
        _ => panic!("not connected"),
    }
    assert_eq!(signed_in_message(77, Some("ann")), "Connected as ann (id: 77)");
    assert_eq!(signed_in_message(-5, None), "Connected as unknown (id: -5)");
}

#[test]
fn failure_messages() {
    assert_eq!(
        SignInFailure::PasswordRequired.message(),
        "Two-factor authentication required. Not yet supported."
    );
    assert_eq!(SignInFailure::InvalidCode.message(), "Invalid code. Please try again.");
    assert_eq!(
        SignInFailure::Other { reason: "FLOOD_WAIT".to_string() }.message(),
        "Sign in failed: FLOOD_WAIT"
    );
    assert_eq!(AuthState::not_connected_error(), "Client not connected. Call connect() first.");
    assert_eq!(AuthState::no_client_error(), "Client not connected.");
    assert_eq!(AuthState::chat_not_found_error(), "Chat not found in dialogs");
}

#[test]
fn dialogs() {
    let d = DialogInfo::from_peer(3, None, Some("last".to_string()));
    assert_eq!(d.title, "Unknown");
    assert_eq!(d.last_message.as_deref(), Some("last"));
    assert_eq!(DialogInfo::from_peer(4, Some("Ann"), None).title, "Ann");
}

fn state() -> UpdatesState {
    UpdatesState {
        pts: 1,
        qts: 2,
        date: 3,
        seq: 4,
        channels: vec![
            ChannelState { id: 10, pts: 100 },
            ChannelState { id: 20, pts: 200 },
            ChannelState { id: 10, pts: 101 },
        ],
    }
}

#[test]
fn update_state_changes() {
    let mut s = state();
    s.apply(UpdateState::Channel { id: 10, pts: 150 });
    assert_eq!(s.channels, vec![ChannelState { id: 20, pts: 200 }, ChannelState { id: 10, pts: 150 }]);
    s.apply(UpdateState::Channel { id: 30, pts: 5 });
    assert_eq!(s.channels.len(), 3);
    assert_eq!(s.channels[2], ChannelState { id: 30, pts: 5 });
    s.apply(UpdateState::Primary { pts: 9, date: 8, seq: 7 });
    assert_eq!((s.pts, s.qts, s.date, s.seq), (9, 2, 8, 7));
    s.apply(UpdateState::Secondary { qts: 6 });
    assert_eq!((s.pts, s.qts, s.date, s.seq), (9, 6, 8, 7));
    s.apply(UpdateState::All { state: state() });
    assert_eq!(s.channels.len(), 3);
    assert_eq!(s.pts, 1);
}

#[test]
fn sign_in_outcomes() {
    let mut state = AuthState::waiting_code("+33600000000");
    let reply = state.after_sign_in(Err(SignInFailure::InvalidCode));
    assert_eq!(reply, Err("Invalid code. Please try again.".to_string()));
    assert_eq!(state.code_phone(), Ok("+33600000000".to_string()));
    let reply = state.after_sign_in(Err(SignInFailure::Other { reason: "FLOOD_WAIT".to_string() }));
    assert_eq!(reply, Err("Sign in failed: FLOOD_WAIT".to_string()));
    let reply = state.after_sign_in(Ok((42, Some("ann"))));
    assert_eq!(reply, Ok("Connected as ann (id: 42)".to_string()));
    assert!(matches!(state, AuthState::Connected { user_id: 42, ref username } if username == "ann"));
    let mut anonymous = AuthState::waiting_code("+1");
    assert_eq!(anonymous.after_sign_in(Ok((-7, None))), Ok("Connected as unknown (id: -7)".to_string()));
    assert!(matches!(anonymous, AuthState::Connected { user_id: -7, ref username } if username.is_empty()));
}
