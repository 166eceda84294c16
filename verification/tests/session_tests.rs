use mc_tunnel::client::{ClientAction, ClientEvent, ClientPhase, ClientSession};
use mc_tunnel::vps::{VpsAction, VpsEvent, VpsPhase, VpsSession};

#[test]
fn client_gives_up_after_max_failures() {
    let mut s = ClientSession::new(3);
    for attempt in 1..=3u32 {
        assert_eq!(s.step(ClientEvent::Begin), ClientAction::Connect { attempt });
        assert_eq!(s.step(ClientEvent::ConnectFailed), ClientAction::RetryAfterDelay);
    }
    assert_eq!(s.step(ClientEvent::Begin), ClientAction::GiveUp);
    assert_eq!(s.phase, ClientPhase::Stopped);
}

#[test]
fn client_with_no_limit_keeps_trying() {
    let mut s = ClientSession::new(0);
    for attempt in 1..=100u32 {
        assert_eq!(s.step(ClientEvent::Begin), ClientAction::Connect { attempt });
        assert_eq!(s.step(ClientEvent::ConnectFailed), ClientAction::RetryAfterDelay);
    }
}

#[test]
fn client_wrong_reply_is_a_failed_attempt() {
    let mut s = ClientSession::new(1);
    assert_eq!(s.step(ClientEvent::Begin), ClientAction::Connect { attempt: 1 });
    assert_eq!(s.step(ClientEvent::Reply(b"NOPE".to_vec())), ClientAction::RetryAfterDelay);
    assert!(!s.is_tunnel_up());
    assert_eq!(s.step(ClientEvent::Begin), ClientAction::GiveUp);
}

#[test]
fn client_success_resets_attempts() {
    let mut s = ClientSession::new(2);
    s.step(ClientEvent::Begin);
    s.step(ClientEvent::ConnectFailed);
    assert_eq!(s.step(ClientEvent::Begin), ClientAction::Connect { attempt: 2 });
    assert_eq!(s.step(ClientEvent::Reply(b"OKOK".to_vec())), ClientAction::Established);
    assert!(s.is_tunnel_up());
    assert_eq!(s.attempt, 0);
    assert_eq!(s.step(ClientEvent::ControlLost), ClientAction::ReconnectAfterDelay);
    assert!(!s.is_tunnel_up());
    assert_eq!(s.step(ClientEvent::Begin), ClientAction::Connect { attempt: 1 });
}

#[test]
fn client_signals() {
    let mut s = ClientSession::new(0);
    s.step(ClientEvent::Begin);
    s.step(ClientEvent::Reply(b"OKOK".to_vec()));
    assert_eq!(s.step(ClientEvent::Signal(0x01)), ClientAction::OpenDataChannel);
    assert_eq!(s.step(ClientEvent::Signal(0x07)), ClientAction::AwaitSignal);
    assert_eq!(s.step(ClientEvent::Signal(0x01)), ClientAction::OpenDataChannel);
    assert!(s.is_tunnel_up());
}

fn serving() -> VpsSession {
    let mut s = VpsSession::new();
    assert_eq!(s.step(VpsEvent::ControlAccepted), VpsAction::ReadHello);
    assert_eq!(s.step(VpsEvent::HelloRead(b"HELO".to_vec())), VpsAction::SendOkok);
    assert!(!s.is_tunnel_up());
    assert_eq!(s.step(VpsEvent::OkokSent), VpsAction::AcceptPlayer);
    assert!(s.is_tunnel_up());
    s
}

#[test]
fn vps_handshake_and_bridge() {
    let mut s = serving();
    assert_eq!(s.step(VpsEvent::PlayerAccepted), VpsAction::SignalNewPlayer);
    assert_eq!(s.step(VpsEvent::SignalSent), VpsAction::AcceptData);
    assert_eq!(s.step(VpsEvent::DataAccepted), VpsAction::ReadDataHandshake);
    assert_eq!(s.step(VpsEvent::DataByte(0x02)), VpsAction::SendAck);
    assert_eq!(s.step(VpsEvent::AckSent), VpsAction::StartBridge);
    assert_eq!(s.phase, VpsPhase::AcceptingPlayer);
    assert!(s.is_tunnel_up());
}

#[test]
fn vps_rejects_bad_greeting() {
    let mut s = VpsSession::new();
    assert!(!s.is_tunnel_up());
    s.step(VpsEvent::ControlAccepted);
    assert_eq!(s.step(VpsEvent::HelloRead(b"GET ".to_vec())), VpsAction::AcceptControl);
    assert_eq!(s.phase, VpsPhase::AcceptingControl);
    assert_eq!(s.step(VpsEvent::ControlAcceptFailed), VpsAction::AcceptControlAfterPause);
    s.step(VpsEvent::ControlAccepted);
    assert_eq!(s.step(VpsEvent::HelloFailed), VpsAction::AcceptControl);
    s.step(VpsEvent::ControlAccepted);
    s.step(VpsEvent::HelloRead(b"HELO".to_vec()));
    assert_eq!(s.step(VpsEvent::OkokFailed), VpsAction::AcceptControl);
    assert!(!s.is_tunnel_up());
}

#[test]
fn vps_drops_player_on_bad_data_channel() {
    let mut s = serving();
    s.step(VpsEvent::PlayerAccepted);
    s.step(VpsEvent::SignalSent);
    s.step(VpsEvent::DataAccepted);
    assert_eq!(s.step(VpsEvent::DataByte(0x09)), VpsAction::AcceptPlayer);
    s.step(VpsEvent::PlayerAccepted);
    s.step(VpsEvent::SignalSent);
    assert_eq!(s.step(VpsEvent::DataAcceptFailed), VpsAction::AcceptPlayer);
    s.step(VpsEvent::PlayerAccepted);
    s.step(VpsEvent::SignalSent);
    s.step(VpsEvent::DataAccepted);
    assert_eq!(s.step(VpsEvent::DataReadFailed), VpsAction::AcceptPlayer);
    s.step(VpsEvent::PlayerAccepted);
    s.step(VpsEvent::SignalSent);
    s.step(VpsEvent::DataAccepted);
    s.step(VpsEvent::DataByte(0x02));
    assert_eq!(s.step(VpsEvent::AckFailed), VpsAction::AcceptPlayer);
    assert_eq!(s.step(VpsEvent::PlayerAcceptFailed), VpsAction::AcceptPlayer);
    assert!(s.is_tunnel_up());
}

#[test]
fn vps_loses_client_when_signal_fails() {
    let mut s = serving();
    s.step(VpsEvent::PlayerAccepted);
    assert_eq!(s.step(VpsEvent::SignalFailed), VpsAction::AcceptControl);
    assert!(!s.is_tunnel_up());
    assert_eq!(s.phase, VpsPhase::AcceptingControl);
}
