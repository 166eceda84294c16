use mc_tunnel::protocol::{
    control_reply, data_reply, helo, is_data_ack, is_helo, is_new_player_signal, is_okok, okok,
    DATA_ACK, DATA_HANDSHAKE, SIG_NEW_PLAYER,
};

#[test]
fn greeting_bytes_spell_helo_and_okok() {
    assert_eq!(helo(), b"HELO".to_vec());
    assert_eq!(okok(), b"OKOK".to_vec());
}

#[test]
fn signal_bytes_have_their_wire_values() {
    assert_eq!(SIG_NEW_PLAYER, 0x01);
    assert_eq!(DATA_HANDSHAKE, 0x02);
    assert_eq!(DATA_ACK, 0x03);
}

#[test]
fn vps_accepts_only_helo() {
    assert!(is_helo(b"HELO"));
    assert!(!is_helo(b"HELL"));
    assert!(!is_helo(b"helo"));
    assert!(!is_helo(b"HEL"));
    assert!(!is_helo(b"HELOX"));
    assert!(!is_helo(b""));
}

#[test]
fn client_accepts_only_okok() {
    assert!(is_okok(b"OKOK"));
    assert!(!is_okok(b"OKNO"));
    assert!(!is_okok(b"HELO"));
    assert!(!is_okok(&[0, 0, 0, 0]));
}

#[test]
fn control_reply_answers_helo_with_okok() {
    assert_eq!(control_reply(b"HELO"), Some(b"OKOK".to_vec()));
    assert_eq!(control_reply(b"GET "), None);
    assert_eq!(control_reply(b"OKOK"), None);
}

#[test]
fn data_reply_answers_handshake_with_ack() {
    assert_eq!(data_reply(0x02), Some(0x03));
    assert_eq!(data_reply(0x01), None);
    assert_eq!(data_reply(0x03), None);
    assert_eq!(data_reply(0xFF), None);
}

#[test]
fn client_checks_ack_and_signal_bytes() {
    assert!(is_data_ack(0x03));
    assert!(!is_data_ack(0x02));
    assert!(is_new_player_signal(0x01));
    assert!(!is_new_player_signal(0x00));
    assert!(!is_new_player_signal(0x02));
}
