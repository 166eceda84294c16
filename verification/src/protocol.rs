//! The handshake bytes exchanged between the VPS and the home client.

use vstd::prelude::*;

verus! {

/// Control channel, VPS to client: "a new player is waiting".
pub const SIG_NEW_PLAYER: u8 = 0x01;

/// Data channel, client to VPS: "this connection is a data channel".
pub const DATA_HANDSHAKE: u8 = 0x02;

/// Data channel, VPS to client: "data channel accepted".
pub const DATA_ACK: u8 = 0x03;

/// The four bytes `b"HELO"` that open a control channel (client to VPS).
pub open spec fn helo_bytes() -> Seq<u8> {
    seq![0x48u8, 0x45u8, 0x4Cu8, 0x4Fu8]
}

/// The four bytes `b"OKOK"` that accept a control channel (VPS to client).
pub open spec fn okok_bytes() -> Seq<u8> {
    seq![0x4Fu8, 0x4Bu8, 0x4Fu8, 0x4Bu8]
}

/// The greeting the client writes first on a control connection.
pub fn helo() -> (r: Vec<u8>)
    ensures
        r@ == helo_bytes(),
{
    let r: Vec<u8> = vec![0x48u8, 0x45u8, 0x4Cu8, 0x4Fu8];
    assert(r@ =~= helo_bytes());
    r
}

/// The reply the VPS writes to a valid greeting.
pub fn okok() -> (r: Vec<u8>)
    ensures
        r@ == okok_bytes(),
{
    let r: Vec<u8> = vec![0x4Fu8, 0x4Bu8, 0x4Fu8, 0x4Bu8];
    assert(r@ =~= okok_bytes());
    r
}

/// Whether `buf` is exactly the expected four-byte word `word`.
fn equals_word(buf: &[u8], w0: u8, w1: u8, w2: u8, w3: u8) -> (b: bool)
    ensures
        b == (buf@ == seq![w0, w1, w2, w3]),
{
    if buf.len() != 4 {
        proof {
            if buf@ == seq![w0, w1, w2, w3] {
                assert(buf@.len() == 4);
            }
        }
        return false;
    }
    let same = buf[0] == w0 && buf[1] == w1 && buf[2] == w2 && buf[3] == w3;
    proof {
        if same {
            assert(buf@ =~= seq![w0, w1, w2, w3]);
        } else if buf@ == seq![w0, w1, w2, w3] {
            assert(buf@[0] == w0 && buf@[1] == w1 && buf@[2] == w2 && buf@[3] == w3);
        }
    }
    same
}

/// The VPS accepts a control connection whose first four bytes are `HELO`.
pub fn is_helo(buf: &[u8]) -> (b: bool)
    ensures
        b == (buf@ == helo_bytes()),
{
    equals_word(buf, 0x48u8, 0x45u8, 0x4Cu8, 0x4Fu8)
}

/// The client accepts the VPS's reply when it is `OKOK`.
pub fn is_okok(buf: &[u8]) -> (b: bool)
    ensures
        b == (buf@ == okok_bytes()),
{
    equals_word(buf, 0x4Fu8, 0x4Bu8, 0x4Fu8, 0x4Bu8)
}

/// The VPS's answer to a greeting: `OKOK` for `HELO`, none otherwise.
pub open spec fn control_reply_spec(greeting: Seq<u8>) -> Option<Seq<u8>> {
    if greeting == helo_bytes() {
        Some(okok_bytes())
    } else {
        None
    }
}

/// The VPS's answer to the first byte of a data connection.
pub open spec fn data_reply_spec(first: u8) -> Option<u8> {
    if first == DATA_HANDSHAKE {
        Some(DATA_ACK)
    } else {
        None
    }
}

/// What the VPS answers to the greeting it read on a control connection:
/// `OKOK` for `HELO`, nothing (the connection is dropped) for anything else.
pub fn control_reply(greeting: &[u8]) -> (r: Option<Vec<u8>>)
    ensures
        r matches Some(v) ==> control_reply_spec(greeting@) == Some(v@),
        r is None <==> control_reply_spec(greeting@) is None,
{
    if is_helo(greeting) {
        Some(okok())
    } else {
        None
    }
}

/// What the VPS answers to the first byte of a data connection: `DATA_ACK`
/// for `DATA_HANDSHAKE`, nothing (the connection is dropped) otherwise.
pub fn data_reply(first: u8) -> (r: Option<u8>)
    ensures
        r == data_reply_spec(first),
{
    if first == DATA_HANDSHAKE {
        Some(DATA_ACK)
    } else {
        None
    }
}

/// Whether the byte the client read back on a data connection accepts it.
pub fn is_data_ack(b: u8) -> (r: bool)
    ensures
        r == (b == DATA_ACK),
{
    b == DATA_ACK
}

/// Whether a byte read on the control channel announces a new player.
/// Any other value is an unknown signal, which the client skips.
pub fn is_new_player_signal(b: u8) -> (r: bool)
    ensures
        r == (b == SIG_NEW_PLAYER),
{
    b == SIG_NEW_PLAYER
}

/// Both handshakes succeed when each side follows the protocol: the VPS
/// answers the client's greeting with the reply the client accepts, and the
/// client's data handshake with the acknowledgement the client awaits; no
/// other greeting or first byte gets an answer.
pub proof fn lemma_handshakes_agree(greeting: Seq<u8>, first: u8)
    ensures
        control_reply_spec(helo_bytes()) == Some(okok_bytes()),
        data_reply_spec(DATA_HANDSHAKE) == Some(DATA_ACK),
        control_reply_spec(greeting) is Some ==> greeting == helo_bytes(),
        data_reply_spec(first) is Some ==> first == DATA_HANDSHAKE,
        helo_bytes() != okok_bytes(),
{
    assert(helo_bytes()[0] != okok_bytes()[0]);
}

} // verus!
