//! The literal protocol message catalog: every text the server sends to a
//! client, with its exact contents.

use vstd::prelude::*;
use vstd::string::StringExecFns;
use crate::nickname::push_char;
use crate::player::Player;

verus! {

/// The decimal digit character of a value below ten.
pub open spec fn spec_digit_char(d: int) -> char {
    if d == 0 {
        '0'
    } else if d == 1 {
        '1'
    } else if d == 2 {
        '2'
    } else if d == 3 {
        '3'
    } else if d == 4 {
        '4'
    } else if d == 5 {
        '5'
    } else if d == 6 {
        '6'
    } else if d == 7 {
        '7'
    } else if d == 8 {
        '8'
    } else {
        '9'
    }
}

/// The decimal digit character of `d`.
pub fn digit_char(d: u64) -> (c: char)
    requires
        d < 10,
    ensures
        c == spec_digit_char(d as int),
{
    if d == 0 {
        '0'
    } else if d == 1 {
        '1'
    } else if d == 2 {
        '2'
    } else if d == 3 {
        '3'
    } else if d == 4 {
        '4'
    } else if d == 5 {
        '5'
    } else if d == 6 {
        '6'
    } else if d == 7 {
        '7'
    } else if d == 8 {
        '8'
    } else {
        '9'
    }
}

/// Sent once at session start, before nickname negotiation.
pub fn msg_enter_nickname() -> (r: String)
    ensures
        r@ == "enter nickname:"@,
{
    "enter nickname:".to_owned()
}

/// Sent to a session that becomes the lone waiter in the rendezvous slot.
pub fn msg_matchmaking() -> (r: String)
    ensures
        r@ == "matchmaking"@,
{
    "matchmaking".to_owned()
}

/// What the pairing announcement reads: the fixed prefix followed by the
/// peer's nickname.
pub open spec fn spec_msg_matched_against(nickname: Seq<char>) -> Seq<char> {
    "matched against: "@ + nickname
}

/// Sent to both sides when pairing completes, each carrying the other
/// side's nickname.
pub fn msg_matched_against(nickname: &str) -> (r: String)
    ensures
        r@ == spec_msg_matched_against(nickname@),
{
    let mut r = "matched against: ".to_owned();
    r.append(nickname);
    r
}

/// What the role assignment reads for each role.
pub open spec fn spec_msg_you_are(p: Player) -> Seq<char> {
    match p {
        Player::Player1 => "you are player:1"@,
        Player::Player2 => "you are player:2"@,
    }
}

/// Sent to each side once after pairing: its assigned role label.
pub fn msg_you_are(p: Player) -> (r: String)
    ensures
        r@ == spec_msg_you_are(p),
{
    match p {
        Player::Player1 => "you are player:1".to_owned(),
        Player::Player2 => "you are player:2".to_owned(),
    }
}

/// Sent to the current player at the start of each turn.
pub fn msg_prompt() -> (r: String)
    ensures
        r@ == "which column do you want to place (0-6)"@,
{
    "which column do you want to place (0-6)".to_owned()
}

/// Sent to the current player when its move text is not a non-negative
/// integer.
pub fn msg_invalid_input() -> (r: String)
    ensures
        r@ == "invalid input"@,
{
    "invalid input".to_owned()
}

/// Sent to the current player when its column is outside the board or full.
pub fn msg_invalid_placement() -> (r: String)
    ensures
        r@ == "invalid placement"@,
{
    "invalid placement".to_owned()
}

/// What the post-move broadcast reads: the mover's role label and the
/// column placed.
pub open spec fn spec_msg_placement(p: Player, column: int) -> Seq<char> {
    "player:"@ + seq![spec_digit_char(p.spec_to_int() as int)] + " placement:"@ + seq![
        spec_digit_char(column),
    ]
}

/// Broadcast to both sides after a legal move.
pub fn msg_placement(p: Player, column: u64) -> (r: String)
    requires
        column < 10,
    ensures
        r@ == spec_msg_placement(p, column as int),
{
    let mut r = "player:".to_owned();
    push_char(&mut r, digit_char(p.to_int() as u64));
    r.append(" placement:");
    push_char(&mut r, digit_char(column));
    proof {
        assert(r@ =~= spec_msg_placement(p, column as int));
    }
    r
}

/// What the win broadcast reads: the winning role's label.
pub open spec fn spec_msg_winner(p: Player) -> Seq<char> {
    "winner! player:"@ + seq![spec_digit_char(p.spec_to_int() as int)]
}

/// Broadcast to both sides when a win is detected; the match then ends.
pub fn msg_winner(p: Player) -> (r: String)
    ensures
        r@ == spec_msg_winner(p),
{
    let mut r = "winner! player:".to_owned();
    push_char(&mut r, digit_char(p.to_int() as u64));
    proof {
        assert(r@ =~= spec_msg_winner(p));
    }
    r
}

/// The best-effort notice to the surviving side when its peer's channel
/// fails or closes.
pub fn msg_peer_disconnected() -> (r: String)
    ensures
        r@ == "peer disconnected"@,
{
    "peer disconnected".to_owned()
}

} // verus!
