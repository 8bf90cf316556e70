use connect_four::messages::{
    msg_enter_nickname, msg_invalid_input, msg_invalid_placement, msg_matched_against,
    msg_matchmaking, msg_peer_disconnected, msg_placement, msg_prompt, msg_winner, msg_you_are,
};
use connect_four::player::Player;
use connect_four::protocol::{
    choose_first_player, parse_move, MatchState, MoveEvent, Phase, TurnDirective,
};

#[test]
fn message_catalog_literals() {
    assert_eq!(msg_enter_nickname(), "enter nickname:");
    assert_eq!(msg_matchmaking(), "matchmaking");
    assert_eq!(msg_matched_against("BOB"), "matched against: BOB");
    assert_eq!(msg_you_are(Player::Player1), "you are player:1");
    assert_eq!(msg_you_are(Player::Player2), "you are player:2");
    assert_eq!(msg_prompt(), "which column do you want to place (0-6)");
    assert_eq!(msg_invalid_input(), "invalid input");
    assert_eq!(msg_invalid_placement(), "invalid placement");
    assert_eq!(msg_placement(Player::Player1, 3), "player:1 placement:3");
    assert_eq!(msg_placement(Player::Player2, 0), "player:2 placement:0");
    assert_eq!(msg_winner(Player::Player1), "winner! player:1");
    assert_eq!(msg_winner(Player::Player2), "winner! player:2");
    assert_eq!(msg_peer_disconnected(), "peer disconnected");
}

#[test]
fn parse_move_accepts_digit_strings() {
    assert_eq!(parse_move("0"), Some(0));
    assert_eq!(parse_move("6"), Some(6));
    assert_eq!(parse_move("42"), Some(42));
    assert_eq!(parse_move("007"), Some(7));
    assert_eq!(parse_move("18446744073709551615"), Some(u64::MAX));
}

#[test]
fn parse_move_rejects_everything_else() {
    assert_eq!(parse_move(""), None);
    assert_eq!(parse_move("abc"), None);
    assert_eq!(parse_move("12x"), None);
    assert_eq!(parse_move("-1"), None);
    assert_eq!(parse_move("3.5"), None);
    assert_eq!(parse_move(" 4"), None);
    // One past u64::MAX overflows.
    assert_eq!(parse_move("18446744073709551616"), None);
}

#[test]
fn first_player_draw_is_degenerate() {
    // The draw samples the single-value range 1..2.
    for _ in 0..8 {
        assert_eq!(choose_first_player(), Player::Player1);
    }
}

#[test]
fn unparsable_move_reprompts_same_player() {
    let mut st = MatchState::new(Player::Player1);
    let board_before = st.game.board_xy;
    let d = st.turn_step(MoveEvent::Text("left".to_string()));
    assert_eq!(d, TurnDirective::RejectInput);
    assert_eq!(st.turn, Player::Player1);
    assert_eq!(st.phase, Phase::Playing);
    assert_eq!(st.game.board_xy, board_before);
}

#[test]
fn illegal_column_reprompts_same_player() {
    let mut st = MatchState::new(Player::Player2);
    let d = st.turn_step(MoveEvent::Text("9".to_string()));
    assert_eq!(d, TurnDirective::RejectPlacement);
    assert_eq!(st.turn, Player::Player2);
    assert_eq!(st.phase, Phase::Playing);
}

#[test]
fn full_column_reprompts_same_player() {
    let mut st = MatchState::new(Player::Player1);
    for _ in 0..3 {
        assert_eq!(
            st.turn_step(MoveEvent::Text("5".to_string())),
            TurnDirective::Placed { column: 5 }
        );
        assert_eq!(
            st.turn_step(MoveEvent::Text("5".to_string())),
            TurnDirective::Placed { column: 5 }
        );
    }
    // Column 5 now holds six pieces; the seventh attempt is rejected.
    let d = st.turn_step(MoveEvent::Text("5".to_string()));
    assert_eq!(d, TurnDirective::RejectPlacement);
    assert_eq!(st.turn, Player::Player1);
}

#[test]
fn non_text_frame_changes_nothing() {
    let mut st = MatchState::new(Player::Player1);
    let d = st.turn_step(MoveEvent::NonText);
    assert_eq!(d, TurnDirective::Repoll);
    assert_eq!(st.turn, Player::Player1);
    assert_eq!(st.phase, Phase::Playing);
}

#[test]
fn first_player_wins_with_four_in_column_zero() {
    // First places at column 0 four times; Second places at 1, 2, 3 between.
    let mut st = MatchState::new(Player::Player1);
    let mut transcript: Vec<String> = Vec::new();
    let moves = ["0", "1", "0", "2", "0", "3", "0"];
    for (i, m) in moves.iter().enumerate() {
        let mover = st.turn;
        let d = st.turn_step(MoveEvent::Text(m.to_string()));
        match d {
            TurnDirective::Placed { column } => {
                assert!(i < moves.len() - 1);
                transcript.push(msg_placement(mover, column));
            }
            TurnDirective::PlacedAndWon { column } => {
                assert_eq!(i, moves.len() - 1);
                transcript.push(msg_placement(mover, column));
                transcript.push(msg_winner(mover));
            }
            other => panic!("unexpected directive {:?}", other),
        }
    }
    assert_eq!(st.phase, Phase::Won(Player::Player1));
    assert_eq!(transcript.last().unwrap(), "winner! player:1");
    assert_eq!(transcript[transcript.len() - 2], "player:1 placement:0");
    // No further moves are accepted after the win: the match is over.
    assert_ne!(st.phase, Phase::Playing);
}

#[test]
fn disconnect_mid_match_ends_without_winner() {
    let mut st = MatchState::new(Player::Player1);
    assert_eq!(
        st.turn_step(MoveEvent::Text("3".to_string())),
        TurnDirective::Placed { column: 3 }
    );
    // The current mover's channel reports closure instead of a move.
    let d = st.turn_step(MoveEvent::Closed);
    assert_eq!(d, TurnDirective::PeerGone);
    assert_eq!(st.phase, Phase::Disconnected);
    // The survivor is notified with the catalog text, and no winner exists.
    assert_eq!(msg_peer_disconnected(), "peer disconnected");
    assert_ne!(st.phase, Phase::Won(Player::Player1));
    assert_ne!(st.phase, Phase::Won(Player::Player2));
}
