use connect_four::nickname::derive_nickname;
use connect_four::player::{flip_player, Player};
use connect_four::registry::{PairOutcome, Registry, Session};

#[test]
fn nickname_truncates_to_three_and_uppercases() {
    assert_eq!(derive_nickname("bob"), "BOB");
    assert_eq!(derive_nickname("charlie"), "CHA");
    assert_eq!(derive_nickname("al"), "AL");
    assert_eq!(derive_nickname("x"), "X");
}

#[test]
fn nickname_is_total() {
    assert_eq!(derive_nickname(""), "");
    assert_eq!(derive_nickname("7!b"), "7!B");
    // A non-ASCII character is kept unchanged.
    assert_eq!(derive_nickname("äbc"), "äBC");
    assert_eq!(derive_nickname("日本語です"), "日本語");
}

#[test]
fn nickname_derivation_is_idempotent() {
    for s in ["bob", "ALICE", "x", "", "mixedCase", "ä日c9"] {
        let once = derive_nickname(s);
        let twice = derive_nickname(&once);
        assert_eq!(twice, once);
    }
}

#[test]
fn rendezvous_pairs_in_arrival_order() {
    let mut reg = Registry::new();
    let a = Session { id: 1, nickname: "AAA".to_string() };
    let b = Session { id: 2, nickname: "BBB".to_string() };
    let c = Session { id: 3, nickname: "CCC".to_string() };

    match reg.try_pair(a) {
        PairOutcome::Waiting => {}
        PairOutcome::Paired(_) => panic!("first session must wait"),
    }
    match reg.try_pair(b) {
        PairOutcome::Paired(peer) => {
            assert_eq!(peer.id, 1);
            assert_eq!(peer.nickname, "AAA");
        }
        PairOutcome::Waiting => panic!("second session must pair with the first"),
    }
    // The slot is empty again: a third session waits.
    match reg.try_pair(c) {
        PairOutcome::Waiting => {}
        PairOutcome::Paired(_) => panic!("third session must wait on the emptied slot"),
    }
}

#[test]
fn player_flip_swaps_roles() {
    assert_eq!(Player::Player1.flip(), Player::Player2);
    assert_eq!(Player::Player2.flip(), Player::Player1);
    assert_eq!(Player::Player1.flip().flip(), Player::Player1);
}

#[test]
fn player_int_conversions() {
    assert_eq!(Player::from_int(1), Player::Player1);
    assert_eq!(Player::from_int(2), Player::Player2);
    assert_eq!(Player::from_int(0), Player::Player2);
    assert_eq!(Player::Player1.to_int(), 1);
    assert_eq!(Player::Player2.to_int(), 2);
}

#[test]
fn flip_player_swaps_indices() {
    assert_eq!(flip_player(1), 0);
    assert_eq!(flip_player(0), 1);
    assert_eq!(flip_player(5), 1);
}
