//! The per-match protocol decisions: parsing move text, applying one turn
//! to the match state, and the first-player draw. The transport loop around
//! these performs the sends and receives and obeys the directive each turn
//! step returns.

use vstd::prelude::*;
use vstd::string::StrSliceExecFns;
use crate::board::Game;
use crate::board::mark_of;
use crate::player::Player;

verus! {

/// Whether `c` is a decimal digit.
pub open spec fn is_digit(c: char) -> bool {
    '0' <= c && c <= '9'
}

/// The numeric value of a digit character.
pub open spec fn digit_val(c: char) -> int {
    (c as u32) - 48
}

/// Whether every character of `s` is a decimal digit.
pub open spec fn all_digits(s: Seq<char>) -> bool {
    forall|i: int| 0 <= i < s.len() ==> is_digit(#[trigger] s[i])
}

/// The numeric value of a digit string.
pub open spec fn digits_val(s: Seq<char>) -> int
    decreases s.len(),
{
    if s.len() == 0 {
        0
    } else {
        digits_val(s.drop_last()) * 10 + digit_val(s.last())
    }
}

/// Whether a move text parses as a non-negative integer that the parser can
/// return: non-empty, all decimal digits, and within `u64`.
pub open spec fn move_text_valid(s: Seq<char>) -> bool {
    s.len() > 0 && all_digits(s) && digits_val(s) <= u64::MAX
}

proof fn lemma_digits_val_extend(s: Seq<char>, i: int)
    requires
        0 <= i < s.len(),
    ensures
        digits_val(s.take(i + 1)) == digits_val(s.take(i)) * 10 + digit_val(s[i]),
{
    assert(s.take(i + 1).drop_last() =~= s.take(i));
    assert(s.take(i + 1).last() == s[i]);
}

/// With only digits from position `i` on, the value of the whole string is
/// at least the value of its first `i` characters.
proof fn lemma_digits_val_mono(s: Seq<char>, i: int)
    requires
        0 <= i <= s.len(),
        forall|j: int| i <= j < s.len() ==> is_digit(#[trigger] s[j]),
        digits_val(s.take(i)) >= 0,
    ensures
        digits_val(s) >= digits_val(s.take(i)),
    decreases s.len() - i,
{
    if i == s.len() {
        assert(s.take(i) =~= s);
    } else {
        lemma_digits_val_extend(s, i);
        assert(is_digit(s[i]));
        lemma_digits_val_mono(s, i + 1);
    }
}

/// Parses a move message as a non-negative integer. Succeeds — returning the
/// numeric value — exactly when the text is non-empty, consists of decimal
/// digits only, and its value fits in `u64`.
pub fn parse_move(s: &str) -> (r: Option<u64>)
    ensures
        r is Some <==> move_text_valid(s@),
        r matches Some(v) ==> v == digits_val(s@),
{
    let n = s.unicode_len();
    if n == 0 {
        return None;
    }
    let mut acc: u64 = 0;
    let mut i: usize = 0;
    proof {
        assert(s@.take(0) =~= Seq::<char>::empty());
    }
    while i < n
        invariant
            i <= n,
            n == s@.len(),
            forall|j: int| 0 <= j < i ==> is_digit(#[trigger] s@[j]),
            acc == digits_val(s@.take(i as int)),
        decreases n - i,
    {
        let c = s.get_char(i);
        if !(c >= '0' && c <= '9') {
            proof {
                assert(!is_digit(s@[i as int]));
            }
            return None;
        }
        let d: u64 = ((c as u32) - 48) as u64;
        proof {
            lemma_digits_val_extend(s@, i as int);
        }
        let next = match acc.checked_mul(10) {
            Some(t) => t.checked_add(d),
            None => None,
        };
        match next {
            Some(v) => {
                acc = v;
            },
            None => {
                proof {
                    if all_digits(s@) {
                        lemma_digits_val_mono(s@, i + 1);
                    }
                }
                return None;
            },
        }
        i = i + 1;
    }
    proof {
        assert(s@.take(n as int) =~= s@);
    }
    Some(acc)
}

/// The phase of a match.
#[derive(Clone, Copy, Debug, PartialEq, Eq, Structural)]
pub enum Phase {
    /// The match runs; the current player's move is awaited.
    Playing,
    /// A win was detected for the given player; no further moves are
    /// accepted.
    Won(Player),
    /// A channel failed or closed; the match ended with no winner.
    Disconnected,
}

/// One match: the board, whose turn it is, and the phase.
pub struct MatchState {
    pub game: Game,
    pub turn: Player,
    pub phase: Phase,
}

/// What arrived while the current player's move was awaited.
pub enum MoveEvent {
    /// A text frame: the move text.
    Text(String),
    /// A binary, ping, pong, or other non-text frame: carries no protocol
    /// meaning.
    NonText,
    /// The channel reported closure or an error.
    Closed,
}

/// What the transport loop must do after one turn step.
#[derive(Clone, Copy, Debug, PartialEq, Eq, Structural)]
pub enum TurnDirective {
    /// A non-text frame arrived: nothing changed; poll again after a short
    /// pace delay.
    Repoll,
    /// The move text was not a non-negative integer: send `invalid input` to
    /// the current player and await the same player's move again.
    RejectInput,
    /// The column was outside the board or full: send `invalid placement` to
    /// the current player and await the same player's move again.
    RejectPlacement,
    /// The move was legal and does not win: broadcast the placement to both
    /// sides; the turn has passed to the other player.
    Placed { column: u64 },
    /// The move was legal and wins: broadcast the placement and then the win
    /// announcement to both sides; the match has ended.
    PlacedAndWon { column: u64 },
    /// The channel failed or closed: best-effort notify the other side with
    /// `peer disconnected`; the match has ended with no winner.
    PeerGone,
}

impl MatchState {
    /// How a text frame with contents `s` relates the match before (`pre`)
    /// to the match after (`post`) and to the directive `d`: unparsable text
    /// and illegal columns change nothing and re-prompt the same player; a
    /// legal move places the mover's mark.
    pub open spec fn text_step(pre: MatchState, post: MatchState, s: Seq<char>, d: TurnDirective) -> bool {
        &&& !move_text_valid(s) ==> d == TurnDirective::RejectInput && post == pre
        &&& move_text_valid(s) && !pre.game.can_place(digits_val(s)) ==> d
            == TurnDirective::RejectPlacement && post == pre
        &&& move_text_valid(s) && pre.game.can_place(digits_val(s)) ==> Self::placed_step(
            pre,
            post,
            digits_val(s),
            d,
        )
    }

    /// How a legal move relates the match before (`pre`) to the match after
    /// (`post`): the mover's mark lands in column `v`; a detected win ends
    /// the match in `Won`, otherwise the turn passes to the other player.
    pub open spec fn placed_step(pre: MatchState, post: MatchState, v: int, d: TurnDirective) -> bool {
        &&& pre.game.placed(post.game, v, mark_of(pre.turn))
        &&& post.game.has_win(pre.turn) ==> {
            &&& d == (TurnDirective::PlacedAndWon { column: v as u64 })
            &&& post.phase == Phase::Won(pre.turn)
            &&& post.turn == pre.turn
        }
        &&& !post.game.has_win(pre.turn) ==> {
            &&& d == (TurnDirective::Placed { column: v as u64 })
            &&& post.phase is Playing
            &&& post.turn == pre.turn.spec_flip()
        }
    }

    /// A fresh match on an empty board, with `first` to move.
    pub fn new(first: Player) -> (st: MatchState)
        ensures
            forall|x: int, y: int| Game::in_board(x, y) ==> #[trigger] st.game.cell(x, y) == 0,
            st.game.wf(),
            st.turn == first,
            st.phase is Playing,
    {
        MatchState { game: Game::new(), turn: first, phase: Phase::Playing }
    }

    /// Applies one received event to a running match: parses the move text,
    /// attempts the placement, detects a win, and reports what the transport
    /// loop must send. A rejected move changes nothing and leaves the same
    /// player on turn; a legal move fills exactly one cell and either ends
    /// the match with a win or passes the turn.
    pub fn turn_step(&mut self, event: MoveEvent) -> (d: TurnDirective)
        requires
            old(self).phase is Playing,
        ensures
            event is Closed ==> {
                &&& d == TurnDirective::PeerGone
                &&& final(self).phase is Disconnected
                &&& final(self).game == old(self).game
                &&& final(self).turn == old(self).turn
            },
            event is NonText ==> d == TurnDirective::Repoll && *final(self) == *old(self),
            event matches MoveEvent::Text(s) ==> Self::text_step(
                *old(self),
                *final(self),
                s@,
                d,
            ),
            old(self).game.wf() ==> final(self).game.wf(),
    {
        match event {
            MoveEvent::Closed => {
                self.phase = Phase::Disconnected;
                TurnDirective::PeerGone
            },
            MoveEvent::NonText => TurnDirective::Repoll,
            MoveEvent::Text(s) => {
                match parse_move(s.as_str()) {
                    None => TurnDirective::RejectInput,
                    Some(v) => {
                        if v > 6 {
                            return TurnDirective::RejectPlacement;
                        }
                        let mover = self.turn;
                        let ok = self.game.place(v as usize, mover);
                        if !ok {
                            TurnDirective::RejectPlacement
                        } else if self.game.check_win(mover) {
                            self.phase = Phase::Won(mover);
                            TurnDirective::PlacedAndWon { column: v }
                        } else {
                            self.turn = mover.flip();
                            TurnDirective::Placed { column: v }
                        }
                    },
                }
            },
        }
    }
}

/// Relies on rand::Rng::gen_range over the half-open integer range 1..2:
/// the sampled value lies within the range.
#[verifier::external_body]
fn sample_role_value() -> (r: u8)
    ensures
        1 <= r < 2,
{
    let mut rng = rand::thread_rng();
    rand::Rng::gen_range(&mut rng, 1..2)
}

/// Draws the first-moving player. The draw samples the half-open range 1..2,
/// which holds the single value 1, so the first mover is always `Player1`;
/// a genuinely uniform draw over both roles would sample a two-value range.
pub fn choose_first_player() -> (p: Player)
    ensures
        p == Player::Player1,
{
    Player::from_int(sample_role_value())
}

} // verus!
