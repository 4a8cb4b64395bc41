//! The 9-cell grid: cell contents, move counting, legality and win detection.

use vstd::prelude::*;

verus! {

/// Occupancy of one grid cell. `O` is the human-controlled symbol,
/// `X` the autoplayed opponent's symbol.
#[derive(Clone, Copy, Debug, PartialEq, Eq, Structural)]
pub enum Tile {
    X,
    O,
    Empty,
}

impl Tile {
    /// Whether this cell is still unoccupied.
    pub fn is_empty(self) -> (r: bool)
        ensures
            r == (self == Tile::Empty),
    {
        matches!(self, Tile::Empty)
    }

    /// The glyph that renders this cell: "X", "O", or nothing.
    pub fn piece(self) -> (r: &'static str)
        ensures
            self == Tile::X ==> r@ == "X"@,
            self == Tile::O ==> r@ == "O"@,
            self == Tile::Empty ==> r@ == ""@,
    {
        match self {
            Tile::X => "X",
            Tile::O => "O",
            Tile::Empty => "",
        }
    }
}

/// How many of the cells in `s` are occupied (not `Empty`).
pub open spec fn count_filled(s: Seq<Tile>) -> int
    decreases s.len(),
{
    if s.len() == 0 {
        0
    } else {
        count_filled(s.drop_last()) + if s.last() == Tile::Empty {
            0int
        } else {
            1int
        }
    }
}

/// The three cells `a`, `b`, `c` of `s` are all occupied by player `p`.
pub open spec fn line_won(s: Seq<Tile>, a: int, b: int, c: int, p: Tile) -> bool {
    s[a] == p && s[b] == p && s[c] == p
}

/// `(a, b, c)` is one of the 8 winning line patterns of the 3x3 grid,
/// in row-major indexing: 3 rows, 3 columns, 2 diagonals.
pub open spec fn is_win_line(a: int, b: int, c: int) -> bool {
    ||| (a == 0 && b == 1 && c == 2)
    ||| (a == 3 && b == 4 && c == 5)
    ||| (a == 6 && b == 7 && c == 8)
    ||| (a == 0 && b == 3 && c == 6)
    ||| (a == 1 && b == 4 && c == 7)
    ||| (a == 2 && b == 5 && c == 8)
    ||| (a == 0 && b == 4 && c == 8)
    ||| (a == 2 && b == 4 && c == 6)
}

/// Player `p` has some winning line fully occupied on board `s`.
pub open spec fn player_wins(s: Seq<Tile>, p: Tile) -> bool {
    ||| line_won(s, 0, 1, 2, p)
    ||| line_won(s, 3, 4, 5, p)
    ||| line_won(s, 6, 7, 8, p)
    ||| line_won(s, 0, 3, 6, p)
    ||| line_won(s, 1, 4, 7, p)
    ||| line_won(s, 2, 5, 8, p)
    ||| line_won(s, 0, 4, 8, p)
    ||| line_won(s, 2, 4, 6, p)
}

/// Some player (either symbol) has a winning line on board `s`.
pub open spec fn some_player_wins(s: Seq<Tile>) -> bool {
    player_wins(s, Tile::O) || player_wins(s, Tile::X)
}

/// The other player's symbol.
pub open spec fn other_player(p: Tile) -> Tile {
    match p {
        Tile::X => Tile::O,
        Tile::O => Tile::X,
        Tile::Empty => Tile::Empty,
    }
}

proof fn lemma_count_bounds(s: Seq<Tile>)
    ensures
        0 <= count_filled(s) <= s.len(),
    decreases s.len(),
{
    if s.len() > 0 {
        lemma_count_bounds(s.drop_last());
    }
}

/// A board holding an empty cell is not full.
proof fn lemma_count_with_empty(s: Seq<Tile>, i: int)
    requires
        0 <= i < s.len(),
        s[i] == Tile::Empty,
    ensures
        count_filled(s) < s.len(),
    decreases s.len(),
{
    if i == s.len() - 1 {
        lemma_count_bounds(s.drop_last());
    } else {
        lemma_count_with_empty(s.drop_last(), i);
    }
}

/// Filling one empty cell raises the occupied-cell count by exactly one.
proof fn lemma_count_update(s: Seq<Tile>, i: int, p: Tile)
    requires
        0 <= i < s.len(),
        s[i] == Tile::Empty,
        p != Tile::Empty,
    ensures
        count_filled(s.update(i, p)) == count_filled(s) + 1,
    decreases s.len(),
{
    let t = s.update(i, p);
    if i == s.len() - 1 {
        assert(t.drop_last() =~= s.drop_last());
    } else {
        assert(t.drop_last() =~= s.drop_last().update(i, p));
        lemma_count_update(s.drop_last(), i, p);
    }
}

/// A board that is not full has an empty cell.
proof fn lemma_exists_empty(s: Seq<Tile>)
    requires
        count_filled(s) < s.len(),
    ensures
        exists|i: int| 0 <= i < s.len() && s[i] == Tile::Empty,
    decreases s.len(),
{
    if s.last() == Tile::Empty {
        assert(s[s.len() - 1] == Tile::Empty);
    } else {
        lemma_exists_empty(s.drop_last());
        let i = choose|i: int| 0 <= i < s.drop_last().len() && s.drop_last()[i] == Tile::Empty;
        assert(s[i] == Tile::Empty);
    }
}

/// An all-empty board has no occupied cells.
proof fn lemma_count_all_empty(s: Seq<Tile>)
    requires
        forall|i: int| 0 <= i < s.len() ==> s[i] == Tile::Empty,
    ensures
        count_filled(s) == 0,
    decreases s.len(),
{
    if s.len() > 0 {
        lemma_count_all_empty(s.drop_last());
    }
}

/// Relates a board before a human move at `index` to the board after it
/// and to the returned game-over flag, covering every path the move can
/// take: the guarded no-op on an occupied cell, a human win, a human
/// move answered by one random opponent move, and the late-game human
/// move that gets no reply.
pub open spec fn play_outcome(pre: Board, post: Board, index: int, game_over: bool) -> bool {
    let after_human = pre.tiles@.update(index, Tile::O);
    if pre.tiles@[index] != Tile::Empty {
        post == pre && !game_over
    } else if some_player_wins(after_human) {
        &&& post.tiles@ == after_human
        &&& post.moves == pre.moves + 1
        &&& game_over
    } else if pre.moves + 1 < 8 {
        &&& post.moves == pre.moves + 2
        &&& game_over == some_player_wins(post.tiles@)
        &&& exists|j: int|
            0 <= j < 9 && j != index && (#[trigger] pre.tiles@[j]) == Tile::Empty && post.tiles@
                == after_human.update(j, Tile::X)
    } else {
        &&& post.tiles@ == after_human
        &&& post.moves == pre.moves + 1
        &&& game_over == (post.moves == 9)
    }
}

/// Turn alternation: a legal human move raises the move count by
/// exactly 1 (human win, or a board too full for a reply) or exactly 2
/// (human move answered by one opponent move).
pub proof fn lemma_turn_alternation(pre: Board, post: Board, index: int, game_over: bool)
    requires
        0 <= index < 9,
        pre.tiles@[index] == Tile::Empty,
        play_outcome(pre, post, index, game_over),
    ensures
        post.moves == pre.moves + 1 || post.moves == pre.moves + 2,
{
}

/// Legality: a move on an occupied cell leaves the board entirely
/// unchanged and reports the game as still continuing.
pub proof fn lemma_occupied_move_is_no_op(pre: Board, post: Board, index: int, game_over: bool)
    requires
        0 <= index < 9,
        pre.tiles@[index] != Tile::Empty,
        play_outcome(pre, post, index, game_over),
    ensures
        post == pre,
        !game_over,
{
}

/// Win detection: a winning line pattern fully occupied by `p` is
/// detected as a win for `p`; and as long as no winning line is fully
/// occupied by the other player, no win is detected for that player.
pub proof fn lemma_win_detection(s: Seq<Tile>, a: int, b: int, c: int, p: Tile)
    requires
        s.len() == 9,
        p != Tile::Empty,
        is_win_line(a, b, c),
        line_won(s, a, b, c, p),
        forall|a2: int, b2: int, c2: int|
            is_win_line(a2, b2, c2) ==> !(#[trigger] line_won(s, a2, b2, c2, other_player(p))),
    ensures
        player_wins(s, p),
        !player_wins(s, other_player(p)),
{
    assert(!line_won(s, 0, 1, 2, other_player(p)));
    assert(!line_won(s, 3, 4, 5, other_player(p)));
    assert(!line_won(s, 6, 7, 8, other_player(p)));
    assert(!line_won(s, 0, 3, 6, other_player(p)));
    assert(!line_won(s, 1, 4, 7, other_player(p)));
    assert(!line_won(s, 2, 5, 8, other_player(p)));
    assert(!line_won(s, 0, 4, 8, other_player(p)));
    assert(!line_won(s, 2, 4, 6, other_player(p)));
}

/// Draw and win detection at the end of a game: a legal human move that
/// leaves the board completely full reports game over, whether or not
/// any winning line is present — a full winless board is the draw.
pub proof fn lemma_full_board_ends_game(pre: Board, post: Board, index: int, game_over: bool)
    requires
        0 <= index < 9,
        pre.tiles@[index] == Tile::Empty,
        pre.wf(),
        post.wf(),
        play_outcome(pre, post, index, game_over),
        count_filled(post.tiles@) == 9,
    ensures
        game_over,
{
}

/// Opponent move validity: whatever a legal human move at `index` does,
/// the only cell it may change besides `index` was empty before the
/// move and holds the opponent's symbol after it; occupied cells are
/// never overwritten.
pub proof fn lemma_opponent_only_fills_empty(pre: Board, post: Board, index: int, game_over: bool)
    requires
        0 <= index < 9,
        pre.tiles@[index] == Tile::Empty,
        play_outcome(pre, post, index, game_over),
    ensures
        post.tiles@[index] == Tile::O,
        forall|k: int|
            0 <= k < 9 && k != index && (#[trigger] post.tiles@[k]) != pre.tiles@[k] ==> {
                &&& pre.tiles@[k] == Tile::Empty
                &&& post.tiles@[k] == Tile::X
            },
{
    let after_human = pre.tiles@.update(index, Tile::O);
    if !some_player_wins(after_human) && pre.moves + 1 < 8 {
        let j = choose|j: int|
            0 <= j < 9 && j != index && (#[trigger] pre.tiles@[j]) == Tile::Empty && post.tiles@
                == after_human.update(j, Tile::X);
        assert(post.tiles@[j] == Tile::X);
        assert forall|k: int|
            0 <= k < 9 && k != index && (#[trigger] post.tiles@[k]) != pre.tiles@[k] implies {
            &&& pre.tiles@[k] == Tile::Empty
            &&& post.tiles@[k] == Tile::X
        } by {
            assert(k == j);
        }
    }
}

/// The game board: 9 cells in row-major order and the count of moves
/// played so far.
pub struct Board {
    pub moves: u8,
    pub tiles: [Tile; 9],
}

impl Board {
    /// The board's invariant: the move counter equals the number of
    /// occupied cells.
    pub open spec fn wf(self) -> bool {
        self.moves as int == count_filled(self.tiles@)
    }

    /// All 9 cells are empty and no move has been counted.
    pub open spec fn is_blank(self) -> bool {
        &&& self.moves == 0
        &&& forall|i: int| 0 <= i < 9 ==> self.tiles@[i] == Tile::Empty
    }

    /// A fresh, fully empty board.
    pub fn new() -> (b: Board)
        ensures
            b.wf(),
            b.is_blank(),
    {
        let b = Board {
            moves: 0,
            tiles: [
                Tile::Empty,
                Tile::Empty,
                Tile::Empty,
                Tile::Empty,
                Tile::Empty,
                Tile::Empty,
                Tile::Empty,
                Tile::Empty,
                Tile::Empty,
            ],
        };
        proof {
            lemma_count_all_empty(b.tiles@);
        }
        b
    }

    /// Reset to the fresh state: every cell `Empty`, move count zero.
    /// There is no precondition, so this holds from any prior state.
    pub fn clear(&mut self)
        ensures
            final(self).wf(),
            final(self).is_blank(),
    {
        self.moves = 0;
        let mut i: usize = 0;
        while i < 9
            invariant
                i <= 9,
                self.moves == 0,
                forall|k: int| 0 <= k < i ==> self.tiles@[k] == Tile::Empty,
            decreases 9 - i,
        {
            self.tiles[i] = Tile::Empty;
            i = i + 1;
        }
        proof {
            lemma_count_all_empty(self.tiles@);
        }
    }

    /// Whether the cell at `index` is unoccupied.
    pub fn is_empty(&self, index: usize) -> (r: bool)
        requires
            index < 9,
        ensures
            r == (self.tiles@[index as int] == Tile::Empty),
    {
        self.tiles[index].is_empty()
    }

    /// Whether some player currently has a winning line. Recomputed from
    /// the full board, so it does not depend on which move came last.
    pub fn winning(&self) -> (r: bool)
        ensures
            r == some_player_wins(self.tiles@),
    {
        self.wins_for(Tile::O) || self.wins_for(Tile::X)
    }

    /// Put `tile` on the empty cell `index` directly, counting one move.
    /// This builds a chosen position by hand, which `play_move` cannot,
    /// since it draws the opponent's reply at random.
    pub fn place(&mut self, index: usize, tile: Tile)
        requires
            old(self).wf(),
            index < 9,
            old(self).tiles@[index as int] == Tile::Empty,
            tile != Tile::Empty,
        ensures
            final(self).wf(),
            final(self).tiles@ == old(self).tiles@.update(index as int, tile),
            final(self).moves == old(self).moves + 1,
    {
        proof {
            lemma_count_with_empty(self.tiles@, index as int);
            lemma_count_update(self.tiles@, index as int, tile);
        }
        self.tiles[index] = tile;
        self.moves = self.moves + 1;
    }

    /// Play the human's move on cell `index`, then — unless that move
    /// ended the game — answer it with one opponent move on a uniformly
    /// random empty cell. Returns whether the game is over (a win by
    /// either side, or a full board).
    pub fn play_move(&mut self, index: usize) -> (game_over: bool)
        requires
            old(self).wf(),
            index < 9,
        ensures
            final(self).wf(),
            play_outcome(*old(self), *final(self), index as int, game_over),
    {
        if !self.tiles[index].is_empty() {
            return false;
        }
        proof {
            lemma_count_with_empty(self.tiles@, index as int);
            lemma_count_update(self.tiles@, index as int, Tile::O);
        }
        self.tiles[index] = Tile::O;
        self.moves = self.moves + 1;
        if self.winning() {
            return true;
        }
        if self.moves < 8 {
            let ghost after_human = self.tiles@;
            let ghost mid_moves = self.moves;
            let mut empties: Vec<usize> = Vec::new();
            let mut i: usize = 0;
            while i < 9
                invariant
                    i <= 9,
                    self.tiles@ == after_human,
                    self.moves == mid_moves,
                    forall|m: int|
                        0 <= m < empties@.len() ==> empties@[m] < 9 && self.tiles@[empties@[m] as int]
                            == Tile::Empty,
                    forall|k: int|
                        0 <= k < i && self.tiles@[k] == Tile::Empty ==> empties@.contains(
                            k as usize,
                        ),
                decreases 9 - i,
            {
                let ghost prev = empties@;
                if self.tiles[i].is_empty() {
                    empties.push(i);
                    proof {
                        assert(empties@[empties@.len() - 1] == i as usize);
                        assert forall|k: int|
                            0 <= k <= i && self.tiles@[k] == Tile::Empty implies empties@.contains(
                            k as usize,
                        ) by {
                            if k < i {
                                let m = choose|m: int|
                                    0 <= m < prev.len() && prev[m] == k as usize;
                                assert(empties@[m] == k as usize);
                            } else {
                                assert(empties@[empties@.len() - 1] == k as usize);
                            }
                        }
                    }
                }
                i = i + 1;
            }
            proof {
                lemma_exists_empty(self.tiles@);
                let e = choose|e: int| 0 <= e < 9 && self.tiles@[e] == Tile::Empty;
                assert(empties@.contains(e as usize));
            }
            let r = crate::rng::random_below(empties.len());
            let j = empties[r];
            assert(self.tiles@[j as int] == Tile::Empty);
            proof {
                lemma_count_update(self.tiles@, j as int, Tile::X);
            }
            self.tiles[j] = Tile::X;
            self.moves = self.moves + 1;
            assert(old(self).tiles@[j as int] == Tile::Empty);
            assert(self.tiles@ == after_human.update(j as int, Tile::X));
            if self.winning() {
                return true;
            }
        }
        self.moves == 9
    }

    fn wins_for(&self, p: Tile) -> (r: bool)
        ensures
            r == player_wins(self.tiles@, p),
    {
        let t = &self.tiles;
        (t[0] == p && t[1] == p && t[2] == p) || (t[3] == p && t[4] == p && t[5] == p) || (t[6]
            == p && t[7] == p && t[8] == p) || (t[0] == p && t[3] == p && t[6] == p) || (t[1] == p
            && t[4] == p && t[7] == p) || (t[2] == p && t[5] == p && t[8] == p) || (t[0] == p
            && t[4] == p && t[8] == p) || (t[2] == p && t[4] == p && t[6] == p)
    }
}

} // verus!

