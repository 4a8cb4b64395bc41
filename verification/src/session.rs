//! The session phase machine: which of Menu, Playing, GameOver the
//! session is in, and which commands may touch the board.

use vstd::prelude::*;

use crate::board::Board;
use crate::board::Tile;
use crate::board::play_outcome;

verus! {

/// The phase the session is in. Only explicit commands move it.
#[derive(Clone, Copy, Debug, PartialEq, Eq, Structural)]
pub enum GamePhase {
    Menu,
    Playing,
    GameOver,
}

/// A discrete command from the surrounding input layer.
#[derive(Clone, Copy, Debug, PartialEq, Eq, Structural)]
pub enum Command {
    StartGame,
    Quit,
    SelectCell(usize),
}

/// One game session: the current phase and the board it governs.
pub struct Session {
    pub phase: GamePhase,
    pub board: Board,
}

/// Relates a session before a command to the session after it and to
/// the returned quit flag, exactly as the transition table prescribes:
/// StartGame (re)starts a game only from Menu or GameOver, SelectCell
/// reaches the board only in Playing and only on an empty in-range
/// cell, Quit changes nothing but asks the caller to stop, and every
/// other combination is a silent no-op.
pub open spec fn handle_outcome(pre: Session, post: Session, cmd: Command, quit: bool) -> bool {
    match cmd {
        Command::Quit => post == pre && quit,
        Command::StartGame => !quit && match pre.phase {
            GamePhase::Menu | GamePhase::GameOver => post.phase == GamePhase::Playing
                && post.board.is_blank(),
            GamePhase::Playing => post == pre,
        },
        Command::SelectCell(i) => !quit && match pre.phase {
            GamePhase::Playing => {
                if i < 9 && pre.board.tiles@[i as int] == Tile::Empty {
                    &&& play_outcome(
                        pre.board,
                        post.board,
                        i as int,
                        post.phase == GamePhase::GameOver,
                    )
                    &&& post.phase == GamePhase::Playing || post.phase == GamePhase::GameOver
                } else {
                    post == pre
                }
            },
            _ => post == pre,
        },
    }
}

impl Session {
    /// The session's invariant: its board is well formed.
    pub open spec fn wf(self) -> bool {
        self.board.wf()
    }

    /// A fresh session: at the menu, with a blank board.
    pub fn new() -> (s: Session)
        ensures
            s.wf(),
            s.phase == GamePhase::Menu,
            s.board.is_blank(),
    {
        Session { phase: GamePhase::Menu, board: Board::new() }
    }

    /// Dispatch one command against the current phase. Returns whether
    /// the caller was asked to terminate the process.
    pub fn handle(&mut self, cmd: Command) -> (quit: bool)
        requires
            old(self).wf(),
        ensures
            final(self).wf(),
            handle_outcome(*old(self), *final(self), cmd, quit),
    {
        match cmd {
            Command::Quit => true,
            Command::StartGame => {
                match self.phase {
                    GamePhase::Menu | GamePhase::GameOver => {
                        self.board.clear();
                        self.phase = GamePhase::Playing;
                    },
                    GamePhase::Playing => {},
                }
                false
            },
            Command::SelectCell(i) => {
                if matches!(self.phase, GamePhase::Playing) && i < 9 && self.board.is_empty(i) {
                    let game_over = self.board.play_move(i);
                    if game_over {
                        self.phase = GamePhase::GameOver;
                    }
                }
                false
            },
        }
    }
}

} // verus!
