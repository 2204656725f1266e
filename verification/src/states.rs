//! The application state stack.
//!
//! The game is always in exactly one mode; entering a sub-activity (console,
//! peephole, bed, ...) pushes a new mode and leaving pops it, restoring the
//! previous one exactly. The stack is never empty, and `GameOverState` is
//! terminal: once it is on top, only an explicit restart moves on.

use vstd::prelude::*;

verus! {

#[derive(Debug, Clone, Copy, PartialEq, Eq, Hash, Structural)]
pub enum GameState {
    MainMenu,
    ControlMenu,
    MainGame,
    ConsoleOpenedState,
    PeepholeOpenedState,
    PlayerSleepingState,
    PlayerPeeingState,
    PlayerOrderingPizzaState,
    PlayerEatingState,
    PlayerHidingState,
    GameOverState,
}

/// The stack of modes. Invalid transition requests are silent no-ops (the
/// caller learns of them through the returned flag), never panics: they can
/// arise from legitimate input races.
pub struct StateStack {
    stack: Vec<GameState>,
}

impl StateStack {
    /// The stack as a sequence, bottom first.
    pub closed spec fn states(&self) -> Seq<GameState> {
        self.stack@
    }

    /// Well-formed: the stack is never empty.
    pub open spec fn wf(&self) -> bool {
        self.states().len() >= 1
    }

    /// The active mode: the top of the stack.
    pub open spec fn spec_current(&self) -> GameState {
        self.states().last()
    }

    /// A push is valid while the game is not over and the new mode differs
    /// from the current one.
    pub open spec fn can_push(&self, s: GameState) -> bool {
        &&& self.spec_current() != GameState::GameOverState
        &&& s != self.spec_current()
    }

    /// A pop is valid while there is a mode to return to and the game is not
    /// over.
    pub open spec fn can_pop(&self) -> bool {
        &&& self.states().len() > 1
        &&& self.spec_current() != GameState::GameOverState
    }

    /// A replacement of the top is valid while the game is not over and the
    /// new mode differs from the current one.
    pub open spec fn can_set(&self, s: GameState) -> bool {
        &&& self.spec_current() != GameState::GameOverState
        &&& s != self.spec_current()
    }

    /// A fresh stack, in the main menu.
    pub fn new() -> (r: StateStack)
        ensures
            r.wf(),
            r.states() =~= seq![GameState::MainMenu],
    {
        StateStack { stack: vec![GameState::MainMenu] }
    }

    /// Read-only peek at the active mode.
    pub fn current(&self) -> (r: GameState)
        requires
            self.wf(),
        ensures
            r == self.spec_current(),
    {
        self.stack[self.stack.len() - 1]
    }

    /// Suspends the current top and makes `s` the new top; a no-op returning
    /// `false` when the transition is invalid for the current top.
    pub fn push(&mut self, s: GameState) -> (ok: bool)
        requires
            old(self).wf(),
        ensures
            final(self).wf(),
            ok == old(self).can_push(s),
            ok ==> final(self).states() =~= old(self).states().push(s),
            !ok ==> final(self).states() == old(self).states(),
            ok ==> final(self).spec_current() == s,
    {
        let cur = self.current();
        if cur == GameState::GameOverState || s == cur {
            false
        } else {
            self.stack.push(s);
            true
        }
    }

    /// Removes the top, restoring the previous mode exactly; a no-op
    /// returning `false` on a depth-one stack or once the game is over.
    pub fn pop(&mut self) -> (ok: bool)
        requires
            old(self).wf(),
        ensures
            final(self).wf(),
            ok == old(self).can_pop(),
            ok ==> final(self).states() =~= old(self).states().drop_last(),
            !ok ==> final(self).states() == old(self).states(),
            ok ==> final(self).spec_current() == old(self).states()[old(self).states().len() - 2],
    {
        let cur = self.current();
        if self.stack.len() <= 1 || cur == GameState::GameOverState {
            false
        } else {
            let _ = self.stack.pop();
            true
        }
    }

    /// Replaces the top without growing the stack (one-shot, non-resumable
    /// transitions); a no-op returning `false` when invalid.
    pub fn set(&mut self, s: GameState) -> (ok: bool)
        requires
            old(self).wf(),
        ensures
            final(self).wf(),
            ok == old(self).can_set(s),
            ok ==> final(self).states() =~= old(self).states().drop_last().push(s),
            !ok ==> final(self).states() == old(self).states(),
            ok ==> final(self).spec_current() == s,
            final(self).states().len() == old(self).states().len(),
    {
        let cur = self.current();
        if cur == GameState::GameOverState || s == cur {
            false
        } else {
            let last = self.stack.len() - 1;
            self.stack[last] = s;
            proof {
                assert(self.states() =~= old(self).states().drop_last().push(s));
            }
            true
        }
    }

    /// Explicit restart: the one way out of `GameOverState`. The stack is
    /// reset to the main menu alone.
    pub fn restart(&mut self)
        ensures
            final(self).wf(),
            final(self).states() =~= seq![GameState::MainMenu],
    {
        self.stack = vec![GameState::MainMenu];
    }
}

/// Law: pushing then popping is balanced. A push grows the depth by one (so
/// the stack can never empty by a pop that follows a push), and popping the
/// pushed mode restores the prior stack, top included.
pub proof fn lemma_state_stack_balance(pre: Seq<GameState>, s: GameState)
    requires
        pre.len() >= 1,
    ensures
        pre.push(s).len() == pre.len() + 1,
        pre.push(s).drop_last() =~= pre,
        pre.push(s).last() == s,
{
}

} // verus!
