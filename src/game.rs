use vstd::prelude::*;

verus! {

/// A move chosen by a player, wrapping whatever a game uses to describe one.
#[derive(Copy, Clone, Debug)]
pub struct Action<T>(T);

/// A participant that decides its moves through a strategy.
#[derive(Debug)]
pub struct Player<S: Strategy> {
    strategy: S,
}

/// Where a game stands: won by a player, drawn, or still being played.
#[derive(Debug)]
pub enum Status<P: Playing> {
    Win(P),
    Draw,
    OnGoing,
}

impl<T> Action<T> {
    pub closed spec fn value(&self) -> T {
        self.0
    }

    pub fn new(action: T) -> (r: Action<T>)
        ensures
            r.value() == action,
    {
        Action(action)
    }

    pub fn get(self) -> (r: T)
        ensures
            r == self.value(),
    {
        self.0
    }
}

impl<S: Strategy> Player<S> {
    pub closed spec fn strategy(&self) -> S {
        self.strategy
    }

    pub fn new(strategy: S) -> (r: Player<S>)
        ensures
            r.strategy() == strategy,
    {
        Player { strategy }
    }

    /// Asks this player's strategy for its move in `game_state`.
    pub fn make_move<G: GameState>(&self, game_state: &G) -> Action<S::Output> {
        self.strategy.decide_action(game_state)
    }
}

impl<S: Strategy> Playing for Player<S> {}

/// A turn-based game as seen by the players and strategies that act on it.
pub trait GameState {
    type State;

    fn get_current_state(&self) -> Self::State;

    fn get_players<P: Playing>(&self) -> Vec<P>;

    fn is_over(&self) -> bool;

    fn get_actions<T>(&self) -> Vec<Action<T>>;

    fn do_action<T>(&self, action: Action<T>) -> Option<Self::State>;

    fn get_game_status<P: Playing>(&self) -> Status<P>;

    fn get_current_player<P: Playing>(&self) -> Option<P>;
}

/// Marks a type that can take part in a game.
pub trait Playing {}

/// A way of choosing a move given the state of a game.
pub trait Strategy {
    type Output;

    fn decide_action<G>(&self, game_state: &G) -> Action<Self::Output>;
}

} // verus!
