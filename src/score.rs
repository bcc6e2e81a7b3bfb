use vstd::prelude::*;

verus! {

/// Identifier of a game, assigned by the store when the game is created.
pub type GameId = i32;

/// The value of one score.
pub type GameScore = i32;

/// One score of a game, with optional free text that came with it.
#[derive(Debug, PartialEq)]
pub struct ScoreRecord {
    pub score: GameScore,
    pub extra_info: Option<String>,
}

impl ScoreRecord {
    pub fn new(score: GameScore, extra_info: Option<String>) -> (r: Self)
        ensures
            r.score == score,
            r.extra_info == extra_info,
    {
        Self { score, extra_info }
    }
}

impl Clone for ScoreRecord {
    fn clone(&self) -> (r: Self)
        ensures
            r == *self,
    {
        let extra_info = match &self.extra_info {
            Some(text) => Some(text.clone()),
            None => None,
        };
        ScoreRecord { score: self.score, extra_info }
    }
}

} // verus!
