use vstd::prelude::*;
use crate::database_keys::GameKeys;
use crate::score::{GameId, ScoreRecord};

verus! {

/// A live game as the store holds it.
pub struct GameRecord {
    pub game_id: GameId,
    pub game_name: String,
    pub keys: GameKeys,
}

/// A live game, with its name as a sequence of characters.
pub struct GameView {
    pub game_id: GameId,
    pub name: Seq<char>,
    pub keys: GameKeys,
}

impl View for GameRecord {
    type V = GameView;

    open spec fn view(&self) -> GameView {
        GameView { game_id: self.game_id, name: self.game_name@, keys: self.keys }
    }
}

/// The contents of a store: the games table, the scores table in storage
/// order (each score with the id of its game), and the id the next game gets.
pub struct StoreView {
    pub games: Seq<GameView>,
    pub scores: Seq<(GameId, ScoreRecord)>,
    pub next_id: GameId,
}

/// The scores of game `id`, in storage order.
pub open spec fn records_of(scores: Seq<(GameId, ScoreRecord)>, id: GameId) -> Seq<ScoreRecord>
    decreases scores.len(),
{
    if scores.len() == 0 {
        Seq::empty()
    } else {
        let rest = records_of(scores.drop_last(), id);
        if scores.last().0 == id {
            rest.push(scores.last().1)
        } else {
            rest
        }
    }
}

proof fn lemma_records_len(scores: Seq<(GameId, ScoreRecord)>, id: GameId)
    ensures
        records_of(scores, id).len() <= scores.len(),
    decreases scores.len(),
{
    if scores.len() > 0 {
        lemma_records_len(scores.drop_last(), id);
    }
}

/// Every score kept by `scores_without` is one of the original scores, of another game.
pub proof fn lemma_scores_without_kept(scores: Seq<(GameId, ScoreRecord)>, id: GameId)
    ensures
        forall|k: int|
            0 <= k < scores_without(scores, id).len() ==> {
                &&& (#[trigger] scores_without(scores, id)[k]).0 != id
                &&& exists|j: int| 0 <= j < scores.len() && scores[j] == scores_without(scores, id)[k]
            },
    decreases scores.len(),
{
    if scores.len() > 0 {
        let rest = scores.drop_last();
        lemma_scores_without_kept(rest, id);
        let sw = scores_without(scores, id);
        assert forall|k: int| 0 <= k < sw.len() implies {
            &&& (#[trigger] sw[k]).0 != id
            &&& exists|j: int| 0 <= j < scores.len() && scores[j] == sw[k]
        } by {
            if k < scores_without(rest, id).len() {
                assert(sw[k] == scores_without(rest, id)[k]);
                let j = choose|j: int| 0 <= j < rest.len() && rest[j] == scores_without(rest, id)[k];
                assert(scores[j] == rest[j]);
            } else {
                assert(scores[scores.len() - 1] == sw[k]);
            }
        }
    }
}

/// The scores that do not belong to game `id`, in storage order.
pub open spec fn scores_without(scores: Seq<(GameId, ScoreRecord)>, id: GameId) -> Seq<
    (GameId, ScoreRecord),
>
    decreases scores.len(),
{
    if scores.len() == 0 {
        Seq::empty()
    } else {
        let rest = scores_without(scores.drop_last(), id);
        if scores.last().0 == id {
            rest
        } else {
            rest.push(scores.last())
        }
    }
}

impl StoreView {
    pub open spec fn has_game(self, name: Seq<char>) -> bool {
        exists|i: int| 0 <= i < self.games.len() && #[trigger] self.games[i].name == name
    }

    /// The position of the game called `name`; meaningful when it exists.
    pub open spec fn game_index(self, name: Seq<char>) -> int {
        choose|i: int| 0 <= i < self.games.len() && #[trigger] self.games[i].name == name
    }

    /// The live game called `name`, if there is one.
    pub open spec fn lookup(self, name: Seq<char>) -> Option<GameView> {
        if self.has_game(name) {
            Some(self.games[self.game_index(name)])
        } else {
            None
        }
    }

    pub open spec fn has_game_id(self, id: GameId) -> bool {
        exists|i: int| 0 <= i < self.games.len() && #[trigger] self.games[i].game_id == id
    }

    /// Names are non-empty and unique, ids unique and below the next id, and
    /// every score belongs to a live game.
    pub open spec fn wf(self) -> bool {
        &&& 1 <= self.next_id
        &&& forall|i: int|
            0 <= i < self.games.len() ==> {
                &&& (#[trigger] self.games[i]).game_id < self.next_id
                &&& self.games[i].name.len() > 0
            }
        &&& forall|i: int, j: int|
            0 <= i < self.games.len() && 0 <= j < self.games.len() && i != j ==> {
                &&& (#[trigger] self.games[i]).name != (#[trigger] self.games[j]).name
                &&& self.games[i].game_id != self.games[j].game_id
            }
        &&& forall|k: int|
            0 <= k < self.scores.len() ==> self.has_game_id(#[trigger] self.scores[k].0)
    }

    /// The store can assign one more id.
    pub open spec fn has_room(self) -> bool {
        self.next_id < GameId::MAX
    }

    /// The store after a game called `name` with `keys` was inserted.
    pub open spec fn with_game(self, name: Seq<char>, keys: GameKeys) -> StoreView {
        StoreView {
            games: self.games.push(GameView { game_id: self.next_id, name, keys }),
            scores: self.scores,
            next_id: (self.next_id + 1) as GameId,
        }
    }

    /// The store after the game at position `i` and all its scores were removed.
    pub open spec fn without_game(self, i: int) -> StoreView {
        StoreView {
            games: self.games.remove(i),
            scores: scores_without(self.scores, self.games[i].game_id),
            next_id: self.next_id,
        }
    }

    /// The store after `record` was appended for game `id`.
    pub open spec fn with_score(self, id: GameId, record: ScoreRecord) -> StoreView {
        StoreView { games: self.games, scores: self.scores.push((id, record)), next_id: self.next_id }
    }

    pub proof fn lemma_with_game_wf(self, name: Seq<char>, keys: GameKeys)
        requires
            self.wf(),
            self.has_room(),
            name.len() > 0,
            !self.has_game(name),
        ensures
            self.with_game(name, keys).wf(),
    {
        let w = self.with_game(name, keys);
        assert forall|k: int| 0 <= k < w.scores.len() implies w.has_game_id(
            #[trigger] w.scores[k].0,
        ) by {
            let j = choose|j: int|
                0 <= j < self.games.len() && #[trigger] self.games[j].game_id == self.scores[k].0;
            assert(w.games[j] == self.games[j]);
        }
    }

    pub proof fn lemma_with_score_wf(self, i: int, record: ScoreRecord)
        requires
            self.wf(),
            0 <= i < self.games.len(),
        ensures
            self.with_score(self.games[i].game_id, record).wf(),
    {
        let w = self.with_score(self.games[i].game_id, record);
        assert forall|k: int| 0 <= k < w.scores.len() implies w.has_game_id(
            #[trigger] w.scores[k].0,
        ) by {
            if k < self.scores.len() {
                assert(w.scores[k] == self.scores[k]);
                assert(self.has_game_id(self.scores[k].0));
                let m = choose|m: int|
                    0 <= m < self.games.len() && #[trigger] self.games[m].game_id == self.scores[k].0;
                assert(w.games[m].game_id == w.scores[k].0);
            } else {
                assert(w.games[i].game_id == w.scores[k].0);
            }
        }
    }

    pub proof fn lemma_without_game_wf(self, i: int)
        requires
            self.wf(),
            0 <= i < self.games.len(),
        ensures
            self.without_game(i).wf(),
    {
        let w = self.without_game(i);
        let id = self.games[i].game_id;
        lemma_scores_without_kept(self.scores, id);
        assert forall|k: int| 0 <= k < w.scores.len() implies w.has_game_id(
            #[trigger] w.scores[k].0,
        ) by {
            let g = w.scores[k].0;
            assert(g != id);
            let j = choose|j: int| 0 <= j < self.scores.len() && self.scores[j] == w.scores[k];
            assert(self.has_game_id(self.scores[j].0));
            let m = choose|m: int| 0 <= m < self.games.len() && #[trigger] self.games[m].game_id == g;
            assert(m != i);
            if m < i {
                assert(w.games[m] == self.games[m]);
                assert(w.games[m].game_id == g);
            } else {
                assert(w.games[m - 1] == self.games[m]);
                assert(w.games[m - 1].game_id == g);
            }
        }
        assert forall|a: int, b: int|
            0 <= a < w.games.len() && 0 <= b < w.games.len() && a != b implies {
            &&& (#[trigger] w.games[a]).name != (#[trigger] w.games[b]).name
            &&& w.games[a].game_id != w.games[b].game_id
        } by {
            let a0 = if a < i { a } else { a + 1 };
            let b0 = if b < i { b } else { b + 1 };
            assert(w.games[a] == self.games[a0]);
            assert(w.games[b] == self.games[b0]);
        }
        assert forall|a: int| 0 <= a < w.games.len() implies {
            &&& (#[trigger] w.games[a]).game_id < w.next_id
            &&& w.games[a].name.len() > 0
        } by {
            let a0 = if a < i { a } else { a + 1 };
            assert(w.games[a] == self.games[a0]);
        }
    }
}

/// An in-memory store of games and their scores.
pub struct Database {
    games: Vec<GameRecord>,
    scores: Vec<(GameId, ScoreRecord)>,
    next_id: GameId,
}

impl View for Database {
    type V = StoreView;

    closed spec fn view(&self) -> StoreView {
        StoreView {
            games: self.games@.map_values(|g: GameRecord| g@),
            scores: self.scores@,
            next_id: self.next_id,
        }
    }
}

impl Database {
    /// An empty store; the first game gets id 1.
    pub fn new() -> (r: Self)
        ensures
            r@.wf(),
            r@.games.len() == 0,
            r@.scores.len() == 0,
            r@.next_id == 1,
    {
        let r = Database { games: Vec::new(), scores: Vec::new(), next_id: 1 };
        assert(r@.games =~= Seq::<GameView>::empty());
        r
    }

    /// Whether one more game can get an id.
    pub fn has_room(&self) -> (r: bool)
        ensures
            r == self@.has_room(),
    {
        self.next_id < GameId::MAX
    }

    /// The position of the game called `name`.
    pub fn find_game(&self, name: &str) -> (r: Option<usize>)
        requires
            self@.wf(),
        ensures
            match r {
                None => !self@.has_game(name@),
                Some(i) => {
                    &&& i < self@.games.len()
                    &&& self@.has_game(name@)
                    &&& i as int == self@.game_index(name@)
                },
            },
    {
        let wanted = name.to_owned();
        let mut i: usize = 0;
        while i < self.games.len()
            invariant
                self@.wf(),
                wanted@ == name@,
                i <= self.games.len(),
                forall|j: int| 0 <= j < i ==> #[trigger] self@.games[j].name != name@,
            decreases self.games.len() - i,
        {
            assert(self@.games[i as int] == self.games@[i as int]@);
            if self.games[i].game_name == wanted {
                assert(self@.has_game(name@));
                let ghost k = self@.game_index(name@);
                assert(k == i as int);
                return Some(i);
            }
            i = i + 1;
        }
        None
    }

    pub fn game_at(&self, i: usize) -> (r: &GameRecord)
        requires
            i < self@.games.len(),
        ensures
            r@ == self@.games[i as int],
    {
        &self.games[i]
    }

    /// Inserts a new game and returns the id it was given.
    pub fn insert_game(&mut self, name: &str, keys: GameKeys) -> (r: GameId)
        requires
            old(self)@.wf(),
            old(self)@.has_room(),
            name@.len() > 0,
            !old(self)@.has_game(name@),
        ensures
            r == old(self)@.next_id,
            final(self)@ == old(self)@.with_game(name@, keys),
            final(self)@.wf(),
    {
        let id = self.next_id;
        let record = GameRecord { game_id: id, game_name: name.to_owned(), keys };
        self.games.push(record);
        self.next_id = id + 1;
        proof {
            old(self)@.lemma_with_game_wf(name@, keys);
        }
        assert(self@.games =~= old(self)@.games.push(GameView { game_id: id, name: name@, keys }));
        id
    }

    /// Removes the game at position `i` together with all its scores, and
    /// returns how many scores were removed.
    pub fn remove_game(&mut self, i: usize) -> (r: u64)
        requires
            old(self)@.wf(),
            i < old(self)@.games.len(),
        ensures
            final(self)@ == old(self)@.without_game(i as int),
            r == records_of(old(self)@.scores, old(self)@.games[i as int].game_id).len(),
            final(self)@.wf(),
    {
        let ghost v = self@;
        let id = self.games[i].game_id;
        assert(id == v.games[i as int].game_id);
        let mut kept: Vec<(GameId, ScoreRecord)> = Vec::new();
        let mut removed: u64 = 0;
        let mut j: usize = 0;
        while j < self.scores.len()
            invariant
                self@ == v,
                v.wf(),
                j <= self.scores.len(),
                kept@ == scores_without(v.scores.subrange(0, j as int), id),
                removed == records_of(v.scores.subrange(0, j as int), id).len(),
            decreases self.scores.len() - j,
        {
            let ghost before = v.scores.subrange(0, j as int);
            let ghost after = v.scores.subrange(0, j + 1);
            assert(after.drop_last() =~= before);
            assert(after.last() == v.scores[j as int]);
            proof {
                lemma_records_len(before, id);
            }
            let entry = &self.scores[j];
            if entry.0 == id {
                removed = removed + 1;
            } else {
                kept.push((entry.0, entry.1.clone()));
            }
            j = j + 1;
        }
        assert(v.scores.subrange(0, v.scores.len() as int) =~= v.scores);
        self.games.remove(i);
        self.scores = kept;
        proof {
            v.lemma_without_game_wf(i as int);
        }
        assert(self@.games =~= v.without_game(i as int).games);
        removed
    }

    /// Appends `record` to the scores of the game at position `i`.
    pub fn insert_score(&mut self, i: usize, record: ScoreRecord)
        requires
            old(self)@.wf(),
            i < old(self)@.games.len(),
        ensures
            final(self)@ == old(self)@.with_score(old(self)@.games[i as int].game_id, record),
            final(self)@.wf(),
    {
        let ghost v = self@;
        let id = self.games[i].game_id;
        assert(id == v.games[i as int].game_id);
        self.scores.push((id, record));
        proof {
            v.lemma_with_score_wf(i as int, record);
        }
        assert(self@.games =~= v.games);
    }

    /// The scores of game `id`, in storage order.
    pub fn scores_of(&self, id: GameId) -> (r: Vec<ScoreRecord>)
        ensures
            r@ == records_of(self@.scores, id),
    {
        let mut out: Vec<ScoreRecord> = Vec::new();
        let mut j: usize = 0;
        while j < self.scores.len()
            invariant
                j <= self.scores.len(),
                out@ == records_of(self@.scores.subrange(0, j as int), id),
            decreases self.scores.len() - j,
        {
            let ghost after = self@.scores.subrange(0, j + 1);
            assert(after.drop_last() =~= self@.scores.subrange(0, j as int));
            let entry = &self.scores[j];
            if entry.0 == id {
                out.push(entry.1.clone());
            }
            j = j + 1;
        }
        assert(self@.scores.subrange(0, self@.scores.len() as int) =~= self@.scores);
        out
    }
}

} // verus!
