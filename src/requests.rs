use vstd::prelude::*;
use crate::authority::{
    AuthorityLevel,
    check_authority_spec,
    presented_key,
    resolve_authority,
    resolve_authority_spec,
};
use crate::database_keys::{ApiKey, GameKeys, are_issued_keys};
use crate::request_error::{ErrorView, RequestError, RequestResult, result_view};
use crate::score::{GameId, ScoreRecord};
use crate::store::{Database, GameRecord, StoreView, records_of};

verus! {

/// The game called `name` and the tier that `key` grants on it.
pub open spec fn check_game_spec(v: StoreView, name: Seq<char>, key: Option<Seq<char>>) -> Result<
    (GameId, AuthorityLevel),
    ErrorView,
> {
    match v.lookup(name) {
        None => Err(ErrorView::NoSuchGame(name)),
        Some(g) => Ok((g.game_id, resolve_authority_spec(g.keys, key))),
    }
}

/// The id of the game called `name`, when `key` grants at least `required` on it.
pub open spec fn authorize_spec(
    v: StoreView,
    name: Seq<char>,
    key: Option<Seq<char>>,
    required: AuthorityLevel,
) -> Result<GameId, ErrorView> {
    match check_game_spec(v, name, key) {
        Err(e) => Err(e),
        Ok((id, level)) => match check_authority_spec(level, required) {
            Err(e) => Err(e),
            Ok(_) => Ok(id),
        },
    }
}

/// Why a game called `name` cannot be created, given whether a live game
/// already has that name, if it cannot.
pub open spec fn new_game_error(name: Seq<char>, taken: bool) -> Option<ErrorView> {
    if name.len() == 0 {
        Some(ErrorView::InvalidGameName(name))
    } else if taken {
        Some(ErrorView::GameAlreadyExists(name))
    } else {
        None
    }
}

/// Why a game called `name` cannot be created in `v`, if it cannot.
pub open spec fn create_error(v: StoreView, name: Seq<char>) -> Option<ErrorView> {
    new_game_error(name, v.has_game(name))
}

/// The store after creating a game called `name` with `keys`, and the outcome.
pub open spec fn create_game_spec(v: StoreView, name: Seq<char>, keys: GameKeys) -> (
    StoreView,
    Result<GameId, ErrorView>,
) {
    match create_error(v, name) {
        Some(e) => (v, Err(e)),
        None => (v.with_game(name, keys), Ok(v.next_id)),
    }
}

/// The store after deleting the game called `name` with `key`, and the outcome:
/// the number of its scores that were removed.
pub open spec fn delete_game_spec(v: StoreView, name: Seq<char>, key: Seq<char>) -> (
    StoreView,
    Result<u64, ErrorView>,
) {
    match authorize_spec(v, name, Some(key), AuthorityLevel::Admin) {
        Err(e) => (v, Err(e)),
        Ok(id) => (v.without_game(v.game_index(name)), Ok(records_of(v.scores, id).len() as u64)),
    }
}

/// The store after appending `record` to the game called `name` with `key`, and the outcome.
pub open spec fn add_score_spec(
    v: StoreView,
    name: Seq<char>,
    key: Seq<char>,
    record: ScoreRecord,
) -> (StoreView, Result<(), ErrorView>) {
    match authorize_spec(v, name, Some(key), AuthorityLevel::Write) {
        Err(e) => (v, Err(e)),
        Ok(id) => (v.with_score(id, record), Ok(())),
    }
}

/// The scores of the game called `name`, in storage order, as `key` may read them.
pub open spec fn get_scores_spec(v: StoreView, name: Seq<char>, key: Seq<char>) -> Result<
    Seq<ScoreRecord>,
    ErrorView,
> {
    match authorize_spec(v, name, Some(key), AuthorityLevel::Read) {
        Err(e) => Err(e),
        Ok(id) => Ok(records_of(v.scores, id)),
    }
}

/// Decides a request on the game called `game_name` from what looking the
/// name up found: `NoSuchGame` when nothing, else its id and the tier that
/// the presented key grants.
pub fn check_fetched_game(
    game_name: &str,
    game: Option<&GameRecord>,
    api_key: &Option<ApiKey>,
) -> (r: RequestResult<(GameId, AuthorityLevel)>)
    ensures
        result_view(r) == match game {
            None => Err(ErrorView::NoSuchGame(game_name@)),
            Some(g) => Ok((g.game_id, resolve_authority_spec(g.keys, presented_key(*api_key)))),
        },
{
    match game {
        None => Err(RequestError::NoSuchGame { game_name: game_name.to_owned() }),
        Some(g) => Ok((g.game_id, resolve_authority(&g.keys, api_key))),
    }
}

/// The greeting served at the root of the service.
pub fn index() -> (r: &'static str)
    ensures
        r@ == "This is an online leaderboard server!"@,
{
    "This is an online leaderboard server!"
}

/// Looks up the game called `game_name` and the tier that `api_key` grants on it.
pub fn check_game(game_name: &str, api_key: Option<ApiKey>, database: &Database) -> (r:
    RequestResult<(GameId, AuthorityLevel)>)
    requires
        database@.wf(),
    ensures
        result_view(r) == check_game_spec(database@, game_name@, presented_key(api_key)),
{
    let found = match database.find_game(game_name) {
        Some(i) => Some(database.game_at(i)),
        None => None,
    };
    check_fetched_game(game_name, found, &api_key)
}

/// Decides whether a request that needs `required` may go on with what
/// looking `game_name` up found: the game's id, or the error to report.
pub fn authorize_fetched(
    game_name: &str,
    game: Option<&GameRecord>,
    api_key: &Option<ApiKey>,
    required: AuthorityLevel,
) -> (r: RequestResult<GameId>)
    ensures
        result_view(r) == match game {
            None => Err(ErrorView::NoSuchGame(game_name@)),
            Some(g) => match check_authority_spec(
                resolve_authority_spec(g.keys, presented_key(*api_key)),
                required,
            ) {
                Err(e) => Err(e),
                Ok(_) => Ok(g.game_id),
            },
        },
{
    let (id, level) = match check_fetched_game(game_name, game, api_key) {
        Ok(found) => found,
        Err(e) => {
            return Err(e);
        },
    };
    match level.check_authority(required) {
        Err(e) => Err(e),
        Ok(()) => Ok(id),
    }
}

/// Decides whether a game called `game_name` may be created, given whether a
/// live game already has that name.
pub fn validate_new_game(game_name: &str, taken: bool) -> (r: RequestResult<()>)
    ensures
        match new_game_error(game_name@, taken) {
            Some(e) => r is Err && r->Err_0@ == e,
            None => r is Ok,
        },
{
    if game_name.is_empty() {
        return Err(RequestError::InvalidGameName { game_name: game_name.to_owned() });
    }
    if taken {
        return Err(RequestError::GameAlreadyExists { game_name: game_name.to_owned() });
    }
    Ok(())
}

/// The position of the game called `game_name`, when `api_key` grants at least `required` on it.
fn locate_game(game_name: &str, api_key: &Option<ApiKey>, required: AuthorityLevel, database: &Database)
    -> (r: RequestResult<usize>)
    requires
        database@.wf(),
    ensures
        match authorize_spec(database@, game_name@, presented_key(*api_key), required) {
            Err(e) => r is Err && r->Err_0@ == e,
            Ok(id) => r matches Ok(i) && i as int == database@.game_index(game_name@)
                && i < database@.games.len() && database@.games[i as int].game_id == id,
        },
{
    match database.find_game(game_name) {
        None => Err(RequestError::NoSuchGame { game_name: game_name.to_owned() }),
        Some(i) => {
            match authorize_fetched(game_name, Some(database.game_at(i)), api_key, required) {
                Err(e) => Err(e),
                Ok(_) => Ok(i),
            }
        },
    }
}

/// Creates a game called `game_name` with the given keys. Fails with
/// `InvalidGameName` on an empty name and with `GameAlreadyExists` when a live
/// game has that name; otherwise returns the new id and the keys.
pub fn create_game_with_keys(game_name: &str, keys: GameKeys, database: &mut Database) -> (r:
    RequestResult<(GameId, GameKeys)>)
    requires
        old(database)@.wf(),
        old(database)@.has_room(),
    ensures
        final(database)@.wf(),
        final(database)@ == create_game_spec(old(database)@, game_name@, keys).0,
        match create_game_spec(old(database)@, game_name@, keys).1 {
            Ok(id) => r matches Ok((rid, rkeys)) && rid == id && rkeys == keys,
            Err(e) => r is Err && r->Err_0@ == e,
        },
{
    let taken = database.find_game(game_name).is_some();
    match validate_new_game(game_name, taken) {
        Err(e) => {
            return Err(e);
        },
        Ok(()) => {},
    }
    let issued = keys.clone();
    let id = database.insert_game(game_name, keys);
    Ok((id, issued))
}

/// Creates a game called `game_name` with freshly generated keys. Fails with
/// `InvalidGameName` on an empty name and with `GameAlreadyExists` when a live
/// game has that name; otherwise returns the new id and the keys, which are
/// not handed out again by any other operation.
pub fn create_game(game_name: &str, database: &mut Database) -> (r: RequestResult<
    (GameId, GameKeys),
>)
    requires
        old(database)@.wf(),
        old(database)@.has_room(),
    ensures
        final(database)@.wf(),
        game_name@.len() == 0 ==> (r matches Err(e) && e@ == ErrorView::InvalidGameName(game_name@)
            && final(database)@ == old(database)@),
        match create_error(old(database)@, game_name@) {
            Some(e) => r is Err && r->Err_0@ == e && final(database)@ == old(database)@,
            None => r matches Ok((id, keys)) && id == old(database)@.next_id && are_issued_keys(keys)
                && final(database)@ == old(database)@.with_game(game_name@, keys),
        },
{
    let taken = database.find_game(game_name).is_some();
    match validate_new_game(game_name, taken) {
        Err(e) => {
            return Err(e);
        },
        Ok(()) => {},
    }
    let keys = GameKeys::generate();
    create_game_with_keys(game_name, keys, database)
}

/// Deletes the game called `game_name` and all its scores; needs an admin
/// key. Returns how many scores were removed.
pub fn delete_game(game_name: &str, api_key: ApiKey, database: &mut Database) -> (r: RequestResult<
    u64,
>)
    requires
        old(database)@.wf(),
    ensures
        final(database)@.wf(),
        !old(database)@.has_game(game_name@) ==> (r matches Err(e) && e@ == ErrorView::NoSuchGame(
            game_name@,
        ) && final(database)@ == old(database)@),
        (final(database)@, result_view(r)) == delete_game_spec(
            old(database)@,
            game_name@,
            api_key@,
        ),
{
    let key = Some(api_key);
    let i = match locate_game(game_name, &key, AuthorityLevel::Admin, database) {
        Ok(i) => i,
        Err(e) => {
            return Err(e);
        },
    };
    let removed = database.remove_game(i);
    Ok(removed)
}

/// Appends a score to the game called `game_name`; needs a write or admin key.
pub fn add_score(game_name: &str, score_record: ScoreRecord, api_key: ApiKey, database: &mut Database)
    -> (r: RequestResult<()>)
    requires
        old(database)@.wf(),
    ensures
        final(database)@.wf(),
        (final(database)@, result_view(r)) == add_score_spec(
            old(database)@,
            game_name@,
            api_key@,
            score_record,
        ),
{
    let key = Some(api_key);
    let i = match locate_game(game_name, &key, AuthorityLevel::Write, database) {
        Ok(i) => i,
        Err(e) => {
            return Err(e);
        },
    };
    database.insert_score(i, score_record);
    Ok(())
}

/// All scores of the game called `game_name`, in the order they were
/// appended; needs a key of any tier.
pub fn get_scores(game_name: &str, api_key: ApiKey, database: &Database) -> (r: RequestResult<
    Vec<ScoreRecord>,
>)
    requires
        database@.wf(),
    ensures
        match r {
            Ok(scores) => get_scores_spec(database@, game_name@, api_key@) == Ok::<
                Seq<ScoreRecord>,
                ErrorView,
            >(scores@),
            Err(e) => get_scores_spec(database@, game_name@, api_key@) == Err::<
                Seq<ScoreRecord>,
                ErrorView,
            >(e@),
        },
{
    let key = Some(api_key);
    let i = match locate_game(game_name, &key, AuthorityLevel::Read, database) {
        Ok(i) => i,
        Err(e) => {
            return Err(e);
        },
    };
    let id = database.game_at(i).game_id;
    Ok(database.scores_of(id))
}

} // verus!
