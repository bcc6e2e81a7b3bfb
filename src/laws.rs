use vstd::prelude::*;
use crate::authority::{AuthorityLevel, resolve_authority_spec};
use crate::database_keys::GameKeys;
use crate::request_error::ErrorView;
use crate::requests::{
    add_score_spec,
    check_game_spec,
    create_error,
    create_game_spec,
    delete_game_spec,
    get_scores_spec,
};
use crate::score::{GameId, ScoreRecord};
use crate::store::{GameView, StoreView, lemma_scores_without_kept, records_of};

verus! {

/// Two creations under one name: the second fails, with `GameAlreadyExists`
/// when the name is not empty, leaves the store as it was, and exactly one
/// live game then has that name.
pub proof fn lemma_second_create_rejected(
    v: StoreView,
    name: Seq<char>,
    first: GameKeys,
    second: GameKeys,
)
    requires
        v.wf(),
        v.has_room(),
        name.len() > 0,
    ensures
        ({
            let v1 = create_game_spec(v, name, first).0;
            let (v2, r2) = create_game_spec(v1, name, second);
            &&& r2 == Err::<GameId, ErrorView>(ErrorView::GameAlreadyExists(name))
            &&& v2 == v1
            &&& exists|i: int|
                0 <= i < v2.games.len() && #[trigger] v2.games[i].name == name && forall|j: int|
                    0 <= j < v2.games.len() && #[trigger] v2.games[j].name == name ==> j == i
        }),
{
    let v1 = create_game_spec(v, name, first).0;
    if create_error(v, name) is None {
        v.lemma_with_game_wf(name, first);
        let n = v.games.len() as int;
        assert(v1.games[n].name == name);
    } else {
        let i = v.game_index(name);
        assert(v1.games[i].name == name);
    }
    assert(v1.has_game(name));
}

/// On a game just created with three distinct keys: no key yields
/// `Unauthorized`, each tier's key yields its tier, and any other string
/// yields `Unauthorized`.
pub proof fn lemma_fresh_game_authority(v: StoreView, name: Seq<char>, keys: GameKeys)
    requires
        v.wf(),
        v.has_room(),
        create_error(v, name) is None,
        keys.read_key@ != keys.write_key@,
        keys.read_key@ != keys.admin_key@,
        keys.write_key@ != keys.admin_key@,
    ensures
        ({
            let v1 = create_game_spec(v, name, keys).0;
            let id = create_game_spec(v, name, keys).1->Ok_0;
            &&& check_game_spec(v1, name, None) == Ok::<(GameId, AuthorityLevel), ErrorView>(
                (id, AuthorityLevel::Unauthorized),
            )
            &&& check_game_spec(v1, name, Some(keys.read_key@)) == Ok::<
                (GameId, AuthorityLevel),
                ErrorView,
            >((id, AuthorityLevel::Read))
            &&& check_game_spec(v1, name, Some(keys.write_key@)) == Ok::<
                (GameId, AuthorityLevel),
                ErrorView,
            >((id, AuthorityLevel::Write))
            &&& check_game_spec(v1, name, Some(keys.admin_key@)) == Ok::<
                (GameId, AuthorityLevel),
                ErrorView,
            >((id, AuthorityLevel::Admin))
            &&& forall|other: Seq<char>|
                other != keys.read_key@ && other != keys.write_key@ && other != keys.admin_key@
                    ==> #[trigger] check_game_spec(v1, name, Some(other)) == Ok::<
                    (GameId, AuthorityLevel),
                    ErrorView,
                >((id, AuthorityLevel::Unauthorized))
        }),
{
    lemma_created_game_found(v, name, keys);
}

/// A game just created is found under its name, with the next id and the given keys.
pub proof fn lemma_created_game_found(v: StoreView, name: Seq<char>, keys: GameKeys)
    requires
        v.wf(),
        v.has_room(),
        create_error(v, name) is None,
    ensures
        create_game_spec(v, name, keys).0.wf(),
        create_game_spec(v, name, keys).1 == Ok::<GameId, ErrorView>(v.next_id),
        create_game_spec(v, name, keys).0.lookup(name) == Some(
            GameView { game_id: v.next_id, name, keys },
        ),
        records_of(create_game_spec(v, name, keys).0.scores, v.next_id) == Seq::<
            ScoreRecord,
        >::empty(),
{
    let v1 = create_game_spec(v, name, keys).0;
    v.lemma_with_game_wf(name, keys);
    let n = v.games.len() as int;
    assert(v1.games[n].name == name);
    assert(v1.has_game(name));
    assert(v1.game_index(name) == n);
    assert forall|k: int| 0 <= k < v.scores.len() implies (#[trigger] v.scores[k]).0
        != v.next_id by {
        assert(v.has_game_id(v.scores[k].0));
    }
    lemma_records_of_absent(v.scores, v.next_id);
}

/// A game id that no score carries has no scores.
pub proof fn lemma_records_of_absent(scores: Seq<(GameId, ScoreRecord)>, id: GameId)
    requires
        forall|k: int| 0 <= k < scores.len() ==> (#[trigger] scores[k]).0 != id,
    ensures
        records_of(scores, id) == Seq::<ScoreRecord>::empty(),
    decreases scores.len(),
{
    if scores.len() > 0 {
        let rest = scores.drop_last();
        assert forall|k: int| 0 <= k < rest.len() implies (#[trigger] rest[k]).0 != id by {
            assert(rest[k] == scores[k]);
        }
        lemma_records_of_absent(rest, id);
        assert(scores.last().0 != id);
    }
}

/// The store after appending `records`, in order, to the game called `name`,
/// record `i` with key `keys[i]`.
pub open spec fn append_all(
    v: StoreView,
    name: Seq<char>,
    keys: Seq<Seq<char>>,
    records: Seq<ScoreRecord>,
) -> StoreView
    decreases records.len(),
{
    if records.len() == 0 || keys.len() != records.len() {
        v
    } else {
        add_score_spec(
            append_all(v, name, keys.drop_last(), records.drop_last()),
            name,
            keys.last(),
            records.last(),
        ).0
    }
}

/// `key` grants at least `required` on the live game called `name`.
pub open spec fn grants(v: StoreView, name: Seq<char>, key: Seq<char>, required: AuthorityLevel) -> bool {
    &&& v.has_game(name)
    &&& resolve_authority_spec(v.lookup(name)->Some_0.keys, Some(key)) != AuthorityLevel::Unauthorized
    &&& resolve_authority_spec(v.lookup(name)->Some_0.keys, Some(key)).spec_rank()
        >= required.spec_rank()
}

/// Appending with write or admin keys keeps the games as they are and puts
/// each record, verbatim and in order, after the game's earlier scores; a key
/// of any tier then lists exactly those.
pub proof fn lemma_appends_listed(
    v: StoreView,
    name: Seq<char>,
    writers: Seq<Seq<char>>,
    reader: Seq<char>,
    records: Seq<ScoreRecord>,
)
    requires
        v.wf(),
        writers.len() == records.len(),
        forall|i: int| 0 <= i < writers.len() ==> grants(v, name, #[trigger] writers[i], AuthorityLevel::Write),
        grants(v, name, reader, AuthorityLevel::Read),
    ensures
        append_all(v, name, writers, records).wf(),
        append_all(v, name, writers, records).games == v.games,
        get_scores_spec(append_all(v, name, writers, records), name, reader) == Ok::<
            Seq<ScoreRecord>,
            ErrorView,
        >(records_of(v.scores, v.lookup(name)->Some_0.game_id) + records),
    decreases records.len(),
{
    let id = v.lookup(name)->Some_0.game_id;
    if records.len() == 0 {
        assert(records_of(v.scores, id) + records =~= records_of(v.scores, id));
    } else {
        let rest = records.drop_last();
        let earlier = writers.drop_last();
        assert forall|i: int| 0 <= i < earlier.len() implies grants(
            v,
            name,
            #[trigger] earlier[i],
            AuthorityLevel::Write,
        ) by {
            assert(earlier[i] == writers[i]);
        }
        assert(grants(v, name, writers[writers.len() - 1], AuthorityLevel::Write));
        lemma_appends_listed(v, name, earlier, reader, rest);
        let w = append_all(v, name, earlier, rest);
        let i = w.game_index(name);
        w.lemma_with_score_wf(i, records.last());
        let w2 = w.with_score(id, records.last());
        assert(w2.scores.drop_last() =~= w.scores);
        assert(records_of(v.scores, id) + records =~= (records_of(v.scores, id) + rest).push(
            records.last(),
        ));
    }
}

/// Round trip on a new game: listing with any of its keys after appending
/// `records`, each with a write or admin key, returns exactly `records`,
/// verbatim, nothing lost and nothing repeated.
pub proof fn lemma_scores_round_trip(
    v: StoreView,
    name: Seq<char>,
    keys: GameKeys,
    writers: Seq<Seq<char>>,
    reader: Seq<char>,
    records: Seq<ScoreRecord>,
)
    requires
        v.wf(),
        v.has_room(),
        create_error(v, name) is None,
        writers.len() == records.len(),
        forall|i: int|
            0 <= i < writers.len() ==> resolve_authority_spec(keys, Some(#[trigger] writers[i])).spec_rank()
                >= AuthorityLevel::Write.spec_rank(),
        resolve_authority_spec(keys, Some(reader)) != AuthorityLevel::Unauthorized,
    ensures
        get_scores_spec(append_all(create_game_spec(v, name, keys).0, name, writers, records), name, reader)
            == Ok::<Seq<ScoreRecord>, ErrorView>(records),
{
    let v1 = create_game_spec(v, name, keys).0;
    lemma_created_game_found(v, name, keys);
    assert forall|i: int| 0 <= i < writers.len() implies grants(
        v1,
        name,
        #[trigger] writers[i],
        AuthorityLevel::Write,
    ) by {
        assert(resolve_authority_spec(keys, Some(writers[i])).spec_rank() >= 2);
    }
    lemma_appends_listed(v1, name, writers, reader, records);
    assert(Seq::<ScoreRecord>::empty() + records =~= records);
}

/// After a successful delete the game is gone with all its scores: a second
/// delete under the same name fails with `NoSuchGame` and changes nothing.
pub proof fn lemma_delete_twice(v: StoreView, name: Seq<char>, key: Seq<char>)
    requires
        v.wf(),
        delete_game_spec(v, name, key).1 is Ok,
    ensures
        ({
            let v1 = delete_game_spec(v, name, key).0;
            let id = v.lookup(name)->Some_0.game_id;
            &&& v1.wf()
            &&& !v1.has_game(name)
            &&& records_of(v1.scores, id) == Seq::<ScoreRecord>::empty()
            &&& delete_game_spec(v1, name, key) == (v1, Err::<u64, ErrorView>(ErrorView::NoSuchGame(name)))
        }),
{
    let i = v.game_index(name);
    let id = v.games[i].game_id;
    let v1 = v.without_game(i);
    v.lemma_without_game_wf(i);
    assert forall|j: int| 0 <= j < v1.games.len() implies #[trigger] v1.games[j].name != name by {
        let j0 = if j < i { j } else { j + 1 };
        assert(v1.games[j] == v.games[j0]);
    }
    lemma_scores_without_kept(v.scores, id);
    lemma_records_of_absent(v1.scores, id);
}

} // verus!
