use online_leaderboard::authority::AuthorityLevel;
use online_leaderboard::database_keys::{ApiKey, GameKeys, StringKey};
use online_leaderboard::leaderboard::Leaderboard;
use online_leaderboard::request_error::RequestError;
use online_leaderboard::requests::{
    add_score, authorize_fetched, check_fetched_game, check_game, create_game,
    create_game_with_keys, delete_game, get_scores, index, validate_new_game,
};
use online_leaderboard::score::ScoreRecord;
use online_leaderboard::store::{Database, GameRecord};

const TEST_GAME_NAME: &str = "test_game";

fn fixed_keys() -> GameKeys {
    GameKeys {
        read_key: StringKey::new("readkey001".to_string()),
        write_key: StringKey::new("writekey01".to_string()),
        admin_key: StringKey::new("adminkey000000000001".to_string()),
    }
}

fn no_such_game(name: &str) -> RequestError {
    RequestError::NoSuchGame { game_name: name.to_string() }
}

#[test]
fn empty_name_is_invalid() {
    let mut db = Database::new();
    assert_eq!(
        create_game("", &mut db).err(),
        Some(RequestError::InvalidGameName { game_name: String::new() })
    );
    create_game("other", &mut db).unwrap();
    assert_eq!(
        create_game("", &mut db).err(),
        Some(RequestError::InvalidGameName { game_name: String::new() })
    );
    assert_eq!(check_game("", None, &db).err(), Some(no_such_game("")));
}

#[test]
fn second_create_with_same_name_conflicts() {
    let mut db = Database::new();
    let (id, _) = create_game(TEST_GAME_NAME, &mut db).unwrap();
    assert_eq!(
        create_game(TEST_GAME_NAME, &mut db).err(),
        Some(RequestError::GameAlreadyExists { game_name: TEST_GAME_NAME.to_string() })
    );
    assert_eq!(
        check_game(TEST_GAME_NAME, None, &db),
        Ok((id, AuthorityLevel::Unauthorized))
    );
    let (other, _) = create_game("Test_game", &mut db).unwrap();
    assert_ne!(other, id);
}

#[test]
fn fresh_game_resolves_each_key() {
    let mut db = Database::new();
    let (id, keys) = create_game(TEST_GAME_NAME, &mut db).unwrap();
    let check = |key: Option<&str>| check_game(TEST_GAME_NAME, key.map(ApiKey), &db);
    assert_eq!(check(None), Ok((id, AuthorityLevel::Unauthorized)));
    assert_eq!(check(Some(keys.read_key.inner())), Ok((id, AuthorityLevel::Read)));
    assert_eq!(check(Some(keys.write_key.inner())), Ok((id, AuthorityLevel::Write)));
    assert_eq!(check(Some(keys.admin_key.inner())), Ok((id, AuthorityLevel::Admin)));
    assert_eq!(check(Some("garbage")), Ok((id, AuthorityLevel::Unauthorized)));
}

#[test]
fn deleting_unknown_game_fails() {
    let mut db = Database::new();
    assert_eq!(
        delete_game(TEST_GAME_NAME, ApiKey("anything"), &mut db),
        Err(no_such_game(TEST_GAME_NAME))
    );
    create_game("other", &mut db).unwrap();
    assert_eq!(
        delete_game(TEST_GAME_NAME, ApiKey("anything"), &mut db),
        Err(no_such_game(TEST_GAME_NAME))
    );
}

#[test]
fn create_append_list_delete() {
    let mut db = Database::new();
    let (id, keys) = create_game(TEST_GAME_NAME, &mut db).unwrap();
    assert_eq!(id, 1);
    let r = keys.read_key.inner();
    let w = keys.write_key.inner();
    let a = keys.admin_key.inner();
    assert_eq!(add_score(TEST_GAME_NAME, ScoreRecord::new(10, None), ApiKey(w), &mut db), Ok(()));
    assert_eq!(
        add_score(TEST_GAME_NAME, ScoreRecord::new(5, None), ApiKey(r), &mut db),
        Err(RequestError::Forbidden)
    );
    assert_eq!(
        get_scores(TEST_GAME_NAME, ApiKey(r), &db),
        Ok(vec![ScoreRecord::new(10, None)])
    );
    assert_eq!(delete_game(TEST_GAME_NAME, ApiKey(a), &mut db), Ok(1));
    assert_eq!(
        delete_game(TEST_GAME_NAME, ApiKey(a), &mut db),
        Err(no_such_game(TEST_GAME_NAME))
    );
}

#[test]
fn appended_scores_are_listed_verbatim() {
    let mut db = Database::new();
    let (_, keys) = create_game(TEST_GAME_NAME, &mut db).unwrap();
    let scores = vec![
        ScoreRecord::new(10, None),
        ScoreRecord::new(-3, Some("good guy".to_owned())),
        ScoreRecord::new(31, None),
        ScoreRecord::new(10, None),
    ];
    for record in &scores {
        let key = ApiKey(keys.admin_key.inner());
        assert_eq!(add_score(TEST_GAME_NAME, record.clone(), key, &mut db), Ok(()));
    }
    assert_eq!(get_scores(TEST_GAME_NAME, ApiKey(keys.read_key.inner()), &db), Ok(scores.clone()));
    assert_eq!(get_scores(TEST_GAME_NAME, ApiKey(keys.admin_key.inner()), &db), Ok(scores));
    assert_eq!(delete_game(TEST_GAME_NAME, ApiKey(keys.admin_key.inner()), &mut db), Ok(4));
}

#[test]
fn new_game_lists_nothing_and_delete_counts_zero() {
    let mut db = Database::new();
    let (_, keys) = create_game(TEST_GAME_NAME, &mut db).unwrap();
    assert_eq!(get_scores(TEST_GAME_NAME, ApiKey(keys.read_key.inner()), &db), Ok(vec![]));
    assert_eq!(delete_game(TEST_GAME_NAME, ApiKey(keys.admin_key.inner()), &mut db), Ok(0));
}

#[test]
fn tiers_are_enforced_per_operation() {
    let mut db = Database::new();
    let (_, keys) = create_game(TEST_GAME_NAME, &mut db).unwrap();
    let r = keys.read_key.inner();
    let w = keys.write_key.inner();
    assert_eq!(
        add_score(TEST_GAME_NAME, ScoreRecord::new(1, None), ApiKey("nope"), &mut db),
        Err(RequestError::Unauthorized)
    );
    assert_eq!(get_scores(TEST_GAME_NAME, ApiKey("nope"), &db), Err(RequestError::Unauthorized));
    assert_eq!(delete_game(TEST_GAME_NAME, ApiKey("nope"), &mut db), Err(RequestError::Unauthorized));
    assert_eq!(delete_game(TEST_GAME_NAME, ApiKey(r), &mut db), Err(RequestError::Forbidden));
    assert_eq!(delete_game(TEST_GAME_NAME, ApiKey(w), &mut db), Err(RequestError::Forbidden));
    assert_eq!(get_scores(TEST_GAME_NAME, ApiKey(w), &db), Ok(vec![]));
    assert_eq!(
        add_score("missing", ScoreRecord::new(1, None), ApiKey(w), &mut db),
        Err(no_such_game("missing"))
    );
    assert_eq!(get_scores("missing", ApiKey(r), &db), Err(no_such_game("missing")));
}

#[test]
fn delete_removes_only_its_own_scores() {
    let mut db = Database::new();
    let (_, k1) = create_game("one", &mut db).unwrap();
    let (_, k2) = create_game("two", &mut db).unwrap();
    add_score("one", ScoreRecord::new(1, None), ApiKey(k1.write_key.inner()), &mut db).unwrap();
    add_score("two", ScoreRecord::new(2, None), ApiKey(k2.write_key.inner()), &mut db).unwrap();
    add_score("one", ScoreRecord::new(3, None), ApiKey(k1.write_key.inner()), &mut db).unwrap();
    assert_eq!(delete_game("one", ApiKey(k1.admin_key.inner()), &mut db), Ok(2));
    assert_eq!(
        get_scores("two", ApiKey(k2.read_key.inner()), &db),
        Ok(vec![ScoreRecord::new(2, None)])
    );
}

#[test]
fn recreated_game_gets_new_id_and_keys() {
    let mut db = Database::new();
    let (id1, keys1) = create_game(TEST_GAME_NAME, &mut db).unwrap();
    add_score(TEST_GAME_NAME, ScoreRecord::new(7, None), ApiKey(keys1.write_key.inner()), &mut db)
        .unwrap();
    delete_game(TEST_GAME_NAME, ApiKey(keys1.admin_key.inner()), &mut db).unwrap();
    let (id2, keys2) = create_game(TEST_GAME_NAME, &mut db).unwrap();
    assert_eq!((id1, id2), (1, 2));
    assert_ne!(keys1.admin_key.inner(), keys2.admin_key.inner());
    assert_eq!(
        check_game(TEST_GAME_NAME, Some(ApiKey(keys1.admin_key.inner())), &db),
        Ok((id2, AuthorityLevel::Unauthorized))
    );
    assert_eq!(get_scores(TEST_GAME_NAME, ApiKey(keys2.read_key.inner()), &db), Ok(vec![]));
}

#[test]
fn create_with_given_keys_returns_them() {
    let mut db = Database::new();
    assert!(db.has_room());
    let (id, keys) = create_game_with_keys("chess", fixed_keys(), &mut db).unwrap();
    assert_eq!(id, 1);
    assert_eq!(keys.admin_key.inner(), "adminkey000000000001");
    assert_eq!(
        check_game("chess", Some(ApiKey("writekey01")), &db),
        Ok((1, AuthorityLevel::Write))
    );
    assert_eq!(
        create_game_with_keys("chess", fixed_keys(), &mut db).err(),
        Some(RequestError::GameAlreadyExists { game_name: "chess".to_string() })
    );
}

#[test]
fn decisions_on_fetched_rows() {
    let game = GameRecord { game_id: 7, game_name: "chess".to_string(), keys: fixed_keys() };
    assert_eq!(check_fetched_game("chess", None, &None), Err(no_such_game("chess")));
    assert_eq!(
        check_fetched_game("chess", Some(&game), &Some(ApiKey("readkey001"))),
        Ok((7, AuthorityLevel::Read))
    );
    assert_eq!(
        authorize_fetched("chess", Some(&game), &Some(ApiKey("readkey001")), AuthorityLevel::Write),
        Err(RequestError::Forbidden)
    );
    assert_eq!(
        authorize_fetched("chess", Some(&game), &None, AuthorityLevel::Read),
        Err(RequestError::Unauthorized)
    );
    assert_eq!(
        authorize_fetched("chess", Some(&game), &Some(ApiKey("writekey01")), AuthorityLevel::Write),
        Ok(7)
    );
    assert_eq!(
        authorize_fetched("chess", None, &Some(ApiKey("writekey01")), AuthorityLevel::Read),
        Err(no_such_game("chess"))
    );
    assert_eq!(
        validate_new_game("", true),
        Err(RequestError::InvalidGameName { game_name: String::new() })
    );
    assert_eq!(
        validate_new_game("chess", true),
        Err(RequestError::GameAlreadyExists { game_name: "chess".to_string() })
    );
    assert_eq!(validate_new_game("chess", false), Ok(()));
}

#[test]
fn root_greeting() {
    assert_eq!(index(), "This is an online leaderboard server!");
}

#[test]
fn leaderboard_keeps_insertion_order() {
    let mut board = Leaderboard::new(vec![3, 1]);
    board.add(2);
    let items: Vec<i32> = board.iter().copied().collect();
    assert_eq!(items, vec![3, 1, 2]);
    let empty: Leaderboard<u8> = Leaderboard::new(Vec::new());
    assert_eq!(empty.iter().count(), 0);
}

#[test]
fn delete_unexistent() {
    let mut db = Database::new();
    let response = delete_game(TEST_GAME_NAME, ApiKey("key"), &mut db);
    assert!(response.is_err());
}

#[test]
fn create_delete_game() {
    let mut db = Database::new();
    let (game_id, keys) = create_game(TEST_GAME_NAME, &mut db).unwrap();
    assert_eq!(check_game(TEST_GAME_NAME, None, &db).map(|r| r.0), Ok(game_id));
    let response = delete_game(TEST_GAME_NAME, ApiKey(keys.admin_key.inner()), &mut db);
    assert_eq!(response, Ok(0));
    assert!(check_game(TEST_GAME_NAME, None, &db).is_err());
}

#[test]
fn create_add_delete_game() {
    let mut db = Database::new();
    let (game_id, keys) = create_game(TEST_GAME_NAME, &mut db).unwrap();
    assert_eq!(check_game(TEST_GAME_NAME, None, &db).map(|r| r.0), Ok(game_id));
    let response =
        add_score(TEST_GAME_NAME, ScoreRecord::new(10, None), ApiKey(keys.write_key.inner()), &mut db);
    assert!(response.is_ok());
    let response = delete_game(TEST_GAME_NAME, ApiKey(keys.admin_key.inner()), &mut db);
    assert_eq!(response, Ok(1));
}

#[test]
fn create_add_get_delete_game() {
    let mut db = Database::new();
    let (game_id, keys) = create_game(TEST_GAME_NAME, &mut db).unwrap();
    assert_eq!(check_game(TEST_GAME_NAME, None, &db).map(|r| r.0), Ok(game_id));
    let scores = vec![
        ScoreRecord::new(10, None),
        ScoreRecord::new(-3, Some("good guy".to_owned())),
        ScoreRecord::new(31, None),
    ];
    let scores_len = scores.len();
    for score_record in &scores {
        let key = ApiKey(keys.write_key.inner());
        let response = add_score(TEST_GAME_NAME, score_record.clone(), key, &mut db);
        assert!(response.is_ok());
    }
    let response = get_scores(TEST_GAME_NAME, ApiKey(keys.read_key.inner()), &db);
    assert_eq!(response, Ok(scores));
    let response = delete_game(TEST_GAME_NAME, ApiKey(keys.admin_key.inner()), &mut db);
    assert_eq!(response, Ok(scores_len as u64));
}
