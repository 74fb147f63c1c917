use drive_ocr::config::Dsn;
use drive_ocr::storage::Redis;

fn dsn() -> Dsn {
    Dsn {
        scheme: "redis".to_string(),
        username: String::new(),
        password: None,
        host: Some("localhost".to_string()),
        port: Some(6379),
        path: "/1".to_string(),
    }
}

#[test]
fn the_storage_of_a_token_is_on_the_same_server() {
    let redis = Redis::from_dsn(dsn());
    assert_eq!(redis.dsn, dsn());
    let storage = redis.get_storage(42);
    assert_eq!(storage.token_id, 42);
    assert_eq!(storage.dsn, dsn());
}

#[test]
fn the_key_is_the_token_id_and_the_digest_of_the_scopes() {
    let storage = Redis::from_dsn(dsn()).get_storage(1);
    assert_eq!(
        storage.get_key(&Vec::new()),
        "00000000-0000-0000-0000-000000000001_e3b0c44298fc1c149afbf4c8996fb92427ae41e4649b934ca495991b7852b855"
    );
    assert_eq!(
        storage.get_key(&vec!["abc".to_string()]),
        "00000000-0000-0000-0000-000000000001_ba7816bf8f01cfea414140de5dae2223b00361a396177a9cb410ff61f20015ad"
    );
    let storage = Redis::from_dsn(dsn()).get_storage(0x0189f7e05f3a7c1e8a2b0123456789ab);
    assert_eq!(
        storage.get_key(&vec!["https://www.googleapis.com/auth/drive".to_string()]),
        "0189f7e0-5f3a-7c1e-8a2b-0123456789ab_9004890e41960e0cc65056cd51bf9d9a5d5b5149f17eced19e4d96051176d721"
    );
}

#[test]
fn scopes_are_hashed_one_after_the_other() {
    let storage = Redis::from_dsn(dsn()).get_storage(1);
    let whole = storage.get_key(&vec!["abc".to_string()]);
    assert_eq!(storage.get_key(&vec!["a".to_string(), "bc".to_string()]), whole);
    assert_eq!(storage.get_key(&vec!["ab".to_string(), String::new(), "c".to_string()]), whole);
    assert_ne!(storage.get_key(&vec!["bc".to_string(), "a".to_string()]), whole);
}

#[test]
fn scopes_are_hashed_as_utf8() {
    let storage = Redis::from_dsn(dsn()).get_storage(1);
    assert_eq!(
        storage.get_key(&vec!["aé".to_string()]),
        "00000000-0000-0000-0000-000000000001_561951c2b8c47984b8b4b8ae1f173a03d9c703f66cf36f145e27bc6145499f74"
    );
}

#[test]
fn every_key_has_101_characters() {
    for token_id in [0, 1, u128::MAX, 0x0189f7e05f3a7c1e8a2b0123456789ab] {
        let storage = Redis::from_dsn(dsn()).get_storage(token_id);
        for scopes in [Vec::new(), vec!["a".to_string()], vec!["x".repeat(500), "y".to_string()]] {
            assert_eq!(storage.get_key(&scopes).chars().count(), 101);
        }
    }
}

#[test]
fn keys_of_different_tokens_differ() {
    let scopes = vec!["abc".to_string()];
    let one = Redis::from_dsn(dsn()).get_storage(1).get_key(&scopes);
    let two = Redis::from_dsn(dsn()).get_storage(2).get_key(&scopes);
    assert_ne!(one, two);
    assert_eq!(one[36..], two[36..]);
}
