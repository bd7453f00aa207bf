use civic_graph::cache::{LoadError, ResultCache};
use civic_graph::ident::{parse_id, InvalidId};
use civic_graph::key::{key_in, keys_of_identifiers, Key, KeyKind};
use civic_graph::batch::{Batch, BatchWindow};
use civic_graph::loader::Loader;
use civic_graph::politician::{PoliticianMutation, PoliticianQuery};

fn id(n: u128) -> Key {
    Key::ById(n)
}

fn slug(s: &str) -> Key {
    Key::BySlug(s.to_string())
}

#[test]
fn five_loads_of_three_ids_make_one_fetch_of_three_keys() {
    let mut loader: Loader<String> = Loader::new();
    for n in [1u128, 2, 1, 3, 2] {
        assert!(loader.load(id(n)).is_none());
    }
    let batches = loader.flush();
    assert_eq!(batches.len(), 1);
    assert_eq!(batches[0].kind, KeyKind::Id);
    assert_eq!(batches[0].keys, vec![id(1), id(2), id(3)]);
}

#[test]
fn kinds_are_fetched_apart() {
    let mut loader: Loader<String> = Loader::new();
    loader.load(slug("b"));
    loader.load(id(7));
    loader.load(slug("a"));
    loader.load(slug("b"));
    let batches = loader.flush();
    assert_eq!(batches.len(), 2);
    assert_eq!(batches[0].kind, KeyKind::Id);
    assert_eq!(batches[0].keys, vec![id(7)]);
    assert_eq!(batches[1].kind, KeyKind::Slug);
    assert_eq!(batches[1].keys, vec![slug("b"), slug("a")]);
}

#[test]
fn flush_of_an_empty_window_fetches_nothing() {
    let mut loader: Loader<u8> = Loader::new();
    assert!(loader.flush().is_empty());
}

#[test]
fn a_new_window_opens_after_a_flush() {
    let mut loader: Loader<u8> = Loader::new();
    loader.load(id(1));
    let first = loader.flush();
    assert_eq!(first.len(), 1);
    assert!(loader.flush().is_empty());
    loader.load(id(2));
    let second = loader.flush();
    assert_eq!(second.len(), 1);
    assert_eq!(second[0].keys, vec![id(2)]);
}

#[test]
fn a_key_left_out_is_not_found_and_its_siblings_resolve() {
    let mut loader: Loader<String> = Loader::new();
    loader.load_many(&vec![id(1), id(2), id(3)]);
    let mut batches = loader.flush();
    let batch = batches.pop().unwrap();
    loader.complete(
        batch,
        Ok(vec![(id(3), "three".to_string()), (id(1), "one".to_string())]),
    );
    assert_eq!(loader.get(&id(1)), Some(&Ok("one".to_string())));
    assert_eq!(loader.get(&id(2)), Some(&Err(LoadError::NotFound)));
    assert_eq!(loader.get(&id(3)), Some(&Ok("three".to_string())));
    assert_eq!(loader.get(&id(4)), None);
}

#[test]
fn a_failed_fetch_fails_every_key_of_its_batch_only() {
    let mut loader: Loader<String> = Loader::new();
    loader.load(id(1));
    loader.load(slug("x"));
    loader.load(id(2));
    let mut batches = loader.flush();
    let slugs = batches.pop().unwrap();
    let ids = batches.pop().unwrap();
    loader.complete(ids, Err("connection reset".to_string()));
    loader.complete(slugs, Ok(vec![(slug("x"), "ex".to_string())]));
    let failed = Err(LoadError::FetchFailed("connection reset".to_string()));
    assert_eq!(loader.get(&id(1)), Some(&failed));
    assert_eq!(loader.get(&id(2)), Some(&failed));
    assert_eq!(loader.get(&slug("x")), Some(&Ok("ex".to_string())));
}

#[test]
fn a_resolved_key_is_answered_from_the_cache() {
    let mut loader: Loader<String> = Loader::new();
    loader.load(id(1));
    let mut batches = loader.flush();
    loader.complete(batches.pop().unwrap(), Ok(vec![(id(1), "one".to_string())]));
    for _ in 0..3 {
        assert_eq!(loader.load(id(1)), Some(&Ok("one".to_string())));
        assert_eq!(loader.get(&id(1)), Some(&Ok("one".to_string())));
    }
    assert!(loader.flush().is_empty());
}

#[test]
fn a_resolved_error_is_answered_from_the_cache_too() {
    let mut loader: Loader<String> = Loader::new();
    loader.load(id(9));
    let mut batches = loader.flush();
    loader.complete(batches.pop().unwrap(), Ok(vec![]));
    assert_eq!(loader.load(id(9)), Some(&Err(LoadError::NotFound)));
    assert_eq!(loader.get(&id(9)), Some(&Err(LoadError::NotFound)));
    assert!(loader.flush().is_empty());
}

#[test]
fn what_has_resolved_is_never_overwritten() {
    let mut loader: Loader<String> = Loader::new();
    loader.load(id(1));
    let mut batches = loader.flush();
    loader.complete(batches.pop().unwrap(), Ok(vec![(id(1), "one".to_string())]));
    let again = Batch { kind: KeyKind::Id, keys: vec![id(1), id(2)] };
    loader.complete(again, Ok(vec![(id(1), "uno".to_string()), (id(2), "dos".to_string())]));
    assert_eq!(loader.get(&id(1)), Some(&Ok("one".to_string())));
    assert_eq!(loader.get(&id(2)), Some(&Ok("dos".to_string())));
}

#[test]
fn entities_for_keys_outside_the_batch_are_ignored() {
    let mut loader: Loader<String> = Loader::new();
    loader.load(id(1));
    let mut batches = loader.flush();
    loader.complete(
        batches.pop().unwrap(),
        Ok(vec![(id(5), "five".to_string()), (id(1), "one".to_string())]),
    );
    assert_eq!(loader.get(&id(1)), Some(&Ok("one".to_string())));
    assert_eq!(loader.get(&id(5)), None);
}

#[test]
fn the_last_entry_for_a_key_counts() {
    let mut loader: Loader<u32> = Loader::new();
    loader.load(id(1));
    let mut batches = loader.flush();
    loader.complete(batches.pop().unwrap(), Ok(vec![(id(1), 10), (id(1), 11)]));
    assert_eq!(loader.get(&id(1)), Some(&Ok(11)));
}

#[test]
fn load_many_answers_in_the_order_asked() {
    let mut loader: Loader<u32> = Loader::new();
    let keys = vec![id(3), id(1), id(3), slug("s"), id(2)];
    loader.load_many(&keys);
    let batches = loader.flush();
    assert_eq!(batches.len(), 2);
    assert_eq!(batches[0].keys, vec![id(3), id(1), id(2)]);
    for batch in batches {
        let found = batch
            .keys
            .iter()
            .filter_map(|k| match k {
                Key::ById(n) if *n != 2 => Some((k.clone(), *n as u32 * 10)),
                _ => None,
            })
            .collect();
        loader.complete(batch, Ok(found));
    }
    let answers = loader.get_many(&keys);
    assert_eq!(
        answers,
        vec![
            Some(&Ok(30)),
            Some(&Ok(10)),
            Some(&Ok(30)),
            Some(&Err(LoadError::NotFound)),
            Some(&Err(LoadError::NotFound)),
        ]
    );
}

#[test]
fn get_many_before_resolution_has_no_answers() {
    let mut loader: Loader<u32> = Loader::new();
    let keys = vec![id(1), id(2)];
    loader.load_many(&keys);
    assert_eq!(loader.get_many(&keys), vec![None, None]);
}

#[test]
fn a_new_loader_knows_nothing_of_an_earlier_one() {
    {
        let mut earlier: Loader<String> = Loader::new();
        earlier.load(id(1));
        earlier.load(id(2));
        let mut batches = earlier.flush();
        earlier.complete(batches.pop().unwrap(), Ok(vec![(id(1), "one".to_string())]));
        earlier.load(id(3));
    }
    let mut later: Loader<String> = Loader::new();
    assert_eq!(later.get(&id(1)), None);
    assert_eq!(later.get(&id(2)), None);
    assert!(later.flush().is_empty());
    assert!(later.load(id(1)).is_none());
    let batches = later.flush();
    assert_eq!(batches.len(), 1);
    assert_eq!(batches[0].keys, vec![id(1)]);
}

#[test]
fn a_discarded_window_leaves_the_cache_as_it_was() {
    let mut loader: Loader<u32> = Loader::new();
    loader.load(id(1));
    drop(loader.flush());
    assert_eq!(loader.get(&id(1)), None);
    assert!(loader.load(id(1)).is_none());
}

#[test]
fn keys_compare_by_kind_and_content() {
    assert!(id(1).same(&id(1)));
    assert!(!id(1).same(&id(2)));
    assert!(slug("a").same(&slug("a")));
    assert!(!slug("a").same(&slug("b")));
    assert!(!slug("1").same(&id(1)));
    assert_eq!(id(1).kind(), KeyKind::Id);
    assert_eq!(slug("a").kind(), KeyKind::Slug);
    assert_eq!(slug("a").duplicate(), slug("a"));
    assert!(key_in(&vec![id(1), slug("a")], &slug("a")));
    assert!(!key_in(&vec![id(1), slug("a")], &id(2)));
}

#[test]
fn cache_keeps_the_first_resolution() {
    let mut cache: ResultCache<u8> = ResultCache::new();
    assert!(!cache.contains(&id(1)));
    assert!(cache.remember(id(1), Ok(5)));
    assert!(cache.remember(slug("a"), Err(LoadError::NotFound)));
    assert!(!cache.remember(id(1), Ok(6)));
    assert!(cache.contains(&id(1)));
    assert_eq!(cache.get(&id(1)), Some(&Ok(5)));
    assert_eq!(cache.get(&slug("a")), Some(&Err(LoadError::NotFound)));
    assert_eq!(cache.get(&id(2)), None);
}

#[test]
fn parse_id_reads_uuid_text() {
    assert_eq!(
        parse_id("a1a2a3a4-b1b2-c1c2-d1d2-d3d4d5d6d7d8"),
        Ok(0xa1a2a3a4b1b2c1c2d1d2d3d4d5d6d7d8)
    );
    assert_eq!(parse_id("00000000-0000-0000-0000-000000000001"), Ok(1));
    assert_eq!(parse_id("not an id"), Err(InvalidId));
    assert_eq!(parse_id(""), Err(InvalidId));
}

#[test]
fn politician_by_id_asks_the_loader() {
    let mut loader: Loader<String> = Loader::new();
    let key =
        PoliticianQuery::politician_by_id(&mut loader, "00000000-0000-0000-0000-00000000002a")
            .unwrap();
    assert_eq!(key, id(42));
    let key2 =
        PoliticianQuery::politician_by_id(&mut loader, "00000000-0000-0000-0000-00000000002A")
            .unwrap();
    assert_eq!(key2, id(42));
    let batches = loader.flush();
    assert_eq!(batches.len(), 1);
    assert_eq!(batches[0].keys, vec![id(42)]);
}

#[test]
fn politician_by_id_refuses_a_bad_id_and_asks_nothing() {
    let mut loader: Loader<String> = Loader::new();
    assert_eq!(PoliticianQuery::politician_by_id(&mut loader, "42"), Err(InvalidId));
    assert!(loader.flush().is_empty());
    assert_eq!(PoliticianQuery::request_by_id(&mut loader, Err(InvalidId)), Err(InvalidId));
    assert_eq!(PoliticianQuery::request_by_id(&mut loader, Ok(3)), Ok(id(3)));
}

#[test]
fn politician_by_slug_asks_the_loader() {
    let mut loader: Loader<String> = Loader::new();
    let key = PoliticianQuery::politician_by_slug(&mut loader, "jane-doe".to_string());
    assert_eq!(key, slug("jane-doe"));
    let batches = loader.flush();
    assert_eq!(batches.len(), 1);
    assert_eq!(batches[0].kind, KeyKind::Slug);
    assert_eq!(batches[0].keys, vec![slug("jane-doe")]);
}

#[test]
fn an_identifier_is_an_id_if_it_reads_as_one() {
    assert_eq!(
        Key::from_identifier("00000000-0000-0000-0000-000000000007".to_string()),
        id(7)
    );
    assert_eq!(Key::from_identifier("jane-doe".to_string()), slug("jane-doe"));
    assert_eq!(Key::from_identifier(String::new()), slug(""));
}

#[test]
fn identifiers_become_keys_in_order() {
    let keys = keys_of_identifiers(vec![
        "acme".to_string(),
        "00000000-0000-0000-0000-000000000001".to_string(),
        "acme".to_string(),
    ]);
    assert_eq!(keys, vec![slug("acme"), id(1), slug("acme")]);
    assert!(keys_of_identifiers(vec![]).is_empty());
}

#[test]
fn a_window_closes_into_batches_and_is_empty_again() {
    let mut cache: ResultCache<u8> = ResultCache::new();
    cache.remember(id(2), Ok(2));
    let mut window = BatchWindow::new();
    window.register(id(1));
    window.register(id(2));
    window.register(slug("x"));
    window.register(id(1));
    let batches = window.close(&cache);
    assert_eq!(batches.len(), 2);
    assert_eq!(batches[0].keys, vec![id(1)]);
    assert_eq!(batches[1].keys, vec![slug("x")]);
    assert!(window.close(&cache).is_empty());
}

#[test]
fn a_window_of_resolved_keys_fetches_nothing() {
    let mut cache: ResultCache<u8> = ResultCache::new();
    cache.remember(id(1), Err(LoadError::NotFound));
    let mut window = BatchWindow::new();
    window.register(id(1));
    assert!(window.close(&cache).is_empty());
}

#[test]
fn a_cancelled_window_is_never_fetched() {
    let mut loader: Loader<u32> = Loader::new();
    loader.load(id(1));
    let mut batches = loader.flush();
    loader.complete(batches.pop().unwrap(), Ok(vec![(id(1), 1)]));
    loader.load(id(2));
    loader.load(slug("s"));
    loader.cancel();
    assert!(loader.flush().is_empty());
    assert_eq!(loader.get(&id(1)), Some(&Ok(1)));
    assert_eq!(loader.get(&id(2)), None);
}

#[test]
fn issue_tags_are_connected_up_to_the_first_bad_id() {
    let one = "00000000-0000-0000-0000-000000000001".to_string();
    let two = "00000000-0000-0000-0000-000000000002".to_string();
    assert_eq!(PoliticianMutation::issue_tag_connections(None), (vec![], None));
    assert_eq!(PoliticianMutation::issue_tag_connections(Some(vec![])), (vec![], None));
    assert_eq!(
        PoliticianMutation::issue_tag_connections(Some(vec![one.clone(), two.clone()])),
        (vec![1, 2], None)
    );
    assert_eq!(
        PoliticianMutation::issue_tag_connections(Some(vec![
            one.clone(),
            "taxes".to_string(),
            two.clone()
        ])),
        (vec![1], Some(InvalidId))
    );
    assert_eq!(
        PoliticianMutation::issue_tag_connections(Some(vec!["taxes".to_string(), one])),
        (vec![], Some(InvalidId))
    );
}

#[test]
fn endorsements_are_connected_by_id_or_by_slug() {
    assert!(PoliticianMutation::endorsement_connections(None).is_empty());
    assert_eq!(
        PoliticianMutation::endorsement_connections(Some(vec![
            "00000000-0000-0000-0000-000000000005".to_string(),
            "sierra-club".to_string(),
        ])),
        vec![id(5), slug("sierra-club")]
    );
}

#[test]
fn delete_politician_addresses_the_parsed_id() {
    assert_eq!(
        PoliticianMutation::delete_politician("00000000-0000-0000-0000-0000000000ff"),
        Ok(255)
    );
    assert_eq!(PoliticianMutation::delete_politician("ff"), Err(InvalidId));
}

#[test]
fn picture_names_and_addresses() {
    assert_eq!(PoliticianMutation::picture_filename("jane-doe"), "jane-doe-400");
    assert_eq!(PoliticianMutation::picture_filename(""), "-400");
    assert_eq!(
        PoliticianMutation::picture_url("https://assets.example/p/jane-doe-400.jpg", 1700000000),
        "https://assets.example/p/jane-doe-400.jpg?lastmod=1700000000"
    );
    assert_eq!(PoliticianMutation::picture_url("u", 0), "u?lastmod=0");
    assert_eq!(PoliticianMutation::picture_url("u", -5), "u?lastmod=-5");
    assert_eq!(
        PoliticianMutation::picture_url("u", i64::MIN),
        "u?lastmod=-9223372036854775808"
    );
    assert_eq!(PoliticianMutation::picture_url("u", i64::MAX), "u?lastmod=9223372036854775807");
}
