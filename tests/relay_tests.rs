use replay_control::relay::{first_two_players, relay_lines};

fn named(list: &[Option<&str>]) -> Option<Vec<Option<String>>> {
    Some(list.iter().map(|n| n.map(|s| s.to_string())).collect())
}

#[test]
fn two_named_players_are_announced() {
    let players = named(&[Some("Alice"), Some("Bob"), Some("Eve")]);
    let (a, b) = first_two_players(&players);
    assert_eq!(a, Some("Alice".to_string()));
    assert_eq!(b, Some("Bob".to_string()));
    let (line, link) = relay_lines(&"http://x/y".to_string(), a, b).unwrap();
    assert_eq!(line, "Now watching 'Alice' vs 'Bob'");
    assert_eq!(link, "Replay URL: http://x/y");
}

#[test]
fn missing_players_give_no_announcement() {
    assert_eq!(first_two_players(&None), (None, None));
    assert_eq!(first_two_players(&named(&[])), (None, None));
    let (a, b) = first_two_players(&named(&[Some("A")]));
    assert_eq!((a.clone(), b.clone()), (Some("A".to_string()), None));
    assert!(relay_lines(&"u".to_string(), a, b).is_none());
    let (a, b) = first_two_players(&named(&[None, Some("B")]));
    assert_eq!((a.clone(), b.clone()), (None, Some("B".to_string())));
    assert!(relay_lines(&"u".to_string(), a, b).is_none());
}
