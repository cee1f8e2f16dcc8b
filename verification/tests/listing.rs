use cloudflare_r2_rs::KeyListing;
use cloudflare_r2_rs::ListAction;
use cloudflare_r2_rs::ListPage;

fn key(s: &str) -> Option<String> {
    Some(s.to_string())
}

#[test]
fn empty_traversal_yields_no_keys() {
    let listing = KeyListing::new();
    assert_eq!(listing.into_keys(), Vec::<String>::new());
}

#[test]
fn single_page_collects_keys_in_order() {
    let mut listing = KeyListing::new();
    let action = listing.absorb(ListPage {
        keys: vec![key("a"), key("b"), key("c")],
        is_truncated: Some(false),
        next_token: None,
    });
    assert!(matches!(action, ListAction::Done));
    assert_eq!(listing.into_keys(), vec!["a", "b", "c"]);
}

#[test]
fn entries_without_a_key_are_skipped() {
    let mut listing = KeyListing::new();
    listing.absorb(ListPage {
        keys: vec![key("a"), None, key("c"), None],
        is_truncated: None,
        next_token: None,
    });
    assert_eq!(listing.into_keys(), vec!["a", "c"]);
}

#[test]
fn truncated_page_asks_for_the_next_one_with_its_token() {
    let mut listing = KeyListing::new();
    let action = listing.absorb(ListPage {
        keys: vec![key("a")],
        is_truncated: Some(true),
        next_token: Some("cursor-1".to_string()),
    });
    match action {
        ListAction::FetchMore(token) => assert_eq!(token.as_deref(), Some("cursor-1")),
        ListAction::Done => panic!("expected the traversal to go on"),
    }
}

#[test]
fn multi_page_traversal_returns_every_key_exactly_once() {
    let mut listing = KeyListing::new();
    let first = listing.absorb(ListPage {
        keys: vec![key("k1"), key("k2"), key("k3")],
        is_truncated: Some(true),
        next_token: Some("cursor".to_string()),
    });
    assert!(matches!(first, ListAction::FetchMore(_)));
    let second = listing.absorb(ListPage {
        keys: vec![key("k4"), key("k5")],
        is_truncated: Some(false),
        next_token: None,
    });
    assert!(matches!(second, ListAction::Done));
    let keys = listing.into_keys();
    assert_eq!(keys, vec!["k1", "k2", "k3", "k4", "k5"]);
    for k in ["k1", "k2", "k3", "k4", "k5"] {
        assert_eq!(keys.iter().filter(|x| *x == k).count(), 1);
    }
}

#[test]
fn missing_truncation_flag_ends_the_traversal() {
    let mut listing = KeyListing::new();
    let action = listing.absorb(ListPage {
        keys: vec![],
        is_truncated: None,
        next_token: Some("ignored".to_string()),
    });
    assert!(matches!(action, ListAction::Done));
}
