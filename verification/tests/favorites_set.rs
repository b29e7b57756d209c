use pulsedeck::favorites_set::FavoritesSet;

#[test]
fn toggle_adds_url_to_empty_set() {
    let mut set = FavoritesSet::default();
    let result = set.toggle("http://example.com/stream");
    assert!(result);
    assert!(set.contains("http://example.com/stream"));
    assert_eq!(set.len(), 1);
}

#[test]
fn toggle_removes_url_when_already_favorited() {
    let mut set = FavoritesSet::default();
    set.toggle("http://example.com/stream");
    let result = set.toggle("http://example.com/stream");
    assert!(!result);
    assert!(!set.contains("http://example.com/stream"));
    assert_eq!(set.len(), 0);
}

#[test]
fn contains_returns_true_after_toggle_on() {
    let mut set = FavoritesSet::default();
    set.toggle("http://example.com/stream");
    assert!(set.contains("http://example.com/stream"));
}

#[test]
fn contains_returns_false_for_empty_url() {
    let mut set = FavoritesSet::default();
    set.toggle("http://example.com/stream");
    assert!(!set.contains(""));
}

#[test]
fn contains_returns_false_for_whitespace_only_url() {
    let mut set = FavoritesSet::default();
    set.toggle("http://example.com/stream");
    assert!(!set.contains("   "));
    assert!(!set.contains("\t\n"));
}

#[test]
fn toggle_returns_false_for_empty_url() {
    let mut set = FavoritesSet::default();
    assert!(!set.toggle(""));
    assert!(set.is_empty());
}

#[test]
fn toggle_returns_false_for_whitespace_only_url() {
    let mut set = FavoritesSet::default();
    assert!(!set.toggle("   "));
    assert!(set.is_empty());
}

#[test]
fn url_normalization_equivalence_trailing_slash() {
    let mut set = FavoritesSet::default();
    set.toggle("http://example.com/stream/");
    assert!(set.contains("http://example.com/stream"));
    assert!(set.contains("http://example.com/stream/"));
}

#[test]
fn url_normalization_equivalence_case() {
    let mut set = FavoritesSet::default();
    set.toggle("HTTP://Example.COM/Stream");
    assert!(set.contains("http://example.com/stream"));
    assert!(set.contains("HTTP://EXAMPLE.COM/STREAM"));
}

#[test]
fn url_normalization_equivalence_whitespace() {
    let mut set = FavoritesSet::default();
    set.toggle("  http://example.com/stream  ");
    assert!(set.contains("http://example.com/stream"));
    assert!(set.contains("  http://example.com/stream  "));
}

#[test]
fn toggle_self_inverse() {
    let mut set = FavoritesSet::default();
    let url = "http://example.com/stream";

    // Initially not contained
    assert!(!set.contains(url));

    // First toggle adds
    set.toggle(url);
    assert!(set.contains(url));

    // Second toggle removes — back to the initial state
    set.toggle(url);
    assert!(!set.contains(url));
}

#[test]
fn toggle_self_inverse_with_normalized_variants() {
    let mut set = FavoritesSet::default();

    // Toggle with one variant
    set.toggle("http://example.com/stream/");
    assert!(set.contains("http://example.com/stream"));

    // Toggle off with a different variant of the same URL
    set.toggle("  HTTP://Example.COM/stream  ");
    assert!(!set.contains("http://example.com/stream"));
}

#[test]
fn len_and_is_empty() {
    let mut set = FavoritesSet::default();
    assert!(set.is_empty());
    assert_eq!(set.len(), 0);

    set.toggle("http://a.com");
    assert!(!set.is_empty());
    assert_eq!(set.len(), 1);

    set.toggle("http://b.com");
    assert_eq!(set.len(), 2);

    set.toggle("http://a.com");
    assert_eq!(set.len(), 1);
}


#[test]
fn stored_urls_round_trip_through_from_stored() {
    let mut set = FavoritesSet::new();
    set.toggle("http://example.com/stream");
    set.toggle("HTTP://Other.com/radio/");
    let stored = set.stored_urls();
    assert_eq!(stored.len(), 2);
    let again = FavoritesSet::from_stored(stored.clone());
    assert_eq!(again.stored_urls(), stored);
    assert!(again.contains("http://example.com/stream"));
    assert!(again.contains("http://other.com/radio"));
}

#[test]
fn from_stored_keeps_each_key_once() {
    let set = FavoritesSet::from_stored(vec!["a".to_string(), "b".to_string(), "a".to_string()]);
    assert_eq!(set.len(), 2);
    assert_eq!(set.stored_urls(), vec!["a".to_string(), "b".to_string()]);
}

#[test]
fn toggle_changes_the_size_by_one() {
    let mut set = FavoritesSet::default();
    assert!(set.toggle("http://a.example/stream"));
    assert!(set.toggle("http://b.example/stream"));
    assert_eq!(set.len(), 2);
    assert!(!set.toggle("HTTP://A.EXAMPLE/stream/"));
    assert_eq!(set.len(), 1);
    assert!(!set.toggle("   "));
    assert_eq!(set.len(), 1);
}
