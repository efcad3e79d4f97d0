use aranet_cli::alias::{book_of_pairs, precedes, AliasAction, AliasBook, AliasError};

fn pair(name: &str, address: &str) -> (String, String) {
    (name.to_string(), address.to_string())
}

fn sample() -> AliasBook {
    book_of_pairs(&vec![
        pair("office", "AA:BB:CC:DD:EE:01"),
        pair("bedroom", "AA:BB:CC:DD:EE:02"),
        pair("living-room", "AA:BB:CC:DD:EE:03"),
    ])
}

#[test]
fn names_are_ordered_as_strings_compare() {
    let names = ["", "a", "ab", "abc", "b", "B", "Z", "\u{e9}", "z", "office", "Office", "a\u{0}"];
    for a in names {
        for b in names {
            assert_eq!(precedes(a, b), a < b, "{:?} against {:?}", a, b);
        }
    }
}

#[test]
fn book_lists_aliases_in_the_order_of_their_names() {
    let book = sample();
    assert_eq!(book.len(), 3);
    assert!(!book.is_empty());
    assert_eq!(
        book.entries(),
        vec![
            pair("bedroom", "AA:BB:CC:DD:EE:02"),
            pair("living-room", "AA:BB:CC:DD:EE:03"),
            pair("office", "AA:BB:CC:DD:EE:01"),
        ]
    );
}

#[test]
fn book_of_pairs_lets_the_later_pair_decide() {
    let book = book_of_pairs(&vec![pair("a", "1"), pair("b", "2"), pair("a", "3")]);
    assert_eq!(book.entries(), vec![pair("a", "3"), pair("b", "2")]);
    assert!(book_of_pairs(&Vec::new()).is_empty());
}

#[test]
fn book_finds_what_it_holds() {
    let book = sample();
    assert!(book.contains("office"));
    assert!(!book.contains("kitchen"));
    assert!(!book.contains("Office"));
    assert_eq!(book.get("bedroom"), Some("AA:BB:CC:DD:EE:02".to_string()));
    assert_eq!(book.get("kitchen"), None);
    assert_eq!(AliasBook::new().get("office"), None);
}

#[test]
fn book_insert_says_whether_the_name_was_known() {
    let mut book = AliasBook::new();
    assert!(!book.insert("office".to_string(), "1".to_string()));
    assert!(!book.insert("attic".to_string(), "2".to_string()));
    assert!(book.insert("office".to_string(), "3".to_string()));
    assert_eq!(book.entries(), vec![pair("attic", "2"), pair("office", "3")]);
    assert_eq!(book.len(), 2);
}

#[test]
fn book_remove_hands_back_the_address() {
    let mut book = sample();
    assert_eq!(book.remove("living-room"), Some("AA:BB:CC:DD:EE:03".to_string()));
    assert_eq!(book.remove("living-room"), None);
    assert_eq!(
        book.entries(),
        vec![pair("bedroom", "AA:BB:CC:DD:EE:02"), pair("office", "AA:BB:CC:DD:EE:01")]
    );
}

#[test]
fn listing_an_empty_book_says_how_to_fill_it() {
    let mut book = AliasBook::new();
    let outcome = book.apply(AliasAction::List, false).unwrap();
    assert!(!outcome.changed);
    assert_eq!(
        outcome.lines,
        vec![
            "No aliases configured.",
            "",
            "Add an alias with: aranet alias set <name> <address>",
        ]
    );
    let outcome = book.apply(AliasAction::List, true).unwrap();
    assert!(outcome.lines.is_empty());
}

#[test]
fn listing_shows_a_heading_and_sorted_entries_even_when_quiet() {
    for quiet in [false, true] {
        let mut book = sample();
        let outcome = book.apply(AliasAction::List, quiet).unwrap();
        assert!(!outcome.changed);
        assert_eq!(
            outcome.lines,
            vec![
                "Device Aliases:",
                "────────────────────────────────────",
                "  bedroom → AA:BB:CC:DD:EE:02",
                "  living-room → AA:BB:CC:DD:EE:03",
                "  office → AA:BB:CC:DD:EE:01",
            ]
        );
        assert_eq!(book.len(), 3);
    }
}

#[test]
fn assigning_adds_or_updates() {
    let mut book = sample();
    let outcome = book
        .apply(
            AliasAction::Assign { name: "kitchen".to_string(), address: "X".to_string() },
            false,
        )
        .unwrap();
    assert!(outcome.changed);
    assert_eq!(outcome.lines, vec!["Added alias 'kitchen' → X"]);
    let outcome = book
        .apply(
            AliasAction::Assign { name: "kitchen".to_string(), address: "Y".to_string() },
            false,
        )
        .unwrap();
    assert!(outcome.changed);
    assert_eq!(outcome.lines, vec!["Updated alias 'kitchen' → Y"]);
    assert_eq!(book.get("kitchen"), Some("Y".to_string()));
    let outcome = book
        .apply(
            AliasAction::Assign { name: "attic".to_string(), address: "Z".to_string() },
            true,
        )
        .unwrap();
    assert!(outcome.changed);
    assert!(outcome.lines.is_empty());
    assert_eq!(book.len(), 5);
}

#[test]
fn assigning_a_name_that_looks_like_an_address_is_refused() {
    let mut book = sample();
    let err = book
        .apply(
            AliasAction::Assign {
                name: "AA:BB:CC:DD:EE:FF".to_string(),
                address: "AA:BB:CC:DD:EE:FF".to_string(),
            },
            false,
        )
        .unwrap_err();
    assert!(matches!(&err, AliasError::LooksLikeAddress { name } if name == "AA:BB:CC:DD:EE:FF"));
    assert_eq!(
        err.message(),
        "Alias name 'AA:BB:CC:DD:EE:FF' looks like a device address. \
         Use a friendly name instead (e.g., 'living-room', 'office')."
    );
    assert_eq!(book.len(), 3);
    assert!(!book.contains("AA:BB:CC:DD:EE:FF"));
}

#[test]
fn removing_forgets_a_known_name_only() {
    let mut book = sample();
    let outcome = book.apply(AliasAction::Remove { name: "office".to_string() }, false).unwrap();
    assert!(outcome.changed);
    assert_eq!(outcome.lines, vec!["Removed alias 'office'"]);
    assert!(!book.contains("office"));
    let err = book.apply(AliasAction::Remove { name: "office".to_string() }, false).unwrap_err();
    assert!(matches!(&err, AliasError::NotFound { name } if name == "office"));
    assert_eq!(err.message(), "Alias 'office' not found");
    let outcome = book.apply(AliasAction::Remove { name: "bedroom".to_string() }, true).unwrap();
    assert!(outcome.changed);
    assert!(outcome.lines.is_empty());
    assert_eq!(book.len(), 1);
}
