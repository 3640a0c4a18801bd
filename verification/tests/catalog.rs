use tamaureus::catalog::{
    add_track, duplicate_marker, find_or_create_album, find_or_create_artist, lookup_key,
    normalize, settle,
    Admission, Lookup, Settlement, UNKNOWN_ALBUM_ID, UNKNOWN_ARTIST_ID,
};

#[test]
fn blank_artist_is_the_unknown_artist() {
    assert!(matches!(find_or_create_artist(""), Lookup::Known(UNKNOWN_ARTIST_ID)));
    assert!(matches!(find_or_create_artist("  \t"), Lookup::Known(1)));
}

#[test]
fn artist_is_searched_under_its_trimmed_name() {
    assert!(matches!(find_or_create_artist("  Nina Simone "), Lookup::Search(key) if key == "Nina Simone"));
    assert!(matches!(find_or_create_artist("Can"), Lookup::Search(key) if key == "Can"));
}

#[test]
fn blank_album_is_the_unknown_album() {
    assert!(matches!(find_or_create_album(" "), Lookup::Known(UNKNOWN_ALBUM_ID)));
    assert!(matches!(find_or_create_album(" Tago Mago"), Lookup::Search(key) if key == "Tago Mago"));
}

#[test]
fn settle_creates_only_what_was_not_found() {
    assert_eq!(settle(Some(42)), Settlement::Found(42));
    assert_eq!(settle(None), Settlement::Create);
}

#[test]
fn find_or_create_twice_creates_once() {
    let mut store: Vec<(String, i64)> = Vec::new();
    let mut created = 0;
    let mut ids = Vec::new();
    for name in ["Can", " Can ", "Can\n"] {
        let id = match find_or_create_artist(name) {
            Lookup::Known(id) => id,
            Lookup::Search(key) => {
                let found = store.iter().find(|(held, _)| *held == key).map(|(_, id)| *id);
                match settle(found) {
                    Settlement::Found(id) => id,
                    Settlement::Create => {
                        created += 1;
                        let id = 2 + store.len() as i64;
                        store.push((key, id));
                        id
                    }
                }
            }
        };
        ids.push(id);
    }
    assert_eq!(created, 1);
    assert_eq!(ids, vec![2, 2, 2]);
}

#[test]
fn normalize_trims() {
    assert_eq!(normalize("  covers/a.png \n"), "covers/a.png");
}

#[test]
fn duplicate_is_marked_by_the_negated_id() {
    assert_eq!(duplicate_marker(7), -7);
    assert_eq!(add_track(Some(7)), Admission::Duplicate(-7));
    assert_eq!(add_track(None), Admission::Insert);
}

#[test]
fn lookup_key_searches_every_name_but_the_empty_one() {
    assert!(matches!(lookup_key(String::new(), 1), Lookup::Known(1)));
    assert!(matches!(lookup_key(String::new(), 9), Lookup::Known(9)));
    assert!(matches!(lookup_key("Can".to_string(), 1), Lookup::Search(key) if key == "Can"));
    assert!(matches!(lookup_key(" ".to_string(), 1), Lookup::Search(key) if key == " "));
}
