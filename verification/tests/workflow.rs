use tsh::model::Zettel;
use tsh::store::Store;
use tsh::{combine_zettel_contents, creation_skipped, promote_zettel};

fn z(id: i64, content: &str) -> Zettel {
    Zettel { id, content: content.to_string(), created_at: 1_000_000 }
}

#[test]
fn combine_joins_with_blank_lines() {
    assert_eq!(combine_zettel_contents(Vec::new()), "");
    assert_eq!(combine_zettel_contents(vec![z(1, "one")]), "one");
    assert_eq!(
        combine_zettel_contents(vec![z(1, "one"), z(2, "two"), z(3, "three")]),
        "one\n\ntwo\n\nthree"
    );
}

#[test]
fn creation_guard_cases() {
    // empty text is never saved
    assert!(creation_skipped(&String::new(), &vec![z(1, "one")]));
    assert!(creation_skipped(&String::new(), &Vec::new()));
    // a single parent with unchanged text is not saved
    assert!(creation_skipped(&"one".to_string(), &vec![z(1, "one")]));
    // changed text is saved
    assert!(!creation_skipped(&"two".to_string(), &vec![z(1, "one")]));
    // with several parents even an equal text is saved
    assert!(!creation_skipped(
        &"one".to_string(),
        &vec![z(1, "one"), z(2, "one")]
    ));
    // fresh notes without parents are saved
    assert!(!creation_skipped(&"new".to_string(), &Vec::new()));
}

#[test]
fn shim_cuts_long_content() {
    let short = z(1, "short note");
    assert_eq!(short.get_shim(), "short note");

    let seventy_seven = "x".repeat(77);
    let long = z(2, &format!("{}{}", seventy_seven, "and more"));
    assert_eq!(long.get_shim(), format!("{}...", seventy_seven));

    let exactly = z(3, &seventy_seven);
    assert_eq!(exactly.get_shim(), format!("{}...", seventy_seven));

    let just_under = z(4, &"y".repeat(76));
    assert_eq!(just_under.get_shim(), "y".repeat(76));
}

#[test]
fn datetime_rendering_matches_calendar() {
    // 2015-05-15 00:00:00 UTC, in milliseconds
    let note = Zettel { id: 1, content: "t".to_string(), created_at: 1_431_648_000_000 };
    assert_eq!(note.get_datetime_string(), "2015-05-15 00:00:00 UTC");
    let epoch = Zettel { id: 2, content: "t".to_string(), created_at: 0 };
    assert_eq!(epoch.get_datetime_string(), "1970-01-01 00:00:00 UTC");
    // sub-second parts are dropped, not rounded
    let late = Zettel { id: 3, content: "t".to_string(), created_at: 1_431_648_000_999 };
    assert_eq!(late.get_datetime_string(), "2015-05-15 00:00:00 UTC");
}

#[test]
fn promote_zettel_publishes_snapshot() {
    let mut store = Store::new();
    let note = store
        .create_note("body".to_string(), vec![1], vec![], 10)
        .unwrap()
        .unwrap();
    let article = promote_zettel(&mut store, &note, "the title".to_string(), 99).unwrap();
    assert_eq!(article.zettel_id, note.id);
    assert_eq!(article.title, "the title");
    assert_eq!(article.content, "body");
    assert_eq!(article.created_at, 99);
    // the note itself is untouched
    assert_eq!(store.find_by_id(note.id).unwrap().content, "body");
}
