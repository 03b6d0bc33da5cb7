use tsh::app::{
    execute_request, ActiveScreenType, App, AppCommand, LlmConfig, StoreRequest, StoreResponse,
};
use tsh::common::InputMode;
use tsh::develop;
use tsh::input::Key;
use tsh::main_menu::{Action, MainMenuScreen};
use tsh::model::Zettel;
use tsh::recent::{RecentScreen, RecentView};
use tsh::search;
use tsh::search::SearchFeature;
use tsh::store::Store;
use tsh::iterate::IterateZettelScreen;
use tsh::llm::LlmClient;

fn config() -> LlmConfig {
    LlmConfig {
        api_base: "http://localhost:8080".to_string(),
        api_key: "SECRET-REDACTED".to_string(),
        embeddings_model: "embedder".to_string(),
    }
}

fn type_text(app: &mut App, text: &str) {
    for c in text.chars() {
        assert!(app.handle_key(Key::Char(c)).is_none());
    }
}

#[test]
fn action_next_and_previous_saturate() {
    assert_eq!(Action::AddZettel.next(), Action::IterateZettel);
    assert_eq!(Action::IterateZettel.next(), Action::RecentZettel);
    assert_eq!(Action::RecentZettel.next(), Action::RecentZettel);
    assert_eq!(Action::RecentZettel.previous(), Action::IterateZettel);
    assert_eq!(Action::IterateZettel.previous(), Action::AddZettel);
    assert_eq!(Action::AddZettel.previous(), Action::AddZettel);
}

#[test]
fn main_menu_emits_commands() {
    let mut menu = MainMenuScreen::new("db".to_string(), config());
    assert!(matches!(
        menu.handle_key_event(Key::Char('q')),
        Some(AppCommand::Quit)
    ));
    // confirming the default action asks for a blank note
    match menu.handle_key_event(Key::Enter) {
        Some(AppCommand::AddZettel(parents)) => assert!(parents.is_empty()),
        other => panic!("expected a blank-note command, got none: {}", other.is_some()),
    }
    // moving down and confirming switches to the search screen
    assert!(menu.handle_key_event(Key::Down).is_none());
    match menu.handle_key_event(Key::Enter) {
        Some(AppCommand::SwitchScreen(ActiveScreenType::Iterate(s))) => {
            assert_eq!(s.db_path, "db");
        },
        _ => panic!("expected a switch to the search screen"),
    }
    // moving down again and confirming asks for the recent listing
    assert!(menu.handle_key_event(Key::Down).is_none());
    match menu.handle_key_event(Key::Enter) {
        Some(AppCommand::Store(StoreRequest::LoadRecent { n })) => assert_eq!(n, 100),
        _ => panic!("expected a recent-listing request"),
    }
}

#[test]
fn iterate_screen_search_flow() {
    let mut screen = IterateZettelScreen::new("db".to_string(), config());
    assert!(screen.handle_key_event(Key::Char('i')).is_none());
    assert_eq!(screen.input_mode, InputMode::Insert);
    assert!(screen.handle_key_event(Key::Char('h')).is_none());
    assert!(screen.handle_key_event(Key::Char('x')).is_none());
    assert!(screen.handle_key_event(Key::Backspace).is_none());
    assert!(screen.handle_key_event(Key::Char('i')).is_none());
    match screen.handle_key_event(Key::Enter) {
        Some(AppCommand::Store(StoreRequest::SearchNotes { query })) => {
            assert_eq!(query, "hi");
        },
        _ => panic!("expected a search request"),
    }
    assert_eq!(screen.input_mode, InputMode::Normal);
    assert!(screen.search_query.is_empty());

    // results arrive: the first is selected, confirming cites it
    let found = vec![
        Zettel { id: 7, content: "seven".to_string(), created_at: 1 },
        Zettel { id: 3, content: "three".to_string(), created_at: 2 },
    ];
    screen.apply_search_results(found);
    assert_eq!(screen.selected_result, Some(0));
    assert!(screen.handle_key_event(Key::Down).is_none());
    match screen.handle_key_event(Key::Enter) {
        Some(AppCommand::AddZettel(parents)) => {
            assert_eq!(parents.len(), 1);
            assert_eq!(parents[0].id, 3);
        },
        _ => panic!("expected a note-creation command"),
    }
    // an empty result list leaves nothing selected
    screen.apply_search_results(Vec::new());
    assert_eq!(screen.selected_result, None);
    assert!(screen.handle_key_event(Key::Enter).is_none());
}

#[test]
fn recent_screen_tag_popup_flow() {
    let notes = vec![
        Zettel { id: 2, content: "two".to_string(), created_at: 20 },
        Zettel { id: 1, content: "one".to_string(), created_at: 10 },
    ];
    let mut screen = RecentScreen::new(notes, "db".to_string(), config());
    assert_eq!(screen.view, RecentView::ListView);
    assert_eq!(screen.zettels.selected, Some(0));

    // opening the tag popup asks for the selected note's tags
    match screen.handle_key_event(Key::Char('t')) {
        Some(AppCommand::Store(StoreRequest::LoadTags { zettel_id })) => {
            assert_eq!(zettel_id, 2);
        },
        _ => panic!("expected a tag-load request"),
    }
    assert_eq!(screen.view, RecentView::TagView);

    // typing a tag and confirming upserts it
    assert!(screen.handle_key_event(Key::Char('i')).is_none());
    assert!(screen.handle_key_event(Key::Char('x')).is_none());
    match screen.handle_key_event(Key::Enter) {
        Some(AppCommand::Store(StoreRequest::AddTag { zettel_id, tag })) => {
            assert_eq!(zettel_id, 2);
            assert_eq!(tag, "x");
        },
        _ => panic!("expected a tag upsert request"),
    }
}

#[test]
fn recent_screen_tag_search_flow() {
    let notes = vec![Zettel { id: 1, content: "one".to_string(), created_at: 10 }];
    let mut screen = RecentScreen::new(notes, "db".to_string(), config());

    assert!(screen.handle_key_event(Key::Char('s')).is_none());
    assert_eq!(screen.view, RecentView::TagSearchView);

    // a submitted query becomes a tag-text search request
    assert!(screen.handle_key_event(Key::Char('i')).is_none());
    assert!(screen.handle_key_event(Key::Char('r')).is_none());
    match screen.handle_key_event(Key::Enter) {
        Some(AppCommand::Store(StoreRequest::SearchTags { substring })) => {
            assert_eq!(substring, "r");
        },
        _ => panic!("expected a tag search request"),
    }

    // matches arrive; picking one and confirming filters by it
    screen.apply_tag_names(vec!["rust".to_string(), "rest".to_string()]);
    assert!(screen.handle_key_event(Key::Right).is_none());
    // picking the same match again must not duplicate it
    assert!(screen.handle_key_event(Key::Right).is_none());
    match screen.handle_key_event(Key::Enter) {
        Some(AppCommand::Store(StoreRequest::FilterByTags { tags })) => {
            assert_eq!(tags, vec!["rust".to_string()]);
        },
        _ => panic!("expected a filter request"),
    }

    // the filtered notes replace the listing and the popups close
    screen.apply_filtered(vec![Zettel { id: 9, content: "nine".to_string(), created_at: 1 }]);
    assert_eq!(screen.view, RecentView::ListView);
    assert_eq!(screen.zettels.items.len(), 1);
    assert_eq!(screen.zettels.items[0].id, 9);
    assert!(screen.tag_search_view_state.is_none());
}

#[test]
fn app_routes_recent_listing() {
    let mut store = Store::new();
    store
        .create_note("a leaf".to_string(), vec![1], vec![], 10)
        .unwrap()
        .unwrap();
    let mut app = App::new("db".to_string(), config());

    // main menu: Down, Down, Enter asks for the recent listing
    assert!(app.handle_key(Key::Down).is_none());
    assert!(app.handle_key(Key::Down).is_none());
    let req = match app.handle_key(Key::Enter) {
        Some(AppCommand::Store(req)) => req,
        _ => panic!("expected a store request"),
    };
    let resp = execute_request(&mut store, req, None, 50);
    app.apply_response(resp);
    match &app.current_screen {
        ActiveScreenType::Recent(s) => {
            assert_eq!(s.zettels.items.len(), 1);
            assert_eq!(s.zettels.items[0].content, "a leaf");
        },
        _ => panic!("expected the recent screen"),
    }
}

#[test]
fn app_quit_and_failure_status() {
    let mut app = App::new("db".to_string(), config());
    assert!(!app.should_quit);
    app.process_app_command(AppCommand::Quit);
    assert!(app.should_quit);

    let mut app = App::new("db".to_string(), config());
    app.apply_response(StoreResponse::Failed(tsh::store::StoreError::NotFound));
    assert_eq!(app.status, Some(tsh::store::StoreError::NotFound));
    // the session goes on: the screen is untouched
    assert!(matches!(app.current_screen, ActiveScreenType::Main(_)));
}

#[test]
fn execute_request_tag_cycle() {
    let mut store = Store::new();
    let a = store
        .create_note("a".to_string(), vec![1], vec![], 1)
        .unwrap()
        .unwrap();
    let resp = execute_request(
        &mut store,
        StoreRequest::AddTag { zettel_id: a.id, tag: "x".to_string() },
        None,
        70,
    );
    match resp {
        StoreResponse::Tags(tags) => {
            assert_eq!(tags.len(), 1);
            assert_eq!(tags[0].tag, "x");
            assert_eq!(tags[0].created_at, 70);
        },
        _ => panic!("expected the refreshed tag list"),
    }
    let resp = execute_request(
        &mut store,
        StoreRequest::RemoveTag { zettel_id: a.id, tag: "x".to_string() },
        None,
        80,
    );
    match resp {
        StoreResponse::Tags(tags) => assert!(tags.is_empty()),
        _ => panic!("expected the refreshed tag list"),
    }
    // a search without an embedding yields no results, not a failure
    let resp = execute_request(
        &mut store,
        StoreRequest::SearchNotes { query: "q".to_string() },
        None,
        90,
    );
    match resp {
        StoreResponse::Notes(v) => assert!(v.is_empty()),
        _ => panic!("expected an empty result list"),
    }
    // with an embedding the nearest note comes back
    let resp = execute_request(
        &mut store,
        StoreRequest::SearchNotes { query: "q".to_string() },
        Some(vec![1]),
        90,
    );
    match resp {
        StoreResponse::Notes(v) => {
            assert_eq!(v.len(), 1);
            assert_eq!(v[0].id, a.id);
        },
        _ => panic!("expected one result"),
    }
}

#[test]
fn app_search_end_to_end() {
    let mut store = Store::new();
    store
        .create_note("close".to_string(), vec![10], vec![], 1)
        .unwrap()
        .unwrap();
    store
        .create_note("distant".to_string(), vec![90], vec![], 2)
        .unwrap()
        .unwrap();

    let mut app = App::new("db".to_string(), config());
    // switch to the search screen
    assert!(app.handle_key(Key::Down).is_none());
    let cmd = app.handle_key(Key::Enter).expect("expected a command");
    app.process_app_command(cmd);
    assert!(matches!(app.current_screen, ActiveScreenType::Iterate(_)));

    // type a query and submit it
    assert!(app.handle_key(Key::Char('i')).is_none());
    type_text(&mut app, "idea");
    let req = match app.handle_key(Key::Enter) {
        Some(AppCommand::Store(req)) => req,
        _ => panic!("expected a search request"),
    };
    // the runtime embeds the query (here: a vector near the first note)
    let resp = execute_request(&mut store, req, Some(vec![12]), 99);
    app.apply_response(resp);
    match &app.current_screen {
        ActiveScreenType::Iterate(s) => {
            assert_eq!(s.search_results.len(), 2);
            assert_eq!(s.search_results[0].content, "close");
            assert_eq!(s.selected_result, Some(0));
        },
        _ => panic!("expected the search screen"),
    }
}

#[test]
fn develop_screen_exits_on_quit_keys() {
    let mut model = tsh::develop::DevelopFeature::new();
    assert!(!model.exit);
    assert!(develop::handle_key(Key::Char('x')).is_none());
    let msg = develop::handle_key(Key::Esc).expect("expected an exit message");
    develop::update(&mut model, msg);
    assert!(model.exit);
}

#[test]
fn search_feature_submit_clears_input() {
    let client = LlmClient::new(
        "base".to_string(),
        "SECRET-REDACTED".to_string(),
        "embedder".to_string(),
        "chat".to_string(),
    );
    let mut model = SearchFeature::new(client);
    let msg = search::handle_key(Key::Char('i'), &model.input_mode).unwrap();
    assert!(search::update(&mut model, msg).is_none());
    for c in "abc".chars() {
        let msg = search::handle_key(Key::Char(c), &model.input_mode).unwrap();
        assert!(search::update(&mut model, msg).is_none());
    }
    let msg = search::handle_key(Key::Enter, &model.input_mode).unwrap();
    let query = search::update(&mut model, msg).expect("expected the query text");
    assert_eq!(query, "abc");
    assert!(model.input.is_empty());
    assert_eq!(model.input_mode, InputMode::Normal);

    // found notes are shown by their contents
    search::apply_search_results(
        &mut model,
        vec![Zettel { id: 1, content: "hello".to_string(), created_at: 1 }],
    );
    assert_eq!(model.search_results, vec!["hello".to_string()]);
}
