use vstd::prelude::*;

use crate::input::Key;
use crate::iterate::{iterate_key_rel, IterateZettelScreen};
use crate::main_menu::{main_menu_key_rel, Action, MainMenuScreen};
use crate::model::{Zettel, ZettelTag};
use crate::recent::{filtered_applied, recent_key_rel, tag_names_applied, tags_applied,
    RecentScreen, RecentView};
use crate::store::{recent_results, similar_results, spec_remove_tag, spec_tag_search,
    spec_tags_for, spec_notes_with_any_tag, spec_upsert_tag, text_views, Store, StoreError};
use crate::AppConfig;

verus! {

/// How many recent leaves the recent screen loads.
pub const RECENT_LISTING_LEN: usize = 100;

/// How many notes a semantic search returns.
pub const SIMILAR_K: usize = 15;

/// What the embedding collaborator needs: its address, credential and model
/// name.
pub struct LlmConfig {
    pub api_base: String,
    pub api_key: String,
    pub embeddings_model: String,
}

impl Clone for LlmConfig {
    fn clone(&self) -> (r: Self)
        ensures
            r == *self,
    {
        LlmConfig {
            api_base: self.api_base.clone(),
            api_key: self.api_key.clone(),
            embeddings_model: self.embeddings_model.clone(),
        }
    }
}

impl LlmConfig {
    /// The collaborator settings carried inside the startup configuration.
    pub fn from_config(config: &AppConfig) -> (r: Self)
        ensures
            r.api_base == config.api_base,
            r.api_key == config.api_key,
            r.embeddings_model == config.embeddings_model,
    {
        LlmConfig {
            api_base: config.api_base.clone(),
            api_key: config.api_key.clone(),
            embeddings_model: config.embeddings_model.clone(),
        }
    }
}

/// Store work a screen asks the runtime to perform.
pub enum StoreRequest {
    LoadRecent { n: usize },
    LoadTags { zettel_id: i64 },
    AddTag { zettel_id: i64, tag: String },
    RemoveTag { zettel_id: i64, tag: String },
    SearchTags { substring: String },
    FilterByTags { tags: Vec<String> },
    SearchNotes { query: String },
}

/// What the runtime hands back for a request.
pub enum StoreResponse {
    Recent(Vec<Zettel>),
    Tags(Vec<ZettelTag>),
    TagNames(Vec<String>),
    Filtered(Vec<Zettel>),
    Notes(Vec<Zettel>),
    Failed(StoreError),
}

/// The screen that has the terminal, as a closed union.
pub enum ActiveScreenType {
    Main(MainMenuScreen),
    Iterate(IterateZettelScreen),
    Recent(RecentScreen),
}

/// The screen's own cursors point at existing items.
pub open spec fn screen_inv(s: ActiveScreenType) -> bool {
    match s {
        ActiveScreenType::Main(_) => true,
        ActiveScreenType::Iterate(screen) => screen.inv(),
        ActiveScreenType::Recent(screen) => screen.inv(),
    }
}

/// What a screen asks the controller to do.
pub enum AppCommand {
    Quit,
    AddZettel(Vec<Zettel>),
    SwitchScreen(ActiveScreenType),
    Store(StoreRequest),
}

/// Performs one store request against the verified store and wraps the
/// outcome. For a search, the runtime embeds the query first and passes the
/// embedding in; `None` reports the collaborator unavailable, which yields
/// an empty result list rather than a failure. A `Failed` response names
/// the store error; the store itself is then unchanged.
pub fn execute_request(
    store: &mut Store,
    req: StoreRequest,
    embedding: Option<Vec<i32>>,
    now: i64,
) -> (r: StoreResponse)
    requires
        old(store).wf(),
    ensures
        final(store).wf(),
        match req {
            StoreRequest::LoadRecent { n } => *final(store) == *old(store) && (r matches
            StoreResponse::Recent(v) && recent_results(*old(store), n as int, v@)),
            StoreRequest::LoadTags { zettel_id } => *final(store) == *old(store) && if old(store).valid_id(zettel_id) {
                r matches StoreResponse::Tags(v) && v@ == spec_tags_for(
                    old(store).tags@,
                    zettel_id,
                )
            } else {
                r == StoreResponse::Failed(StoreError::NotFound)
            },
            StoreRequest::AddTag { zettel_id, tag } => {
                &&& final(store).notes@ == old(store).notes@
                &&& final(store).embeddings@ == old(store).embeddings@
                &&& final(store).edges@ == old(store).edges@
                &&& final(store).articles@ == old(store).articles@
                &&& if old(store).valid_id(zettel_id) {
                    (exists|row: ZettelTag|
                        row.zettel_id == zettel_id && row.tag@ == tag@ && row.created_at == now
                            && final(store).tags@ == #[trigger] spec_upsert_tag(
                            old(store).tags@,
                            row,
                        )) && (r matches StoreResponse::Tags(v) && v@ == spec_tags_for(
                        final(store).tags@,
                        zettel_id,
                    ))
                } else {
                    final(store).tags@ == old(store).tags@ && r == StoreResponse::Failed(
                        StoreError::NotFound,
                    )
                }
            },
            StoreRequest::RemoveTag { zettel_id, tag } => {
                &&& final(store).notes@ == old(store).notes@
                &&& final(store).embeddings@ == old(store).embeddings@
                &&& final(store).edges@ == old(store).edges@
                &&& final(store).articles@ == old(store).articles@
                &&& if old(store).valid_id(zettel_id) {
                    final(store).tags@ == spec_remove_tag(old(store).tags@, zettel_id, tag@) && (
                    r matches StoreResponse::Tags(v) && v@ == spec_tags_for(
                        final(store).tags@,
                        zettel_id,
                    ))
                } else {
                    final(store).tags@ == old(store).tags@ && r == StoreResponse::Failed(
                        StoreError::NotFound,
                    )
                }
            },
            StoreRequest::SearchTags { substring } => *final(store) == *old(store) && (r matches
            StoreResponse::TagNames(v) && text_views(v@) == spec_tag_search(
                old(store).tags@,
                substring@,
            )),
            StoreRequest::FilterByTags { tags } => *final(store) == *old(store) && (r matches
            StoreResponse::Filtered(v) && v@ == spec_notes_with_any_tag(
                old(store).notes@,
                old(store).tags@,
                text_views(tags@),
            )),
            StoreRequest::SearchNotes { query } => *final(store) == *old(store) && match embedding {
                Some(e) => r matches StoreResponse::Notes(v) && similar_results(
                    *old(store),
                    e@,
                    SIMILAR_K as int,
                    v@,
                ),
                None => r matches StoreResponse::Notes(v) && v@.len() == 0,
            },
        },
{
    match req {
        StoreRequest::LoadRecent { n } => StoreResponse::Recent(store.find_n_recent_leaves(n)),
        StoreRequest::LoadTags { zettel_id } => match store.tags_for(zettel_id) {
            Ok(v) => StoreResponse::Tags(v),
            Err(e) => StoreResponse::Failed(e),
        },
        StoreRequest::AddTag { zettel_id, tag } => match store.add_tag(zettel_id, tag, now) {
            Ok(_) => match store.tags_for(zettel_id) {
                Ok(v) => StoreResponse::Tags(v),
                Err(_) => {
                    proof {
                        assert(false);
                    }
                    StoreResponse::Failed(StoreError::NotFound)
                },
            },
            Err(e) => StoreResponse::Failed(e),
        },
        StoreRequest::RemoveTag { zettel_id, tag } => match store.remove_tag(zettel_id, &tag) {
            Ok(()) => match store.tags_for(zettel_id) {
                Ok(v) => StoreResponse::Tags(v),
                Err(_) => {
                    proof {
                        assert(false);
                    }
                    StoreResponse::Failed(StoreError::NotFound)
                },
            },
            Err(e) => StoreResponse::Failed(e),
        },
        StoreRequest::SearchTags { substring } => StoreResponse::TagNames(
            store.search_tag_text(&substring),
        ),
        StoreRequest::FilterByTags { tags } => StoreResponse::Filtered(
            store.notes_with_any_tag(&tags),
        ),
        StoreRequest::SearchNotes { query: _ } => match embedding {
            Some(e) => StoreResponse::Notes(store.find_similar(&e, SIMILAR_K)),
            None => StoreResponse::Notes(Vec::new()),
        },
    }
}

/// The screen controller: which screen has the terminal, whether the
/// session is over, and the last store failure (kept so that a failed
/// screen operation surfaces as a status instead of ending the session).
pub struct App {
    pub should_quit: bool,
    pub current_screen: ActiveScreenType,
    pub db_path: String,
    pub llm_config: LlmConfig,
    pub status: Option<StoreError>,
}

impl App {
    pub open spec fn inv(&self) -> bool {
        screen_inv(self.current_screen)
    }

    /// A fresh controller on the main menu.
    pub fn new(db_path: String, llm_config: LlmConfig) -> (r: Self)
        ensures
            r.inv(),
            r.should_quit == false,
            r.db_path == db_path,
            r.llm_config == llm_config,
            r.status is None,
            r.current_screen matches ActiveScreenType::Main(s) && s.db_path == db_path
                && s.llm_config == llm_config && s.selected_action == Action::AddZettel,
    {
        let screen = MainMenuScreen::new(db_path.clone(), llm_config.clone());
        App {
            should_quit: false,
            current_screen: ActiveScreenType::Main(screen),
            db_path,
            llm_config,
            status: None,
        }
    }

    /// Routes one key press to the active screen: the screen stays the
    /// active one, takes its own key transition, and its emitted command is
    /// handed back.
    pub fn handle_key(&mut self, key: Key) -> (r: Option<AppCommand>)
        requires
            old(self).inv(),
        ensures
            final(self).inv(),
            final(self).should_quit == old(self).should_quit,
            final(self).db_path == old(self).db_path,
            final(self).llm_config == old(self).llm_config,
            final(self).status == old(self).status,
            match old(self).current_screen {
                ActiveScreenType::Main(s0) => final(self).current_screen matches
                    ActiveScreenType::Main(s1) && main_menu_key_rel(s0, s1, key, r),
                ActiveScreenType::Iterate(s0) => final(self).current_screen matches
                    ActiveScreenType::Iterate(s1) && iterate_key_rel(s0, s1, key, r),
                ActiveScreenType::Recent(s0) => final(self).current_screen matches
                    ActiveScreenType::Recent(s1) && recent_key_rel(s0, s1, key, r),
            },
    {
        match &mut self.current_screen {
            ActiveScreenType::Main(screen) => screen.handle_key_event(key),
            ActiveScreenType::Iterate(screen) => screen.handle_key_event(key),
            ActiveScreenType::Recent(screen) => screen.handle_key_event(key),
        }
    }

    /// The cross-cutting transitions: quitting ends the session and a
    /// switch replaces the active screen; the other commands are the
    /// runtime's to perform and are ignored here.
    pub fn process_app_command(&mut self, command: AppCommand)
        requires
            old(self).inv(),
            command matches AppCommand::SwitchScreen(s) ==> screen_inv(s),
        ensures
            final(self).inv(),
            final(self).db_path == old(self).db_path,
            final(self).llm_config == old(self).llm_config,
            final(self).status == old(self).status,
            match command {
                AppCommand::Quit => final(self).should_quit == true && final(self).current_screen
                    == old(self).current_screen,
                AppCommand::SwitchScreen(s) => final(self).current_screen == s && final(self).should_quit == old(self).should_quit,
                _ => *final(self) == *old(self),
            },
    {
        match command {
            AppCommand::Quit => {
                self.should_quit = true;
            },
            AppCommand::SwitchScreen(screen_type) => {
                self.current_screen = screen_type;
            },
            _ => {},
        }
    }

    /// Feeds a store response back into the session. A failure becomes a
    /// status message and leaves every screen untouched; data lands in the
    /// screen that asked for it — recent notes open the recent screen from
    /// the main menu — and is dropped if that screen is gone.
    pub fn apply_response(&mut self, resp: StoreResponse)
        requires
            old(self).inv(),
        ensures
            final(self).inv(),
            final(self).should_quit == old(self).should_quit,
            final(self).db_path == old(self).db_path,
            final(self).llm_config == old(self).llm_config,
            match resp {
                StoreResponse::Failed(e) => final(self).status == Some(e) && final(self).current_screen == old(self).current_screen,
                StoreResponse::Recent(v) => final(self).status is None && match old(self).current_screen {
                    ActiveScreenType::Main(_) => final(self).current_screen matches
                        ActiveScreenType::Recent(s) && s.zettels.items == v && s.view
                        == RecentView::ListView && s.tag_view_state is None
                        && s.tag_search_view_state is None && s.db_path == old(self).db_path
                        && s.llm_config == old(self).llm_config,
                    _ => final(self).current_screen == old(self).current_screen,
                },
                StoreResponse::Notes(v) => final(self).status is None && match old(self).current_screen {
                    ActiveScreenType::Iterate(s0) => final(self).current_screen matches
                        ActiveScreenType::Iterate(s1) && s1.search_results == v
                        && s1.selected_result == (if v@.len() > 0 {
                        Some(0usize)
                    } else {
                        None::<usize>
                    }) && s1.search_query@ == s0.search_query@ && s1.input_mode == s0.input_mode
                        && s1.db_path == s0.db_path && s1.llm_config == s0.llm_config,
                    _ => final(self).current_screen == old(self).current_screen,
                },
                StoreResponse::Tags(v) => final(self).status is None && match old(self).current_screen {
                    ActiveScreenType::Recent(s0) => final(self).current_screen matches
                        ActiveScreenType::Recent(s1) && tags_applied(s0, s1, v),
                    _ => final(self).current_screen == old(self).current_screen,
                },
                StoreResponse::TagNames(v) => final(self).status is None && match old(self).current_screen {
                    ActiveScreenType::Recent(s0) => final(self).current_screen matches
                        ActiveScreenType::Recent(s1) && tag_names_applied(s0, s1, v),
                    _ => final(self).current_screen == old(self).current_screen,
                },
                StoreResponse::Filtered(v) => final(self).status is None && match old(self).current_screen {
                    ActiveScreenType::Recent(s0) => final(self).current_screen matches
                        ActiveScreenType::Recent(s1) && filtered_applied(s0, s1, v),
                    _ => final(self).current_screen == old(self).current_screen,
                },
            },
    {
        match resp {
            StoreResponse::Failed(e) => {
                self.status = Some(e);
            },
            StoreResponse::Recent(v) => {
                self.status = None;
                match &self.current_screen {
                    ActiveScreenType::Main(_) => {
                        let screen = RecentScreen::new(
                            v,
                            self.db_path.clone(),
                            self.llm_config.clone(),
                        );
                        self.current_screen = ActiveScreenType::Recent(screen);
                    },
                    _ => {},
                }
            },
            StoreResponse::Notes(v) => {
                self.status = None;
                match &mut self.current_screen {
                    ActiveScreenType::Iterate(screen) => {
                        screen.apply_search_results(v);
                    },
                    _ => {},
                }
            },
            StoreResponse::Tags(v) => {
                self.status = None;
                match &mut self.current_screen {
                    ActiveScreenType::Recent(screen) => {
                        screen.apply_tags(v);
                    },
                    _ => {},
                }
            },
            StoreResponse::TagNames(v) => {
                self.status = None;
                match &mut self.current_screen {
                    ActiveScreenType::Recent(screen) => {
                        screen.apply_tag_names(v);
                    },
                    _ => {},
                }
            },
            StoreResponse::Filtered(v) => {
                self.status = None;
                match &mut self.current_screen {
                    ActiveScreenType::Recent(screen) => {
                        screen.apply_filtered(v);
                    },
                    _ => {},
                }
            },
        }
    }
}

} // verus!
