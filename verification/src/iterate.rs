use vstd::prelude::*;

use crate::app::{ActiveScreenType, AppCommand, LlmConfig, StoreRequest};
use crate::common::InputMode;
use crate::input::Key;
use crate::main_menu::{Action, MainMenuScreen};
use crate::model::Zettel;
use crate::text::chars_to_string;

verus! {

/// The semantic-search screen: a modal query buffer, the notes the last
/// search found, and a cursor over them. Confirming a result starts a new
/// note citing it.
pub struct IterateZettelScreen {
    pub input_mode: InputMode,
    pub search_query: Vec<char>,
    pub search_results: Vec<Zettel>,
    pub selected_result: Option<usize>,
    pub db_path: String,
    pub llm_config: LlmConfig,
}

pub enum IterateScreenMessage {
    BackToMainMenu,
    EnterInsertMode,
    ExitInsertMode,
    InsertChar(char),
    DeleteChar,
    SubmitQuery(String),
    ResultListMoveUp,
    ResultListMoveDown,
    IterateZettel(Zettel),
}

/// `post` differs from `pre` only in its input mode.
pub open spec fn iterate_mode_set(
    pre: IterateZettelScreen,
    post: IterateZettelScreen,
    mode: InputMode,
) -> bool {
    &&& post.input_mode == mode
    &&& post.search_query@ == pre.search_query@
    &&& post.search_results@ == pre.search_results@
    &&& post.selected_result == pre.selected_result
}

/// `post` differs from `pre` only in its query buffer.
pub open spec fn iterate_query_set(
    pre: IterateZettelScreen,
    post: IterateZettelScreen,
    q: Seq<char>,
) -> bool {
    &&& post.input_mode == pre.input_mode
    &&& post.search_query@ == q
    &&& post.search_results@ == pre.search_results@
    &&& post.selected_result == pre.selected_result
}

/// `post` differs from `pre` only in its result cursor.
pub open spec fn iterate_cursor_set(
    pre: IterateZettelScreen,
    post: IterateZettelScreen,
    sel: Option<usize>,
) -> bool {
    &&& post.input_mode == pre.input_mode
    &&& post.search_query@ == pre.search_query@
    &&& post.search_results@ == pre.search_results@
    &&& post.selected_result == sel
}

/// `r` switches back to a fresh main menu carrying the screen's settings.
pub open spec fn iterate_back_to_main(pre: IterateZettelScreen, r: Option<AppCommand>) -> bool {
    r matches Some(AppCommand::SwitchScreen(ActiveScreenType::Main(s))) && s.db_path == pre.db_path
        && s.llm_config == pre.llm_config && s.selected_action == Action::AddZettel
}

/// The search screen's full transition relation: how one key takes the
/// screen from `pre` to `post` and which command `r` it emits, by input
/// mode.
pub open spec fn iterate_key_rel(
    pre: IterateZettelScreen,
    post: IterateZettelScreen,
    key: Key,
    r: Option<AppCommand>,
) -> bool {
    &&& post.db_path == pre.db_path
    &&& post.llm_config == pre.llm_config
    &&& match pre.input_mode {
        InputMode::Normal => match key {
            Key::Char(c) => if c == 'i' {
                r is None && iterate_mode_set(pre, post, InputMode::Insert)
            } else if c == 'q' {
                post == pre && iterate_back_to_main(pre, r)
            } else {
                post == pre && r is None
            },
            Key::Esc => post == pre && iterate_back_to_main(pre, r),
            Key::Up => r is None && iterate_cursor_set(
                pre,
                post,
                match pre.selected_result {
                    Some(idx) => if idx > 0 {
                        Some((idx - 1) as usize)
                    } else {
                        Some(0usize)
                    },
                    None => None::<usize>,
                },
            ),
            Key::Down => r is None && iterate_cursor_set(
                pre,
                post,
                match pre.selected_result {
                    Some(idx) => if idx + 1 < pre.search_results@.len() {
                        Some((idx + 1) as usize)
                    } else {
                        Some(idx)
                    },
                    None => None::<usize>,
                },
            ),
            Key::Enter => match pre.selected_result {
                Some(idx) => if idx < pre.search_results@.len() {
                    post == pre && (r matches Some(AppCommand::AddZettel(v)) && v@ =~= seq![
                        pre.search_results@[idx as int],
                    ])
                } else {
                    post == pre && r is None
                },
                None => post == pre && r is None,
            },
            _ => post == pre && r is None,
        },
        InputMode::Insert => match key {
            Key::Char(c) => r is None && iterate_query_set(pre, post, pre.search_query@.push(c)),
            Key::Backspace => r is None && iterate_query_set(
                pre,
                post,
                if pre.search_query@.len() == 0 {
                    pre.search_query@
                } else {
                    pre.search_query@.drop_last()
                },
            ),
            Key::Enter => {
                &&& (r matches Some(AppCommand::Store(StoreRequest::SearchNotes { query }))
                    && query@ == pre.search_query@)
                &&& post.input_mode == InputMode::Normal
                &&& post.search_query@.len() == 0
                &&& post.search_results@ == pre.search_results@
                &&& post.selected_result == pre.selected_result
            },
            Key::Esc => r is None && iterate_mode_set(pre, post, InputMode::Normal),
            _ => post == pre && r is None,
        },
    }
}

impl IterateZettelScreen {
    /// The cursor points at an existing result or at nothing.
    pub open spec fn inv(&self) -> bool {
        self.selected_result matches Some(i) ==> i < self.search_results@.len()
    }

    pub fn new(db_path: String, llm_config: LlmConfig) -> (r: Self)
        ensures
            r.inv(),
            r.input_mode == InputMode::Normal,
            r.search_query@.len() == 0,
            r.search_results@.len() == 0,
            r.selected_result is None,
            r.db_path == db_path,
            r.llm_config == llm_config,
    {
        Self {
            input_mode: InputMode::Normal,
            search_query: Vec::new(),
            search_results: Vec::new(),
            selected_result: None,
            db_path,
            llm_config,
        }
    }

    /// The screen's key map, by input mode; confirming in normal mode picks
    /// the selected result, confirming in insert mode submits the query.
    fn handle_key_event_internal(&self, key: Key) -> (r: Option<IterateScreenMessage>)
        ensures
            match self.input_mode {
                InputMode::Normal => r == (match key {
                    Key::Char(c) => if c == 'i' {
                        Some(IterateScreenMessage::EnterInsertMode)
                    } else if c == 'q' {
                        Some(IterateScreenMessage::BackToMainMenu)
                    } else {
                        None
                    },
                    Key::Esc => Some(IterateScreenMessage::BackToMainMenu),
                    Key::Up => Some(IterateScreenMessage::ResultListMoveUp),
                    Key::Down => Some(IterateScreenMessage::ResultListMoveDown),
                    Key::Enter => match self.selected_result {
                        Some(idx) => if idx < self.search_results@.len() {
                            Some(
                                IterateScreenMessage::IterateZettel(
                                    self.search_results@[idx as int],
                                ),
                            )
                        } else {
                            None
                        },
                        None => None,
                    },
                    _ => None::<IterateScreenMessage>,
                }),
                InputMode::Insert => match key {
                    Key::Char(c) => r == Some(IterateScreenMessage::InsertChar(c)),
                    Key::Backspace => r == Some(IterateScreenMessage::DeleteChar),
                    Key::Enter => r matches Some(IterateScreenMessage::SubmitQuery(q)) && q@
                        == self.search_query@,
                    Key::Esc => r == Some(IterateScreenMessage::ExitInsertMode),
                    _ => r is None,
                },
            },
    {
        match self.input_mode {
            InputMode::Normal => match key {
                Key::Char(c) => if c == 'i' {
                    Some(IterateScreenMessage::EnterInsertMode)
                } else if c == 'q' {
                    Some(IterateScreenMessage::BackToMainMenu)
                } else {
                    None
                },
                Key::Esc => Some(IterateScreenMessage::BackToMainMenu),
                Key::Up => Some(IterateScreenMessage::ResultListMoveUp),
                Key::Down => Some(IterateScreenMessage::ResultListMoveDown),
                Key::Enter => match self.selected_result {
                    Some(idx) => if idx < self.search_results.len() {
                        Some(IterateScreenMessage::IterateZettel(self.search_results[idx].clone()))
                    } else {
                        None
                    },
                    None => None,
                },
                _ => None,
            },
            InputMode::Insert => match key {
                Key::Char(c) => Some(IterateScreenMessage::InsertChar(c)),
                Key::Backspace => Some(IterateScreenMessage::DeleteChar),
                Key::Enter => Some(
                    IterateScreenMessage::SubmitQuery(chars_to_string(&self.search_query)),
                ),
                Key::Esc => Some(IterateScreenMessage::ExitInsertMode),
                _ => None,
            },
        }
    }

    /// The screen's own transitions: mode switches, query editing and
    /// cursor movement. A submitted query leaves as a search request; the
    /// buffer is cleared and the screen drops back to normal mode, and the
    /// results arrive later through [`Self::apply_search_results`].
    pub fn update(&mut self, message: IterateScreenMessage) -> (r: Option<StoreRequest>)
        requires
            old(self).inv(),
        ensures
            final(self).inv(),
            final(self).db_path == old(self).db_path,
            final(self).llm_config == old(self).llm_config,
            final(self).search_results@ == old(self).search_results@,
            match message {
                IterateScreenMessage::EnterInsertMode => {
                    &&& r is None
                    &&& final(self).input_mode == InputMode::Insert
                    &&& final(self).search_query@ == old(self).search_query@
                    &&& final(self).selected_result == old(self).selected_result
                },
                IterateScreenMessage::ExitInsertMode => {
                    &&& r is None
                    &&& final(self).input_mode == InputMode::Normal
                    &&& final(self).search_query@ == old(self).search_query@
                    &&& final(self).selected_result == old(self).selected_result
                },
                IterateScreenMessage::InsertChar(c) => {
                    &&& r is None
                    &&& final(self).input_mode == old(self).input_mode
                    &&& final(self).search_query@ == old(self).search_query@.push(c)
                    &&& final(self).selected_result == old(self).selected_result
                },
                IterateScreenMessage::DeleteChar => {
                    &&& r is None
                    &&& final(self).input_mode == old(self).input_mode
                    &&& final(self).search_query@ == if old(self).search_query@.len() == 0 {
                        old(self).search_query@
                    } else {
                        old(self).search_query@.drop_last()
                    }
                    &&& final(self).selected_result == old(self).selected_result
                },
                IterateScreenMessage::SubmitQuery(q) => {
                    &&& r == Some(StoreRequest::SearchNotes { query: q })
                    &&& final(self).input_mode == InputMode::Normal
                    &&& final(self).search_query@.len() == 0
                    &&& final(self).selected_result == old(self).selected_result
                },
                IterateScreenMessage::ResultListMoveUp => {
                    &&& r is None
                    &&& final(self).input_mode == old(self).input_mode
                    &&& final(self).search_query@ == old(self).search_query@
                    &&& final(self).selected_result == match old(self).selected_result {
                        Some(idx) => if idx > 0 {
                            Some((idx - 1) as usize)
                        } else {
                            Some(0usize)
                        },
                        None => None::<usize>,
                    }
                },
                IterateScreenMessage::ResultListMoveDown => {
                    &&& r is None
                    &&& final(self).input_mode == old(self).input_mode
                    &&& final(self).search_query@ == old(self).search_query@
                    &&& final(self).selected_result == match old(self).selected_result {
                        Some(idx) => if idx + 1 < old(self).search_results@.len() {
                            Some((idx + 1) as usize)
                        } else {
                            Some(idx)
                        },
                        None => None::<usize>,
                    }
                },
                _ => {
                    &&& r is None
                    &&& final(self).input_mode == old(self).input_mode
                    &&& final(self).search_query@ == old(self).search_query@
                    &&& final(self).selected_result == old(self).selected_result
                },
            },
    {
        match message {
            IterateScreenMessage::EnterInsertMode => {
                self.input_mode = InputMode::Insert;
                None
            },
            IterateScreenMessage::ExitInsertMode => {
                self.input_mode = InputMode::Normal;
                None
            },
            IterateScreenMessage::InsertChar(c) => {
                self.search_query.push(c);
                None
            },
            IterateScreenMessage::DeleteChar => {
                let _ = self.search_query.pop();
                None
            },
            IterateScreenMessage::SubmitQuery(q) => {
                self.input_mode = InputMode::Normal;
                self.search_query.clear();
                Some(StoreRequest::SearchNotes { query: q })
            },
            IterateScreenMessage::ResultListMoveUp => {
                match self.selected_result {
                    Some(idx) => {
                        if idx > 0 {
                            self.selected_result = Some(idx - 1);
                        }
                    },
                    None => {},
                }
                None
            },
            IterateScreenMessage::ResultListMoveDown => {
                let n = self.search_results.len();
                match self.selected_result {
                    Some(idx) => {
                        if idx + 1 < n {
                            self.selected_result = Some(idx + 1);
                        }
                    },
                    None => {},
                }
                None
            },
            _ => None,
        }
    }

    /// The screen's full transition: quitting returns to the main menu,
    /// confirming a result starts a note citing it, and everything else
    /// updates the screen itself (possibly emitting a search request), as
    /// [`iterate_key_rel`] states key by key.
    pub fn handle_key_event(&mut self, key: Key) -> (r: Option<AppCommand>)
        requires
            old(self).inv(),
        ensures
            final(self).inv(),
            iterate_key_rel(*old(self), *final(self), key, r),
    {
        match self.handle_key_event_internal(key) {
            Some(msg) => match msg {
                IterateScreenMessage::BackToMainMenu => Some(
                    AppCommand::SwitchScreen(
                        ActiveScreenType::Main(
                            MainMenuScreen::new(self.db_path.clone(), self.llm_config.clone()),
                        ),
                    ),
                ),
                IterateScreenMessage::IterateZettel(zettel) => {
                    let mut parents: Vec<Zettel> = Vec::new();
                    parents.push(zettel);
                    Some(AppCommand::AddZettel(parents))
                },
                _ => match self.update(msg) {
                    Some(req) => Some(AppCommand::Store(req)),
                    None => None,
                },
            },
            None => None,
        }
    }

    /// Takes the notes a search found (most similar first); the first is
    /// selected when there are any. A failed search hands in an empty list,
    /// which redraws as no results rather than ending the session.
    pub fn apply_search_results(&mut self, results: Vec<Zettel>)
        ensures
            final(self).inv(),
            final(self).search_results == results,
            final(self).selected_result == if results@.len() > 0 {
                Some(0usize)
            } else {
                None::<usize>
            },
            final(self).input_mode == old(self).input_mode,
            final(self).search_query@ == old(self).search_query@,
            final(self).db_path == old(self).db_path,
            final(self).llm_config == old(self).llm_config,
    {
        self.selected_result = if results.len() > 0 {
            Some(0)
        } else {
            None
        };
        self.search_results = results;
    }
}

} // verus!
