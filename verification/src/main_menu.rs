use vstd::prelude::*;

use crate::app::{ActiveScreenType, AppCommand, LlmConfig, StoreRequest, RECENT_LISTING_LEN};
use crate::common::InputMode;
use crate::input::Key;
use crate::iterate::IterateZettelScreen;

verus! {

/// The actions the main menu offers, in display order.
#[derive(Clone, Copy, PartialEq, Eq, Structural, Debug)]
pub enum Action {
    AddZettel,
    IterateZettel,
    RecentZettel,
}

/// The action one step above, saturating at the top.
pub open spec fn spec_previous(a: Action) -> Action {
    match a {
        Action::AddZettel => Action::AddZettel,
        Action::IterateZettel => Action::AddZettel,
        Action::RecentZettel => Action::IterateZettel,
    }
}

/// The action one step below, saturating at the bottom.
pub open spec fn spec_next(a: Action) -> Action {
    match a {
        Action::AddZettel => Action::IterateZettel,
        Action::IterateZettel => Action::RecentZettel,
        Action::RecentZettel => Action::RecentZettel,
    }
}

impl Action {
    pub fn previous(self) -> (r: Self)
        ensures
            r == spec_previous(self),
    {
        match self {
            Action::AddZettel => Action::AddZettel,
            Action::IterateZettel => Action::AddZettel,
            Action::RecentZettel => Action::IterateZettel,
        }
    }

    pub fn next(self) -> (r: Self)
        ensures
            r == spec_next(self),
    {
        match self {
            Action::AddZettel => Action::IterateZettel,
            Action::IterateZettel => Action::RecentZettel,
            Action::RecentZettel => Action::RecentZettel,
        }
    }
}

pub enum MainMenuMessage {
    QuitApp,
    MoveDown,
    MoveUp,
    DoAction(Action),
}

/// The entry screen: a cursor over the three actions.
pub struct MainMenuScreen {
    pub selected_action: Action,
    pub db_path: String,
    pub llm_config: LlmConfig,
}

/// The main menu's key map.
pub open spec fn spec_main_menu_message(s: MainMenuScreen, key: Key) -> Option<MainMenuMessage> {
    match key {
        Key::Down => Some(MainMenuMessage::MoveDown),
        Key::Up => Some(MainMenuMessage::MoveUp),
        Key::Char(c) => if c == 'q' {
            Some(MainMenuMessage::QuitApp)
        } else {
            None
        },
        Key::Esc => Some(MainMenuMessage::QuitApp),
        Key::Enter => Some(MainMenuMessage::DoAction(s.selected_action)),
        _ => None,
    }
}

/// The main menu's full transition relation: how one key takes the screen
/// from `pre` to `post` and which command `r` it emits.
pub open spec fn main_menu_key_rel(
    pre: MainMenuScreen,
    post: MainMenuScreen,
    key: Key,
    r: Option<AppCommand>,
) -> bool {
    &&& post.db_path == pre.db_path
    &&& post.llm_config == pre.llm_config
    &&& match spec_main_menu_message(pre, key) {
        None => r is None && post.selected_action == pre.selected_action,
        Some(msg) => match msg {
            MainMenuMessage::QuitApp => r == Some(AppCommand::Quit) && post.selected_action
                == pre.selected_action,
            MainMenuMessage::MoveDown => r is None && post.selected_action == spec_next(
                pre.selected_action,
            ),
            MainMenuMessage::MoveUp => r is None && post.selected_action == spec_previous(
                pre.selected_action,
            ),
            MainMenuMessage::DoAction(action) => {
                &&& post.selected_action == pre.selected_action
                &&& match action {
                    Action::AddZettel => r matches Some(AppCommand::AddZettel(v)) && v@.len()
                        == 0,
                    Action::IterateZettel => r matches Some(
                        AppCommand::SwitchScreen(ActiveScreenType::Iterate(s)),
                    ) && s.db_path == pre.db_path && s.llm_config == pre.llm_config
                        && s.input_mode == InputMode::Normal && s.search_query@.len() == 0
                        && s.search_results@.len() == 0 && s.selected_result is None,
                    Action::RecentZettel => r == Some(
                        AppCommand::Store(StoreRequest::LoadRecent { n: RECENT_LISTING_LEN }),
                    ),
                }
            },
        },
    }
}

impl MainMenuScreen {
    pub fn new(db_path: String, llm_config: LlmConfig) -> (r: Self)
        ensures
            r.selected_action == Action::AddZettel,
            r.db_path == db_path,
            r.llm_config == llm_config,
    {
        Self { selected_action: Action::AddZettel, db_path, llm_config }
    }

    fn handle_key_event_internal(&self, key: Key) -> (r: Option<MainMenuMessage>)
        ensures
            r == spec_main_menu_message(*self, key),
    {
        match key {
            Key::Down => Some(MainMenuMessage::MoveDown),
            Key::Up => Some(MainMenuMessage::MoveUp),
            Key::Char(c) => if c == 'q' {
                Some(MainMenuMessage::QuitApp)
            } else {
                None
            },
            Key::Esc => Some(MainMenuMessage::QuitApp),
            Key::Enter => Some(MainMenuMessage::DoAction(self.selected_action)),
            _ => None,
        }
    }

    fn update(&mut self, msg: MainMenuMessage)
        ensures
            final(self).db_path == old(self).db_path,
            final(self).llm_config == old(self).llm_config,
            final(self).selected_action == match msg {
                MainMenuMessage::MoveDown => spec_next(old(self).selected_action),
                MainMenuMessage::MoveUp => spec_previous(old(self).selected_action),
                _ => old(self).selected_action,
            },
    {
        match msg {
            MainMenuMessage::MoveDown => {
                self.selected_action = self.selected_action.next();
            },
            MainMenuMessage::MoveUp => {
                self.selected_action = self.selected_action.previous();
            },
            _ => {},
        }
    }

    /// The main menu's full transition: movement keys shift the cursor,
    /// quit keys end the session, and confirming an action emits the
    /// command that starts it — a blank note, the search screen, or a
    /// request to load the recent listing.
    pub fn handle_key_event(&mut self, key: Key) -> (r: Option<AppCommand>)
        ensures
            main_menu_key_rel(*old(self), *final(self), key, r),
    {
        match self.handle_key_event_internal(key) {
            Some(msg) => match msg {
                MainMenuMessage::QuitApp => Some(AppCommand::Quit),
                MainMenuMessage::DoAction(action) => match action {
                    Action::AddZettel => Some(AppCommand::AddZettel(Vec::new())),
                    Action::IterateZettel => Some(
                        AppCommand::SwitchScreen(
                            ActiveScreenType::Iterate(
                                IterateZettelScreen::new(
                                    self.db_path.clone(),
                                    self.llm_config.clone(),
                                ),
                            ),
                        ),
                    ),
                    Action::RecentZettel => Some(
                        AppCommand::Store(StoreRequest::LoadRecent { n: RECENT_LISTING_LEN }),
                    ),
                },
                _ => {
                    self.update(msg);
                    None
                },
            },
            None => None,
        }
    }
}

} // verus!
