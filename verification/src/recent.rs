use vstd::prelude::*;

use crate::app::{ActiveScreenType, AppCommand, LlmConfig, StoreRequest};
use crate::common::{InputMode, ListWithState};
use crate::input::Key;
use crate::main_menu::{Action, MainMenuScreen};
use crate::model::{Zettel, ZettelTag};
use crate::store::{contains_text, string_in, text_views};
use crate::text::chars_to_string;

verus! {

/// Which layer of the recent screen has the focus.
#[derive(Clone, Copy, PartialEq, Eq, Structural, Debug)]
pub enum RecentView {
    ListView,
    TagView,
    TagSearchView,
}

/// The tag popup over one note: its tags, and a modal input for a new one.
pub struct TagViewState {
    pub zettel_id: i64,
    pub tags: ListWithState<ZettelTag>,
    pub input_mode: InputMode,
    pub input: Vec<char>,
}

/// The tag-search popup: text matches, the tags picked so far, and a modal
/// query input.
pub struct TagSearchViewState {
    pub tag_search_results: ListWithState<String>,
    pub selected_tags: Vec<String>,
    pub input_mode: InputMode,
    pub input: Vec<char>,
}

/// The recent-leaves screen: a cursor over the listed notes, and the two
/// popups, each present exactly while open.
pub struct RecentScreen {
    pub db_path: String,
    pub llm_config: LlmConfig,
    pub view: RecentView,
    pub zettels: ListWithState<Zettel>,
    pub tag_view_state: Option<TagViewState>,
    pub tag_search_view_state: Option<TagSearchViewState>,
}

pub enum RecentScreenMessage {
    SwitchView(RecentView),
    EnterTagInputInsertMode,
    ExitTagInputInsertMode,
    InsertTagInputChar(char),
    DeleteTagInputChar,
    SubmitTag,
    DeleteTag,
    TagListMoveUp,
    TagListMoveDown,
    BackToMainMenu,
    ResultListMoveUp,
    ResultListMoveDown,
    IterateZettel(Zettel),
    EnterTagSearchInsertMode,
    ExitTagSearchInsertMode,
    InsertTagSearchInputChar(char),
    DeleteTagSearchInputChar,
    SubmitTagSearchQuery,
    TagSearchResultListMoveUp,
    TagSearchResultListMoveDown,
    TagSearchResultAddToSelected,
    SubmitSelectedTagsForFiltering,
}

/// The screen's key map: which message a key produces, given the focused
/// layer and its input mode.
pub open spec fn spec_recent_message(s: RecentScreen, key: Key) -> Option<RecentScreenMessage> {
    match s.view {
        RecentView::ListView => match key {
            Key::Char(c) => if c == 'q' {
                Some(RecentScreenMessage::BackToMainMenu)
            } else if c == 't' {
                Some(RecentScreenMessage::SwitchView(RecentView::TagView))
            } else if c == 's' {
                Some(RecentScreenMessage::SwitchView(RecentView::TagSearchView))
            } else {
                None
            },
            Key::Up => Some(RecentScreenMessage::ResultListMoveUp),
            Key::Down => Some(RecentScreenMessage::ResultListMoveDown),
            Key::Enter => match s.zettels.selected {
                Some(idx) => if idx < s.zettels.items@.len() {
                    Some(RecentScreenMessage::IterateZettel(s.zettels.items@[idx as int]))
                } else {
                    None
                },
                None => None,
            },
            _ => None,
        },
        RecentView::TagView => match s.tag_view_state {
            Some(state) => match state.input_mode {
                InputMode::Normal => match key {
                    Key::Char(c) => if c == 'q' {
                        Some(RecentScreenMessage::SwitchView(RecentView::ListView))
                    } else if c == 'i' {
                        Some(RecentScreenMessage::EnterTagInputInsertMode)
                    } else if c == 'd' {
                        Some(RecentScreenMessage::DeleteTag)
                    } else {
                        None
                    },
                    Key::Up => Some(RecentScreenMessage::TagListMoveUp),
                    Key::Down => Some(RecentScreenMessage::TagListMoveDown),
                    _ => None,
                },
                InputMode::Insert => match key {
                    Key::Char(c) => Some(RecentScreenMessage::InsertTagInputChar(c)),
                    Key::Backspace => Some(RecentScreenMessage::DeleteTagInputChar),
                    Key::Enter => Some(RecentScreenMessage::SubmitTag),
                    Key::Esc => Some(RecentScreenMessage::ExitTagInputInsertMode),
                    _ => None,
                },
            },
            None => None,
        },
        RecentView::TagSearchView => match s.tag_search_view_state {
            Some(state) => match state.input_mode {
                InputMode::Normal => match key {
                    Key::Char(c) => if c == 'q' {
                        Some(RecentScreenMessage::SwitchView(RecentView::ListView))
                    } else if c == 'i' {
                        Some(RecentScreenMessage::EnterTagSearchInsertMode)
                    } else {
                        None
                    },
                    Key::Up => Some(RecentScreenMessage::TagSearchResultListMoveUp),
                    Key::Down => Some(RecentScreenMessage::TagSearchResultListMoveDown),
                    Key::Right => Some(RecentScreenMessage::TagSearchResultAddToSelected),
                    Key::Enter => Some(RecentScreenMessage::SubmitSelectedTagsForFiltering),
                    _ => None,
                },
                InputMode::Insert => match key {
                    Key::Esc => Some(RecentScreenMessage::ExitTagSearchInsertMode),
                    Key::Char(c) => Some(RecentScreenMessage::InsertTagSearchInputChar(c)),
                    Key::Backspace => Some(RecentScreenMessage::DeleteTagSearchInputChar),
                    Key::Enter => Some(RecentScreenMessage::SubmitTagSearchQuery),
                    _ => None,
                },
            },
            None => None,
        },
    }
}

/// `post` shows `v` as the tag popup's list (cursor on the first row), the
/// popup's input cleared back to normal mode; everything else as in `pre`.
pub open spec fn tags_applied(pre: RecentScreen, post: RecentScreen, v: Vec<ZettelTag>) -> bool {
    match pre.tag_view_state {
        Some(st0) => {
            &&& post.tag_view_state matches Some(st1)
            &&& st1.zettel_id == st0.zettel_id
            &&& st1.tags.items == v
            &&& st1.tags.selected == if v@.len() > 0 {
                Some(0usize)
            } else {
                None::<usize>
            }
            &&& st1.input_mode == st0.input_mode
            &&& st1.input@ == st0.input@
            &&& post.view == pre.view
            &&& post.zettels == pre.zettels
            &&& post.tag_search_view_state == pre.tag_search_view_state
            &&& post.db_path == pre.db_path
            &&& post.llm_config == pre.llm_config
        },
        None => post == pre,
    }
}

/// `post` shows `v` as the tag-search popup's matches (cursor on the first),
/// everything else as in `pre`.
pub open spec fn tag_names_applied(pre: RecentScreen, post: RecentScreen, v: Vec<String>) -> bool {
    match pre.tag_search_view_state {
        Some(st0) => {
            &&& post.tag_search_view_state matches Some(st1)
            &&& st1.tag_search_results.items == v
            &&& st1.tag_search_results.selected == if v@.len() > 0 {
                Some(0usize)
            } else {
                None::<usize>
            }
            &&& st1.selected_tags@ == st0.selected_tags@
            &&& st1.input_mode == st0.input_mode
            &&& st1.input@ == st0.input@
            &&& post.view == pre.view
            &&& post.zettels == pre.zettels
            &&& post.tag_view_state == pre.tag_view_state
            &&& post.db_path == pre.db_path
            &&& post.llm_config == pre.llm_config
        },
        None => post == pre,
    }
}

/// `post` lists `v` as the screen's notes with both popups closed,
/// everything else as in `pre`.
pub open spec fn filtered_applied(pre: RecentScreen, post: RecentScreen, v: Vec<Zettel>) -> bool {
    match pre.tag_search_view_state {
        Some(st0) => {
            &&& post.zettels.items == v
            &&& post.zettels.selected == if v@.len() > 0 {
                Some(0usize)
            } else {
                None::<usize>
            }
            &&& post.view == RecentView::ListView
            &&& post.tag_view_state is None
            &&& post.tag_search_view_state is None
            &&& post.db_path == pre.db_path
            &&& post.llm_config == pre.llm_config
        },
        None => post == pre,
    }
}

/// An exact copy of a list of tag strings.
fn clone_string_vec(v: &Vec<String>) -> (r: Vec<String>)
    ensures
        r@ == v@,
{
    let n = v.len();
    let mut out: Vec<String> = Vec::new();
    let mut i: usize = 0;
    while i < n
        invariant
            0 <= i <= n,
            n == v@.len(),
            out@ =~= v@.take(i as int),
        decreases n - i,
    {
        out.push(v[i].clone());
        i += 1;
    }
    proof {
        assert(v@.take(n as int) == v@);
    }
    out
}

/// The transition each screen-local message performs: how it takes the
/// screen from `pre` to `post` and which store request `r` it emits.
pub open spec fn recent_update_rel(
    pre: RecentScreen,
    post: RecentScreen,
    message: RecentScreenMessage,
    r: Option<StoreRequest>,
) -> bool {
    &&& post.db_path == pre.db_path
    &&& post.llm_config == pre.llm_config
    &&& match message {
                RecentScreenMessage::SwitchView(view) => match view {
                    RecentView::ListView => {
                        &&& r is None
                        &&& post.view == RecentView::ListView
                        &&& post.tag_view_state is None
                        &&& post.tag_search_view_state is None
                        &&& post.zettels == pre.zettels
                    },
                    RecentView::TagView => match pre.zettels.selected {
                        Some(idx) => {
                            &&& r == Some(
                                StoreRequest::LoadTags {
                                    zettel_id: pre.zettels.items@[idx as int].id,
                                },
                            )
                            &&& post.view == RecentView::TagView
                            &&& (post.tag_view_state matches Some(st) && st.zettel_id == pre.zettels.items@[idx as int].id && st.tags.items@.len() == 0
                                && st.input_mode == InputMode::Normal && st.input@.len() == 0)
                            &&& post.zettels == pre.zettels
                            &&& post.tag_search_view_state == pre.tag_search_view_state
                        },
                        None => post == pre && r is None,
                    },
                    RecentView::TagSearchView => {
                        &&& r is None
                        &&& post.view == RecentView::TagSearchView
                        &&& post.tag_view_state is None
                        &&& (post.tag_search_view_state matches Some(st)
                            && st.tag_search_results.items@.len() == 0 && st.selected_tags@.len()
                            == 0 && st.input_mode == InputMode::Normal && st.input@.len() == 0)
                        &&& post.zettels == pre.zettels
                    },
                },
                RecentScreenMessage::ResultListMoveUp => {
                    &&& r is None
                    &&& post.zettels.items == pre.zettels.items
                    &&& post.view == pre.view
                    &&& post.tag_view_state == pre.tag_view_state
                    &&& post.tag_search_view_state == pre.tag_search_view_state
                },
                RecentScreenMessage::ResultListMoveDown => {
                    &&& r is None
                    &&& post.zettels.items == pre.zettels.items
                    &&& post.view == pre.view
                    &&& post.tag_view_state == pre.tag_view_state
                    &&& post.tag_search_view_state == pre.tag_search_view_state
                },
                RecentScreenMessage::EnterTagInputInsertMode => match (
                    pre.view,
                    pre.tag_view_state,
                ) {
                    (RecentView::TagView, Some(st0)) => {
                        &&& r is None
                        &&& (post.tag_view_state matches Some(st1) && st1.zettel_id
                            == st0.zettel_id && st1.tags.items == st0.tags.items
                            && st1.tags.selected is None && st1.input@.len() == 0 && st1.input_mode
                            == InputMode::Insert)
                        &&& post.view == pre.view
                        &&& post.zettels == pre.zettels
                        &&& post.tag_search_view_state == pre.tag_search_view_state
                    },
                    _ => post == pre && r is None,
                },
                RecentScreenMessage::ExitTagInputInsertMode => match pre.tag_view_state {
                    Some(st0) => {
                        &&& r is None
                        &&& (post.tag_view_state matches Some(st1) && st1.zettel_id
                            == st0.zettel_id && st1.tags.items == st0.tags.items
                            && st1.tags.selected == (if st0.tags.items@.len() > 0 {
                                Some(0usize)
                            } else {
                                st0.tags.selected
                            }) && st1.input@.len() == 0 && st1.input_mode == InputMode::Normal)
                        &&& post.view == pre.view
                        &&& post.zettels == pre.zettels
                        &&& post.tag_search_view_state == pre.tag_search_view_state
                    },
                    None => post == pre && r is None,
                },
                RecentScreenMessage::InsertTagInputChar(c) => match pre.tag_view_state {
                    Some(st0) => {
                        &&& r is None
                        &&& (post.tag_view_state matches Some(st1) && st1.zettel_id
                            == st0.zettel_id && st1.tags == st0.tags && st1.input@
                            == st0.input@.push(c) && st1.input_mode == st0.input_mode)
                        &&& post.view == pre.view
                        &&& post.zettels == pre.zettels
                        &&& post.tag_search_view_state == pre.tag_search_view_state
                    },
                    None => post == pre && r is None,
                },
                RecentScreenMessage::DeleteTagInputChar => match pre.tag_view_state {
                    Some(st0) => {
                        &&& r is None
                        &&& (post.tag_view_state matches Some(st1) && st1.zettel_id
                            == st0.zettel_id && st1.tags == st0.tags && st1.input@ == (if st0.input@.len() == 0 {
                            st0.input@
                        } else {
                            st0.input@.drop_last()
                        }) && st1.input_mode == st0.input_mode)
                        &&& post.view == pre.view
                        &&& post.zettels == pre.zettels
                        &&& post.tag_search_view_state == pre.tag_search_view_state
                    },
                    None => post == pre && r is None,
                },
                RecentScreenMessage::SubmitTag => match pre.tag_view_state {
                    Some(st0) => {
                        &&& (r matches Some(StoreRequest::AddTag { zettel_id, tag })
                            && zettel_id == st0.zettel_id && tag@ == st0.input@)
                        &&& (post.tag_view_state matches Some(st1) && st1.zettel_id
                            == st0.zettel_id && st1.tags == st0.tags && st1.input@.len() == 0
                            && st1.input_mode == InputMode::Normal)
                        &&& post.view == pre.view
                        &&& post.zettels == pre.zettels
                        &&& post.tag_search_view_state == pre.tag_search_view_state
                    },
                    None => post == pre && r is None,
                },
                RecentScreenMessage::DeleteTag => match pre.tag_view_state {
                    Some(st0) => {
                        &&& (match st0.tags.selected {
                            Some(i) => if i < st0.tags.items@.len() {
                                r matches Some(StoreRequest::RemoveTag { zettel_id, tag })
                                    && zettel_id == st0.tags.items@[i as int].zettel_id && tag@
                                    == st0.tags.items@[i as int].tag@
                            } else {
                                r is None
                            },
                            None => r is None,
                        })
                        &&& post == pre
                    },
                    None => post == pre && r is None,
                },
                RecentScreenMessage::TagListMoveUp => match pre.tag_view_state {
                    Some(st0) => {
                        &&& r is None
                        &&& (post.tag_view_state matches Some(st1) && st1.zettel_id
                            == st0.zettel_id && st1.tags.items == st0.tags.items && st1.input@
                            == st0.input@ && st1.input_mode == st0.input_mode)
                        &&& post.view == pre.view
                        &&& post.zettels == pre.zettels
                        &&& post.tag_search_view_state == pre.tag_search_view_state
                    },
                    None => post == pre && r is None,
                },
                RecentScreenMessage::TagListMoveDown => match pre.tag_view_state {
                    Some(st0) => {
                        &&& r is None
                        &&& (post.tag_view_state matches Some(st1) && st1.zettel_id
                            == st0.zettel_id && st1.tags.items == st0.tags.items && st1.input@
                            == st0.input@ && st1.input_mode == st0.input_mode)
                        &&& post.view == pre.view
                        &&& post.zettels == pre.zettels
                        &&& post.tag_search_view_state == pre.tag_search_view_state
                    },
                    None => post == pre && r is None,
                },
                RecentScreenMessage::EnterTagSearchInsertMode => match pre.tag_search_view_state {
                    Some(st0) => {
                        &&& r is None
                        &&& (post.tag_search_view_state matches Some(st1)
                            && st1.tag_search_results.items@.len() == 0
                            && st1.tag_search_results.selected is None && st1.selected_tags@
                            == st0.selected_tags@ && st1.input@.len() == 0 && st1.input_mode
                            == InputMode::Insert)
                        &&& post.view == pre.view
                        &&& post.zettels == pre.zettels
                        &&& post.tag_view_state == pre.tag_view_state
                    },
                    None => post == pre && r is None,
                },
                RecentScreenMessage::ExitTagSearchInsertMode => match pre.tag_search_view_state {
                    Some(st0) => {
                        &&& r is None
                        &&& (post.tag_search_view_state matches Some(st1)
                            && st1.tag_search_results.items == st0.tag_search_results.items
                            && st1.selected_tags@ == st0.selected_tags@ && st1.input@.len() == 0
                            && st1.input_mode == InputMode::Normal)
                        &&& post.view == pre.view
                        &&& post.zettels == pre.zettels
                        &&& post.tag_view_state == pre.tag_view_state
                    },
                    None => post == pre && r is None,
                },
                RecentScreenMessage::InsertTagSearchInputChar(c) => match pre.tag_search_view_state {
                    Some(st0) => {
                        &&& r is None
                        &&& (post.tag_search_view_state matches Some(st1)
                            && st1.tag_search_results == st0.tag_search_results
                            && st1.selected_tags@ == st0.selected_tags@ && st1.input@
                            == st0.input@.push(c) && st1.input_mode == st0.input_mode)
                        &&& post.view == pre.view
                        &&& post.zettels == pre.zettels
                        &&& post.tag_view_state == pre.tag_view_state
                    },
                    None => post == pre && r is None,
                },
                RecentScreenMessage::DeleteTagSearchInputChar => match pre.tag_search_view_state {
                    Some(st0) => {
                        &&& r is None
                        &&& (post.tag_search_view_state matches Some(st1)
                            && st1.tag_search_results == st0.tag_search_results
                            && st1.selected_tags@ == st0.selected_tags@ && st1.input@ == (if st0.input@.len() == 0 {
                            st0.input@
                        } else {
                            st0.input@.drop_last()
                        }) && st1.input_mode == st0.input_mode)
                        &&& post.view == pre.view
                        &&& post.zettels == pre.zettels
                        &&& post.tag_view_state == pre.tag_view_state
                    },
                    None => post == pre && r is None,
                },
                RecentScreenMessage::SubmitTagSearchQuery => match pre.tag_search_view_state {
                    Some(st0) => {
                        &&& (if st0.input@.len() > 0 {
                            r matches Some(StoreRequest::SearchTags { substring }) && substring@
                                == st0.input@
                        } else {
                            r is None
                        })
                        &&& (post.tag_search_view_state matches Some(st1)
                            && st1.tag_search_results == st0.tag_search_results
                            && st1.selected_tags@ == st0.selected_tags@ && st1.input@ == st0.input@
                            && st1.input_mode == InputMode::Normal)
                        &&& post.view == pre.view
                        &&& post.zettels == pre.zettels
                        &&& post.tag_view_state == pre.tag_view_state
                    },
                    None => post == pre && r is None,
                },
                RecentScreenMessage::TagSearchResultListMoveUp => match pre.tag_search_view_state {
                    Some(st0) => {
                        &&& r is None
                        &&& (post.tag_search_view_state matches Some(st1)
                            && st1.tag_search_results.items == st0.tag_search_results.items
                            && st1.selected_tags@ == st0.selected_tags@ && st1.input@ == st0.input@
                            && st1.input_mode == st0.input_mode)
                        &&& post.view == pre.view
                        &&& post.zettels == pre.zettels
                        &&& post.tag_view_state == pre.tag_view_state
                    },
                    None => post == pre && r is None,
                },
                RecentScreenMessage::TagSearchResultListMoveDown => match pre.tag_search_view_state {
                    Some(st0) => {
                        &&& r is None
                        &&& (post.tag_search_view_state matches Some(st1)
                            && st1.tag_search_results.items == st0.tag_search_results.items
                            && st1.selected_tags@ == st0.selected_tags@ && st1.input@ == st0.input@
                            && st1.input_mode == st0.input_mode)
                        &&& post.view == pre.view
                        &&& post.zettels == pre.zettels
                        &&& post.tag_view_state == pre.tag_view_state
                    },
                    None => post == pre && r is None,
                },
                RecentScreenMessage::TagSearchResultAddToSelected => match pre.tag_search_view_state {
                    Some(st0) => {
                        &&& r is None
                        &&& (post.tag_search_view_state matches Some(st1)
                            && st1.tag_search_results == st0.tag_search_results && st1.input@
                            == st0.input@ && st1.input_mode == st0.input_mode
                            && st1.selected_tags@ == (match st0.tag_search_results.selected {
                            Some(i) => if i < st0.tag_search_results.items@.len()
                                && !contains_text(
                                text_views(st0.selected_tags@),
                                st0.tag_search_results.items@[i as int]@,
                            ) {
                                st0.selected_tags@.push(st0.tag_search_results.items@[i as int])
                            } else {
                                st0.selected_tags@
                            },
                            None => st0.selected_tags@,
                        }))
                        &&& post.view == pre.view
                        &&& post.zettels == pre.zettels
                        &&& post.tag_view_state == pre.tag_view_state
                    },
                    None => post == pre && r is None,
                },
                RecentScreenMessage::SubmitSelectedTagsForFiltering => match pre.tag_search_view_state {
                    Some(st0) => {
                        &&& (r matches Some(StoreRequest::FilterByTags { tags }) && tags@
                            == st0.selected_tags@)
                        &&& post == pre
                    },
                    None => post == pre && r is None,
                },
        _ => post == pre && r is None,
    }
}

/// The messages of the list layer.
pub open spec fn is_listing_message(message: RecentScreenMessage) -> bool {
    match message {
        RecentScreenMessage::SwitchView(_) => true,
        RecentScreenMessage::ResultListMoveUp => true,
        RecentScreenMessage::ResultListMoveDown => true,
        _ => false,
    }
}

/// The messages of the tag popup.
pub open spec fn is_tag_popup_message(message: RecentScreenMessage) -> bool {
    match message {
        RecentScreenMessage::EnterTagInputInsertMode => true,
        RecentScreenMessage::ExitTagInputInsertMode => true,
        RecentScreenMessage::InsertTagInputChar(_) => true,
        RecentScreenMessage::DeleteTagInputChar => true,
        RecentScreenMessage::SubmitTag => true,
        RecentScreenMessage::DeleteTag => true,
        RecentScreenMessage::TagListMoveUp => true,
        RecentScreenMessage::TagListMoveDown => true,
        _ => false,
    }
}

/// The messages of the tag-search popup.
pub open spec fn is_tag_search_message(message: RecentScreenMessage) -> bool {
    match message {
        RecentScreenMessage::EnterTagSearchInsertMode => true,
        RecentScreenMessage::ExitTagSearchInsertMode => true,
        RecentScreenMessage::InsertTagSearchInputChar(_) => true,
        RecentScreenMessage::DeleteTagSearchInputChar => true,
        RecentScreenMessage::SubmitTagSearchQuery => true,
        RecentScreenMessage::TagSearchResultListMoveUp => true,
        RecentScreenMessage::TagSearchResultListMoveDown => true,
        RecentScreenMessage::TagSearchResultAddToSelected => true,
        RecentScreenMessage::SubmitSelectedTagsForFiltering => true,
        _ => false,
    }
}

/// The screen's full key transition relation: how one key takes the screen
/// from `pre` to `post` and which command `r` it emits — back to the menu,
/// a new note citing the confirmed listing entry, or the emitted message's
/// own transition.
pub open spec fn recent_key_rel(
    pre: RecentScreen,
    post: RecentScreen,
    key: Key,
    r: Option<AppCommand>,
) -> bool {
    match spec_recent_message(pre, key) {
        None => post == pre && r is None,
        Some(msg) => match msg {
            RecentScreenMessage::BackToMainMenu => post == pre && (r matches Some(
                AppCommand::SwitchScreen(ActiveScreenType::Main(s)),
            ) && s.db_path == pre.db_path && s.llm_config == pre.llm_config && s.selected_action
                == Action::AddZettel),
            RecentScreenMessage::IterateZettel(z) => post == pre && (r matches Some(
                AppCommand::AddZettel(v),
            ) && v@ =~= seq![z]),
            _ => {
                ||| (r is None && recent_update_rel(pre, post, msg, None::<StoreRequest>))
                ||| (r matches Some(AppCommand::Store(q)) && recent_update_rel(
                    pre,
                    post,
                    msg,
                    Some(q),
                ))
            },
        },
    }
}

impl RecentScreen {
    /// Every cursor points at an existing item or at nothing.
    pub open spec fn inv(&self) -> bool {
        &&& self.zettels.inv()
        &&& (self.tag_view_state matches Some(st) ==> st.tags.inv())
        &&& (self.tag_search_view_state matches Some(st) ==> st.tag_search_results.inv())
    }

    /// A fresh screen over the given recent notes, list layer focused.
    pub fn new(zettels: Vec<Zettel>, db_path: String, llm_config: LlmConfig) -> (r: Self)
        ensures
            r.inv(),
            r.db_path == db_path,
            r.llm_config == llm_config,
            r.view == RecentView::ListView,
            r.zettels.items == zettels,
            r.zettels.selected == if zettels@.len() > 0 {
                Some(0usize)
            } else {
                None::<usize>
            },
            r.tag_view_state is None,
            r.tag_search_view_state is None,
    {
        Self {
            db_path,
            llm_config,
            view: RecentView::ListView,
            zettels: ListWithState::new(zettels),
            tag_view_state: None,
            tag_search_view_state: None,
        }
    }

    fn handle_key_event_internal(&self, key: Key) -> (r: Option<RecentScreenMessage>)
        ensures
            r == spec_recent_message(*self, key),
    {
        match self.view {
            RecentView::ListView => match key {
                Key::Char(c) => if c == 'q' {
                    Some(RecentScreenMessage::BackToMainMenu)
                } else if c == 't' {
                    Some(RecentScreenMessage::SwitchView(RecentView::TagView))
                } else if c == 's' {
                    Some(RecentScreenMessage::SwitchView(RecentView::TagSearchView))
                } else {
                    None
                },
                Key::Up => Some(RecentScreenMessage::ResultListMoveUp),
                Key::Down => Some(RecentScreenMessage::ResultListMoveDown),
                Key::Enter => match self.zettels.selected {
                    Some(idx) => if idx < self.zettels.items.len() {
                        Some(RecentScreenMessage::IterateZettel(self.zettels.items[idx].clone()))
                    } else {
                        None
                    },
                    None => None,
                },
                _ => None,
            },
            RecentView::TagView => match &self.tag_view_state {
                Some(state) => match state.input_mode {
                    InputMode::Normal => match key {
                        Key::Char(c) => if c == 'q' {
                            Some(RecentScreenMessage::SwitchView(RecentView::ListView))
                        } else if c == 'i' {
                            Some(RecentScreenMessage::EnterTagInputInsertMode)
                        } else if c == 'd' {
                            Some(RecentScreenMessage::DeleteTag)
                        } else {
                            None
                        },
                        Key::Up => Some(RecentScreenMessage::TagListMoveUp),
                        Key::Down => Some(RecentScreenMessage::TagListMoveDown),
                        _ => None,
                    },
                    InputMode::Insert => match key {
                        Key::Char(c) => Some(RecentScreenMessage::InsertTagInputChar(c)),
                        Key::Backspace => Some(RecentScreenMessage::DeleteTagInputChar),
                        Key::Enter => Some(RecentScreenMessage::SubmitTag),
                        Key::Esc => Some(RecentScreenMessage::ExitTagInputInsertMode),
                        _ => None,
                    },
                },
                None => None,
            },
            RecentView::TagSearchView => match &self.tag_search_view_state {
                Some(state) => match state.input_mode {
                    InputMode::Normal => match key {
                        Key::Char(c) => if c == 'q' {
                            Some(RecentScreenMessage::SwitchView(RecentView::ListView))
                        } else if c == 'i' {
                            Some(RecentScreenMessage::EnterTagSearchInsertMode)
                        } else {
                            None
                        },
                        Key::Up => Some(RecentScreenMessage::TagSearchResultListMoveUp),
                        Key::Down => Some(RecentScreenMessage::TagSearchResultListMoveDown),
                        Key::Right => Some(RecentScreenMessage::TagSearchResultAddToSelected),
                        Key::Enter => Some(RecentScreenMessage::SubmitSelectedTagsForFiltering),
                        _ => None,
                    },
                    InputMode::Insert => match key {
                        Key::Esc => Some(RecentScreenMessage::ExitTagSearchInsertMode),
                        Key::Char(c) => Some(RecentScreenMessage::InsertTagSearchInputChar(c)),
                        Key::Backspace => Some(RecentScreenMessage::DeleteTagSearchInputChar),
                        Key::Enter => Some(RecentScreenMessage::SubmitTagSearchQuery),
                        _ => None,
                    },
                },
                None => None,
            },
        }
    }

    /// The screen's own transitions. Store work leaves as a request: opening
    /// the tag popup loads the note's tags; submitting or deleting a tag
    /// rewrites it and reloads; a tag-text query searches; confirming the
    /// picked tags filters the listing. The results return through the
    /// apply methods.
    /// Transitions of the list layer: moving the cursor and opening or
    /// closing the popups; opening the tag popup asks for the note's tags.
    pub fn update_listing(&mut self, message: RecentScreenMessage) -> (r: Option<StoreRequest>)
        requires
            old(self).inv(),
            is_listing_message(message),
        ensures
            final(self).inv(),
            recent_update_rel(*old(self), *final(self), message, r),
    {
        match message {
            RecentScreenMessage::SwitchView(view) => match view {
                RecentView::ListView => {
                    self.tag_view_state = None;
                    self.tag_search_view_state = None;
                    self.view = RecentView::ListView;
                    None
                },
                RecentView::TagView => {
                    match self.zettels.curr_idx() {
                        Some(idx) => {
                            self.view = RecentView::TagView;
                            let zettel_id = self.zettels.items[idx].id;
                            self.tag_view_state = Some(
                                TagViewState {
                                    zettel_id,
                                    tags: ListWithState::new(Vec::new()),
                                    input_mode: InputMode::Normal,
                                    input: Vec::new(),
                                },
                            );
                            Some(StoreRequest::LoadTags { zettel_id })
                        },
                        None => None,
                    }
                },
                RecentView::TagSearchView => {
                    self.tag_view_state = None;
                    self.tag_search_view_state = Some(
                        TagSearchViewState {
                            tag_search_results: ListWithState::new(Vec::new()),
                            selected_tags: Vec::new(),
                            input_mode: InputMode::Normal,
                            input: Vec::new(),
                        },
                    );
                    self.view = RecentView::TagSearchView;
                    None
                },
            },
            RecentScreenMessage::ResultListMoveUp => {
                self.zettels.select_prev();
                None
            },
            RecentScreenMessage::ResultListMoveDown => {
                self.zettels.select_next();
                None
            },
            _ => None,
        }
    }

    /// Transitions of the tag popup: editing and submitting a tag (an
    /// upsert), deleting the selected one, and moving its cursor.
    pub fn update_tag_popup(&mut self, message: RecentScreenMessage) -> (r: Option<StoreRequest>)
        requires
            old(self).inv(),
            is_tag_popup_message(message),
        ensures
            final(self).inv(),
            recent_update_rel(*old(self), *final(self), message, r),
    {
        match message {
            RecentScreenMessage::EnterTagInputInsertMode => {
                match self.view {
                    RecentView::TagView => {
                        match &mut self.tag_view_state {
                            Some(state) => {
                                state.tags.unselect();
                                state.input.clear();
                                state.input_mode = InputMode::Insert;
                            },
                            None => {},
                        }
                    },
                    _ => {},
                }
                None
            },
            RecentScreenMessage::ExitTagInputInsertMode => {
                match &mut self.tag_view_state {
                    Some(state) => {
                        state.tags.select_first();
                        state.input.clear();
                        state.input_mode = InputMode::Normal;
                    },
                    None => {},
                }
                None
            },
            RecentScreenMessage::InsertTagInputChar(c) => {
                match &mut self.tag_view_state {
                    Some(state) => {
                        state.input.push(c);
                    },
                    None => {},
                }
                None
            },
            RecentScreenMessage::DeleteTagInputChar => {
                match &mut self.tag_view_state {
                    Some(state) => {
                        let _ = state.input.pop();
                    },
                    None => {},
                }
                None
            },
            RecentScreenMessage::SubmitTag => {
                match &mut self.tag_view_state {
                    Some(state) => {
                        let tag = chars_to_string(&state.input);
                        state.input.clear();
                        state.input_mode = InputMode::Normal;
                        Some(StoreRequest::AddTag { zettel_id: state.zettel_id, tag })
                    },
                    None => None,
                }
            },
            RecentScreenMessage::DeleteTag => {
                match &mut self.tag_view_state {
                    Some(state) => {
                        match state.tags.get_selected_item() {
                            Some(zettel_tag) => Some(
                                StoreRequest::RemoveTag {
                                    zettel_id: zettel_tag.zettel_id,
                                    tag: zettel_tag.tag,
                                },
                            ),
                            None => None,
                        }
                    },
                    None => None,
                }
            },
            RecentScreenMessage::TagListMoveUp => {
                match &mut self.tag_view_state {
                    Some(state) => {
                        state.tags.select_prev();
                    },
                    None => {},
                }
                None
            },
            RecentScreenMessage::TagListMoveDown => {
                match &mut self.tag_view_state {
                    Some(state) => {
                        state.tags.select_next();
                    },
                    None => {},
                }
                None
            },
            _ => None,
        }
    }

    /// Transitions of the tag-search popup: editing and submitting the
    /// text query, picking matches, and confirming the picked tags for
    /// filtering.
    pub fn update_tag_search_popup(&mut self, message: RecentScreenMessage) -> (r: Option<StoreRequest>)
        requires
            old(self).inv(),
            is_tag_search_message(message),
        ensures
            final(self).inv(),
            recent_update_rel(*old(self), *final(self), message, r),
    {
        match message {
            RecentScreenMessage::EnterTagSearchInsertMode => {
                match &mut self.tag_search_view_state {
                    Some(state) => {
                        state.tag_search_results.clear_items();
                        state.input_mode = InputMode::Insert;
                        state.input.clear();
                    },
                    None => {},
                }
                None
            },
            RecentScreenMessage::ExitTagSearchInsertMode => {
                match &mut self.tag_search_view_state {
                    Some(state) => {
                        state.input.clear();
                        state.input_mode = InputMode::Normal;
                        state.tag_search_results.select_first();
                    },
                    None => {},
                }
                None
            },
            RecentScreenMessage::InsertTagSearchInputChar(c) => {
                match &mut self.tag_search_view_state {
                    Some(state) => {
                        state.input.push(c);
                    },
                    None => {},
                }
                None
            },
            RecentScreenMessage::DeleteTagSearchInputChar => {
                match &mut self.tag_search_view_state {
                    Some(state) => {
                        let _ = state.input.pop();
                    },
                    None => {},
                }
                None
            },
            RecentScreenMessage::SubmitTagSearchQuery => {
                match &mut self.tag_search_view_state {
                    Some(state) => {
                        let r = if state.input.len() > 0 {
                            Some(
                                StoreRequest::SearchTags {
                                    substring: chars_to_string(&state.input),
                                },
                            )
                        } else {
                            None
                        };
                        state.input_mode = InputMode::Normal;
                        r
                    },
                    None => None,
                }
            },
            RecentScreenMessage::TagSearchResultListMoveUp => {
                match &mut self.tag_search_view_state {
                    Some(state) => {
                        state.tag_search_results.select_prev();
                    },
                    None => {},
                }
                None
            },
            RecentScreenMessage::TagSearchResultListMoveDown => {
                match &mut self.tag_search_view_state {
                    Some(state) => {
                        state.tag_search_results.select_next();
                    },
                    None => {},
                }
                None
            },
            RecentScreenMessage::TagSearchResultAddToSelected => {
                match &mut self.tag_search_view_state {
                    Some(state) => {
                        match state.tag_search_results.get_selected_item() {
                            Some(selected_tag) => {
                                if !string_in(&state.selected_tags, &selected_tag) {
                                    state.selected_tags.push(selected_tag);
                                }
                            },
                            None => {},
                        }
                    },
                    None => {},
                }
                None
            },
            RecentScreenMessage::SubmitSelectedTagsForFiltering => {
                match &self.tag_search_view_state {
                    Some(state) => Some(
                        StoreRequest::FilterByTags { tags: clone_string_vec(&state.selected_tags) },
                    ),
                    None => None,
                }
            },
            _ => None,
        }
    }

    /// The screen's full transition: quitting returns to the main menu,
    /// confirming a listed note starts a new note citing it, and everything
    /// else applies the emitted message's own transition (possibly emitting
    /// a store request), as [`recent_key_rel`] states key by key.
    pub fn handle_key_event(&mut self, key: Key) -> (r: Option<AppCommand>)
        requires
            old(self).inv(),
        ensures
            final(self).inv(),
            recent_key_rel(*old(self), *final(self), key, r),
    {
        match self.handle_key_event_internal(key) {
            Some(msg) => match msg {
                RecentScreenMessage::BackToMainMenu => Some(
                    AppCommand::SwitchScreen(
                        ActiveScreenType::Main(
                            MainMenuScreen::new(self.db_path.clone(), self.llm_config.clone()),
                        ),
                    ),
                ),
                RecentScreenMessage::IterateZettel(zettel) => {
                    let mut parents: Vec<Zettel> = Vec::new();
                    parents.push(zettel);
                    Some(AppCommand::AddZettel(parents))
                },
                RecentScreenMessage::SwitchView(_)
                | RecentScreenMessage::ResultListMoveUp
                | RecentScreenMessage::ResultListMoveDown => match self.update_listing(msg) {
                    Some(req) => Some(AppCommand::Store(req)),
                    None => None,
                },
                RecentScreenMessage::EnterTagInputInsertMode
                | RecentScreenMessage::ExitTagInputInsertMode
                | RecentScreenMessage::InsertTagInputChar(_)
                | RecentScreenMessage::DeleteTagInputChar
                | RecentScreenMessage::SubmitTag
                | RecentScreenMessage::DeleteTag
                | RecentScreenMessage::TagListMoveUp
                | RecentScreenMessage::TagListMoveDown => match self.update_tag_popup(msg) {
                    Some(req) => Some(AppCommand::Store(req)),
                    None => None,
                },
                _ => match self.update_tag_search_popup(msg) {
                    Some(req) => Some(AppCommand::Store(req)),
                    None => None,
                },
            },
            None => None,
        }
    }

    /// Takes the freshly loaded tags of the popup's note.
    pub fn apply_tags(&mut self, tags: Vec<ZettelTag>)
        requires
            old(self).inv(),
        ensures
            final(self).inv(),
            tags_applied(*old(self), *final(self), tags),
    {
        match &mut self.tag_view_state {
            Some(state) => {
                state.tags = ListWithState::new(tags);
            },
            None => {},
        }
    }

    /// Takes the tag texts a tag-text search found.
    pub fn apply_tag_names(&mut self, names: Vec<String>)
        requires
            old(self).inv(),
        ensures
            final(self).inv(),
            tag_names_applied(*old(self), *final(self), names),
    {
        match &mut self.tag_search_view_state {
            Some(state) => {
                state.tag_search_results = ListWithState::new(names);
            },
            None => {},
        }
    }

    /// Takes the notes a tag filter selected: they replace the listing and
    /// the popups close.
    pub fn apply_filtered(&mut self, zettels: Vec<Zettel>)
        requires
            old(self).inv(),
        ensures
            final(self).inv(),
            filtered_applied(*old(self), *final(self), zettels),
    {
        match &self.tag_search_view_state {
            Some(_) => {
                self.zettels = ListWithState::new(zettels);
                self.tag_view_state = None;
                self.tag_search_view_state = None;
                self.view = RecentView::ListView;
            },
            None => {},
        }
    }
}

} // verus!
