use vstd::prelude::*;

use crate::common::InputMode;
use crate::input::Key;
use crate::llm::LlmClient;
use crate::model::Zettel;
use crate::text::chars_to_string;

verus! {

/// A standalone semantic-search screen: a query buffer in two input modes
/// and the contents of the notes found.
pub struct SearchFeature {
    pub llm_client: LlmClient,
    pub input: Vec<char>,
    pub input_mode: InputMode,
    pub exit: bool,
    pub search_results: Vec<String>,
}

impl SearchFeature {
    pub fn new(llm_client: LlmClient) -> (r: Self)
        ensures
            r.llm_client == llm_client,
            r.input@.len() == 0,
            r.input_mode == InputMode::Normal,
            r.exit == false,
            r.search_results@.len() == 0,
    {
        SearchFeature {
            llm_client,
            input: Vec::new(),
            input_mode: InputMode::Normal,
            exit: false,
            search_results: Vec::new(),
        }
    }
}

pub enum Message {
    ExitSearchFeature,
    EnterInsertMode,
    ExitInsertMode,
    InsertCharacter(char),
    DeleteCharacter,
    SubmitQuery,
}

/// The screen's key map, by input mode.
pub fn handle_key(key: Key, input_mode: &InputMode) -> (r: Option<Message>)
    ensures
        r == (match *input_mode {
            InputMode::Normal => match key {
                Key::Char(c) => if c == 'i' {
                    Some(Message::EnterInsertMode)
                } else if c == 'q' {
                    Some(Message::ExitSearchFeature)
                } else {
                    None
                },
                Key::Esc => Some(Message::ExitSearchFeature),
                Key::Enter => Some(Message::SubmitQuery),
                _ => None::<Message>,
            },
            InputMode::Insert => match key {
                Key::Esc => Some(Message::ExitInsertMode),
                Key::Char(c) => Some(Message::InsertCharacter(c)),
                Key::Backspace => Some(Message::DeleteCharacter),
                Key::Enter => Some(Message::SubmitQuery),
                _ => None::<Message>,
            },
        }),
{
    match input_mode {
        InputMode::Normal => match key {
            Key::Char(c) => if c == 'i' {
                Some(Message::EnterInsertMode)
            } else if c == 'q' {
                Some(Message::ExitSearchFeature)
            } else {
                None
            },
            Key::Esc => Some(Message::ExitSearchFeature),
            Key::Enter => Some(Message::SubmitQuery),
            _ => None,
        },
        InputMode::Insert => match key {
            Key::Esc => Some(Message::ExitInsertMode),
            Key::Char(c) => Some(Message::InsertCharacter(c)),
            Key::Backspace => Some(Message::DeleteCharacter),
            Key::Enter => Some(Message::SubmitQuery),
            _ => None,
        },
    }
}

/// The screen's transition. A submitted query is handed back as text for
/// the runtime to embed and search; every other message changes only the
/// screen's own state.
pub fn update(model: &mut SearchFeature, msg: Message) -> (r: Option<String>)
    ensures
        final(model).llm_client == old(model).llm_client,
        match msg {
            Message::ExitSearchFeature => {
                &&& r is None
                &&& final(model).exit == true
                &&& final(model).input@ == old(model).input@
                &&& final(model).input_mode == old(model).input_mode
                &&& final(model).search_results@ == old(model).search_results@
            },
            Message::EnterInsertMode => {
                &&& r is None
                &&& final(model).input_mode == InputMode::Insert
                &&& final(model).exit == old(model).exit
                &&& final(model).input@ == old(model).input@
                &&& final(model).search_results@ == old(model).search_results@
            },
            Message::ExitInsertMode => {
                &&& r is None
                &&& final(model).input_mode == InputMode::Normal
                &&& final(model).exit == old(model).exit
                &&& final(model).input@ == old(model).input@
                &&& final(model).search_results@ == old(model).search_results@
            },
            Message::InsertCharacter(c) => {
                &&& r is None
                &&& final(model).input@ == old(model).input@.push(c)
                &&& final(model).input_mode == old(model).input_mode
                &&& final(model).exit == old(model).exit
                &&& final(model).search_results@ == old(model).search_results@
            },
            Message::DeleteCharacter => {
                &&& r is None
                &&& final(model).input@ == if old(model).input@.len() == 0 {
                    old(model).input@
                } else {
                    old(model).input@.drop_last()
                }
                &&& final(model).input_mode == old(model).input_mode
                &&& final(model).exit == old(model).exit
                &&& final(model).search_results@ == old(model).search_results@
            },
            Message::SubmitQuery => {
                &&& r matches Some(q) && q@ == old(model).input@
                &&& final(model).input@.len() == 0
                &&& final(model).input_mode == InputMode::Normal
                &&& final(model).exit == old(model).exit
                &&& final(model).search_results@ == old(model).search_results@
            },
        },
{
    match msg {
        Message::ExitSearchFeature => {
            model.exit = true;
            None
        },
        Message::EnterInsertMode => {
            model.input_mode = InputMode::Insert;
            None
        },
        Message::ExitInsertMode => {
            model.input_mode = InputMode::Normal;
            None
        },
        Message::InsertCharacter(c) => {
            model.input.push(c);
            None
        },
        Message::DeleteCharacter => {
            let _ = model.input.pop();
            None
        },
        Message::SubmitQuery => {
            let q = chars_to_string(&model.input);
            model.input.clear();
            model.input_mode = InputMode::Normal;
            Some(q)
        },
    }
}

/// Takes the notes a search found and shows their contents, as the search
/// collaborator returned them.
pub fn apply_search_results(model: &mut SearchFeature, zettels: Vec<Zettel>)
    ensures
        final(model).search_results@.len() == zettels@.len(),
        forall|i: int|
            0 <= i < zettels@.len() ==> (#[trigger] final(model).search_results@[i])@
                == zettels@[i].content@,
        final(model).input@ == old(model).input@,
        final(model).input_mode == old(model).input_mode,
        final(model).exit == old(model).exit,
        final(model).llm_client == old(model).llm_client,
{
    let n = zettels.len();
    let mut out: Vec<String> = Vec::new();
    let mut i: usize = 0;
    while i < n
        invariant
            0 <= i <= n,
            n == zettels@.len(),
            out@.len() == i,
            forall|m: int| 0 <= m < i ==> (#[trigger] out@[m])@ == zettels@[m].content@,
        decreases n - i,
    {
        out.push(zettels[i].content.clone());
        i += 1;
    }
    model.search_results = out;
}

} // verus!
