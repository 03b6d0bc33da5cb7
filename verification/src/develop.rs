use vstd::prelude::*;

use crate::input::Key;

verus! {

/// A scratch screen used while trying out widgets; it only knows how to
/// exit.
pub struct DevelopFeature {
    pub exit: bool,
}

impl DevelopFeature {
    pub fn new() -> (r: Self)
        ensures
            r.exit == false,
    {
        DevelopFeature { exit: false }
    }
}

pub enum Message {
    ExitDevelopFeature,
}

/// The screen's transition: the exit message sets the exit flag.
pub fn update(model: &mut DevelopFeature, msg: Message)
    ensures
        final(model).exit == true,
{
    match msg {
        Message::ExitDevelopFeature => {
            model.exit = true;
        },
    }
}

/// The screen's key map: quit keys exit, everything else is ignored.
pub fn handle_key(key: Key) -> (r: Option<Message>)
    ensures
        r == (match key {
            Key::Char(c) => if c == 'q' {
                Some(Message::ExitDevelopFeature)
            } else {
                None
            },
            Key::Esc => Some(Message::ExitDevelopFeature),
            _ => None::<Message>,
        }),
{
    match key {
        Key::Char(c) => if c == 'q' {
            Some(Message::ExitDevelopFeature)
        } else {
            None
        },
        Key::Esc => Some(Message::ExitDevelopFeature),
        _ => None,
    }
}

} // verus!
