use vstd::prelude::*;

verus! {

/// The window messages the document reacts to; `Size` carries the new
/// client width and height in pixels.
#[derive(Clone, Copy, Debug, PartialEq, Eq, Structural)]
pub enum WindowMessage {
    Paint,
    Size { width: u16, height: u16 },
    Destroy,
    NcDestroy,
    Other,
}

/// What the window procedure does with a message besides the document work:
/// the value it returns (`None`: hand the message to the platform's default
/// handling), whether it asks the application to quit, and whether it
/// unregisters the window class.
#[derive(Clone, Copy, Debug, PartialEq, Eq, Structural)]
pub struct Reaction {
    pub result: Option<isize>,
    pub post_quit: bool,
    pub unregister_class: bool,
}

/// The dispatch table of the window procedure.
pub open spec fn reaction_of(message: WindowMessage) -> Reaction {
    match message {
        WindowMessage::Paint => Reaction { result: Some(0), post_quit: false, unregister_class: false },
        WindowMessage::Size { .. } => Reaction {
            result: Some(0),
            post_quit: false,
            unregister_class: false,
        },
        WindowMessage::Destroy => Reaction { result: Some(1), post_quit: true, unregister_class: false },
        WindowMessage::NcDestroy => Reaction {
            result: Some(0),
            post_quit: false,
            unregister_class: true,
        },
        WindowMessage::Other => Reaction { result: None, post_quit: false, unregister_class: false },
    }
}

/// Looks a message up in the dispatch table: paint and resize are handled
/// and answer 0, destroy answers 1 and asks the application to quit, final
/// teardown unregisters the class, and anything else goes to the default
/// handling.
pub fn reaction(message: WindowMessage) -> (r: Reaction)
    ensures
        r == reaction_of(message),
{
    match message {
        WindowMessage::Paint => Reaction { result: Some(0), post_quit: false, unregister_class: false },
        WindowMessage::Size { .. } => Reaction {
            result: Some(0),
            post_quit: false,
            unregister_class: false,
        },
        WindowMessage::Destroy => Reaction { result: Some(1), post_quit: true, unregister_class: false },
        WindowMessage::NcDestroy => Reaction {
            result: Some(0),
            post_quit: false,
            unregister_class: true,
        },
        WindowMessage::Other => Reaction { result: None, post_quit: false, unregister_class: false },
    }
}

} // verus!
