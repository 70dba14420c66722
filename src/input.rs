use vstd::prelude::*;

verus! {

/// A mouse button that the injection capability can click.
#[derive(Debug, Clone, Copy, PartialEq, Eq, Structural)]
pub enum MouseButton {
    Left,
    Right,
    Middle,
}

/// One abstract input event, as the UI layer sends it.
#[derive(Debug)]
pub enum InputEvent {
    /// Move the pointer to absolute pixel coordinates.
    MouseMove { x: i32, y: i32 },
    /// Click a button named by a tag: `left`, `right` or `middle`.
    MouseClick { button: String },
    /// Type a literal text.
    KeyPress { text: String },
}

/// One call against the injection capability.
#[derive(Debug, Clone, Copy, PartialEq, Eq, Structural)]
pub enum InputAction {
    /// Absolute move, coordinates passed through as they came.
    MoveTo { x: i32, y: i32 },
    /// Press and release.
    Click(MouseButton),
    /// One keystroke that types this character.
    Keystroke { key: char },
}

/// The button that a click tag names; other tags name none.
pub open spec fn button_named(tag: Seq<char>) -> Option<MouseButton> {
    if tag == "left"@ {
        Some(MouseButton::Left)
    } else if tag == "right"@ {
        Some(MouseButton::Right)
    } else if tag == "middle"@ {
        Some(MouseButton::Middle)
    } else {
        None
    }
}

/// One keystroke per character, in order.
pub open spec fn typed(text: Seq<char>) -> Seq<InputAction>
    decreases text.len(),
{
    if text.len() == 0 {
        Seq::empty()
    } else {
        typed(text.drop_last()).push(InputAction::Keystroke { key: text.last() })
    }
}

/// The injection calls that an event stands for, in order.
pub open spec fn actions_for(event: InputEvent) -> Seq<InputAction> {
    match event {
        InputEvent::MouseMove { x, y } => seq![InputAction::MoveTo { x, y }],
        InputEvent::MouseClick { button } => match button_named(button@) {
            Some(b) => seq![InputAction::Click(b)],
            None => Seq::empty(),
        },
        InputEvent::KeyPress { text } => typed(text@),
    }
}

fn tag_is(tag: &String, name: &str) -> (r: bool)
    ensures
        r == (tag@ == name@),
{
    let expected = String::from_str(name);
    *tag == expected
}

/// Parses a click tag. Unrecognised tags give `None`, which callers treat
/// as nothing to do rather than as an error.
pub fn parse_button(tag: &String) -> (r: Option<MouseButton>)
    ensures
        r == button_named(tag@),
{
    if tag_is(tag, "left") {
        Some(MouseButton::Left)
    } else if tag_is(tag, "right") {
        Some(MouseButton::Right)
    } else if tag_is(tag, "middle") {
        Some(MouseButton::Middle)
    } else {
        None
    }
}

/// One keystroke per character of `text`, in order.
pub fn keystrokes(text: &String) -> (r: Vec<InputAction>)
    ensures
        r@ == typed(text@),
{
    let s = text.as_str();
    let n = s.unicode_len();
    let mut out: Vec<InputAction> = Vec::new();
    let mut i: usize = 0;
    while i < n
        invariant
            s@ == text@,
            n == text@.len(),
            i <= n,
            out@ == typed(text@.subrange(0, i as int)),
        decreases n - i,
    {
        let c = s.get_char(i);
        out.push(InputAction::Keystroke { key: c });
        assert(text@.subrange(0, i + 1).drop_last() =~= text@.subrange(0, i as int));
        i = i + 1;
    }
    assert(text@.subrange(0, n as int) =~= text@);
    out
}

/// Translates one event into the injection calls that carry it out, in the
/// order they are to be made. A click with an unrecognised tag gives no
/// call at all and no error.
pub fn dispatch_input(event: &InputEvent) -> (r: Vec<InputAction>)
    ensures
        r@ == actions_for(*event),
{
    match event {
        InputEvent::MouseMove { x, y } => {
            let mut out: Vec<InputAction> = Vec::new();
            out.push(InputAction::MoveTo { x: *x, y: *y });
            assert(out@ =~= actions_for(*event));
            out
        },
        InputEvent::MouseClick { button } => {
            let mut out: Vec<InputAction> = Vec::new();
            match parse_button(button) {
                Some(b) => {
                    out.push(InputAction::Click(b));
                },
                None => {},
            }
            assert(out@ =~= actions_for(*event));
            out
        },
        InputEvent::KeyPress { text } => keystrokes(text),
    }
}

} // verus!
