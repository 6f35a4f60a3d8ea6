//! Modal stacking: Escape, Enter and an outside click act on the topmost
//! visible overlay, which is the last registered one that is visible.

use vstd::prelude::*;

verus! {

/// Index of the last visible overlay, if any is visible.
pub fn topmost_visible(visible: &[bool]) -> (r: Option<usize>)
    ensures
        match r {
            Some(i) => {
                &&& i < visible@.len()
                &&& visible@[i as int]
                &&& forall|j: int| i < j < visible@.len() ==> !visible@[j]
            },
            None => forall|j: int| 0 <= j < visible@.len() ==> !visible@[j],
        },
{
    let mut i: usize = visible.len();
    while i > 0
        invariant
            i <= visible@.len(),
            forall|j: int| i <= j < visible@.len() ==> !visible@[j],
        decreases i,
    {
        if visible[i - 1] {
            return Some(i - 1);
        }
        i = i - 1;
    }
    None
}

/// Input that the overlay container intercepts before its children.
#[derive(Debug, Clone, Copy, PartialEq, Eq, Structural)]
pub enum OverlayInput {
    /// The Escape key.
    Escape,
    /// Return or keypad Enter.
    Enter,
    /// A pointer press outside every visible overlay.
    PointerPressOutside,
    /// Anything else.
    Other,
}

/// What the container does with an intercepted input.
#[derive(Debug, Clone, Copy, PartialEq, Eq, Structural)]
pub enum OverlayAction {
    /// Dismiss the overlay at this index; the input is handled.
    Dismiss(usize),
    /// Accept (run the Enter action of) the overlay at this index; the
    /// input is handled.
    Accept(usize),
    /// Hand the input on to the children.
    PassThrough,
}

/// Escape and a press outside dismiss the topmost visible overlay, Enter
/// accepts it; with no overlay visible, or for any other input, the input
/// passes through to the children.
pub fn overlay_action(input: OverlayInput, visible: &[bool]) -> (r: OverlayAction)
    ensures
        match input {
            OverlayInput::Escape | OverlayInput::PointerPressOutside => match r {
                OverlayAction::Dismiss(i) => {
                    &&& i < visible@.len()
                    &&& visible@[i as int]
                    &&& forall|j: int| i < j < visible@.len() ==> !visible@[j]
                },
                OverlayAction::PassThrough => forall|j: int|
                    0 <= j < visible@.len() ==> !visible@[j],
                OverlayAction::Accept(_) => false,
            },
            OverlayInput::Enter => match r {
                OverlayAction::Accept(i) => {
                    &&& i < visible@.len()
                    &&& visible@[i as int]
                    &&& forall|j: int| i < j < visible@.len() ==> !visible@[j]
                },
                OverlayAction::PassThrough => forall|j: int|
                    0 <= j < visible@.len() ==> !visible@[j],
                OverlayAction::Dismiss(_) => false,
            },
            OverlayInput::Other => r == OverlayAction::PassThrough,
        },
{
    match input {
        OverlayInput::Escape | OverlayInput::PointerPressOutside => match topmost_visible(visible) {
            Some(i) => OverlayAction::Dismiss(i),
            None => OverlayAction::PassThrough,
        },
        OverlayInput::Enter => match topmost_visible(visible) {
            Some(i) => OverlayAction::Accept(i),
            None => OverlayAction::PassThrough,
        },
        OverlayInput::Other => OverlayAction::PassThrough,
    }
}

} // verus!
