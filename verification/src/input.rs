//! Reading the pointer: mouse buttons and touches folded into one press, one
//! hold, one release and the touch whose position counts, and the start
//! button of the menu.
use vstd::prelude::*;
use crate::game::State;

verus! {

/// The phase of a touch in a frame.
#[derive(Clone, Copy, PartialEq, Eq, Structural, Debug)]
pub enum Phase {
    Started,
    Stationary,
    Moved,
    Ended,
    Cancelled,
}

/// The pointer in one frame.
#[derive(Clone, Copy, PartialEq, Eq, Structural, Debug)]
pub struct Pointer {
    /// A mouse button went down or a touch started.
    pub press: bool,
    /// The left mouse button is down or a touch is on the screen.
    pub held: bool,
    /// A touch was lifted.
    pub touch_released: bool,
    /// The touch whose position is the pointer's position, if any: the last
    /// one that started, moved or ended; else the mouse position counts.
    pub touch: Option<usize>,
}

/// Whether a touch in this phase is on the screen.
pub open spec fn touching(p: Phase) -> bool {
    p == Phase::Started || p == Phase::Moved
}

/// Whether a touch in this phase places the pointer.
pub open spec fn placing(p: Phase) -> bool {
    p == Phase::Started || p == Phase::Moved || p == Phase::Ended
}

/// The last of the first `n` touches that places the pointer.
pub open spec fn last_placing(phases: Seq<Phase>, n: int) -> Option<usize>
    decreases n,
{
    if n <= 0 {
        None
    } else if placing(phases[n - 1]) {
        Some((n - 1) as usize)
    } else {
        last_placing(phases, n - 1)
    }
}

/// The pointer that mouse and touches make up.
pub open spec fn pointer_spec(mouse_pressed: bool, mouse_held: bool, phases: Seq<Phase>) -> Pointer {
    Pointer {
        press: mouse_pressed || exists|i: int| 0 <= i < phases.len() && phases[i] == Phase::Started,
        held: mouse_held || exists|i: int| 0 <= i < phases.len() && touching(phases[i]),
        touch_released: exists|i: int| 0 <= i < phases.len() && phases[i] == Phase::Ended,
        touch: last_placing(phases, phases.len() as int),
    }
}

/// Folds the mouse buttons and this frame's touches into one pointer.
/// `mouse_pressed` is whether any mouse button went down, `mouse_held`
/// whether the left one is down.
pub fn read_pointer(mouse_pressed: bool, mouse_held: bool, phases: &Vec<Phase>) -> (p: Pointer)
    ensures
        p == pointer_spec(mouse_pressed, mouse_held, phases@),
{
    let mut press = mouse_pressed;
    let mut held = mouse_held;
    let mut touch_released = false;
    let mut touch: Option<usize> = None;
    let mut i: usize = 0;
    while i < phases.len()
        invariant
            i <= phases.len(),
            press == (mouse_pressed || exists|k: int| 0 <= k < i && phases@[k] == Phase::Started),
            held == (mouse_held || exists|k: int| 0 <= k < i && touching(phases@[k])),
            touch_released == exists|k: int| 0 <= k < i && phases@[k] == Phase::Ended,
            touch == last_placing(phases@, i as int),
        decreases phases.len() - i,
    {
        let ph = phases[i];
        match ph {
            Phase::Started => {
                press = true;
                held = true;
                touch = Some(i);
            },
            Phase::Moved => {
                held = true;
                touch = Some(i);
            },
            Phase::Ended => {
                touch_released = true;
                touch = Some(i);
            },
            _ => {},
        }
        i = i + 1;
    }
    Pointer { press, held, touch_released, touch }
}

/// The start button of the menu in one frame.
#[derive(Clone, Copy, PartialEq, Eq, Structural, Debug)]
pub struct StartButton {
    /// Drawn pressed: held down over the button.
    pub held: bool,
    /// Clicked: released over the button.
    pub clicked: bool,
}

/// The start button: it only works on the menu, is held while the pointer
/// is down over it, and is clicked when the left mouse button or a touch is
/// released over it.
pub fn start_button(state: State, p: Pointer, mouse_released: bool, over_start: bool) -> (b:
    StartButton)
    ensures
        b.held == (state == State::Menu && p.held && over_start),
        b.clicked == (state == State::Menu && (mouse_released || p.touch_released) && over_start),
{
    let on_menu = state == State::Menu;
    StartButton {
        held: on_menu && p.held && over_start,
        clicked: on_menu && (mouse_released || p.touch_released) && over_start,
    }
}

} // verus!
