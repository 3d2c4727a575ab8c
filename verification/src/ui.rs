//! The interaction state of user interface elements and the kinds of
//! layout the interface is built from.
use vstd::prelude::*;

verus! {

/// The interaction state of an element.
#[derive(Debug, Clone, Copy, PartialEq, Eq, Structural)]
pub enum UIState {
    Idle,
    Hover,
    Focus,
    Disabled,
}

/// What an element has to be told after the mouse was checked.
#[derive(Debug, Clone, Copy, PartialEq, Eq, Structural)]
pub enum ReactorCallback {
    Click,
    Unfocus,
    Hover,
    Unhover,
}

/// Where an image is anchored.
#[derive(Debug, Clone, Copy, PartialEq, Eq, Structural)]
pub enum SpriteOrigin {
    TopLeft,
    BottomRight,
    Centre,
}

/// The direction in which a grid lines up its elements.
#[derive(Debug, Clone, Copy, PartialEq, Eq, Structural)]
pub enum UIAlignment {
    Vertical,
    Horizontal,
}

/// Where a grid sits on the screen.
#[derive(Debug, Clone, Copy, PartialEq, Eq, Structural)]
pub enum UILayout {
    Default,
    BottomLeft,
    Centre,
    TopRight,
    BottomRight,
}

/// The size of a label's text.
#[derive(Debug, Clone, Copy, PartialEq, Eq, Structural)]
pub enum FontSize {
    Small,
    Normal,
    Header,
}

/// The next state of an element, and what it is told, when the left button
/// is or is not pressed with the mouse inside or outside it: a disabled
/// element ignores the mouse; a press focuses the element it is in and
/// unfocuses the others; without a press, entering an idle element hovers
/// it and leaving a hovered one idles it.
pub open spec fn react(state: UIState, left_pressed: bool, mouse_in_rect: bool) -> (
    UIState,
    Option<ReactorCallback>,
) {
    if state == UIState::Disabled {
        (state, None)
    } else if left_pressed {
        if mouse_in_rect {
            (UIState::Focus, Some(ReactorCallback::Click))
        } else {
            (UIState::Idle, Some(ReactorCallback::Unfocus))
        }
    } else if mouse_in_rect && state == UIState::Idle {
        (UIState::Hover, Some(ReactorCallback::Hover))
    } else if !mouse_in_rect && state == UIState::Hover {
        (UIState::Idle, Some(ReactorCallback::Unhover))
    } else {
        (state, None)
    }
}

/// The picture of a button in each state: plain when idle or disabled,
/// highlighted when hovered, pressed when focused.
pub open spec fn button_frame(state: UIState) -> u32 {
    match state {
        UIState::Idle | UIState::Disabled => 0,
        UIState::Hover => 1,
        UIState::Focus => 2,
    }
}

/// The state holder of a clickable element.
pub struct DefaultUIReactor {
    pub state: UIState,
}

impl DefaultUIReactor {
    /// Starts idle.
    pub fn new() -> (r: DefaultUIReactor)
        ensures
            r.state == UIState::Idle,
    {
        DefaultUIReactor { state: UIState::Idle }
    }

    pub fn get_state(&self) -> (s: UIState)
        ensures
            s == self.state,
    {
        self.state
    }

    pub fn set_state(&mut self, state: UIState)
        ensures
            final(self).state == state,
    {
        self.state = state;
    }

    pub fn is_disabled(&self) -> (b: bool)
        ensures
            b == (self.state == UIState::Disabled),
    {
        self.state == UIState::Disabled
    }

    /// Disables the element, or makes a disabled one idle again.
    pub fn set_disabled(&mut self, disabled: bool)
        ensures
            final(self).state == (if disabled {
                UIState::Disabled
            } else {
                UIState::Idle
            }),
    {
        self.state = if disabled {
            UIState::Disabled
        } else {
            UIState::Idle
        };
    }

    /// A button counts as pressed while it has the focus.
    pub fn is_pressed(&self) -> (b: bool)
        ensures
            b == (self.state == UIState::Focus),
    {
        self.state == UIState::Focus
    }

    /// After a frame, a pressed button is released.
    pub fn release(&mut self)
        ensures
            final(self).state == (if old(self).state == UIState::Focus {
                UIState::Idle
            } else {
                old(self).state
            }),
    {
        if self.state == UIState::Focus {
            self.state = UIState::Idle;
        }
    }

    /// Reacts to the mouse for one frame.
    pub fn update_reactor(&mut self, left_pressed: bool, mouse_in_rect: bool) -> (cb: Option<
        ReactorCallback,
    >)
        ensures
            (final(self).state, cb) == react(old(self).state, left_pressed, mouse_in_rect),
    {
        if self.state == UIState::Disabled {
            return None;
        }
        if left_pressed {
            if mouse_in_rect {
                self.state = UIState::Focus;
                Some(ReactorCallback::Click)
            } else {
                self.state = UIState::Idle;
                Some(ReactorCallback::Unfocus)
            }
        } else {
            if mouse_in_rect && self.state == UIState::Idle {
                self.state = UIState::Hover;
                Some(ReactorCallback::Hover)
            } else if !mouse_in_rect && self.state == UIState::Hover {
                self.state = UIState::Idle;
                Some(ReactorCallback::Unhover)
            } else {
                None
            }
        }
    }

    /// The frame of the button picture to draw.
    pub fn button_frame(&self) -> (i: u32)
        ensures
            i == button_frame(self.state),
    {
        match self.state {
            UIState::Idle | UIState::Disabled => 0,
            UIState::Hover => 1,
            UIState::Focus => 2,
        }
    }
}

/// A disabled element stays disabled whatever the mouse does, and only a
/// click inside an enabled element presses it.
pub proof fn lemma_react_disabled_and_press(state: UIState, left_pressed: bool, mouse_in_rect: bool)
    ensures
        state == UIState::Disabled ==> react(state, left_pressed, mouse_in_rect).0
            == UIState::Disabled,
        react(state, left_pressed, mouse_in_rect).0 == UIState::Focus ==> (state
            == UIState::Focus && !left_pressed) || (state != UIState::Disabled && left_pressed
            && mouse_in_rect),
{
}

} // verus!
