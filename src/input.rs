//! Identifiers, buttons and the input events that the mouse cache consumes.
use vstd::prelude::*;

verus! {

/// Identifies one open window.
#[derive(Clone, Copy, Debug, PartialEq, Eq, Structural)]
pub struct WindowId(pub u64);

/// Identifies one physical input device.
#[derive(Clone, Copy, Debug, PartialEq, Eq, Structural)]
pub struct DeviceId(pub u64);

/// A logical mouse button.
#[derive(Clone, Copy, Debug, PartialEq, Eq, Structural)]
pub enum MouseButton {
    Left,
    Right,
    Middle,
    Other(u16),
}

/// Whether a button went down or up.
#[derive(Clone, Copy, Debug, PartialEq, Eq, Structural)]
pub enum ElementState {
    Pressed,
    Released,
}

/// The pressed/released state of every button of one device.
///
/// Buttons that are not listed are released.
#[derive(Clone, Debug)]
pub struct MouseButtonState {
    pressed: Vec<MouseButton>,
}

impl View for MouseButtonState {
    type V = Set<MouseButton>;

    /// The set of buttons that are down.
    closed spec fn view(&self) -> Set<MouseButton> {
        self.pressed@.to_set()
    }
}

impl MouseButtonState {
    /// Each pressed button is listed once.
    pub closed spec fn wf(&self) -> bool {
        self.pressed@.no_duplicates()
    }

    /// A state in which every button is released.
    pub fn new() -> (r: Self)
        ensures
            r.wf(),
            r@ == Set::<MouseButton>::empty(),
    {
        let r = MouseButtonState { pressed: Vec::new() };
        assert(r@ =~= Set::<MouseButton>::empty());
        r
    }

    fn find(&self, button: MouseButton) -> (r: Option<usize>)
        ensures
            match r {
                Some(i) => i < self.pressed@.len() && self.pressed@[i as int] == button,
                None => !self.pressed@.contains(button),
            },
    {
        let mut i: usize = 0;
        while i < self.pressed.len()
            invariant
                i <= self.pressed@.len(),
                forall|j: int| 0 <= j < i ==> self.pressed@[j] != button,
            decreases self.pressed@.len() - i,
        {
            if self.pressed[i] == button {
                return Some(i);
            }
            i = i + 1;
        }
        None
    }

    /// Whether `button` is down.
    pub fn is_pressed(&self, button: MouseButton) -> (r: bool)
        ensures
            r == self@.contains(button),
    {
        match self.find(button) {
            Some(_) => true,
            None => false,
        }
    }

    /// Marks `button` as down when `pressed` holds, as up otherwise.
    pub fn set_pressed(&mut self, button: MouseButton, pressed: bool)
        requires
            old(self).wf(),
        ensures
            final(self).wf(),
            pressed ==> final(self)@ == old(self)@.insert(button),
            !pressed ==> final(self)@ == old(self)@.remove(button),
    {
        let ghost before = self.pressed@;
        match self.find(button) {
            Some(i) => {
                if !pressed {
                    self.pressed.remove(i);
                    assert forall|b: MouseButton| #[trigger] self@.contains(b) == old(self)@.remove(button).contains(b) by {
                        if b != button && before.contains(b) {
                            let k = choose|k: int| 0 <= k < before.len() && before[k] == b;
                            if k < i {
                                assert(self.pressed@[k] == b);
                            } else {
                                assert(self.pressed@[k - 1] == b);
                            }
                        }
                        if self.pressed@.contains(b) {
                            let k = choose|k: int| 0 <= k < self.pressed@.len() && self.pressed@[k] == b;
                            if k < i {
                                assert(before[k] == b);
                            } else {
                                assert(before[k + 1] == b);
                            }
                        }
                    }
                    assert(self@ =~= old(self)@.remove(button));
                } else {
                    assert(before.contains(button));
                    assert(self@ =~= old(self)@.insert(button));
                }
            },
            None => {
                if pressed {
                    self.pressed.push(button);
                    assert(self.pressed@ == before.push(button));
                    assert forall|b: MouseButton| #[trigger] self@.contains(b) == old(self)@.insert(button).contains(b) by {
                        if before.contains(b) {
                            let k = choose|k: int| 0 <= k < before.len() && before[k] == b;
                            assert(self.pressed@[k] == b);
                        }
                        if self.pressed@.contains(b) && b != button {
                            let k = choose|k: int| 0 <= k < self.pressed@.len() && self.pressed@[k] == b;
                            assert(before[k] == b);
                        }
                        if b == button {
                            assert(self.pressed@[before.len() as int] == b);
                        }
                    }
                    assert(self@ =~= old(self)@.insert(button));
                } else {
                    assert(self@ =~= old(self)@.remove(button));
                }
            },
        }
    }
}

/// An event scoped to one window.
#[derive(Clone, Copy, Debug)]
pub enum WindowEvent<P> {
    /// A button of `device_id` went down or up while the cursor was over the window.
    MouseInput { device_id: DeviceId, button: MouseButton, state: ElementState },
    /// The cursor of `device_id` moved to `position` within the window.
    CursorMoved { device_id: DeviceId, position: P },
    /// Any other window event.
    Other,
}

/// An event scoped to one device.
#[derive(Clone, Copy, Debug, PartialEq, Eq, Structural)]
pub enum DeviceEvent {
    Added,
    Removed,
    /// Any other device event.
    Other,
}

/// An event of the native event source, with `P` the type of a cursor position.
#[derive(Clone, Copy, Debug)]
pub enum Event<P> {
    WindowEvent { window_id: WindowId, event: WindowEvent<P> },
    DeviceEvent { device_id: DeviceId, event: DeviceEvent },
    /// Any event that is neither window- nor device-scoped.
    Other,
}

} // verus!
