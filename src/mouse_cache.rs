//! Per-device button state and per-window, per-device cursor positions.
use vstd::prelude::*;

use crate::assoc::{assoc_view, has_key, keys_unique, lemma_assoc_at, lemma_assoc_empty, lemma_assoc_push, lemma_assoc_remove, lemma_assoc_update};
use crate::input::{DeviceEvent, DeviceId, ElementState, Event, MouseButton, MouseButtonState, WindowEvent, WindowId};

verus! {

/// The buttons that are down on a device, none where the device has no entry.
pub open spec fn buttons_of(m: Map<DeviceId, Set<MouseButton>>, d: DeviceId) -> Set<MouseButton> {
    if m.contains_key(d) { m[d] } else { Set::empty() }
}

/// The button map after `button` of `device` went down (`pressed`) or up.
pub open spec fn buttons_after_input(
    m: Map<DeviceId, Set<MouseButton>>,
    device: DeviceId,
    button: MouseButton,
    pressed: bool,
) -> Map<DeviceId, Set<MouseButton>> {
    let cur = buttons_of(m, device);
    m.insert(device, if pressed { cur.insert(button) } else { cur.remove(button) })
}

/// The entries of `m` whose key does not name `device`.
pub open spec fn without_device<V>(m: Map<(WindowId, DeviceId), V>, device: DeviceId) -> Map<(WindowId, DeviceId), V> {
    Map::new(|k: (WindowId, DeviceId)| m.contains_key(k) && k.1 != device, |k: (WindowId, DeviceId)| m[k])
}

/// Removes from `v` the entries whose key names `device_id`.
fn remove_device_entries<P>(v: &mut Vec<((WindowId, DeviceId), P)>, device_id: DeviceId)
    requires
        keys_unique(old(v)@),
    ensures
        keys_unique(final(v)@),
        assoc_view(final(v)@) == without_device(assoc_view(old(v)@), device_id),
{
    let ghost goal = without_device(assoc_view(old(v)@), device_id);
    let mut i: usize = 0;
    while i < v.len()
        invariant
            keys_unique(v@),
            i <= v@.len(),
            without_device(assoc_view(v@), device_id) == goal,
            forall|j: int| 0 <= j < i ==> (#[trigger] v@[j]).0.1 != device_id,
        decreases v@.len() - i,
    {
        if v[i].0.1 == device_id {
            let ghost before = v@;
            proof { lemma_assoc_remove(before, i as int); }
            v.remove(i);
            proof {
                assert forall|j: int| 0 <= j < i implies (#[trigger] v@[j]).0.1 != device_id by {
                    assert(v@[j] == before[j]);
                }
                assert(without_device(assoc_view(v@), device_id) =~= without_device(assoc_view(before), device_id));
            }
        } else {
            i = i + 1;
        }
    }
    proof {
        assert forall|k: (WindowId, DeviceId)| #[trigger] assoc_view(v@).contains_key(k) implies k.1 != device_id by {
            let j = choose|j: int| 0 <= j < v@.len() && #[trigger] v@[j].0 == k;
        }
        assert(without_device(assoc_view(v@), device_id) =~= assoc_view(v@));
    }
}

/// Tracks, for each device, which mouse buttons are down and, for each
/// (window, device) pair, where its cursor is and where it was before the
/// latest move.
///
/// `P` is the type of a cursor position. Entries are made on the first event
/// that concerns them and dropped only when their device is removed: closing
/// a window leaves the positions recorded for it in place.
pub struct MouseCache<P> {
    origin: P,
    mouse_buttons: Vec<(DeviceId, MouseButtonState)>,
    /// For each key, the current position and the one before it.
    mouse_position: Vec<((WindowId, DeviceId), (P, P))>,
}

impl<P: Copy> MouseCache<P> {
    /// The button state of each device that has sent a button event.
    pub closed spec fn buttons(&self) -> Map<DeviceId, Set<MouseButton>> {
        assoc_view(self.mouse_buttons@).map_values(|s: MouseButtonState| s@)
    }

    /// The current cursor position of each (window, device) pair that has moved.
    pub closed spec fn positions(&self) -> Map<(WindowId, DeviceId), P> {
        assoc_view(self.mouse_position@).map_values(|v: (P, P)| v.0)
    }

    /// The position of each (window, device) pair just before its latest move.
    pub closed spec fn previous_positions(&self) -> Map<(WindowId, DeviceId), P> {
        assoc_view(self.mouse_position@).map_values(|v: (P, P)| v.1)
    }

    /// The position a pair is taken to have had before its first move.
    pub closed spec fn origin(&self) -> P {
        self.origin
    }

    /// Keys are unique and each button state is well formed.
    pub closed spec fn wf(&self) -> bool {
        &&& keys_unique(self.mouse_buttons@)
        &&& keys_unique(self.mouse_position@)
        &&& forall|i: int| 0 <= i < self.mouse_buttons@.len() ==> (#[trigger] self.mouse_buttons@[i]).1.wf()
    }

    /// The two position maps always have the same keys.
    pub proof fn lemma_same_keys(&self)
        ensures
            self.positions().dom() == self.previous_positions().dom(),
    {
    }

    /// An empty cache; `origin` is the position that a pair is taken to have
    /// had before its first move.
    pub fn new(origin: P) -> (r: Self)
        ensures
            r.wf(),
            r.origin() == origin,
            r.buttons() == Map::<DeviceId, Set<MouseButton>>::empty(),
            r.positions() == Map::<(WindowId, DeviceId), P>::empty(),
            r.previous_positions() == Map::<(WindowId, DeviceId), P>::empty(),
    {
        let r = MouseCache { origin, mouse_buttons: Vec::new(), mouse_position: Vec::new() };
        proof {
            lemma_assoc_empty(r.mouse_buttons@);
            lemma_assoc_empty(r.mouse_position@);
            assert(r.buttons() =~= Map::<DeviceId, Set<MouseButton>>::empty());
            assert(r.positions() =~= Map::<(WindowId, DeviceId), P>::empty());
            assert(r.previous_positions() =~= Map::<(WindowId, DeviceId), P>::empty());
        }
        r
    }

    fn find_device(&self, device_id: DeviceId) -> (r: Option<usize>)
        ensures
            match r {
                Some(i) => i < self.mouse_buttons@.len() && self.mouse_buttons@[i as int].0 == device_id,
                None => !has_key(self.mouse_buttons@, device_id),
            },
    {
        let mut i: usize = 0;
        while i < self.mouse_buttons.len()
            invariant
                i <= self.mouse_buttons@.len(),
                forall|j: int| 0 <= j < i ==> (#[trigger] self.mouse_buttons@[j]).0 != device_id,
            decreases self.mouse_buttons@.len() - i,
        {
            if self.mouse_buttons[i].0 == device_id {
                return Some(i);
            }
            i = i + 1;
        }
        None
    }

    fn find_position(&self, key: (WindowId, DeviceId)) -> (r: Option<usize>)
        ensures
            match r {
                Some(i) => i < self.mouse_position@.len() && self.mouse_position@[i as int].0 == key,
                None => !has_key(self.mouse_position@, key),
            },
    {
        let mut i: usize = 0;
        while i < self.mouse_position.len()
            invariant
                i <= self.mouse_position@.len(),
                forall|j: int| 0 <= j < i ==> (#[trigger] self.mouse_position@[j]).0 != key,
            decreases self.mouse_position@.len() - i,
        {
            let k = self.mouse_position[i].0;
            if k.0 == key.0 && k.1 == key.1 {
                return Some(i);
            }
            i = i + 1;
        }
        None
    }

    /// The current cursor position of `device_id` in `window_id`, if it has moved there.
    pub fn get_position(&self, window_id: WindowId, device_id: DeviceId) -> (r: Option<P>)
        requires
            self.wf(),
        ensures
            r == self.positions().get((window_id, device_id)),
    {
        match self.find_position((window_id, device_id)) {
            Some(i) => {
                proof { lemma_assoc_at(self.mouse_position@, i as int); }
                Some(self.mouse_position[i].1.0)
            },
            None => None,
        }
    }

    /// The cursor position of `device_id` in `window_id` just before its latest move.
    pub fn get_previous_position(&self, window_id: WindowId, device_id: DeviceId) -> (r: Option<P>)
        requires
            self.wf(),
        ensures
            r == self.previous_positions().get((window_id, device_id)),
    {
        match self.find_position((window_id, device_id)) {
            Some(i) => {
                proof { lemma_assoc_at(self.mouse_position@, i as int); }
                Some(self.mouse_position[i].1.1)
            },
            None => None,
        }
    }

    /// The button state of `device_id`, if it has sent a button event.
    pub fn get_buttons(&self, device_id: DeviceId) -> (r: Option<&MouseButtonState>)
        requires
            self.wf(),
        ensures
            match r {
                Some(s) => self.buttons().contains_key(device_id) && s@ == self.buttons()[device_id],
                None => !self.buttons().contains_key(device_id),
            },
    {
        match self.find_device(device_id) {
            Some(i) => {
                proof { lemma_assoc_at(self.mouse_buttons@, i as int); }
                Some(&self.mouse_buttons[i].1)
            },
            None => None,
        }
    }

    /// `self` and `other` hold the same buttons and positions.
    pub open spec fn same_state(&self, other: &Self) -> bool {
        &&& self.buttons() == other.buttons()
        &&& self.positions() == other.positions()
        &&& self.previous_positions() == other.previous_positions()
        &&& self.origin() == other.origin()
    }

    /// `self` is `old` after `button` of `device` went down (`pressed`) or up.
    pub open spec fn is_after_input(&self, old: &Self, device: DeviceId, button: MouseButton, pressed: bool) -> bool {
        &&& self.buttons() == buttons_after_input(old.buttons(), device, button, pressed)
        &&& self.positions() == old.positions()
        &&& self.previous_positions() == old.previous_positions()
        &&& self.origin() == old.origin()
    }

    /// `self` is `old` after the cursor of `device` moved to `position` in `window`:
    /// the position held before becomes the previous one.
    pub open spec fn is_after_move(&self, old: &Self, window: WindowId, device: DeviceId, position: P) -> bool {
        let key = (window, device);
        &&& self.buttons() == old.buttons()
        &&& self.positions() == old.positions().insert(key, position)
        &&& self.previous_positions() == old.previous_positions().insert(
            key,
            if old.positions().contains_key(key) { old.positions()[key] } else { old.origin() },
        )
        &&& self.origin() == old.origin()
    }

    /// `self` is `old` with every entry of `device` gone, whatever the window.
    pub open spec fn is_after_removal(&self, old: &Self, device: DeviceId) -> bool {
        &&& self.buttons() == old.buttons().remove(device)
        &&& self.positions() == without_device(old.positions(), device)
        &&& self.previous_positions() == without_device(old.previous_positions(), device)
        &&& self.origin() == old.origin()
    }

    /// `self` is `old` after a window-scoped `event` of `window`.
    pub open spec fn is_after_window_event(&self, old: &Self, window: WindowId, event: WindowEvent<P>) -> bool {
        match event {
            WindowEvent::MouseInput { device_id, button, state } =>
                self.is_after_input(old, device_id, button, state == ElementState::Pressed),
            WindowEvent::CursorMoved { device_id, position } => self.is_after_move(old, window, device_id, position),
            WindowEvent::Other => self.same_state(old),
        }
    }

    /// `self` is `old` after a device-scoped `event` of `device`.
    pub open spec fn is_after_device_event(&self, old: &Self, device: DeviceId, event: DeviceEvent) -> bool {
        match event {
            DeviceEvent::Removed => self.is_after_removal(old, device),
            _ => self.same_state(old),
        }
    }

    /// `self` is `old` after `event`.
    pub open spec fn is_after_event(&self, old: &Self, event: Event<P>) -> bool {
        match event {
            Event::WindowEvent { window_id, event } => self.is_after_window_event(old, window_id, event),
            Event::DeviceEvent { device_id, event } => self.is_after_device_event(old, device_id, event),
            Event::Other => self.same_state(old),
        }
    }

    /// Updates the cache with one event of the native event source.
    ///
    /// A button event sets that button of its device; a cursor move makes the
    /// held position the previous one and stores the new one; the removal of a
    /// device drops all its entries. Every other event is ignored.
    pub fn handle_event(&mut self, event: &Event<P>)
        requires
            old(self).wf(),
        ensures
            final(self).wf(),
            final(self).is_after_event(old(self), *event),
    {
        match event {
            Event::WindowEvent { window_id, event } => self.handle_window_event(*window_id, event),
            Event::DeviceEvent { device_id, event } => self.handle_device_event(*device_id, event),
            Event::Other => {},
        }
    }

    fn handle_window_event(&mut self, window_id: WindowId, event: &WindowEvent<P>)
        requires
            old(self).wf(),
        ensures
            final(self).wf(),
            final(self).is_after_window_event(old(self), window_id, *event),
    {
        match event {
            WindowEvent::MouseInput { device_id, button, state } => {
                self.set_button(*device_id, *button, *state == ElementState::Pressed);
            },
            WindowEvent::CursorMoved { device_id, position } => {
                self.move_cursor(window_id, *device_id, *position);
            },
            WindowEvent::Other => {},
        }
    }

    fn handle_device_event(&mut self, device_id: DeviceId, event: &DeviceEvent)
        requires
            old(self).wf(),
        ensures
            final(self).wf(),
            final(self).is_after_device_event(old(self), device_id, *event),
    {
        if let DeviceEvent::Removed = event {
            self.remove_device(device_id);
        }
    }

    fn set_button(&mut self, device_id: DeviceId, button: MouseButton, pressed: bool)
        requires
            old(self).wf(),
        ensures
            final(self).wf(),
            final(self).buttons() == buttons_after_input(old(self).buttons(), device_id, button, pressed),
            final(self).positions() == old(self).positions(),
            final(self).previous_positions() == old(self).previous_positions(),
            final(self).origin() == old(self).origin(),
    {
        let ghost before = self.mouse_buttons@;
        match self.find_device(device_id) {
            Some(i) => {
                proof { lemma_assoc_at(before, i as int); }
                let mut state = self.mouse_buttons.remove(i);
                state.1.set_pressed(button, pressed);
                self.mouse_buttons.insert(i, state);
                proof {
                    assert(self.mouse_buttons@ =~= before.update(i as int, (device_id, state.1)));
                    lemma_assoc_update(before, i as int, state.1);
                    assert(self.buttons() =~= buttons_after_input(old(self).buttons(), device_id, button, pressed));
                }
            },
            None => {
                let mut state = MouseButtonState::new();
                state.set_pressed(button, pressed);
                self.mouse_buttons.push((device_id, state));
                proof {
                    lemma_assoc_push(before, device_id, state);
                    assert(self.buttons() =~= buttons_after_input(old(self).buttons(), device_id, button, pressed));
                }
            },
        }
    }

    fn move_cursor(&mut self, window_id: WindowId, device_id: DeviceId, position: P)
        requires
            old(self).wf(),
        ensures
            final(self).wf(),
            final(self).buttons() == old(self).buttons(),
            final(self).positions() == old(self).positions().insert((window_id, device_id), position),
            final(self).previous_positions() == old(self).previous_positions().insert(
                (window_id, device_id),
                if old(self).positions().contains_key((window_id, device_id)) {
                    old(self).positions()[(window_id, device_id)]
                } else {
                    old(self).origin()
                },
            ),
            final(self).origin() == old(self).origin(),
    {
        let key = (window_id, device_id);
        let ghost before = self.mouse_position@;
        match self.find_position(key) {
            Some(i) => {
                proof { lemma_assoc_at(before, i as int); }
                let current = self.mouse_position[i].1.0;
                self.mouse_position[i] = (key, (position, current));
                proof {
                    assert(self.mouse_position@ =~= before.update(i as int, (key, (position, current))));
                    lemma_assoc_update(before, i as int, (position, current));
                }
            },
            None => {
                let origin = self.origin;
                self.mouse_position.push((key, (position, origin)));
                proof { lemma_assoc_push(before, key, (position, origin)); }
            },
        }
        assert(self.positions() =~= old(self).positions().insert(key, position));
        assert(self.previous_positions() =~= old(self).previous_positions().insert(
            key,
            if old(self).positions().contains_key(key) { old(self).positions()[key] } else { old(self).origin() },
        ));
    }

    fn remove_device(&mut self, device_id: DeviceId)
        requires
            old(self).wf(),
        ensures
            final(self).wf(),
            final(self).buttons() == old(self).buttons().remove(device_id),
            final(self).positions() == without_device(old(self).positions(), device_id),
            final(self).previous_positions() == without_device(old(self).previous_positions(), device_id),
            final(self).origin() == old(self).origin(),
    {
        let ghost buttons_before = self.mouse_buttons@;
        if let Some(i) = self.find_device(device_id) {
            self.mouse_buttons.remove(i);
            proof {
                lemma_assoc_remove(buttons_before, i as int);
                assert forall|j: int| 0 <= j < self.mouse_buttons@.len() implies (#[trigger] self.mouse_buttons@[j]).1.wf() by {
                    if j < i {
                        assert(self.mouse_buttons@[j] == buttons_before[j]);
                    } else {
                        assert(self.mouse_buttons@[j] == buttons_before[j + 1]);
                    }
                }
            }
        } else {
            proof {
                assert forall|k: DeviceId| #[trigger] assoc_view(buttons_before).contains_key(k) implies k != device_id by {}
            }
        }
        assert(self.buttons() =~= old(self).buttons().remove(device_id));
        remove_device_entries(&mut self.mouse_position, device_id);
        proof {
            assert(self.positions() =~= without_device(old(self).positions(), device_id));
            assert(self.previous_positions() =~= without_device(old(self).previous_positions(), device_id));
        }
    }
}

/// The event of a cursor move of `device` to `position` in `window`.
pub open spec fn cursor_moved<P>(window: WindowId, device: DeviceId, position: P) -> Event<P> {
    Event::WindowEvent { window_id: window, event: WindowEvent::CursorMoved { device_id: device, position } }
}

/// The event of `button` of `device` going down or up in `window`.
pub open spec fn mouse_input<P>(window: WindowId, device: DeviceId, button: MouseButton, state: ElementState) -> Event<P> {
    Event::WindowEvent { window_id: window, event: WindowEvent::MouseInput { device_id: device, button, state } }
}

/// After the removal of a device, the cache holds no button state for it and
/// no position nor previous position for it in any window.
pub proof fn lemma_removed_device_forgotten<P: Copy>(before: MouseCache<P>, after: MouseCache<P>, device: DeviceId)
    requires
        after.is_after_event(&before, Event::DeviceEvent { device_id: device, event: DeviceEvent::Removed }),
    ensures
        !after.buttons().contains_key(device),
        forall|w: WindowId| !(#[trigger] after.positions().contains_key((w, device))),
        forall|w: WindowId| !(#[trigger] after.previous_positions().contains_key((w, device))),
{
}

/// After three cursor moves of one device in one window, the current position
/// is the last one and the previous position the one before it.
pub proof fn lemma_previous_lags_by_one<P: Copy>(
    c0: MouseCache<P>,
    c1: MouseCache<P>,
    c2: MouseCache<P>,
    c3: MouseCache<P>,
    window: WindowId,
    device: DeviceId,
    p1: P,
    p2: P,
    p3: P,
)
    requires
        c1.is_after_event(&c0, cursor_moved(window, device, p1)),
        c2.is_after_event(&c1, cursor_moved(window, device, p2)),
        c3.is_after_event(&c2, cursor_moved(window, device, p3)),
    ensures
        c3.positions().get((window, device)) == Some(p3),
        c3.previous_positions().get((window, device)) == Some(p2),
{
}

/// The first cursor move of a (window, device) pair leaves the new position as
/// the current one and the origin as the previous one.
pub proof fn lemma_first_move<P: Copy>(before: MouseCache<P>, after: MouseCache<P>, window: WindowId, device: DeviceId, p: P)
    requires
        !before.positions().contains_key((window, device)),
        after.is_after_event(&before, cursor_moved(window, device, p)),
    ensures
        after.positions().get((window, device)) == Some(p),
        after.previous_positions().get((window, device)) == Some(before.origin()),
{
}

/// Pressing and then releasing a button leaves it released and every other
/// button of the device as it was.
pub proof fn lemma_press_release<P: Copy>(
    c0: MouseCache<P>,
    c1: MouseCache<P>,
    c2: MouseCache<P>,
    window: WindowId,
    device: DeviceId,
    button: MouseButton,
)
    requires
        c1.is_after_event(&c0, mouse_input(window, device, button, ElementState::Pressed)),
        c2.is_after_event(&c1, mouse_input(window, device, button, ElementState::Released)),
    ensures
        c2.buttons().contains_key(device),
        !c2.buttons()[device].contains(button),
        forall|b: MouseButton| b != button ==> (#[trigger] c2.buttons()[device].contains(b) == buttons_of(c0.buttons(), device).contains(b)),
{
}

/// Pressing two buttons of a device leaves both of them pressed.
pub proof fn lemma_press_two<P: Copy>(
    c0: MouseCache<P>,
    c1: MouseCache<P>,
    c2: MouseCache<P>,
    w1: WindowId,
    w2: WindowId,
    device: DeviceId,
    b1: MouseButton,
    b2: MouseButton,
)
    requires
        c1.is_after_event(&c0, mouse_input(w1, device, b1, ElementState::Pressed)),
        c2.is_after_event(&c1, mouse_input(w2, device, b2, ElementState::Pressed)),
    ensures
        c2.buttons().contains_key(device),
        c2.buttons()[device].contains(b1),
        c2.buttons()[device].contains(b2),
{
}

} // verus!
