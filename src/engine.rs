use vstd::prelude::*;
use device_query::DeviceQuery;
use enigo::Mouse;
use crate::buttons::{is_pressed_in, ButtonKind, EngineError, ScreenPoint};
use crate::capture::{commits, tick_spec, CaptureSession};

verus! {

#[verifier::external_type_specification]
#[verifier::external_body]
pub struct ExEnigo(enigo::Enigo);

#[verifier::external_type_specification]
#[verifier::external_body]
pub struct ExDeviceState(device_query::DeviceState);

#[verifier::external_type_specification]
#[verifier::external_body]
pub struct ExInputError(enigo::InputError);

#[verifier::external_type_specification]
#[verifier::external_body]
pub struct ExNewConError(enigo::NewConError);

/// Relies on enigo::Enigo::new with default settings: opens an input
/// injection connection, or reports why it could not.
#[verifier::external_body]
fn open_injector() -> (r: Result<enigo::Enigo, enigo::NewConError>) {
    enigo::Enigo::new(&enigo::Settings::default())
}

/// Relies on device_query::DeviceState::checked_new: opens a polling
/// connection, or `None` when no display can be reached.
#[verifier::external_body]
fn open_poller() -> (r: Option<device_query::DeviceState>) {
    device_query::DeviceState::checked_new()
}

/// Relies on DeviceQuery::get_mouse for DeviceState: the pointer's current
/// coordinates and the raw pressed flag of each button.
#[verifier::external_body]
fn query_mouse(d: &device_query::DeviceState) -> (r: (ScreenPoint, Vec<bool>)) {
    let m = d.get_mouse();
    (ScreenPoint { x: m.coords.0, y: m.coords.1 }, m.button_pressed)
}

/// Relies on Mouse::move_mouse of Enigo with `Coordinate::Abs`: warps the
/// pointer to the absolute position.
#[verifier::external_body]
fn warp(e: &mut enigo::Enigo, p: ScreenPoint) -> (r: Result<(), enigo::InputError>) {
    e.move_mouse(p.x, p.y, enigo::Coordinate::Abs)
}

/// Relies on Mouse::button of Enigo with `Direction::Click`: a press and a
/// release of the button at the pointer's position.
#[verifier::external_body]
fn press_release(e: &mut enigo::Enigo, b: ButtonKind) -> (r: Result<(), enigo::InputError>) {
    let button = match b {
        ButtonKind::Primary => enigo::Button::Left,
        ButtonKind::Secondary => enigo::Button::Right,
        ButtonKind::Tertiary => enigo::Button::Middle,
    };
    e.button(button, enigo::Direction::Click)
}

/// Maps a backend outcome to the engine's own error.
pub fn backend_result<T>(r: Result<T, enigo::InputError>) -> (out: Result<T, EngineError>)
    ensures
        r.is_ok() <==> out.is_ok(),
        out.is_err() ==> out == Err::<T, EngineError>(EngineError::BackendUnavailable),
        r.is_ok() ==> out == Ok::<T, EngineError>(r->Ok_0),
{
    match r {
        Ok(v) => Ok(v),
        Err(_) => Err(EngineError::BackendUnavailable),
    }
}

/// Owns the injection and polling connections to the operating system.
pub struct MouseController {
    enigo: enigo::Enigo,
    device_state: device_query::DeviceState,
}

impl MouseController {
    /// Opens both connections; fails with `BackendUnavailable` when either
    /// cannot be opened.
    pub fn new() -> (r: Result<MouseController, EngineError>)
        ensures
            r.is_err() ==> r == Err::<MouseController, EngineError>(EngineError::BackendUnavailable),
    {
        let enigo = match open_injector() {
            Ok(e) => e,
            Err(_) => return Err(EngineError::BackendUnavailable),
        };
        match open_poller() {
            Some(device_state) => Ok(MouseController { enigo, device_state }),
            None => Err(EngineError::BackendUnavailable),
        }
    }

    /// The pointer's current position.
    pub fn get_mouse_position(&self) -> (r: (i32, i32)) {
        let (p, _) = query_mouse(&self.device_state);
        (p.x, p.y)
    }

    /// The raw pressed flag of each button the backend reports.
    pub fn get_mouse_button_states(&self) -> (r: Vec<bool>) {
        let (_, s) = query_mouse(&self.device_state);
        s
    }

    /// The pointer position and the watched button's state, read together.
    pub fn poll(&self, b: ButtonKind) -> (r: (ScreenPoint, bool)) {
        let (p, s) = query_mouse(&self.device_state);
        (p, is_pressed_in(&s, b))
    }

    /// Whether `b` is pressed now, read through the fixed index table.
    pub fn is_pressed(&self, b: ButtonKind) -> (r: bool) {
        let s = self.get_mouse_button_states();
        is_pressed_in(&s, b)
    }

    /// Whether the left (index 1) button is pressed now, read through the fixed
    /// index table.
    pub fn is_left_button_pressed(&self) -> (r: bool) {
        let s = self.get_mouse_button_states();
        is_pressed_in(&s, ButtonKind::Primary)
    }

    /// Whether the right (index 3) button is pressed now, read through the fixed
    /// index table.
    pub fn is_right_button_pressed(&self) -> (r: bool) {
        let s = self.get_mouse_button_states();
        is_pressed_in(&s, ButtonKind::Secondary)
    }

    /// Whether the middle (index 2) button is pressed now, read through the fixed
    /// index table.
    pub fn is_middle_button_pressed(&self) -> (r: bool) {
        let s = self.get_mouse_button_states();
        is_pressed_in(&s, ButtonKind::Tertiary)
    }

    /// Warps the pointer to `(x, y)`.
    pub fn move_mouse_to(&mut self, x: i32, y: i32) -> (r: Result<(), EngineError>)
        ensures
            r.is_err() ==> r == Err::<(), EngineError>(EngineError::BackendUnavailable),
    {
        backend_result(warp(&mut self.enigo, ScreenPoint { x, y }))
    }

    /// A press and release of `b` at the pointer's position.
    pub fn click(&mut self, b: ButtonKind) -> (r: Result<(), EngineError>)
        ensures
            r.is_err() ==> r == Err::<(), EngineError>(EngineError::BackendUnavailable),
    {
        backend_result(press_release(&mut self.enigo, b))
    }

    /// A press and release of the left button at the pointer's position.
    pub fn click_left(&mut self) -> (r: Result<(), EngineError>)
        ensures
            r.is_err() ==> r == Err::<(), EngineError>(EngineError::BackendUnavailable),
    {
        backend_result(press_release(&mut self.enigo, ButtonKind::Primary))
    }

    /// A press and release of the right button at the pointer's position.
    pub fn click_right(&mut self) -> (r: Result<(), EngineError>)
        ensures
            r.is_err() ==> r == Err::<(), EngineError>(EngineError::BackendUnavailable),
    {
        backend_result(press_release(&mut self.enigo, ButtonKind::Secondary))
    }

    /// A press and release of the middle button at the pointer's position.
    pub fn click_middle(&mut self) -> (r: Result<(), EngineError>)
        ensures
            r.is_err() ==> r == Err::<(), EngineError>(EngineError::BackendUnavailable),
    {
        backend_result(press_release(&mut self.enigo, ButtonKind::Tertiary))
    }

    /// One capture poll: reads the watched button and the pointer together
    /// and advances `session`; an idle session is left alone and nothing is
    /// read.
    pub fn tick_capture(&self, session: &mut CaptureSession) -> (r: Option<ScreenPoint>)
        ensures
            !old(session).active ==> *final(session) == *old(session) && r.is_none(),
            exists|pressed: bool|
                *final(session) == tick_spec(*old(session), pressed) && (r.is_some() <==> commits(
                    *old(session),
                    pressed,
                )),
    {
        if !session.is_active() {
            proof {
                assert(tick_spec(*old(session), false) == *old(session));
            }
            return None;
        }
        let (p, pressed) = self.poll(session.watched);
        let r = session.tick(pressed, p);
        assert(*final(session) == tick_spec(*old(session), pressed));
        r
    }
}

} // verus!
