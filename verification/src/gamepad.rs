use vstd::prelude::*;

verus! {

/// The sign bit of a single-precision value; flipping it negates the value.
pub const F32_SIGN_BIT: u32 = 0x8000_0000;

/// The gamepad sticks that the station reads.
#[derive(Debug, Clone, Copy, PartialEq, Eq, Structural)]
pub enum StickAxis {
    LeftStickX,
    LeftStickY,
    RightStickX,
    RightStickY,
    /// Any other axis.
    Other,
}

/// A gamepad event, with an axis value already shaped by the dead zone and
/// the expo curve (bit pattern of an `f32` in -1.0 .. 1.0).
#[derive(Debug, Clone, Copy, PartialEq, Eq, Structural)]
pub enum GamepadEvent {
    AxisChanged(StickAxis, u32),
    Connected,
    Disconnected,
    /// Any other event.
    Other,
}

/// The stick positions (bit patterns of `f32` values in -1.0 .. 1.0) and
/// whether a gamepad is connected.
#[derive(Debug, Clone, Copy, PartialEq, Eq, Structural)]
pub struct GamepadState {
    /// Aileron (roll), left stick X.
    pub roll: u32,
    /// Elevator (pitch), left stick Y, inverted.
    pub pitch: u32,
    /// Throttle, right stick Y.
    pub throttle: u32,
    /// Rudder (yaw), right stick X.
    pub yaw: u32,
    pub connected: bool,
}

/// Sticks centered (0.0) and no gamepad.
pub open spec fn idle_gamepad() -> GamepadState {
    GamepadState { roll: 0, pitch: 0, throttle: 0, yaw: 0, connected: false }
}

/// The state after an event: the left stick steers roll and (inverted)
/// pitch, the right stick yaw and throttle; a disconnection centers the
/// sticks.
pub open spec fn after_event(s: GamepadState, e: GamepadEvent) -> GamepadState {
    match e {
        GamepadEvent::AxisChanged(axis, v) => match axis {
            StickAxis::LeftStickX => GamepadState { roll: v, ..s },
            StickAxis::LeftStickY => GamepadState { pitch: v ^ F32_SIGN_BIT, ..s },
            StickAxis::RightStickX => GamepadState { yaw: v, ..s },
            StickAxis::RightStickY => GamepadState { throttle: v, ..s },
            StickAxis::Other => s,
        },
        GamepadEvent::Connected => GamepadState { connected: true, ..s },
        GamepadEvent::Disconnected => idle_gamepad(),
        GamepadEvent::Other => s,
    }
}

impl Default for GamepadState {
    fn default() -> (res: GamepadState)
        ensures
            res == idle_gamepad(),
    {
        GamepadState { roll: 0, pitch: 0, throttle: 0, yaw: 0, connected: false }
    }
}

impl GamepadState {
    /// Take a gamepad event.
    pub fn apply(&mut self, event: GamepadEvent)
        ensures
            *final(self) == after_event(*old(self), event),
    {
        match event {
            GamepadEvent::AxisChanged(axis, v) => match axis {
                StickAxis::LeftStickX => self.roll = v,
                StickAxis::LeftStickY => self.pitch = v ^ F32_SIGN_BIT,
                StickAxis::RightStickX => self.yaw = v,
                StickAxis::RightStickY => self.throttle = v,
                StickAxis::Other => {},
            },
            GamepadEvent::Connected => self.connected = true,
            GamepadEvent::Disconnected => {
                *self = GamepadState { roll: 0, pitch: 0, throttle: 0, yaw: 0, connected: false };
            },
            GamepadEvent::Other => {},
        }
    }
}

/// The stick assignment: the left stick's X axis is roll and its Y axis is
/// pitch with the sign flipped (the sign bit 0x8000_0000 toggled), the right
/// stick's X axis is yaw and its Y axis throttle; each axis moves only its
/// own control. Connecting keeps the sticks; disconnecting centers every
/// stick (0) and marks the gamepad gone; other events change nothing.
pub proof fn lemma_stick_assignment(s: GamepadState, v: u32)
    ensures
        after_event(s, GamepadEvent::AxisChanged(StickAxis::LeftStickX, v)) == (GamepadState {
            roll: v,
            ..s
        }),
        after_event(s, GamepadEvent::AxisChanged(StickAxis::LeftStickY, v)).pitch ^ 0x8000_0000u32
            == v,
        after_event(s, GamepadEvent::AxisChanged(StickAxis::LeftStickY, v)) == (GamepadState {
            pitch: after_event(s, GamepadEvent::AxisChanged(StickAxis::LeftStickY, v)).pitch,
            ..s
        }),
        after_event(s, GamepadEvent::AxisChanged(StickAxis::RightStickX, v)) == (GamepadState {
            yaw: v,
            ..s
        }),
        after_event(s, GamepadEvent::AxisChanged(StickAxis::RightStickY, v)) == (GamepadState {
            throttle: v,
            ..s
        }),
        after_event(s, GamepadEvent::AxisChanged(StickAxis::Other, v)) == s,
        after_event(s, GamepadEvent::Connected) == (GamepadState { connected: true, ..s }),
        after_event(s, GamepadEvent::Disconnected) == (GamepadState {
            roll: 0,
            pitch: 0,
            throttle: 0,
            yaw: 0,
            connected: false,
        }),
        after_event(s, GamepadEvent::Other) == s,
{
    assert((v ^ 0x8000_0000u32) ^ 0x8000_0000u32 == v) by (bit_vector);
}

} // verus!
