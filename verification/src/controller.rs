//! The controller state frame.
//!
//! The radio link carries snapshots of a game controller: eight packed
//! button flags, two 16-bit trigger values and four signed 16-bit axes,
//! laid out big-endian in a fixed 13-byte frame.  Sampling the physical
//! controller is outside this crate; callers feed button and axis updates
//! in and take the encoded frame out.

use vstd::prelude::*;

use crate::registers::mask_if;

verus! {

/// Joystick travel at or below this magnitude reads as centered.
pub const JOYSTICK_DEADZONE: i16 = 4000;

/// A button tracked in the controller state frame.
#[derive(Clone, Copy, Debug, PartialEq, Eq, Structural)]
pub enum Button {
    X,
    Circle,
    Square,
    Triangle,
    Select,
    Start,
    L1,
    R1,
}

/// An axis tracked in the controller state frame.
#[derive(Clone, Copy, Debug, PartialEq, Eq, Structural)]
pub enum Axis {
    LeftX,
    LeftY,
    RightX,
    RightY,
    TriggerLeft,
    TriggerRight,
}

/// One event from the input event pump.  Producing these from a physical
/// controller is the caller's concern; deciding what each one does to the
/// state is this module's.
#[derive(Clone, Copy, Debug, PartialEq, Eq, Structural)]
pub enum ControllerEvent {
    /// The user asked to quit; the sampling loop should stop.
    Quit,
    /// A controller was attached or detached; the state is unaffected.
    DeviceAdded,
    DeviceRemoved,
    AxisMotion(Axis, i16),
    ButtonDown(Button),
    ButtonUp(Button),
}

/// One snapshot of the controller: button flags, triggers and stick axes.
#[derive(Clone, Copy, Debug, PartialEq, Eq, Structural)]
pub struct ControllerState {
    pub x: bool,
    pub circle: bool,
    pub square: bool,
    pub triangle: bool,
    pub select: bool,
    pub start: bool,
    pub l1: bool,
    pub r1: bool,
    pub l2: u16,
    pub r2: u16,
    pub yaw: i16,
    pub throttle: i16,
    pub pitch: i16,
    pub roll: i16,
}

impl ControllerState {
    /// The packed button byte: X in bit 0, then Circle, Square, Triangle,
    /// Select, Start, L1 and R1 in bit 7.
    pub open spec fn buttons_byte(self) -> u8 {
        mask_if(self.x, 0x01) | mask_if(self.circle, 0x02) | mask_if(self.square, 0x04) | mask_if(
            self.triangle,
            0x08,
        ) | mask_if(self.select, 0x10) | mask_if(self.start, 0x20) | mask_if(self.l1, 0x40)
            | mask_if(self.r1, 0x80)
    }

    /// An axis value with the dead zone applied: values whose magnitude does
    /// not exceed the dead zone are flattened to zero.
    pub open spec fn deadzoned(value: i16) -> i16 {
        if value < -JOYSTICK_DEADZONE || value > JOYSTICK_DEADZONE {
            value
        } else {
            0
        }
    }

    /// A fresh state with every button released and every axis centered.
    pub fn new() -> (r: Self)
        ensures
            r == (ControllerState {
                x: false,
                circle: false,
                square: false,
                triangle: false,
                select: false,
                start: false,
                l1: false,
                r1: false,
                l2: 0,
                r2: 0,
                yaw: 0,
                throttle: 0,
                pitch: 0,
                roll: 0,
            }),
    {
        ControllerState {
            x: false,
            circle: false,
            square: false,
            triangle: false,
            select: false,
            start: false,
            l1: false,
            r1: false,
            l2: 0,
            r2: 0,
            yaw: 0,
            throttle: 0,
            pitch: 0,
            roll: 0,
        }
    }

    /// Encodes the state into its 13-byte frame: the button byte, then L2,
    /// R2, yaw, throttle, pitch and roll, each big-endian.
    pub fn to_bytes(&self) -> (r: [u8; 13])
        ensures
            r@[0] == self.buttons_byte(),
            r@[1] == (self.l2 >> 8) as u8,
            r@[2] == self.l2 as u8,
            r@[3] == (self.r2 >> 8) as u8,
            r@[4] == self.r2 as u8,
            r@[5] == (self.yaw >> 8) as u8,
            r@[6] == self.yaw as u8,
            r@[7] == (self.throttle >> 8) as u8,
            r@[8] == self.throttle as u8,
            r@[9] == (self.pitch >> 8) as u8,
            r@[10] == self.pitch as u8,
            r@[11] == (self.roll >> 8) as u8,
            r@[12] == self.roll as u8,
    {
        let mut bytes: [u8; 13] = [0; 13];

        let b0 = if self.x { 0x01 } else { 0 };
        let b1 = if self.circle { 0x02 } else { 0 };
        let b2 = if self.square { 0x04 } else { 0 };
        let b3 = if self.triangle { 0x08 } else { 0 };
        let b4 = if self.select { 0x10 } else { 0 };
        let b5 = if self.start { 0x20 } else { 0 };
        let b6 = if self.l1 { 0x40 } else { 0 };
        let b7 = if self.r1 { 0x80 } else { 0 };

        bytes[0] = b0 | b1 | b2 | b3 | b4 | b5 | b6 | b7;
        bytes[1] = (self.l2 >> 8) as u8;
        bytes[2] = self.l2 as u8;
        bytes[3] = (self.r2 >> 8) as u8;
        bytes[4] = self.r2 as u8;
        bytes[5] = (self.yaw >> 8) as u8;
        bytes[6] = self.yaw as u8;
        bytes[7] = (self.throttle >> 8) as u8;
        bytes[8] = self.throttle as u8;
        bytes[9] = (self.pitch >> 8) as u8;
        bytes[10] = self.pitch as u8;
        bytes[11] = (self.roll >> 8) as u8;
        bytes[12] = self.roll as u8;

        bytes
    }

    /// Records a button press or release.
    pub fn update_button(&mut self, button: Button, value: bool)
        ensures
            *final(self) == match button {
                Button::X => (ControllerState { x: value, ..*old(self) }),
                Button::Circle => (ControllerState { circle: value, ..*old(self) }),
                Button::Square => (ControllerState { square: value, ..*old(self) }),
                Button::Triangle => (ControllerState { triangle: value, ..*old(self) }),
                Button::Select => (ControllerState { select: value, ..*old(self) }),
                Button::Start => (ControllerState { start: value, ..*old(self) }),
                Button::L1 => (ControllerState { l1: value, ..*old(self) }),
                Button::R1 => (ControllerState { r1: value, ..*old(self) }),
            },
    {
        match button {
            Button::X => self.x = value,
            Button::Circle => self.circle = value,
            Button::Square => self.square = value,
            Button::Triangle => self.triangle = value,
            Button::Select => self.select = value,
            Button::Start => self.start = value,
            Button::L1 => self.l1 = value,
            Button::R1 => self.r1 = value,
        }
    }

    /// Records an axis movement.  Stick axes pass through the dead zone;
    /// triggers are reinterpreted as unsigned.
    pub fn update_axis(&mut self, axis: Axis, value: i16)
        ensures
            *final(self) == match axis {
                Axis::LeftX => (ControllerState { yaw: Self::deadzoned(value), ..*old(self) }),
                Axis::LeftY => (ControllerState { throttle: Self::deadzoned(value), ..*old(self) }),
                Axis::RightX => (ControllerState { roll: Self::deadzoned(value), ..*old(self) }),
                Axis::RightY => (ControllerState { pitch: Self::deadzoned(value), ..*old(self) }),
                Axis::TriggerLeft => (ControllerState { l2: value as u16, ..*old(self) }),
                Axis::TriggerRight => (ControllerState { r2: value as u16, ..*old(self) }),
            },
    {
        match axis {
            Axis::LeftX => self.yaw = self.calculate_axis_value_with_deadzone(value),
            Axis::LeftY => self.throttle = self.calculate_axis_value_with_deadzone(value),
            Axis::RightX => self.roll = self.calculate_axis_value_with_deadzone(value),
            Axis::RightY => self.pitch = self.calculate_axis_value_with_deadzone(value),
            Axis::TriggerLeft => self.l2 = value as u16,
            Axis::TriggerRight => self.r2 = value as u16,
        }
    }

    /// Applies one input event to the state and says whether the
    /// sampling loop should keep running: only `Quit` stops it.  Device
    /// attach and detach events leave the sampled state as it is.
    pub fn apply_event(&mut self, event: ControllerEvent) -> (keep_running: bool)
        ensures
            keep_running == !(event is Quit),
            *final(self) == match event {
                ControllerEvent::Quit => *old(self),
                ControllerEvent::DeviceAdded => *old(self),
                ControllerEvent::DeviceRemoved => *old(self),
                ControllerEvent::AxisMotion(axis, value) => match axis {
                    Axis::LeftX => (ControllerState { yaw: Self::deadzoned(value), ..*old(self) }),
                    Axis::LeftY => (ControllerState {
                        throttle: Self::deadzoned(value),
                        ..*old(self)
                    }),
                    Axis::RightX => (ControllerState {
                        roll: Self::deadzoned(value),
                        ..*old(self)
                    }),
                    Axis::RightY => (ControllerState {
                        pitch: Self::deadzoned(value),
                        ..*old(self)
                    }),
                    Axis::TriggerLeft => (ControllerState { l2: value as u16, ..*old(self) }),
                    Axis::TriggerRight => (ControllerState { r2: value as u16, ..*old(self) }),
                },
                ControllerEvent::ButtonDown(button) => match button {
                    Button::X => (ControllerState { x: true, ..*old(self) }),
                    Button::Circle => (ControllerState { circle: true, ..*old(self) }),
                    Button::Square => (ControllerState { square: true, ..*old(self) }),
                    Button::Triangle => (ControllerState { triangle: true, ..*old(self) }),
                    Button::Select => (ControllerState { select: true, ..*old(self) }),
                    Button::Start => (ControllerState { start: true, ..*old(self) }),
                    Button::L1 => (ControllerState { l1: true, ..*old(self) }),
                    Button::R1 => (ControllerState { r1: true, ..*old(self) }),
                },
                ControllerEvent::ButtonUp(button) => match button {
                    Button::X => (ControllerState { x: false, ..*old(self) }),
                    Button::Circle => (ControllerState { circle: false, ..*old(self) }),
                    Button::Square => (ControllerState { square: false, ..*old(self) }),
                    Button::Triangle => (ControllerState { triangle: false, ..*old(self) }),
                    Button::Select => (ControllerState { select: false, ..*old(self) }),
                    Button::Start => (ControllerState { start: false, ..*old(self) }),
                    Button::L1 => (ControllerState { l1: false, ..*old(self) }),
                    Button::R1 => (ControllerState { r1: false, ..*old(self) }),
                },
            },
    {
        match event {
            ControllerEvent::Quit => false,
            ControllerEvent::DeviceAdded => true,
            ControllerEvent::DeviceRemoved => true,
            ControllerEvent::AxisMotion(axis, value) => {
                self.update_axis(axis, value);
                true
            },
            ControllerEvent::ButtonDown(button) => {
                self.update_button(button, true);
                true
            },
            ControllerEvent::ButtonUp(button) => {
                self.update_button(button, false);
                true
            },
        }
    }

    /// Applies the joystick dead zone to one axis reading.
    pub fn calculate_axis_value_with_deadzone(&self, value: i16) -> (r: i16)
        ensures
            r == Self::deadzoned(value),
    {
        if value < -JOYSTICK_DEADZONE || value > JOYSTICK_DEADZONE {
            value
        } else {
            0
        }
    }
}

} // verus!
