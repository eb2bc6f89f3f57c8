//! Input devices, the ports they are plugged into, and the buttons of a
//! joypad, each with the number that the libretro API gives it.

use vstd::prelude::*;
use vstd::std_specs::convert::{FromSpecImpl, TryFromSpecImpl};

verus! {

/// A kind of input device.
#[non_exhaustive]
#[derive(Clone, Copy, Debug, PartialEq, Eq, Hash, PartialOrd, Ord, Structural)]
pub enum Device {
    /// No device is plugged in.
    Unplugged,
    Joypad,
    Mouse,
    Keyboard,
    LightGun,
    Analog,
    Pointer,
}

impl Device {
    /// The number of the device in the libretro API.
    pub open spec fn spec_id(self) -> u32 {
        match self {
            Device::Unplugged => 0,
            Device::Joypad => 1,
            Device::Mouse => 2,
            Device::Keyboard => 3,
            Device::LightGun => 4,
            Device::Analog => 5,
            Device::Pointer => 6,
        }
    }

    /// The device with the number `id`, if there is one.
    pub open spec fn of_id(id: u32) -> Result<Device, ()> {
        if id == 0 {
            Ok(Device::Unplugged)
        } else if id == 1 {
            Ok(Device::Joypad)
        } else if id == 2 {
            Ok(Device::Mouse)
        } else if id == 3 {
            Ok(Device::Keyboard)
        } else if id == 4 {
            Ok(Device::LightGun)
        } else if id == 5 {
            Ok(Device::Analog)
        } else if id == 6 {
            Ok(Device::Pointer)
        } else {
            Err(())
        }
    }

    /// Every device has a number from 0 to 6, the device with that number is
    /// found again from it, and no two devices share a number.
    pub proof fn lemma_id_round_trip(a: Device, b: Device)
        ensures
            a.spec_id() <= 6,
            Device::of_id(a.spec_id()) == Ok::<Device, ()>(a),
            a.spec_id() == b.spec_id() ==> a == b,
    {
    }

    /// The number of the device in the libretro API.
    pub fn id(self) -> (id: u32)
        ensures
            id == self.spec_id(),
    {
        match self {
            Device::Unplugged => 0,
            Device::Joypad => 1,
            Device::Mouse => 2,
            Device::Keyboard => 3,
            Device::LightGun => 4,
            Device::Analog => 5,
            Device::Pointer => 6,
        }
    }
}

impl Default for Device {
    /// No device.
    fn default() -> (device: Device)
        ensures
            device == Device::Unplugged,
    {
        Device::Unplugged
    }
}

impl TryFromSpecImpl<u32> for Device {
    open spec fn obeys_try_from_spec() -> bool {
        true
    }

    open spec fn try_from_spec(val: u32) -> Result<Device, ()> {
        Device::of_id(val)
    }
}

impl TryFrom<u32> for Device {
    type Error = ();

    /// The device with the number `val`. Fails if no device has that number.
    fn try_from(val: u32) -> (result: Result<Device, ()>)
        ensures
            result == Device::of_id(val),
            result is Ok <==> val <= 6,
            result matches Ok(device) ==> device.spec_id() == val,
    {
        match val {
            0 => Ok(Device::Unplugged),
            1 => Ok(Device::Joypad),
            2 => Ok(Device::Mouse),
            3 => Ok(Device::Keyboard),
            4 => Ok(Device::LightGun),
            5 => Ok(Device::Analog),
            6 => Ok(Device::Pointer),
            _ => Err(()),
        }
    }
}

/// A libretro device port.
#[derive(Clone, Copy, Debug, PartialEq, Eq, Hash, PartialOrd, Ord, Structural)]
pub struct DevicePort(u8);

impl View for DevicePort {
    type V = u8;

    closed spec fn view(&self) -> u8 {
        self.0
    }
}

impl DevicePort {
    /// The port with the number `port_number`.
    pub closed spec fn spec_new(port_number: u8) -> DevicePort {
        DevicePort(port_number)
    }

    /// A port made of a number holds that number, and a port is the one made
    /// of its number.
    pub proof fn lemma_round_trip(port_number: u8, port: DevicePort)
        ensures
            DevicePort::spec_new(port_number)@ == port_number,
            DevicePort::spec_new(port@) == port,
    {
    }

    /// Creates a [`DevicePort`].
    pub fn new(port_number: u8) -> (port: DevicePort)
        ensures
            port == DevicePort::spec_new(port_number),
            port@ == port_number,
    {
        DevicePort(port_number)
    }

    /// Converts this port back into its number.
    pub fn into_inner(self) -> (port_number: u8)
        ensures
            port_number == self@,
    {
        self.0
    }
}

impl Default for DevicePort {
    /// Port 0.
    fn default() -> (port: DevicePort)
        ensures
            port@ == 0,
    {
        DevicePort(0)
    }
}

impl FromSpecImpl<u8> for DevicePort {
    open spec fn obeys_from_spec() -> bool {
        true
    }

    open spec fn from_spec(port_number: u8) -> DevicePort {
        DevicePort::spec_new(port_number)
    }
}

impl From<u8> for DevicePort {
    fn from(port_number: u8) -> (port: DevicePort)
        ensures
            port@ == port_number,
    {
        DevicePort::new(port_number)
    }
}

impl FromSpecImpl<DevicePort> for u8 {
    open spec fn obeys_from_spec() -> bool {
        true
    }

    open spec fn from_spec(port: DevicePort) -> u8 {
        port@
    }
}

impl From<DevicePort> for u8 {
    fn from(port: DevicePort) -> (port_number: u8) {
        port.into_inner()
    }
}

/// A button of a joypad.
#[non_exhaustive]
#[derive(Clone, Copy, Debug, PartialEq, Eq, Hash, Structural)]
pub enum JoypadButton {
    B,
    Y,
    Select,
    Start,
    Up,
    Down,
    Left,
    Right,
    A,
    X,
    L1,
    R1,
    L2,
    R2,
    L3,
    R3,
}

impl JoypadButton {
    /// The number of the button in the libretro API.
    pub open spec fn spec_id(self) -> u32 {
        match self {
            JoypadButton::B => 0,
            JoypadButton::Y => 1,
            JoypadButton::Select => 2,
            JoypadButton::Start => 3,
            JoypadButton::Up => 4,
            JoypadButton::Down => 5,
            JoypadButton::Left => 6,
            JoypadButton::Right => 7,
            JoypadButton::A => 8,
            JoypadButton::X => 9,
            JoypadButton::L1 => 10,
            JoypadButton::R1 => 11,
            JoypadButton::L2 => 12,
            JoypadButton::R2 => 13,
            JoypadButton::L3 => 14,
            JoypadButton::R3 => 15,
        }
    }

    /// Every button has a number from 0 to 15, and no two buttons share one.
    pub proof fn lemma_id_injective(a: JoypadButton, b: JoypadButton)
        ensures
            a.spec_id() <= 15,
            a.spec_id() == b.spec_id() ==> a == b,
    {
    }
}

impl Default for JoypadButton {
    /// The button B.
    fn default() -> (button: JoypadButton)
        ensures
            button == JoypadButton::B,
    {
        JoypadButton::B
    }
}

impl FromSpecImpl<JoypadButton> for u32 {
    open spec fn obeys_from_spec() -> bool {
        true
    }

    open spec fn from_spec(button: JoypadButton) -> u32 {
        button.spec_id()
    }
}

impl From<JoypadButton> for u32 {
    /// The number of the button in the libretro API.
    fn from(button: JoypadButton) -> (id: u32) {
        match button {
            JoypadButton::B => 0,
            JoypadButton::Y => 1,
            JoypadButton::Select => 2,
            JoypadButton::Start => 3,
            JoypadButton::Up => 4,
            JoypadButton::Down => 5,
            JoypadButton::Left => 6,
            JoypadButton::Right => 7,
            JoypadButton::A => 8,
            JoypadButton::X => 9,
            JoypadButton::L1 => 10,
            JoypadButton::R1 => 11,
            JoypadButton::L2 => 12,
            JoypadButton::R2 => 13,
            JoypadButton::L3 => 14,
            JoypadButton::R3 => 15,
        }
    }
}

} // verus!
