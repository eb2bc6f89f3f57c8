use libretro_rs::retro::device::{Device, DevicePort, JoypadButton};

#[test]
fn devices_are_found_by_number() {
    assert_eq!(Device::try_from(0), Ok(Device::Unplugged));
    assert_eq!(Device::try_from(1), Ok(Device::Joypad));
    assert_eq!(Device::try_from(2), Ok(Device::Mouse));
    assert_eq!(Device::try_from(3), Ok(Device::Keyboard));
    assert_eq!(Device::try_from(4), Ok(Device::LightGun));
    assert_eq!(Device::try_from(5), Ok(Device::Analog));
    assert_eq!(Device::try_from(6), Ok(Device::Pointer));
}

#[test]
fn unknown_device_numbers_are_refused() {
    assert_eq!(Device::try_from(7), Err(()));
    assert_eq!(Device::try_from(256), Err(()));
    assert_eq!(Device::try_from(u32::MAX), Err(()));
}

#[test]
fn device_numbers_round_trip() {
    for number in 0..=6u32 {
        let device = Device::try_from(number).unwrap();
        assert_eq!(device.id(), number);
    }
}

#[test]
fn default_device_is_none() {
    assert_eq!(Device::default(), Device::Unplugged);
    assert_eq!(Device::default().id(), 0);
}

#[test]
fn devices_are_ordered_by_number() {
    assert!(Device::Unplugged < Device::Joypad);
    assert!(Device::Analog < Device::Pointer);
}

#[test]
fn device_port_wraps_its_number() {
    assert_eq!(DevicePort::new(3).into_inner(), 3);
    assert_eq!(DevicePort::from(200).into_inner(), 200);
    assert_eq!(u8::from(DevicePort::new(7)), 7);
    assert_eq!(DevicePort::default(), DevicePort::new(0));
    assert!(DevicePort::new(1) < DevicePort::new(2));
}

#[test]
fn joypad_buttons_have_their_numbers() {
    let buttons = [
        JoypadButton::B,
        JoypadButton::Y,
        JoypadButton::Select,
        JoypadButton::Start,
        JoypadButton::Up,
        JoypadButton::Down,
        JoypadButton::Left,
        JoypadButton::Right,
        JoypadButton::A,
        JoypadButton::X,
        JoypadButton::L1,
        JoypadButton::R1,
        JoypadButton::L2,
        JoypadButton::R2,
        JoypadButton::L3,
        JoypadButton::R3,
    ];
    for (number, button) in buttons.into_iter().enumerate() {
        assert_eq!(u32::from(button), number as u32);
    }
    assert_eq!(JoypadButton::default(), JoypadButton::B);
}
