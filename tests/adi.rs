use vexide_fs::adi::{
    AdiAccelerometer, AdiDeviceType, AdiPort, PortError, Sensitivity, SMART_TYPE_ADI,
};

#[test]
fn port_indices() {
    let port = AdiPort::new(3, None);
    assert_eq!(port.index(), 3);
    assert_eq!(port.expander_index(), None);
    assert_eq!(port.internal_index(), 2);
    assert_eq!(port.internal_expander_index(), 21);
    let ext = AdiPort::new(1, Some(5));
    assert_eq!(ext.internal_index(), 0);
    assert_eq!(ext.internal_expander_index(), 4);
}

#[test]
fn expander_validation() {
    let port = AdiPort::new(1, Some(5));
    assert_eq!(port.validate_expander(SMART_TYPE_ADI), Ok(()));
    assert_eq!(port.validate_expander(0), Err(PortError::Disconnected));
    assert_eq!(port.validate_expander(2), Err(PortError::IncorrectDevice));
}

#[test]
fn accelerometer_sensitivity() {
    let acc = AdiAccelerometer::new(AdiPort::new(2, None), Sensitivity::High);
    assert_eq!(acc.sensitivity(SMART_TYPE_ADI), Ok(Sensitivity::High));
    assert_eq!(acc.sensitivity(0), Err(PortError::Disconnected));
    assert_eq!(acc.port_index(), 2);
    assert_eq!(acc.expander_port_index(), None);
    assert_eq!(acc.device_type(), AdiDeviceType::Accelerometer);
}

#[test]
fn device_type_codes() {
    assert_eq!(AdiDeviceType::from(11u8), AdiDeviceType::Accelerometer);
    assert_eq!(AdiDeviceType::from(255u8), AdiDeviceType::Undefined);
    assert_eq!(AdiDeviceType::from(0u8), AdiDeviceType::AnalogIn);
    assert_eq!(AdiDeviceType::from(40u8), AdiDeviceType::Unknown(40));
    assert_eq!(u8::from(AdiDeviceType::PwmOut), 1);
    assert_eq!(u8::from(AdiDeviceType::MotorSlew), 16);
    assert_eq!(u8::from(AdiDeviceType::Unknown(40)), 40);
    for code in 0..=255u8 {
        assert_eq!(u8::from(AdiDeviceType::from(code)), code);
    }
}
