use vstd::prelude::*;

verus! {

/// Configuration codes that the controller uses for an ADI port.
pub const ADI_TYPE_ANALOG_IN: u8 = 0;
pub const ADI_TYPE_ANALOG_OUT: u8 = 1;
pub const ADI_TYPE_DIGITAL_IN: u8 = 2;
pub const ADI_TYPE_DIGITAL_OUT: u8 = 3;
pub const ADI_TYPE_SMART_BUTTON: u8 = 4;
pub const ADI_TYPE_SMART_POT: u8 = 5;
pub const ADI_TYPE_LEGACY_BUTTON: u8 = 6;
pub const ADI_TYPE_LEGACY_POTENTIOMETER: u8 = 7;
pub const ADI_TYPE_LEGACY_LINE_SENSOR: u8 = 8;
pub const ADI_TYPE_LEGACY_LIGHT_SENSOR: u8 = 9;
pub const ADI_TYPE_LEGACY_GYRO: u8 = 10;
pub const ADI_TYPE_LEGACY_ACCELEROMETER: u8 = 11;
pub const ADI_TYPE_LEGACY_SERVO: u8 = 12;
pub const ADI_TYPE_LEGACY_PWM: u8 = 13;
pub const ADI_TYPE_QUAD_ENCODER: u8 = 14;
pub const ADI_TYPE_SONAR: u8 = 15;
pub const ADI_TYPE_LEGACY_PWM_SLEW: u8 = 16;
pub const ADI_TYPE_UNDEFINED: u8 = 255;

/// Device type code of an empty smart port.
pub const SMART_TYPE_NONE: u8 = 0;

/// Device type code of a smart port that carries ADI ports.
pub const SMART_TYPE_ADI: u8 = 12;

/// Index of the smart port behind the controller's own ADI ports.
pub const INTERNAL_ADI_PORT_INDEX: u8 = 22;

/// Why a device could not be reached through its port.
#[derive(Clone, Copy, Debug, PartialEq, Eq, Structural)]
pub enum PortError {
    /// Nothing is plugged into the smart port.
    Disconnected,
    /// The smart port holds a device of another type.
    IncorrectDevice,
}

/// The outcome of checking the device type code reported for a smart port
/// against the type expected there.
pub open spec fn port_check(connected: u8, expected: u8) -> Result<(), PortError> {
    if connected == SMART_TYPE_NONE {
        Err(PortError::Disconnected)
    } else if connected != expected {
        Err(PortError::IncorrectDevice)
    } else {
        Ok(())
    }
}

/// An ADI (three wire) port, on the controller itself or on an expander.
#[derive(Clone, Copy, Debug, PartialEq, Eq, Structural)]
pub struct AdiPort {
    /// Port number, counted from 1.
    pub index: u8,
    /// Smart port number of the expander that carries this port, or `None`
    /// for the controller's own ports.
    pub expander_index: Option<u8>,
}

impl AdiPort {
    /// A port by its number and the expander it sits on.
    pub fn new(index: u8, expander_index: Option<u8>) -> (r: AdiPort)
        ensures
            r.index == index,
            r.expander_index == expander_index,
    {
        AdiPort { index, expander_index }
    }

    pub fn index(&self) -> (r: u8)
        ensures
            r == self.index,
    {
        self.index
    }

    pub fn expander_index(&self) -> (r: Option<u8>)
        ensures
            r == self.expander_index,
    {
        self.expander_index
    }

    /// The smart port number of the device that carries this port.
    pub open spec fn carrier(&self) -> u8 {
        match self.expander_index {
            Some(e) => e,
            None => INTERNAL_ADI_PORT_INDEX,
        }
    }

    /// The port number counted from 0.
    pub fn internal_index(&self) -> (r: u32)
        requires
            self.index >= 1,
        ensures
            r == self.index - 1,
    {
        (self.index - 1) as u32
    }

    /// The carrier's smart port number counted from 0.
    pub fn internal_expander_index(&self) -> (r: u32)
        requires
            self.carrier() >= 1,
        ensures
            r == self.carrier() - 1,
    {
        let carrier: u8 = match self.expander_index {
            Some(e) => e,
            None => INTERNAL_ADI_PORT_INDEX,
        };
        (carrier - 1) as u32
    }

    /// Checks the device type code reported for the carrier's smart port:
    /// it must hold an ADI device.
    pub fn validate_expander(&self, connected: u8) -> (r: Result<(), PortError>)
        ensures
            r == port_check(connected, SMART_TYPE_ADI),
    {
        if connected == SMART_TYPE_NONE {
            Err(PortError::Disconnected)
        } else if connected != SMART_TYPE_ADI {
            Err(PortError::IncorrectDevice)
        } else {
            Ok(())
        }
    }
}

/// The kinds of device that an ADI port can be configured for.
#[derive(Clone, Copy, Debug, PartialEq, Eq, Structural)]
pub enum AdiDeviceType {
    /// Undefined device type. Ports that were never configured read as `AnalogIn`, not as this..
    Undefined,
    /// Generic digital input.
    DigitalIn,
    /// Generic digital output.
    DigitalOut,
    /// 12-bit generic analog input.
    AnalogIn,
    /// 8-bit generic PWM output.
    PwmOut,
    /// Limit switch or bumper switch.
    Switch,
    /// V2 bumper switch.
    SwitchV2,
    /// Cortex-era potentiometer.
    Potentiometer,
    /// V2 potentiometer.
    PotentimeterV2,
    /// Cortex-era yaw-rate gyroscope.
    Gyro,
    /// Cortex-era servo motor.
    Servo,
    /// Quadrature encoder.
    Encoder,
    /// Ultrasonic sensor (sonar).
    RangeFinder,
    /// Cortex-era line tracker.
    LineTracker,
    /// Cortex-era light sensor.
    LightSensor,
    /// Cortex-era three-axis accelerometer.
    Accelerometer,
    /// MC29 controller output for legacy motors, taking signed values.
    Motor,
    /// Slew-rate limited motor PWM output.
    MotorSlew,
    /// A configuration code with no variant of its own.
    Unknown(u8),
}

/// The device type that a configuration code stands for.
pub open spec fn device_type_of(code: u8) -> AdiDeviceType {
    if code == ADI_TYPE_UNDEFINED {
        AdiDeviceType::Undefined
    } else if code == ADI_TYPE_DIGITAL_IN {
        AdiDeviceType::DigitalIn
    } else if code == ADI_TYPE_DIGITAL_OUT {
        AdiDeviceType::DigitalOut
    } else if code == ADI_TYPE_ANALOG_IN {
        AdiDeviceType::AnalogIn
    } else if code == ADI_TYPE_ANALOG_OUT {
        AdiDeviceType::PwmOut
    } else if code == ADI_TYPE_LEGACY_BUTTON {
        AdiDeviceType::Switch
    } else if code == ADI_TYPE_SMART_BUTTON {
        AdiDeviceType::SwitchV2
    } else if code == ADI_TYPE_LEGACY_POTENTIOMETER {
        AdiDeviceType::Potentiometer
    } else if code == ADI_TYPE_SMART_POT {
        AdiDeviceType::PotentimeterV2
    } else if code == ADI_TYPE_LEGACY_GYRO {
        AdiDeviceType::Gyro
    } else if code == ADI_TYPE_LEGACY_SERVO {
        AdiDeviceType::Servo
    } else if code == ADI_TYPE_QUAD_ENCODER {
        AdiDeviceType::Encoder
    } else if code == ADI_TYPE_SONAR {
        AdiDeviceType::RangeFinder
    } else if code == ADI_TYPE_LEGACY_LINE_SENSOR {
        AdiDeviceType::LineTracker
    } else if code == ADI_TYPE_LEGACY_LIGHT_SENSOR {
        AdiDeviceType::LightSensor
    } else if code == ADI_TYPE_LEGACY_ACCELEROMETER {
        AdiDeviceType::Accelerometer
    } else if code == ADI_TYPE_LEGACY_PWM {
        AdiDeviceType::Motor
    } else if code == ADI_TYPE_LEGACY_PWM_SLEW {
        AdiDeviceType::MotorSlew
    } else {
        AdiDeviceType::Unknown(code)
    }
}

/// The configuration code of a device type.
pub open spec fn code_of(t: AdiDeviceType) -> u8 {
    match t {
        AdiDeviceType::Undefined => ADI_TYPE_UNDEFINED,
        AdiDeviceType::DigitalIn => ADI_TYPE_DIGITAL_IN,
        AdiDeviceType::DigitalOut => ADI_TYPE_DIGITAL_OUT,
        AdiDeviceType::AnalogIn => ADI_TYPE_ANALOG_IN,
        AdiDeviceType::PwmOut => ADI_TYPE_ANALOG_OUT,
        AdiDeviceType::Switch => ADI_TYPE_LEGACY_BUTTON,
        AdiDeviceType::SwitchV2 => ADI_TYPE_SMART_BUTTON,
        AdiDeviceType::Potentiometer => ADI_TYPE_LEGACY_POTENTIOMETER,
        AdiDeviceType::PotentimeterV2 => ADI_TYPE_SMART_POT,
        AdiDeviceType::Gyro => ADI_TYPE_LEGACY_GYRO,
        AdiDeviceType::Servo => ADI_TYPE_LEGACY_SERVO,
        AdiDeviceType::Encoder => ADI_TYPE_QUAD_ENCODER,
        AdiDeviceType::RangeFinder => ADI_TYPE_SONAR,
        AdiDeviceType::LineTracker => ADI_TYPE_LEGACY_LINE_SENSOR,
        AdiDeviceType::LightSensor => ADI_TYPE_LEGACY_LIGHT_SENSOR,
        AdiDeviceType::Accelerometer => ADI_TYPE_LEGACY_ACCELEROMETER,
        AdiDeviceType::Motor => ADI_TYPE_LEGACY_PWM,
        AdiDeviceType::MotorSlew => ADI_TYPE_LEGACY_PWM_SLEW,
        AdiDeviceType::Unknown(code) => code,
    }
}

impl From<u8> for AdiDeviceType {
    fn from(value: u8) -> (r: AdiDeviceType)
        ensures
            r == device_type_of(value),
    {
        match value {
            ADI_TYPE_UNDEFINED => AdiDeviceType::Undefined,
            ADI_TYPE_DIGITAL_IN => AdiDeviceType::DigitalIn,
            ADI_TYPE_DIGITAL_OUT => AdiDeviceType::DigitalOut,
            ADI_TYPE_ANALOG_IN => AdiDeviceType::AnalogIn,
            ADI_TYPE_ANALOG_OUT => AdiDeviceType::PwmOut,
            ADI_TYPE_LEGACY_BUTTON => AdiDeviceType::Switch,
            ADI_TYPE_SMART_BUTTON => AdiDeviceType::SwitchV2,
            ADI_TYPE_LEGACY_POTENTIOMETER => AdiDeviceType::Potentiometer,
            ADI_TYPE_SMART_POT => AdiDeviceType::PotentimeterV2,
            ADI_TYPE_LEGACY_GYRO => AdiDeviceType::Gyro,
            ADI_TYPE_LEGACY_SERVO => AdiDeviceType::Servo,
            ADI_TYPE_QUAD_ENCODER => AdiDeviceType::Encoder,
            ADI_TYPE_SONAR => AdiDeviceType::RangeFinder,
            ADI_TYPE_LEGACY_LINE_SENSOR => AdiDeviceType::LineTracker,
            ADI_TYPE_LEGACY_LIGHT_SENSOR => AdiDeviceType::LightSensor,
            ADI_TYPE_LEGACY_ACCELEROMETER => AdiDeviceType::Accelerometer,
            ADI_TYPE_LEGACY_PWM => AdiDeviceType::Motor,
            ADI_TYPE_LEGACY_PWM_SLEW => AdiDeviceType::MotorSlew,
            other => AdiDeviceType::Unknown(other),
        }
    }
}

impl vstd::std_specs::convert::FromSpecImpl<u8> for AdiDeviceType {
    open spec fn obeys_from_spec() -> bool {
        true
    }

    open spec fn from_spec(v: u8) -> AdiDeviceType {
        device_type_of(v)
    }
}

impl From<AdiDeviceType> for u8 {
    fn from(value: AdiDeviceType) -> (r: u8)
        ensures
            r == code_of(value),
    {
        match value {
            AdiDeviceType::Undefined => ADI_TYPE_UNDEFINED,
            AdiDeviceType::DigitalIn => ADI_TYPE_DIGITAL_IN,
            AdiDeviceType::DigitalOut => ADI_TYPE_DIGITAL_OUT,
            AdiDeviceType::AnalogIn => ADI_TYPE_ANALOG_IN,
            AdiDeviceType::PwmOut => ADI_TYPE_ANALOG_OUT,
            AdiDeviceType::Switch => ADI_TYPE_LEGACY_BUTTON,
            AdiDeviceType::SwitchV2 => ADI_TYPE_SMART_BUTTON,
            AdiDeviceType::Potentiometer => ADI_TYPE_LEGACY_POTENTIOMETER,
            AdiDeviceType::PotentimeterV2 => ADI_TYPE_SMART_POT,
            AdiDeviceType::Gyro => ADI_TYPE_LEGACY_GYRO,
            AdiDeviceType::Servo => ADI_TYPE_LEGACY_SERVO,
            AdiDeviceType::Encoder => ADI_TYPE_QUAD_ENCODER,
            AdiDeviceType::RangeFinder => ADI_TYPE_SONAR,
            AdiDeviceType::LineTracker => ADI_TYPE_LEGACY_LINE_SENSOR,
            AdiDeviceType::LightSensor => ADI_TYPE_LEGACY_LIGHT_SENSOR,
            AdiDeviceType::Accelerometer => ADI_TYPE_LEGACY_ACCELEROMETER,
            AdiDeviceType::Motor => ADI_TYPE_LEGACY_PWM,
            AdiDeviceType::MotorSlew => ADI_TYPE_LEGACY_PWM_SLEW,
            AdiDeviceType::Unknown(raw) => raw,
        }
    }
}

impl vstd::std_specs::convert::FromSpecImpl<AdiDeviceType> for u8 {
    open spec fn obeys_from_spec() -> bool {
        true
    }

    open spec fn from_spec(v: AdiDeviceType) -> u8 {
        code_of(v)
    }
}

/// Reading a configuration code as a device type and writing it back gives
/// the same code.
pub proof fn lemma_code_round_trip(code: u8)
    ensures
        code_of(device_type_of(code)) == code,
{
}

/// The jumper setting of an accelerometer.
#[derive(Clone, Copy, Debug, PartialEq, Eq, Structural)]
pub enum Sensitivity {
    /// Measures from 0 to 2 g.
    Low,
    /// Measures from 0 to 6 g.
    High,
}

/// One axis of the three-axis analog accelerometer.
#[derive(Debug, PartialEq, Eq, Structural)]
pub struct AdiAccelerometer {
    sensitivity: Sensitivity,
    port: AdiPort,
}

impl AdiAccelerometer {
    /// An accelerometer on `port`, which the caller has configured for
    /// `AdiDeviceType::Accelerometer`.
    pub fn new(port: AdiPort, sensitivity: Sensitivity) -> (r: AdiAccelerometer)
        ensures
            r.spec_port() == port,
            r.spec_sensitivity() == sensitivity,
    {
        AdiAccelerometer { sensitivity, port }
    }

    pub closed spec fn spec_port(&self) -> AdiPort {
        self.port
    }

    pub closed spec fn spec_sensitivity(&self) -> Sensitivity {
        self.sensitivity
    }

    /// The jumper setting, once the device type code reported for the
    /// carrier's smart port shows that the port can be reached.
    pub fn sensitivity(&self, connected: u8) -> (r: Result<Sensitivity, PortError>)
        ensures
            port_check(connected, SMART_TYPE_ADI) is Ok ==> r == Ok::<Sensitivity, PortError>(
                self.spec_sensitivity(),
            ),
            port_check(connected, SMART_TYPE_ADI) matches Err(e) ==> r == Err::<
                Sensitivity,
                PortError,
            >(e),
    {
        match self.port.validate_expander(connected) {
            Err(e) => Err(e),
            Ok(()) => Ok(self.sensitivity),
        }
    }

    pub fn port(&self) -> (r: AdiPort)
        ensures
            r == self.spec_port(),
    {
        self.port
    }

    pub fn port_index(&self) -> (r: u8)
        ensures
            r == self.spec_port().index,
    {
        self.port.index()
    }

    pub fn expander_port_index(&self) -> (r: Option<u8>)
        ensures
            r == self.spec_port().expander_index,
    {
        self.port.expander_index()
    }

    pub fn device_type(&self) -> (r: AdiDeviceType)
        ensures
            r == AdiDeviceType::Accelerometer,
    {
        AdiDeviceType::Accelerometer
    }
}

} // verus!
