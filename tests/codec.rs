use rc_relay::actuator::{
    decode_actuator, encode_actuator, Actuator, ActuatorData, Motor, MotorData, Steering,
    SteeringData, ACTUATOR_LEN,
};
use rc_relay::sensors::{
    decode_sensors, encode_sensors, Analog, AnalogData, GPSData, IMUData, MAGData, Sensors,
    SensorsData, GPS, IMU, MAG, SENSORS_LEN,
};
use rc_relay::wire::DecodeError;

fn sample_sensors() -> SensorsData {
    SensorsData {
        imu: IMUData {
            status: 1,
            ax: 0.5f32.to_bits(),
            ay: (-9.81f32).to_bits(),
            az: 1.25f32.to_bits(),
            temp: 21.5f32.to_bits(),
        },
        gps: GPSData {
            status: 2,
            lat_deg: 48.0f32.to_bits(),
            lat_min: 51.5f32.to_bits(),
            dir_lat: b'N',
            long_deg: 2.0f32.to_bits(),
            long_min: 21.0f32.to_bits(),
            dir_long: b'E',
            decli_mag: 1.5f32.to_bits(),
            cap_vrai: 90.0f32.to_bits(),
            cap_mag: 91.5f32.to_bits(),
            vitesse_sol: 3.75f32.to_bits(),
        },
        mag: MAGData {
            status: 3,
            raw_x: 100.0f32.to_bits(),
            raw_y: (-50.0f32).to_bits(),
            raw_z: 7.0f32.to_bits(),
            heading: 270.0f32.to_bits(),
        },
        analog: AnalogData { status: 4, battery: 7.4f32.to_bits() },
    }
}

fn bincode_image(d: &SensorsData) -> Vec<u8> {
    let f = f32::from_bits;
    let imu = (d.imu.status, f(d.imu.ax), f(d.imu.ay), f(d.imu.az), f(d.imu.temp));
    let g = &d.gps;
    let gps = (
        g.status,
        f(g.lat_deg),
        f(g.lat_min),
        g.dir_lat,
        f(g.long_deg),
        f(g.long_min),
        g.dir_long,
        f(g.decli_mag),
        f(g.cap_vrai),
        f(g.cap_mag),
        f(g.vitesse_sol),
    );
    let mag = (d.mag.status, f(d.mag.raw_x), f(d.mag.raw_y), f(d.mag.raw_z), f(d.mag.heading));
    let analog = (d.analog.status, f(d.analog.battery));
    bincode::encode_to_vec((imu, gps, mag, analog), bincode::config::standard()).unwrap()
}

#[test]
fn empty_records_hold_no_data() {
    let imu = IMU::empty();
    assert_eq!(imu, IMUData { status: 0xFF, ax: 0, ay: 0, az: 0, temp: 0 });
    let gps = GPS::empty();
    assert_eq!(gps.status, 0xFF);
    assert_eq!(gps.dir_lat, b'N');
    assert_eq!(gps.dir_long, b'W');
    assert_eq!(gps.lat_deg, 0.0f32.to_bits());
    assert_eq!(MAG::empty().status, 0xFF);
    assert_eq!(MAG::empty().heading, 0);
    assert_eq!(Analog::empty(), AnalogData { status: 0xFF, battery: 0 });
    let s = Sensors::empty();
    assert_eq!(s.imu, imu);
    assert_eq!(s.gps, gps);
}

#[test]
fn neutral_command_is_zero() {
    assert_eq!(Motor::empty(), MotorData { speed: 0.0f64.to_bits() });
    assert_eq!(Steering::empty(), SteeringData { steer: 0.0f64.to_bits() });
    let a = Actuator::empty();
    assert_eq!(a.motor, Motor::empty());
    assert_eq!(a.steering, Steering::empty());
}

#[test]
fn empty_frame_image_is_fixed_size() {
    let b = encode_sensors(&Sensors::empty());
    assert_eq!(b.len(), SENSORS_LEN);
    assert_eq!(b.len(), 74);
    assert_eq!(b[0], 0xFF);
    assert_eq!(b[17], 0xFF);
    assert_eq!(b[17 + 9], b'N');
    assert_eq!(b[17 + 18], b'W');
    assert_eq!(b[52], 0xFF);
    assert_eq!(b[69], 0xFF);
    assert_eq!(&b[70..74], &[0, 0, 0, 0]);
}

#[test]
fn sensors_layout_matches_bincode_standard() {
    let d = sample_sensors();
    assert_eq!(encode_sensors(&d), bincode_image(&d));
    assert_eq!(encode_sensors(&Sensors::empty()), bincode_image(&Sensors::empty()));
}

#[test]
fn sensors_round_trip() {
    let d = sample_sensors();
    assert_eq!(decode_sensors(&encode_sensors(&d)), Ok(d));
    let e = Sensors::empty();
    assert_eq!(decode_sensors(&encode_sensors(&e)), Ok(e));
}

#[test]
fn sensors_decode_reads_known_values() {
    let b = encode_sensors(&sample_sensors());
    let d = decode_sensors(&b).unwrap();
    assert_eq!(f32::from_bits(d.imu.ay), -9.81f32);
    assert_eq!(f32::from_bits(d.gps.vitesse_sol), 3.75f32);
    assert_eq!(d.gps.dir_long, b'E');
    assert_eq!(f32::from_bits(d.analog.battery), 7.4f32);
}

#[test]
fn sensors_decode_short_frame_fails() {
    let b = encode_sensors(&sample_sensors());
    assert_eq!(decode_sensors(&b[..73]), Err(DecodeError::UnexpectedEnd { additional: 1 }));
    assert_eq!(decode_sensors(&[]), Err(DecodeError::UnexpectedEnd { additional: 74 }));
}

#[test]
fn sensors_decode_ignores_trailing_bytes() {
    let d = sample_sensors();
    let mut b = encode_sensors(&d);
    b.extend_from_slice(&[1, 2, 3]);
    assert_eq!(decode_sensors(&b), Ok(d));
}

#[test]
fn actuator_layout_and_round_trip() {
    let d = ActuatorData {
        motor: MotorData { speed: 0.75f64.to_bits() },
        steering: SteeringData { steer: (-1.0f64).to_bits() },
    };
    let b = encode_actuator(&d);
    assert_eq!(b.len(), ACTUATOR_LEN);
    let expected =
        bincode::encode_to_vec((0.75f64, -1.0f64), bincode::config::standard()).unwrap();
    assert_eq!(b, expected);
    assert_eq!(&b[..8], &0.75f64.to_le_bytes());
    assert_eq!(decode_actuator(&b), Ok(d));
    assert_eq!(encode_actuator(&Actuator::empty()), vec![0u8; 16]);
}

#[test]
fn actuator_decode_short_frame_fails() {
    assert_eq!(decode_actuator(&[0u8; 15]), Err(DecodeError::UnexpectedEnd { additional: 1 }));
}
