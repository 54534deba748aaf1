use ur_driver::state::DriverState;
use ur_driver::telemetry::{
    body_len, decode_frame, f64_bits_to_i32, f64_bits_to_u32, frame_size, input_flags,
    output_flags, read_be_u64, BODY_SIZE,
};

type State = DriverState<u32, u32, u32>;

fn put(body: &mut [u8], off: usize, v: f64) {
    body[off..off + 8].copy_from_slice(&v.to_be_bytes());
}

const JOINTS: [f64; 6] = [0.1, -1.5707, 2.25, -0.5, 3.0, 1e-3];
const SPEEDS: [f64; 6] = [0.0, -0.25, 0.125, 7.5, -3.5, 0.01];

fn synthetic_body(robot_state: f64) -> Vec<u8> {
    let mut body = vec![0u8; BODY_SIZE];
    for i in 0..6 {
        put(&mut body, 248 + 8 * i, JOINTS[i]);
        put(&mut body, 296 + 8 * i, SPEEDS[i]);
    }
    put(&mut body, 680, (0b1000_0101u32 | 0x10000) as f64);
    put(&mut body, 808, robot_state);
    put(&mut body, 1040, 0b1000_0011u32 as f64);
    put(&mut body, 1048, 2.0);
    body
}

fn connected_with_goal(id: &str) -> State {
    let mut s = State::new();
    s.telemetry_reconnected();
    assert!(s.submit_goal(id.to_string(), 1, 10, 100).is_ok());
    s
}

#[test]
fn frame_size_reads_big_endian_prefix() {
    assert_eq!(frame_size([0, 0, 4, 196]), 1220);
    assert_eq!(frame_size([1, 2, 3, 4]), 0x01020304);
    assert_eq!(frame_size([255, 255, 255, 255]), u32::MAX);
}

#[test]
fn body_len_excludes_prefix() {
    assert_eq!(body_len(1220), 1216);
    assert_eq!(body_len(4), 0);
    assert_eq!(body_len(2), 0);
    assert_eq!(body_len(0), 0);
}

#[test]
fn read_be_u64_reads_eight_bytes() {
    let s = [9u8, 1, 2, 3, 4, 5, 6, 7, 8, 9];
    assert_eq!(read_be_u64(&s, 1), 0x0102030405060708);
    assert_eq!(read_be_u64(&[0xffu8; 8], 0), u64::MAX);
}

#[test]
fn casts_match_rust_as() {
    let values = [
        0.0, -0.0, 0.5, -0.5, 0.999, 1.0, 1.5, 2.9, -2.9, -3.7, 255.0, 65536.0, 131073.0,
        2147483647.0, 2147483647.5, 2147483648.0, -2147483648.0, -2147483648.9, -2147483649.0,
        4294967295.0, 4294967295.9, 4294967296.0, 1e20, -1e20, 1e300, -1e300, 5e-324, -5e-324,
        f64::MIN_POSITIVE, f64::MAX, f64::MIN, f64::INFINITY, f64::NEG_INFINITY, f64::NAN,
        -f64::NAN, 4503599627370497.0, 9007199254740993.0, 123456.789, -98765.4321,
    ];
    for v in values {
        assert_eq!(f64_bits_to_u32(v.to_bits()), v as u32, "u32 of {v}");
        assert_eq!(f64_bits_to_i32(v.to_bits()), v as i32, "i32 of {v}");
    }
    let mut x: f64 = 0.37;
    while x < 1e12 {
        for v in [x, -x, x.trunc(), -x.trunc()] {
            assert_eq!(f64_bits_to_u32(v.to_bits()), v as u32, "u32 of {v}");
            assert_eq!(f64_bits_to_i32(v.to_bits()), v as i32, "i32 of {v}");
        }
        x *= 1.7;
    }
}

#[test]
fn cast_exact_values() {
    assert_eq!(f64_bits_to_i32((-3.7f64).to_bits()), -3);
    assert_eq!(f64_bits_to_u32((-1.0f64).to_bits()), 0);
    assert_eq!(f64_bits_to_u32(f64::NAN.to_bits()), 0);
    assert_eq!(f64_bits_to_u32(f64::INFINITY.to_bits()), u32::MAX);
    assert_eq!(f64_bits_to_i32(f64::NEG_INFINITY.to_bits()), i32::MIN);
    assert_eq!(f64_bits_to_u32(131072.0f64.to_bits()), 131072);
}

#[test]
fn flags_follow_bit_layout() {
    let out = output_flags(0b1000_0011);
    assert_eq!(out, vec![true, true, false, false, false, false, false, true]);
    let inp = input_flags(0x10000);
    assert_eq!(inp, vec![false, false, false, false, false, false, false, false, true, false]);
    let inp = input_flags(0x20000 | 0x100 | 0x8000 | 1);
    assert_eq!(inp, vec![true, false, false, false, false, false, false, false, false, true]);
}

#[test]
fn decode_synthetic_frame() {
    let body = synthetic_body(1.0);
    let s = decode_frame(&body).expect("recognised frame");
    let joints: Vec<f64> = s.joint_positions.iter().map(|b| f64::from_bits(*b)).collect();
    let speeds: Vec<f64> = s.joint_speeds.iter().map(|b| f64::from_bits(*b)).collect();
    assert_eq!(joints, JOINTS.to_vec());
    assert_eq!(speeds, SPEEDS.to_vec());
    assert_eq!(s.digital_outputs, vec![true, true, false, false, false, false, false, true]);
    assert_eq!(
        s.digital_inputs,
        vec![true, false, true, false, false, false, false, true, true, false]
    );
    assert_eq!(s.robot_state, 1);
    assert_eq!(s.program_state, 2);
}

#[test]
fn decode_rejects_other_sizes() {
    assert!(decode_frame(&[]).is_none());
    assert!(decode_frame(&vec![0u8; BODY_SIZE - 1]).is_none());
    assert!(decode_frame(&vec![0u8; BODY_SIZE + 1]).is_none());
    assert!(decode_frame(&vec![0u8; 1220]).is_none());
}

#[test]
fn apply_frame_records_telemetry() {
    let mut s = connected_with_goal("g1");
    assert!(s.apply_frame(&synthetic_body(1.0)).is_none());
    let joints: Vec<f64> = s.joint_values.iter().map(|b| f64::from_bits(*b)).collect();
    assert_eq!(joints, JOINTS.to_vec());
    assert_eq!(s.robot_state, 1);
    assert_eq!(s.program_state, 2);
    assert_eq!(s.digital_outputs, vec![true, true, false, false, false, false, false, true]);
    assert!(s.digital_inputs[8]);
    assert!(!s.digital_inputs[9]);
    assert!(s.is_active_goal("g1"));
}

#[test]
fn unrecognised_frames_change_nothing() {
    let mut s = connected_with_goal("g1");
    s.apply_frame(&synthetic_body(1.0));
    for n in [0usize, 1, 100, BODY_SIZE - 1, BODY_SIZE + 1, 2000] {
        let mut body = vec![0u8; n];
        if n >= 816 {
            put(&mut body, 808, 3.0);
        }
        assert!(s.apply_frame(&body).is_none());
        assert!(s.connected);
        assert!(s.is_active_goal("g1"));
        assert_eq!(s.robot_state, 1);
        assert_eq!(s.program_state, 2);
        let joints: Vec<f64> = s.joint_values.iter().map(|b| f64::from_bits(*b)).collect();
        assert_eq!(joints, JOINTS.to_vec());
        assert_eq!(s.digital_outputs, vec![true, true, false, false, false, false, false, true]);
    }
}

#[test]
fn fault_frame_fails_active_goal() {
    let mut s = connected_with_goal("g1");
    let r = s.apply_frame(&synthetic_body(3.0)).expect("goal resolved");
    assert_eq!(r.completion, 1);
    assert!(!r.success);
    assert!(s.active_goal.is_none());
    assert_eq!(s.robot_state, 3);
    assert!(s.apply_frame(&synthetic_body(3.0)).is_none());
}

#[test]
fn new_state_is_empty() {
    let s = State::new();
    assert!(!s.connected);
    assert!(s.active_goal.is_none());
    assert_eq!(s.digital_inputs, vec![false; 10]);
    assert_eq!(s.digital_outputs, vec![false; 8]);
    assert!(s.joint_values.is_empty());
}
