use compass_core::{
    calc_calibration, calibrated_measurement, dir_from_theta, parse_command, Calibration, Command,
    Direction, LineAccumulator, Measurement,
};
use compass_core::led::direction_to_led;

fn cal(center: (i32, i32, i32), scale: (i32, i32, i32), radius: i32) -> Calibration {
    Calibration {
        center: Measurement { x: center.0, y: center.1, z: center.2 },
        scale: Measurement { x: scale.0, y: scale.1, z: scale.2 },
        radius,
    }
}

#[test]
fn quantizer_cardinal_points() {
    // 0, pi/2, pi and -pi in microradians.
    assert_eq!(dir_from_theta(0), Direction::East);
    assert_eq!(dir_from_theta(1_570_796), Direction::North);
    assert_eq!(dir_from_theta(3_141_593), Direction::West);
    assert_eq!(dir_from_theta(-3_141_593), Direction::West);
    assert_eq!(dir_from_theta(-1_570_796), Direction::South);
}

#[test]
fn quantizer_sector_edges() {
    // An angle exactly on an edge belongs to the counter-clockwise-next
    // sector; the edges are the odd multiples of pi/8.
    assert_eq!(dir_from_theta(392_698), Direction::East);
    assert_eq!(dir_from_theta(392_699), Direction::NorthEast);
    assert_eq!(dir_from_theta(1_178_097), Direction::North);
    assert_eq!(dir_from_theta(1_963_495), Direction::NorthWest);
    assert_eq!(dir_from_theta(2_748_894), Direction::West);
    assert_eq!(dir_from_theta(-392_699), Direction::East);
    assert_eq!(dir_from_theta(-392_700), Direction::SouthEast);
    assert_eq!(dir_from_theta(-1_178_097), Direction::SouthEast);
    assert_eq!(dir_from_theta(-1_963_495), Direction::South);
    assert_eq!(dir_from_theta(-2_748_894), Direction::SouthWest);
    assert_eq!(dir_from_theta(-2_748_895), Direction::West);
}

#[test]
fn apply_removes_bias_at_unit_scale() {
    let c = cal((100, -200, 300), (1000, 1000, 1000), 500);
    let r = calibrated_measurement(Measurement { x: 150, y: -150, z: 280 }, &c);
    assert_eq!(r, Measurement { x: 50, y: 50, z: -20 });
}

#[test]
fn apply_scales_in_fixed_point() {
    let c = cal((500, 0, 0), (2000, 500, 1000), 500);
    let r = calibrated_measurement(Measurement { x: 1500, y: 1000, z: 7 }, &c);
    assert_eq!(r.x, 2000); // (1500 - 500) * 2000 / 1000
    assert_eq!(r.y, 500); // 1000 * 500 / 1000
    assert_eq!(r.z, 7);
}

#[test]
fn apply_truncates_toward_zero() {
    let c = cal((500, 0, 0), (999, 1000, 1000), 500);
    let r = calibrated_measurement(Measurement { x: -1000, y: 0, z: 0 }, &c);
    // (-1500 * 999) / 1000 = -1498500 / 1000, truncated toward zero.
    assert_eq!(r.x, -1498);
}

#[test]
fn apply_is_per_axis() {
    let c = cal((10, 20, 30), (1100, 1200, 1300), 500);
    let a = calibrated_measurement(Measurement { x: 400, y: 500, z: 600 }, &c);
    let b = calibrated_measurement(Measurement { x: 400, y: -900, z: 4 }, &c);
    // Changing y and z never moves the corrected x.
    assert_eq!(a.x, b.x);
}

#[test]
fn calibration_from_symmetric_window() {
    let samples = vec![
        Measurement { x: 60, y: -70, z: -3 },
        Measurement { x: 140, y: -30, z: 17 },
    ];
    let c = calc_calibration(&samples).unwrap();
    // Centers are the exact midpoints, the radius is the largest half-range,
    // and each scale normalizes its half-range toward the radius.
    assert_eq!(c.center, Measurement { x: 100, y: -50, z: 7 });
    assert_eq!(c.radius, 40);
    assert_eq!(c.scale, Measurement { x: 1000, y: 2000, z: 4000 });
}

#[test]
fn calibration_from_degenerate_axis_is_positive() {
    let samples = vec![
        Measurement { x: 0, y: 0, z: 5 },
        Measurement { x: 10, y: 40, z: 5 },
    ];
    let c = calc_calibration(&samples).unwrap();
    // z never moved: its half-range clamps to one and its scale stays
    // positive (and large), never zero or negative.
    assert_eq!(c.center, Measurement { x: 5, y: 20, z: 5 });
    assert_eq!(c.radius, 20);
    assert_eq!(c.scale, Measurement { x: 4000, y: 1000, z: 20000 });
    assert!(c.scale.z > 0);
}

#[test]
fn calibration_from_empty_window_is_none() {
    let samples: Vec<Measurement> = vec![];
    assert!(calc_calibration(&samples).is_none());
}

#[test]
fn calibration_from_single_sample() {
    let samples = vec![Measurement { x: -7, y: 8, z: 9 }];
    let c = calc_calibration(&samples).unwrap();
    assert_eq!(c.center, Measurement { x: -7, y: 8, z: 9 });
    assert_eq!(c.radius, 1);
    assert_eq!(c.scale, Measurement { x: 1000, y: 1000, z: 1000 });
}

#[test]
fn framing_terminator_yields_one_command() {
    let mut acc = LineAccumulator::new();
    let mut recognized = 0;
    for b in [b'S', b'C', b'A', b'L', b'\r'] {
        if let Some(line) = acc.push_byte(b) {
            assert_eq!(line, b"SCAL".to_vec());
            if parse_command(&line) == Command::Recalibrate {
                recognized += 1;
            }
        }
    }
    assert_eq!(recognized, 1);
}

#[test]
fn framing_line_feed_terminates_too() {
    let mut acc = LineAccumulator::new();
    assert!(acc.push_byte(b'A').is_none());
    assert!(acc.push_byte(b'B').is_none());
    let line = acc.push_byte(b'\n').unwrap();
    assert_eq!(line, vec![b'A', b'B']);
}

#[test]
fn framing_empty_line() {
    let mut acc = LineAccumulator::new();
    let line = acc.push_byte(b'\r').unwrap();
    assert!(line.is_empty());
    assert_eq!(parse_command(&line), Command::Unknown);
}

#[test]
fn framing_full_buffer_forces_flush() {
    let mut acc = LineAccumulator::new();
    let mut fed = Vec::new();
    for b in [b'S', b'C', b'A', b'L'] {
        assert!(acc.push_byte(b).is_none());
        fed.push(b);
    }
    // 27 more non-terminator bytes bring the buffer to 31: still no line.
    for i in 0..27u8 {
        let b = b'a' + (i % 26);
        assert!(acc.push_byte(b).is_none());
        fed.push(b);
    }
    // The byte that fills the buffer to its 32-byte cap forces a flush of
    // all 32 accumulated bytes and clears the buffer.
    let b32 = b'!';
    fed.push(b32);
    let line = acc.push_byte(b32).expect("the 32nd byte must flush");
    assert_eq!(line.len(), 32);
    assert_eq!(line, fed);
    // The buffer really was cleared: the next byte starts a fresh line.
    assert!(acc.push_byte(b'x').is_none());
    assert_eq!(acc.push_byte(b'\r').unwrap(), vec![b'x']);
}

#[test]
fn parse_only_exact_token() {
    assert_eq!(parse_command(&b"SCAL".to_vec()), Command::Recalibrate);
    assert_eq!(parse_command(&b"SCA".to_vec()), Command::Unknown);
    assert_eq!(parse_command(&b"SCALX".to_vec()), Command::Unknown);
    assert_eq!(parse_command(&b"scal".to_vec()), Command::Unknown);
    assert_eq!(parse_command(&b"".to_vec()), Command::Unknown);
}

#[test]
fn glyph_east() {
    let grid = direction_to_led(Direction::East);
    assert_eq!(
        grid,
        [
            [0, 0, 1, 0, 0],
            [0, 1, 0, 0, 0],
            [1, 1, 1, 1, 1],
            [0, 1, 0, 0, 0],
            [0, 0, 1, 0, 0],
        ]
    );
}

#[test]
fn glyph_north() {
    let grid = direction_to_led(Direction::North);
    assert_eq!(
        grid,
        [
            [0, 0, 1, 0, 0],
            [0, 1, 1, 1, 0],
            [1, 0, 1, 0, 1],
            [0, 0, 1, 0, 0],
            [0, 0, 1, 0, 0],
        ]
    );
}

#[test]
fn glyphs_are_distinct() {
    let dirs = [
        Direction::North,
        Direction::NorthEast,
        Direction::East,
        Direction::SouthEast,
        Direction::South,
        Direction::SouthWest,
        Direction::West,
        Direction::NorthWest,
    ];
    for i in 0..dirs.len() {
        for j in 0..dirs.len() {
            if i != j {
                assert_ne!(direction_to_led(dirs[i]), direction_to_led(dirs[j]));
            }
        }
    }
}

#[test]
fn east_end_to_end() {
    // A raw reading offset East-ward from the bias center, under an
    // identity-like calibration, must land on East and its fixed glyph.
    let c = cal((20962, 34322, -23924), (1000, 1000, 1000), 48098);
    let raw = Measurement { x: 20962 + 5000, y: 34322, z: -23924 };
    let corrected = calibrated_measurement(raw, &c);
    assert_eq!(corrected, Measurement { x: 5000, y: 0, z: 0 });
    let theta = libm::atan2f(corrected.y as f32, corrected.x as f32);
    let theta_urad = libm::roundf(theta * 1_000_000.0) as i64;
    let dir = dir_from_theta(theta_urad);
    assert_eq!(dir, Direction::East);
    assert_eq!(direction_to_led(dir), direction_to_led(Direction::East));
    assert_eq!(direction_to_led(dir)[2], [1, 1, 1, 1, 1]);
}

#[test]
fn try_apply_matches_apply_in_range() {
    let c = cal((100, -200, 300), (1000, 1000, 1000), 500);
    let raw = Measurement { x: 150, y: -150, z: 280 };
    let m = compass_core::try_calibrated_measurement(raw, &c).unwrap();
    assert_eq!(m, calibrated_measurement(raw, &c));
}

#[test]
fn try_apply_rejects_bad_scale() {
    let c = cal((0, 0, 0), (0, 1000, 1000), 500);
    let raw = Measurement { x: 1, y: 2, z: 3 };
    assert!(compass_core::try_calibrated_measurement(raw, &c).is_none());
}

#[test]
fn try_apply_rejects_overflowing_reading() {
    let c = cal((i32::MIN, 0, 0), (i32::MAX, 1000, 1000), 500);
    let raw = Measurement { x: i32::MAX, y: 0, z: 0 };
    assert!(compass_core::try_calibrated_measurement(raw, &c).is_none());
}
