use unit_conversion::binary64::{doubled_floor, from_halves, is_nan, is_negative};
use unit_conversion::UnitConversion;

fn speed_for(force: f64) -> f64 {
    if force.is_nan() {
        return 35.0;
    }
    match force as i32 {
        0 => 0.0,
        1 => 1.5,
        2 => 3.0,
        3 => 5.0,
        4 => 7.5,
        5 => 10.0,
        6 => 12.5,
        7 => 15.5,
        8 => 18.5,
        9 => 22.0,
        10 => 26.0,
        11 => 30.0,
        _ => 35.0,
    }
}

fn force_for(speed: f64) -> f64 {
    let limits = [0.5, 2.0, 4.0, 6.0, 9.0, 11.0, 14.0, 17.0, 21.0, 24.0, 28.0, 33.0];
    let mut force = 0.0;
    for limit in limits {
        if speed < limit {
            return force;
        }
        force += 1.0;
    }
    force
}

fn neighbours(x: f64) -> [f64; 3] {
    let bits = x.to_bits();
    [f64::from_bits(bits - 1), x, f64::from_bits(bits + 1)]
}

fn probes() -> Vec<f64> {
    let mut all = vec![
        0.0,
        -0.0,
        5e-324,
        -5e-324,
        f64::MIN_POSITIVE,
        1e-310,
        0.25,
        0.999,
        -0.999,
        -1.0,
        -1.5,
        -12.0,
        1e10,
        -1e10,
        2147483647.0,
        2147483648.0,
        -2147483648.0,
        -2147483649.0,
        4294967296.0,
        4294967297.5,
        1e300,
        f64::MAX,
        f64::MIN,
        f64::INFINITY,
        f64::NEG_INFINITY,
        f64::NAN,
        -f64::NAN,
        f64::from_bits(0x7FF0_0000_0000_0001),
        f64::from_bits(0xFFFF_FFFF_FFFF_FFFF),
    ];
    let mut quarter = -8.0;
    while quarter <= 140.0 {
        for x in neighbours(quarter) {
            all.push(x);
        }
        quarter += 0.25;
    }
    all
}

#[test]
fn wind_force_to_speed_table() {
    let table = [
        (0.0, 0.0),
        (1.0, 1.5),
        (2.0, 3.0),
        (3.0, 5.0),
        (4.0, 7.5),
        (5.0, 10.0),
        (6.0, 12.5),
        (7.0, 15.5),
        (8.0, 18.5),
        (9.0, 22.0),
        (10.0, 26.0),
        (11.0, 30.0),
        (12.0, 35.0),
    ];
    for (force, speed) in table {
        let force: f64 = force;
        let speed: f64 = speed;
        assert_eq!(UnitConversion::beaufort_to_mps(force.to_bits()), speed.to_bits());
    }
}

#[test]
fn wind_force_is_cut_off_at_the_decimal_point() {
    let speed = |force: f64| f64::from_bits(UnitConversion::beaufort_to_mps(force.to_bits()));
    assert_eq!(speed(0.9), 0.0);
    assert_eq!(speed(-0.9), 0.0);
    assert_eq!(speed(1.9999), 1.5);
    assert_eq!(speed(11.5), 30.0);
    assert_eq!(speed(12.5), 35.0);
}

#[test]
fn wind_force_outside_the_scale() {
    let speed = |force: f64| f64::from_bits(UnitConversion::beaufort_to_mps(force.to_bits()));
    assert_eq!(speed(13.0), 35.0);
    assert_eq!(speed(100.0), 35.0);
    assert_eq!(speed(-1.0), 35.0);
    assert_eq!(speed(-3.5), 35.0);
    assert_eq!(speed(f64::INFINITY), 35.0);
    assert_eq!(speed(f64::NEG_INFINITY), 35.0);
    assert_eq!(speed(f64::NAN), 35.0);
    assert_eq!(speed(-f64::NAN), 35.0);
    assert_eq!(UnitConversion::beaufort_to_mps(f64::NAN.to_bits()), 35.0f64.to_bits());
    assert_eq!(UnitConversion::beaufort_to_mps(0x7FF0_0000_0000_0001), 35.0f64.to_bits());
    assert_eq!(UnitConversion::beaufort_to_mps((-0.5f64).to_bits()), 0);
}

#[test]
fn wind_speed_bands() {
    let force = |speed: f64| f64::from_bits(UnitConversion::mps_to_beaufort(speed.to_bits()));
    let bands = [
        (0.5, 1.0),
        (2.0, 2.0),
        (4.0, 3.0),
        (6.0, 4.0),
        (9.0, 5.0),
        (11.0, 6.0),
        (14.0, 7.0),
        (17.0, 8.0),
        (21.0, 9.0),
        (24.0, 10.0),
        (28.0, 11.0),
        (33.0, 12.0),
    ];
    for (limit, at_limit) in bands {
        let limit: f64 = limit;
        let below = f64::from_bits(limit.to_bits() - 1);
        assert_eq!(force(limit), at_limit);
        assert_eq!(force(below), at_limit - 1.0);
    }
    assert_eq!(force(0.0), 0.0);
    assert_eq!(force(-0.0), 0.0);
    assert_eq!(force(-5.0), 0.0);
    assert_eq!(force(f64::NEG_INFINITY), 0.0);
    assert_eq!(force(1000.0), 12.0);
    assert_eq!(force(f64::INFINITY), 12.0);
    assert_eq!(force(f64::NAN), 12.0);
    assert_eq!(UnitConversion::mps_to_beaufort((-5.0f64).to_bits()), 0);
}

#[test]
fn wind_scale_agrees_with_double_precision_everywhere_probed() {
    for x in probes() {
        let speed = UnitConversion::beaufort_to_mps(x.to_bits());
        assert_eq!(speed, speed_for(x).to_bits(), "force {:?}", x);
        let force = UnitConversion::mps_to_beaufort(x.to_bits());
        assert_eq!(force, force_for(x).to_bits(), "speed {:?}", x);
    }
}

#[test]
fn halves_are_written_as_doubles() {
    for h in 0..=255u8 {
        assert_eq!(from_halves(h), (h as f64 / 2.0).to_bits(), "{}", h);
    }
    assert_eq!(from_halves(0), 0);
    assert_eq!(from_halves(1), 0x3FE0_0000_0000_0000);
    assert_eq!(from_halves(2), 0x3FF0_0000_0000_0000);
    assert_eq!(from_halves(3), 0x3FF8_0000_0000_0000);
    assert_eq!(from_halves(70), 0x4041_8000_0000_0000);
}

#[test]
fn doubled_magnitude_is_floored() {
    for x in probes() {
        if x.is_nan() {
            continue;
        }
        let expected = (x.abs() * 2.0).floor().min(128.0) as u8;
        assert_eq!(doubled_floor(x.to_bits()), expected, "{:?}", x);
    }
    assert_eq!(doubled_floor(0.49f64.to_bits()), 0);
    assert_eq!(doubled_floor(0.5f64.to_bits()), 1);
    assert_eq!(doubled_floor(3.25f64.to_bits()), 6);
    assert_eq!(doubled_floor((-3.75f64).to_bits()), 7);
    assert_eq!(doubled_floor(63.99f64.to_bits()), 127);
    assert_eq!(doubled_floor(64.0f64.to_bits()), 128);
    assert_eq!(doubled_floor(f64::MAX.to_bits()), 128);
    assert_eq!(doubled_floor(f64::INFINITY.to_bits()), 128);
}

#[test]
fn sign_and_not_a_number() {
    for x in probes() {
        assert_eq!(is_nan(x.to_bits()), x.is_nan(), "{:?}", x);
        assert_eq!(is_negative(x.to_bits()), x.is_sign_negative(), "{:?}", x);
    }
    assert!(is_negative((-0.0f64).to_bits()));
    assert!(!is_negative(0.0f64.to_bits()));
    assert!(!is_nan(f64::INFINITY.to_bits()));
    assert!(!is_nan(f64::NEG_INFINITY.to_bits()));
    assert!(is_nan(0x7FF0_0000_0000_0001));
    assert!(is_nan(0xFFF8_0000_0000_0000));
}
