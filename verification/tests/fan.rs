use system76_power::fan::{
    classify_hwmon, discover, max_temperature, nvidia_temperatures, FanCurve, FanDaemon,
    FanDaemonError, FanPoint, HwmonRole,
};

#[test]
fn duty_interpolation() {
    let fan_point = FanPoint::new(20_00, 30_00);
    let next_point = FanPoint::new(30_00, 35_00);

    assert_eq!(fan_point.get_duty_between_points(next_point, 1500), None);
    assert_eq!(fan_point.get_duty_between_points(next_point, 2000), Some(3000));
    assert_eq!(fan_point.get_duty_between_points(next_point, 3000), Some(3500));
    assert_eq!(fan_point.get_duty_between_points(next_point, 3250), None);
    assert_eq!(fan_point.get_duty_between_points(next_point, 3500), None);
}

#[test]
fn standard_points() {
    let standard = FanCurve::standard();

    assert_eq!(standard.get_duty(0), Some(0));
    assert_eq!(standard.get_duty(4499), Some(0));
    assert_eq!(standard.get_duty(4500), Some(3000));
    assert_eq!(standard.get_duty(5500), Some(3500));
    assert_eq!(standard.get_duty(6500), Some(4000));
    assert_eq!(standard.get_duty(7500), Some(5000));
    assert_eq!(standard.get_duty(7800), Some(6000));
    assert_eq!(standard.get_duty(8100), Some(7000));
    assert_eq!(standard.get_duty(8400), Some(8000));
    assert_eq!(standard.get_duty(8600), Some(9000));
    assert_eq!(standard.get_duty(8800), Some(10000));
    assert_eq!(standard.get_duty(10000), Some(10000));
}

#[test]
fn hedt_points() {
    let hedt = FanCurve::hedt();

    assert_eq!(hedt.get_duty(0), Some(3000));
    assert_eq!(hedt.get_duty(5000), Some(3500));
    assert_eq!(hedt.get_duty(6000), Some(4500));
    assert_eq!(hedt.get_duty(7000), Some(5500));
    assert_eq!(hedt.get_duty(7400), Some(6000));
    assert_eq!(hedt.get_duty(7600), Some(7000));
    assert_eq!(hedt.get_duty(7800), Some(8000));
    assert_eq!(hedt.get_duty(8100), Some(10000));
    assert_eq!(hedt.get_duty(10000), Some(10000));
}

#[test]
fn threadripper2_points() {
    let threadripper2 = FanCurve::threadripper2();

    assert_eq!(threadripper2.get_duty(0), Some(3000));
    assert_eq!(threadripper2.get_duty(4000), Some(4000));
    assert_eq!(threadripper2.get_duty(4750), Some(5000));
    assert_eq!(threadripper2.get_duty(5500), Some(6500));
    assert_eq!(threadripper2.get_duty(6250), Some(8500));
    assert_eq!(threadripper2.get_duty(6625), Some(10000));
    assert_eq!(threadripper2.get_duty(10000), Some(10000));
}

#[test]
fn xeon_points() {
    let xeon = FanCurve::xeon();

    assert_eq!(xeon.get_duty(0), Some(4000));
    assert_eq!(xeon.get_duty(5000), Some(4000));
    assert_eq!(xeon.get_duty(5500), Some(4500));
    assert_eq!(xeon.get_duty(6000), Some(5000));
    assert_eq!(xeon.get_duty(6500), Some(5500));
    assert_eq!(xeon.get_duty(7000), Some(6000));
    assert_eq!(xeon.get_duty(7200), Some(6500));
    assert_eq!(xeon.get_duty(7400), Some(8000));
    assert_eq!(xeon.get_duty(7600), Some(8500));
    assert_eq!(xeon.get_duty(7700), Some(9000));
    assert_eq!(xeon.get_duty(7800), Some(10000));
    assert_eq!(xeon.get_duty(10000), Some(10000));
}

#[test]
fn interpolation_between_points() {
    let a = FanPoint::new(20_00, 30_00);
    let b = FanPoint::new(30_00, 35_00);
    // 2500 is halfway: 3000 + 500 / 2
    assert_eq!(a.get_duty_between_points(b, 2500), Some(3250));
    assert_eq!(a.interpolate_duties(b, 2100), 3050);
    // the standard curve halfway between 45 and 55 degrees
    assert_eq!(FanCurve::standard().get_duty(5000), Some(3250));
}

#[test]
fn curve_passes_through_each_point() {
    let c = FanCurve::standard();
    for p in c.points.iter() {
        assert_eq!(c.get_duty(p.temp), Some(p.duty));
    }
}

#[test]
fn curve_is_monotone_in_temperature() {
    let c = FanCurve::hedt();
    let mut last = 0;
    let mut t: i16 = -100;
    while t < 11000 {
        let d = c.get_duty(t).unwrap();
        assert!(d >= last);
        last = d;
        t += 37;
    }
}

#[test]
fn empty_and_single_point_curves() {
    let empty = FanCurve::default();
    assert_eq!(empty.get_duty(5000), None);
    let single = FanCurve::default().append(5000, 4000);
    assert_eq!(single.get_duty(4000), Some(4000));
    assert_eq!(single.get_duty(6000), Some(4000));
    assert_eq!(single.get_duty(4999), Some(4000));
    assert_eq!(single.get_duty(5000), Some(4000));
    assert_eq!(single.get_duty(5001), Some(4000));
}

#[test]
fn appending_a_higher_point() {
    let c = FanCurve::default().append(3000, 2000).append(5000, 4000);
    let c2 = c.clone().append(7000, 9000);
    assert_eq!(c2.get_duty(7000), Some(9000));
    assert_eq!(c2.get_duty(8000), Some(9000));
    for t in [1000, 3000, 4000, 4999, 5000] {
        assert_eq!(c2.get_duty(t), c.get_duty(t));
    }
    assert_eq!(c2.get_duty(6000), Some(6500));
}

#[test]
fn fan_daemon_curve_by_model() {
    assert_eq!(FanDaemon::new(false, "thelio-major-r1\n").curve, FanCurve::threadripper2());
    assert_eq!(FanDaemon::new(false, "thelio-mega-r1.1").curve, FanCurve::hedt());
    assert_eq!(FanDaemon::new(false, " thelio-massive-b1 ").curve, FanCurve::xeon());
    assert_eq!(FanDaemon::new(false, "thelio-r2").curve, FanCurve::standard());
}

#[test]
fn fan_daemon_duty_scales_to_pwm() {
    let d = FanDaemon::new(false, "thelio");
    // 88 degrees is full speed: 10000 * 255 / 10000
    assert_eq!(d.get_duty(88_000), Some(255));
    // 45 degrees is 30%: 3000 * 255 / 10000 = 76
    assert_eq!(d.get_duty(45_000), Some(76));
    assert_eq!(d.get_duty(20_000), Some(0));
}

#[test]
fn fan_daemon_set_duty_writes() {
    let d = FanDaemon::new(false, "thelio");
    let w = d.set_duty(Some(128));
    let pairs: Vec<(String, String)> = w.into_iter().map(|w| (w.path, w.value)).collect();
    assert_eq!(
        pairs,
        vec![
            ("pwm1_enable".to_string(), "1".to_string()),
            ("pwm1".to_string(), "128".to_string()),
            ("pwm2".to_string(), "128".to_string()),
            ("pwm3".to_string(), "128".to_string()),
            ("pwm4".to_string(), "128".to_string()),
        ]
    );
    let w = d.set_duty(None);
    assert_eq!(w.len(), 1);
    assert_eq!(w[0].path, "pwm1_enable");
    assert_eq!(w[0].value, "2");
}

#[test]
fn fan_daemon_temperatures() {
    let mut d = FanDaemon::new(true, "thelio");
    assert!(d.wants_nvidia());
    assert_eq!(d.get_temp(&vec![40_000, 52_000, 47_000], Some(Some(vec![60, 55]))), Some(60_000));
    assert_eq!(d.get_temp(&vec![70_000], Some(Some(vec![60]))), Some(70_000));
    // without any other reading, the NVIDIA temperature is given in thousandths too
    assert_eq!(d.get_temp(&vec![], Some(Some(vec![70]))), Some(70_000));
    assert_eq!(d.get_temp(&vec![30_000], Some(Some(vec![0]))), Some(30_000));
    // a failed read stops further reads
    assert_eq!(d.get_temp(&vec![30_000], Some(None)), Some(30_000));
    assert!(!d.wants_nvidia());
    assert_eq!(d.get_temp(&vec![30_000], Some(Some(vec![90]))), Some(30_000));
}

#[test]
fn fan_daemon_discover() {
    let names = vec![
        Some("acpitz".to_string()),
        Some("system76_thelio_io".to_string()),
        None,
        Some("k10temp".to_string()),
        Some("amdgpu".to_string()),
        Some("coretemp".to_string()),
    ];
    let d = discover(&names).ok().unwrap();
    assert_eq!(d.platforms, vec![1]);
    assert_eq!(d.cpus, vec![3, 5]);
    assert_eq!(d.amdgpus, vec![4]);
    assert!(matches!(discover(&vec![Some("k10temp".to_string())]), Err(FanDaemonError::PlatformHwmonNotFound)));
    assert!(matches!(discover(&vec![Some("system76_io".to_string())]), Err(FanDaemonError::CpuHwmonNotFound)));
    assert_eq!(FanDaemonError::CpuHwmonNotFound.message(), "cpu hwmon not found");
    assert_eq!(
        FanDaemonError::HwmonDevices("denied".to_string()).message(),
        "failed to collect hwmon devices: denied"
    );
    assert_eq!(classify_hwmon("system76"), HwmonRole::Other);
}

#[test]
fn nvidia_smi_output() {
    assert_eq!(nvidia_temperatures("45\n61\nN/A\n\n52\n"), vec![45, 61, 52]);
    assert_eq!(nvidia_temperatures(""), Vec::<u32>::new());
    assert_eq!(max_temperature(&vec![3, 9, 4]), Some(9));
    assert_eq!(max_temperature(&vec![]), None);
}

fn single_precision_interpolation(prev: FanPoint, next: FanPoint, temp: i16) -> u16 {
    let dtemp = next.temp - prev.temp;
    let dduty = next.duty - prev.duty;
    let slope = f32::from(dduty) / f32::from(dtemp);
    let duty_offset = (slope * f32::from(temp - prev.temp)).round();
    prev.duty + (duty_offset as u16)
}

#[test]
fn interpolation_rounds_in_single_precision() {
    // the single-precision product is just under 15.5 here
    assert_eq!(FanPoint::new(0, 0).get_duty_between_points(FanPoint::new(14, 31), 7), Some(15));
    assert_eq!(FanPoint::new(0, 0).get_duty_between_points(FanPoint::new(3, 1), 2), Some(1));
    let mut checked = 0u64;
    let mut seed: u64 = 0x2545F4914F6CDD1D;
    for dtemp in 2i16..=64 {
        for dduty in [0u16, 1, 2, 3, 7, 31, 99, 100, 255, 1000, 5000, 9999, 10000, 65535] {
            for off in 1..dtemp {
                let prev = FanPoint::new(-100, 0);
                let next = FanPoint::new(-100 + dtemp, dduty);
                assert_eq!(prev.interpolate_duties(next, -100 + off), single_precision_interpolation(prev, next, -100 + off));
                checked += 1;
            }
        }
    }
    for _ in 0..200_000 {
        seed ^= seed << 13;
        seed ^= seed >> 7;
        seed ^= seed << 17;
        let t0 = (seed % 20000) as i16 - 10000;
        let dtemp = 2 + ((seed >> 16) % 20000) as i16;
        let off = 1 + ((seed >> 32) % (dtemp as u64 - 1)) as i16;
        let d0 = ((seed >> 40) % 30000) as u16;
        let dduty = ((seed >> 20) % 35000) as u16;
        let prev = FanPoint::new(t0, d0);
        let next = FanPoint::new(t0 + dtemp, d0 + dduty);
        assert_eq!(prev.interpolate_duties(next, t0 + off), single_precision_interpolation(prev, next, t0 + off));
        checked += 1;
    }
    assert!(checked > 200_000);
}
