use themql::bme280::{
    burst_in_range, pack_reading, parse_calibration, u32_from_3, Bme280Calib, Bme280Compensation,
};
use themql::embedded::{
    heap_string, telemetry_subjects, BaroDriver, GpsDriver, HeapString, ImuDriver, SensorDriver,
    SensorError, SensorKind, SensorReading, TaggedReading, BARO_RATE_HZ, GPS_RATE_HZ,
    IMU_RATE_HZ, INFERENCE_RATE_HZ, MAIN_LOOP_MS, TELEMETRY_RATE_HZ,
};
use themql::imu::{gyro_to_dps, pack_imu_reading};
use themql::nmea::{find_byte, gps_reading, hex_val, validate_checksum, NmeaAssembler};
use themql::payload::{format_diagnostics, write_str, write_u64_dec, write_u64_padded, PAYLOAD_BUF_SIZE};

#[test]
fn sensor_error_variants_display() {
    assert_eq!(SensorError::BusError(HeapString::new("nak")).to_string(), "bus error: nak");
    assert_eq!(SensorError::Timeout.to_string(), "sensor read timeout");
    assert_eq!(SensorError::SensorNotResponding.to_string(), "sensor not responding");
    assert_eq!(
        SensorError::InvalidReading(HeapString::new("bad crc")).to_string(),
        "invalid reading: bad crc"
    );
    assert_eq!(SensorError::CalibrationRequired.to_string(), "calibration required");
}

#[test]
fn sensor_driver_trait_object_construction() {
    let mut drivers: Vec<Box<dyn SensorDriver>> =
        vec![Box::new(GpsDriver::new(10)), Box::new(BaroDriver::new(50)), Box::new(ImuDriver::new(200))];
    assert_eq!(drivers.len(), 3);
    for d in &mut drivers {
        let _ = d.read().unwrap();
    }
    assert_eq!(drivers[0].kind(), SensorKind::Gps);
    assert_eq!(drivers[1].kind(), SensorKind::Barometer);
    assert_eq!(drivers[2].kind(), SensorKind::Imu);
    assert_eq!(drivers[0].rate_hz(), 10);
    assert_eq!(drivers[1].rate_hz(), 50);
    assert_eq!(drivers[2].rate_hz(), 200);
}

#[test]
fn gps_driver_reads_gps_kind() {
    let mut d = GpsDriver::new(10);
    let r = d.read().unwrap();
    assert_eq!(r.kind, SensorKind::Gps);
}

#[test]
fn sensor_reading_raw_is_fixed_capacity() {
    let r = SensorReading { kind: SensorKind::Imu, raw: [0; 32], len: 0 };
    assert_eq!(r.raw.len(), 32);
    assert_eq!(r.len, 0);
}

#[test]
fn gps_driver_construction() {
    let d = GpsDriver::new(10);
    assert_eq!(d.rate_hz, 10);
    assert_eq!(d.kind(), SensorKind::Gps);
}

#[test]
fn baro_driver_construction() {
    let d = BaroDriver::new(50);
    assert_eq!(d.rate_hz, 50);
    assert_eq!(d.kind(), SensorKind::Barometer);
}

#[test]
fn imu_driver_construction() {
    let d = ImuDriver::new(200);
    assert_eq!(d.rate_hz, 200);
    assert_eq!(d.kind(), SensorKind::Imu);
}

#[test]
fn sensor_error_all_variants_distinct() {
    assert_ne!(SensorError::BusError(HeapString::new("a")), SensorError::Timeout);
    assert_ne!(SensorError::Timeout, SensorError::SensorNotResponding);
    assert_ne!(SensorError::SensorNotResponding, SensorError::InvalidReading(HeapString::new("b")));
    assert_ne!(SensorError::InvalidReading(HeapString::new("b")), SensorError::CalibrationRequired);
}

#[test]
fn sensor_driver_trait_object_dispatch() {
    let mut drivers: [Box<dyn SensorDriver>; 3] =
        [Box::new(GpsDriver::new(10)), Box::new(BaroDriver::new(50)), Box::new(ImuDriver::new(200))];
    for d in &mut drivers {
        let reading = d.read().expect("driver read");
        assert_eq!(reading.kind, d.kind());
        assert_eq!(reading.raw.len(), 32);
    }
    assert_eq!(drivers[0].kind(), SensorKind::Gps);
    assert_eq!(drivers[1].kind(), SensorKind::Barometer);
    assert_eq!(drivers[2].kind(), SensorKind::Imu);
}

#[test]
fn heap_string_truncates_long_strings() {
    let long = "a".repeat(100);
    let hs = HeapString::new(&long);
    assert_eq!(hs.as_str().len(), 64);
}

#[test]
fn heap_string_preserves_short_strings() {
    let hs = HeapString::new("hello");
    assert_eq!(hs.as_str(), "hello");
}

#[test]
fn heap_string_empty_string() {
    let hs = HeapString::new("");
    assert_eq!(hs.as_str(), "");
}

#[test]
fn heap_string_cut_inside_a_character_reads_empty() {
    let s = format!("{}é", "a".repeat(63));
    let hs = heap_string(&s);
    assert_eq!(hs.as_str(), "");
}

#[test]
fn task_config_constants_match_spec() {
    assert_eq!(GPS_RATE_HZ, 10);
    assert_eq!(BARO_RATE_HZ, 50);
    assert_eq!(IMU_RATE_HZ, 200);
    assert_eq!(TELEMETRY_RATE_HZ, 10);
    assert_eq!(INFERENCE_RATE_HZ, 5);
    assert_eq!(MAIN_LOOP_MS, 5);
}

#[test]
fn telemetry_subjects_match_spec() {
    let subjects = telemetry_subjects();
    assert_eq!(subjects.len(), 4);
    assert_eq!(subjects[0], "vehicle.state_estimate");
    assert_eq!(subjects[1], "vehicle.covariance");
    assert_eq!(subjects[2], "vehicle.controller_state");
    assert_eq!(subjects[3], "vehicle.diagnostics");
}

#[test]
fn telemetry_subjects_count_matches_spec() {
    assert_eq!(telemetry_subjects().len(), 4);
}

#[test]
fn tagged_reading_constructs() {
    let tr = TaggedReading {
        kind: SensorKind::Imu,
        reading: SensorReading { kind: SensorKind::Imu, raw: [0; 32], len: 0 },
    };
    assert_eq!(tr.kind, SensorKind::Imu);
    assert_eq!(tr.reading.raw.len(), 32);
}

#[test]
fn format_diagnostics_fits_in_buffer() {
    let mut buf = [0u8; 64];
    let len = format_diagnostics(&mut buf, 12345, 2);
    assert!(len > 0, "payload must be non-empty");
    assert!(len <= 64, "payload must fit in 64-byte buffer");
    let s = core::str::from_utf8(&buf[..len]).unwrap_or("");
    assert!(s.contains("\"cycles\""), "must contain cycles: {s}");
    assert_eq!(s, "{\"cycles\":12345,\"errors\":2}");
}

#[test]
fn format_diagnostics_skips_small_buffers() {
    let mut buf = [7u8; 31];
    assert_eq!(format_diagnostics(&mut buf, 1, 1), 0);
    assert_eq!(buf, [7u8; 31]);
}

#[test]
fn format_diagnostics_large_counts() {
    let mut buf = [0u8; PAYLOAD_BUF_SIZE];
    let len = format_diagnostics(&mut buf, u32::MAX, 0);
    assert_eq!(&buf[..len], b"{\"cycles\":4294967295,\"errors\":0}");
}

#[test]
fn bounded_writers() {
    let mut buf = [0u8; 8];
    assert_eq!(write_str(&mut buf, 6, b"abc"), 6, "does not fit: nothing written");
    assert_eq!(write_str(&mut buf, 5, b"abc"), 8);
    assert_eq!(&buf[5..], b"abc");
    assert_eq!(write_u64_dec(&mut buf, 0, 1234567890), 8, "digits cut at the end");
    assert_eq!(&buf, b"12345678");
    let mut pad = [0u8; 10];
    assert_eq!(write_u64_padded(&mut pad, 0, 42, 6), 6);
    assert_eq!(&pad[..6], b"000042");
    assert_eq!(write_u64_padded(&mut pad, 0, 0, 3), 3);
    assert_eq!(&pad[..3], b"000");
}

#[test]
fn validate_checksum_valid_gprmc() {
    let s = b"$GPRMC,083559.00,A,4717.11337,N,00833.91590,E,0.004,77.52,091202,,,A*59\r\n";
    assert!(validate_checksum(s));
}

#[test]
fn validate_checksum_rejects_bad_checksum() {
    let s = b"$GPRMC,083559.00,A,4717.11337,N,00833.91590,E,0.004,77.52,091202,,,A*00\r\n";
    assert!(!validate_checksum(s));
}

#[test]
fn validate_checksum_rejects_too_short() {
    assert!(!validate_checksum(b"$GPG"));
    assert!(!validate_checksum(b""));
}

#[test]
fn validate_checksum_rejects_no_star() {
    let s = b"$GPRMC,083559.00,A\r\n";
    assert!(!validate_checksum(s));
}

#[test]
fn validate_checksum_requires_crlf_ending() {
    assert!(!validate_checksum(b"$A*41ab"));
    assert!(validate_checksum(b"$A*41\r\n"));
    assert!(!validate_checksum(b"$A*41\n\n"));
    let s = b"$GPRMC,083559.00,A,4717.11337,N,00833.91590,E,0.004,77.52,091202,,,A*59\r";
    assert!(!validate_checksum(s));
}

#[test]
fn hex_val_maps_all_digits() {
    assert_eq!(hex_val(b'0'), Some(0));
    assert_eq!(hex_val(b'9'), Some(9));
    assert_eq!(hex_val(b'A'), Some(10));
    assert_eq!(hex_val(b'F'), Some(15));
    assert_eq!(hex_val(b'a'), Some(10));
    assert_eq!(hex_val(b'G'), None);
}

#[test]
fn find_byte_first_occurrence() {
    assert_eq!(find_byte(b"abc*def", b'*'), Some(3));
    assert_eq!(find_byte(b"abcdef", b'*'), None);
}

#[test]
fn assembler_emits_checked_sentences() {
    let mut assembler = NmeaAssembler::new();
    let good = b"noise$GPRMC,083559.00,A,4717.11337,N,00833.91590,E,0.004,77.52,091202,,,A*59\r\n";
    let mut out = None;
    for &b in good.iter() {
        if let Some(r) = assembler.push_byte(b) {
            out = Some(r);
        }
    }
    let sentence = out.expect("a sentence").expect("valid checksum");
    assert_eq!(&sentence[..], &good[5..]);
    let reading = gps_reading(&sentence);
    assert_eq!(reading.kind, SensorKind::Gps);
    assert_eq!(reading.len, 32);
    assert_eq!(&reading.raw[..], &sentence[..32]);

    let bad = b"$GPRMC,1*00\r\n";
    let mut last = None;
    for &b in bad.iter() {
        if let Some(r) = assembler.push_byte(b) {
            last = Some(r);
        }
    }
    match last {
        Some(Err(SensorError::InvalidReading(h))) => assert_eq!(h.as_str(), "checksum"),
        other => panic!("expected a checksum error, got {other:?}"),
    }
}

#[test]
fn parse_calibration_matches_known_layout() {
    let mut buf1 = [0u8; 26];
    buf1[0] = 0x6C;
    buf1[1] = 0x75;
    let buf2 = [0u8; 9];
    let c = parse_calibration(&buf1, &buf2);
    assert_eq!(c.t1, 0x756C);
    assert_eq!(c.h6, 0);
}

#[test]
fn parse_calibration_signed_and_split_fields() {
    let mut buf1 = [0u8; 26];
    buf1[2] = 0xFE;
    buf1[3] = 0xFF;
    buf1[25] = 0x4B;
    let buf2 = [0x10, 0x01, 0x00, 0x13, 0xA7, 0x03, 0xFF, 0, 0];
    let c = parse_calibration(&buf1, &buf2);
    assert_eq!(c.t2, -2);
    assert_eq!(c.h1, 0x4B);
    assert_eq!(c.h2, 0x0110);
    assert_eq!(c.h4, 0x137);
    assert_eq!(c.h5, 0x03A);
    assert_eq!(c.h6, -1);
}

#[test]
fn u32_from_3_is_big_endian() {
    assert_eq!(u32_from_3(&[0x12, 0x34, 0x56, 0x78], 1), 0x345678);
}

#[test]
fn pack_reading_round_trips_4_byte_fields() {
    let r = pack_reading(2512, 101325, 4500);
    let temp = i32::from_le_bytes([r.raw[0], r.raw[1], r.raw[2], r.raw[3]]);
    let press = i32::from_le_bytes([r.raw[4], r.raw[5], r.raw[6], r.raw[7]]);
    let hum = i32::from_le_bytes([r.raw[8], r.raw[9], r.raw[10], r.raw[11]]);
    assert_eq!(temp, 2512);
    assert_eq!(press, 101325);
    assert_eq!(hum, 4500);
    assert_eq!(r.len, 12);
}

#[test]
fn pack_reading_negative_values() {
    let r = pack_reading(-1234, 0, -1);
    assert_eq!(i32::from_le_bytes([r.raw[0], r.raw[1], r.raw[2], r.raw[3]]), -1234);
    assert_eq!(i32::from_le_bytes([r.raw[8], r.raw[9], r.raw[10], r.raw[11]]), -1);
}

#[test]
fn pack_imu_reading_preserves_all_axes() {
    let accel = [1, 2, 3, 4, 5, 6];
    let gyro = [7, 8, 9, 10, 11, 12];
    let r = pack_imu_reading(accel, gyro);
    assert_eq!(&r.raw[0..6], &[1, 2, 3, 4, 5, 6]);
    assert_eq!(&r.raw[6..12], &[7, 8, 9, 10, 11, 12]);
    assert_eq!(r.len, 12);
    assert_eq!(r.kind, SensorKind::Imu);
}

#[test]
fn gyro_to_dps_zero_input_is_zero() {
    assert_eq!(gyro_to_dps(0), 0);
}

#[test]
fn gyro_to_dps_scales_and_saturates() {
    assert_eq!(gyro_to_dps(10), 7000);
    assert_eq!(gyro_to_dps(-3), -2100);
    assert_eq!(gyro_to_dps(100), i16::MAX);
    assert_eq!(gyro_to_dps(-100), i16::MIN);
    let raw = 20_i16;
    #[allow(clippy::cast_possible_truncation)]
    let expected = (f32::from(raw) * 0.070_f32 * 10000.0) as i16;
    assert_eq!(gyro_to_dps(raw), expected);
}

fn sample_calibration() -> Bme280Calib {
    Bme280Calib {
        t1: 27504,
        t2: 26435,
        t3: -1000,
        p1: 36477,
        p2: -10685,
        p3: 3024,
        p4: 2855,
        p5: 140,
        p6: -7,
        p7: 15500,
        p8: -14600,
        p9: 6000,
        h1: 75,
        h2: 370,
        h3: 0x4B,
        h4: 313,
        h5: 50,
        h6: 30,
    }
}

#[test]
fn compensation_follows_the_integer_formulas() {
    let mut comp = Bme280Compensation { calib: sample_calibration(), t_fine: 0 };
    assert_eq!(comp.compensate_temp(519888), 2508);
    assert_eq!(comp.t_fine, 128422);
    assert_eq!(comp.compensate_pressure(415148), 5035723);
    assert_eq!(comp.compensate_humidity(30000), 10_000);
}

#[test]
fn compensation_of_a_data_burst() {
    let mut comp = Bme280Compensation { calib: sample_calibration(), t_fine: 0 };
    let burst = [0x65, 0x5A, 0xC0, 0x7E, 0xED, 0x00, 0x75, 0x30];
    let r = comp.reading_from_data(&burst);
    assert_eq!(r.len, 12);
    assert_eq!(i32::from_le_bytes([r.raw[0], r.raw[1], r.raw[2], r.raw[3]]), 2508);
    assert_eq!(i32::from_le_bytes([r.raw[4], r.raw[5], r.raw[6], r.raw[7]]), 5035723);
    assert_eq!(i32::from_le_bytes([r.raw[8], r.raw[9], r.raw[10], r.raw[11]]), 10_000);
}

#[test]
fn humidity_is_zero_for_negative_terms() {
    let mut calib = sample_calibration();
    calib.h6 = -30;
    let comp = Bme280Compensation { calib, t_fine: 128422 };
    assert_eq!(comp.compensate_humidity(30000), 0);
}

#[test]
fn burst_range_check() {
    let calib = sample_calibration();
    assert!(burst_in_range(&calib, &[0x65, 0x5A, 0xC0, 0x7E, 0xED, 0x00, 0x75, 0x30]));
    let mut extreme = Bme280Calib::default();
    extreme.t2 = i16::MAX;
    assert!(!burst_in_range(&extreme, &[0, 0, 0, 0xFF, 0xFF, 0xF0, 0, 0]));
}

#[test]
fn humidity_is_percent_times_hundred_at_most_full_scale() {
    let mut calib = Bme280Calib::default();
    calib.h3 = 1;
    calib.h6 = 1;
    let comp = Bme280Compensation { calib, t_fine: 76800 };
    assert_eq!(comp.compensate_humidity(20000), 5900);
    assert_eq!(comp.compensate_humidity(65535), 10_000);
}

#[test]
fn heap_strings_equal_exactly_when_their_kept_bytes_agree() {
    let long_a = format!("{}{}", "x".repeat(64), "tail-a");
    let long_b = format!("{}{}", "x".repeat(64), "tail-b");
    assert_eq!(HeapString::new(&long_a), HeapString::new(&long_b));
    assert_eq!(HeapString::new("gps"), HeapString::new("gps"));
    assert_ne!(HeapString::new("gps"), HeapString::new("gp"));
    assert_ne!(HeapString::new("gps"), HeapString::new("gpt"));
}
