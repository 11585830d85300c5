//! Tests of the telemetry pipeline: trailer placement, packet layout,
//! gating, the sensor decoder and the timing accumulators.

use subcore::config::telemetry::TelemetryConfig;
use subcore::error::SensorError;
use subcore::hardware_model::dht11::{decode_transmission, get_pulse_as_bit, Dht11};
use subcore::config::hardware::temperature::{TemperatureConfig, TemperatureGpioConfig};
use subcore::telemetry::system::SystemTelemetry;
use subcore::telemetry::{Telemetry, TELEMETRY_PACKET_SIZE};
use subcore::telemetry::{BALLAST_PACKET_ID, ENVIRONMENT_PACKET_ID, PROPULSION_PACKET_ID,
                         SYSTEM_PACKET_ID};

#[test]
fn trailer_lands_ahead_of_the_final_byte() {
    // Payload of length 3: tick count in bytes [27..31), id in byte 31.
    let mut buffer = vec![0xAAu8; TELEMETRY_PACKET_SIZE];
    assert!(Telemetry::apply_tick_count(&mut buffer, 3, 0x0102_0304).is_ok());
    assert!(Telemetry::apply_packet_id(&mut buffer, 3, 0x7E).is_ok());
    assert_eq!(&buffer[27..31], &[0x04, 0x03, 0x02, 0x01]);
    assert_eq!(buffer[31], 0x7E);
    // Everything ahead of the trailer is untouched.
    assert!(buffer[..27].iter().all(|&b| b == 0xAA));
}

#[test]
fn trailer_fits_exactly_at_the_boundary_payload() {
    let mut buffer = vec![0u8; TELEMETRY_PACKET_SIZE];
    assert!(Telemetry::apply_tick_count(&mut buffer, 27, 7).is_ok());
    assert!(Telemetry::apply_tick_count(&mut buffer, 28, 7).is_err());
}

#[test]
fn oversized_payload_skips_the_trailer_and_keeps_its_bytes() {
    let mut buffer = vec![0x55u8; TELEMETRY_PACKET_SIZE];
    assert!(Telemetry::apply_tick_count(&mut buffer, 30, 0xDEAD_BEEF).is_err());
    assert!(buffer.iter().all(|&b| b == 0x55), "payload bytes must be left intact");
    assert!(Telemetry::apply_packet_id(&mut buffer, 32, 0x7E).is_err());
    assert!(buffer.iter().all(|&b| b == 0x55));
}

fn telemetry() -> Telemetry {
    Telemetry::new(&TelemetryConfig { socket: String::from("telemetry_pipe") })
}

#[test]
fn gated_pipeline_builds_nothing() {
    let t = telemetry();
    assert!(!t.emitter_ready);
    assert_eq!(t.emit_telemetry().len(), 0);
}

#[test]
fn ready_pipeline_emits_one_packet_per_enabled_telemeter() {
    let mut t = telemetry();
    t.set_emitter_ready(true);
    t.set_tick_count(9);
    let packets = t.emit_telemetry();
    assert_eq!(packets.len(), 4);
    for p in &packets {
        assert_eq!(p.len(), TELEMETRY_PACKET_SIZE);
        assert_eq!(&p[27..31], &[9, 0, 0, 0]);
    }
    assert_eq!(packets[0][31], ENVIRONMENT_PACKET_ID);
    assert_eq!(packets[1][31], BALLAST_PACKET_ID);
    assert_eq!(packets[2][31], PROPULSION_PACKET_ID);
    assert_eq!(packets[3][31], SYSTEM_PACKET_ID);
}

#[test]
fn disabled_telemeters_are_left_out() {
    let mut t = telemetry();
    t.set_emitter_ready(true);
    t.environment_enabled = false;
    t.system_enabled = false;
    let packets = t.emit_telemetry();
    assert_eq!(packets.len(), 2);
    assert_eq!(packets[0][31], BALLAST_PACKET_ID);
    assert_eq!(packets[1][31], PROPULSION_PACKET_ID);
}

#[test]
fn system_packet_carries_the_tick_timing() {
    let mut t = telemetry();
    t.set_emitter_ready(true);
    t.collect_system_telemetry(1500, 8500);
    let packets = t.emit_telemetry();
    let sys = &packets[3];
    assert_eq!(&sys[0..4], &1500u32.to_le_bytes());
    assert_eq!(&sys[4..8], &8500u32.to_le_bytes());
    assert_eq!(&sys[8..12], &10000u32.to_le_bytes());
}

#[test]
fn system_telemetry_total_saturates() {
    let mut s = SystemTelemetry::new();
    s.ingest_tick(u32::MAX, 5);
    assert_eq!(s.total_tick_micros, u32::MAX);
    s.ingest_tick(3, 4);
    assert_eq!(s.tick_delta_micros, 3);
    assert_eq!(s.tick_idle_micros, 4);
    assert_eq!(s.total_tick_micros, 7);
}

#[test]
fn metrics_ingest_tick_saturates_too() {
    let mut m = subcore::metrics::system::System::new(0, 0, 0);
    m.ingest_tick(10, 20);
    assert_eq!(m.tick_delta, 20);
    assert_eq!(m.tick_idle_time, 10);
    assert_eq!(m.total_tick_time, 30);
    m.ingest_tick(u32::MAX, 1);
    assert_eq!(m.total_tick_time, u32::MAX);
}

fn bits_of_bytes(bytes: &[u8]) -> Vec<bool> {
    let mut bits = Vec::new();
    for &b in bytes {
        for i in (0..8).rev() {
            bits.push(b & (1 << i) != 0);
        }
    }
    bits
}

#[test]
fn sensor_transmission_decodes_with_good_checksum() {
    let bits = bits_of_bytes(&[23, 5, 61, 2, 91]);
    assert_eq!(decode_transmission(&bits), Ok(((23, 5), (61, 2))));
}

#[test]
fn sensor_checksum_wraps_modulo_256() {
    let bits = bits_of_bytes(&[200, 100, 1, 0, 45]);
    assert_eq!(decode_transmission(&bits), Ok(((200, 100), (1, 0))));
}

#[test]
fn sensor_transmission_rejects_checksum_mismatch() {
    let bits = bits_of_bytes(&[23, 5, 61, 2, 92]);
    assert_eq!(decode_transmission(&bits), Err(SensorError::Parity));
}

#[test]
fn sensor_transmission_rejects_wrong_length() {
    let bits = bits_of_bytes(&[23, 5, 61, 2]);
    assert_eq!(decode_transmission(&bits), Err(SensorError::DataTransmission));
}

#[test]
fn pulse_longer_high_than_low_is_a_one() {
    assert!(get_pulse_as_bit(30, 70));
    assert!(!get_pulse_as_bit(50, 30));
    assert!(!get_pulse_as_bit(50, 50));
}

fn dht11() -> Dht11 {
    Dht11::new(&TemperatureConfig {
        gpio: TemperatureGpioConfig { data_pin: 8 },
        sample_interval: 3,
    })
    .unwrap()
}

#[test]
fn sensor_failure_keeps_last_sample_and_marks_it_stale() {
    let mut d = dht11();
    d.ingest_sample(Ok(((24, 0), (55, 0))));
    assert!(d.is_last_read_valid());
    assert_eq!(d.get_temperature(), 24);
    assert_eq!(d.get_humidity(), 55);

    d.ingest_sample(Err(SensorError::Handshake));
    assert!(!d.is_last_read_valid());
    assert_eq!(d.get_temperature(), 24, "last-known-good sample must be retained");
    assert_eq!(d.get_humidity(), 55);
    assert_eq!(d.successive_failures, 1);

    d.ingest_sample(Err(SensorError::DataTransmission));
    assert_eq!(d.successive_failures, 2);

    d.ingest_sample(Ok(((25, 0), (54, 0))));
    assert!(d.is_last_read_valid());
    assert_eq!(d.successive_failures, 0);
    assert_eq!(d.get_temperature(), 25);
}

#[test]
fn sensor_samples_on_its_configured_cadence() {
    let d = dht11();
    assert!(d.should_sample(0));
    assert!(!d.should_sample(1));
    assert!(!d.should_sample(29));
    assert!(d.should_sample(30));
    assert!(d.should_sample(60));
}
