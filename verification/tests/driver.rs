//! Driver tests against an in-memory fake transport: scripted responses,
//! recorded transactions.

use hts221::{
    AvConf, AvgH, AvgT, Calibration, CtrlReg1, CtrlReg2, CtrlReg3, DataRate, HumidityOut,
    StatusReg, TemperatureOut, WhoAmI, I2C,
};

/// A scripted in-memory bus peer.  Responses for write-then-read transactions
/// are queued up front; every transaction is recorded so a test can check
/// exactly what crossed the bus.
pub struct FakeBus {
    pub responses: Vec<Vec<u8>>,
    pub writes: Vec<(u8, Vec<u8>)>,
    pub reads: Vec<(u8, Vec<u8>, usize)>,
    pub fail: bool,
}

impl FakeBus {
    pub fn new() -> FakeBus {
        FakeBus { responses: Vec::new(), writes: Vec::new(), reads: Vec::new(), fail: false }
    }

    pub fn with_response(bytes: &[u8]) -> FakeBus {
        let mut bus = FakeBus::new();
        bus.responses.push(bytes.to_vec());
        bus
    }

    pub fn failing() -> FakeBus {
        let mut bus = FakeBus::new();
        bus.fail = true;
        bus
    }
}

impl I2C for FakeBus {
    type Error = u8;

    fn history(&self) -> vstd::prelude::Seq<hts221::Transaction> {
        unreachable!()
    }

    fn write(&mut self, dev_addr: u8, bytes: &[u8]) -> Result<(), u8> {
        if self.fail {
            return Err(55);
        }
        self.writes.push((dev_addr, bytes.to_vec()));
        Ok(())
    }

    fn write_read(&mut self, dev_addr: u8, bytes: &[u8], read_len: usize) -> Result<Vec<u8>, u8> {
        if self.fail {
            return Err(55);
        }
        self.reads.push((dev_addr, bytes.to_vec(), read_len));
        let response = self.responses.remove(0);
        assert_eq!(response.len(), read_len, "scripted response has the wrong length");
        Ok(response)
    }
}

#[test]
fn fake_bus_records_transactions() {
    let mut bus = FakeBus::with_response(&[0xBC]);
    let got = bus.write_read(0x5F, &[0x0F], 1).unwrap();
    assert_eq!(got, vec![0xBC]);
    bus.write(0x5F, &[0x20, 0x85]).unwrap();
    assert_eq!(bus.reads, vec![(0x5F, vec![0x0F], 1)]);
    assert_eq!(bus.writes, vec![(0x5F, vec![0x20, 0x85])]);
}

#[test]
fn who_am_i_reads_identification_byte() {
    let mut bus = FakeBus::with_response(&[0xBC]);
    let reg = WhoAmI::new(&mut bus).unwrap();
    assert_eq!(reg.device_id(), 0xBC);
    assert_eq!(bus.reads, vec![(0x5F, vec![0x0F], 1)]);
    assert!(bus.writes.is_empty());
}

#[test]
fn humidity_averaging_round_trip_all_levels() {
    let levels = [
        (AvgH::Avg4, 4u16),
        (AvgH::Avg8, 8),
        (AvgH::Avg16, 16),
        (AvgH::Avg32, 32),
        (AvgH::Avg64, 64),
        (AvgH::Avg128, 128),
        (AvgH::Avg256, 256),
        (AvgH::Avg512, 512),
    ];
    for (level, samples) in levels {
        let mut bus = FakeBus::with_response(&[0x00]);
        let mut reg = AvConf::new(&mut bus).unwrap();
        reg.set_humidity_samples_averaged(level);
        assert_eq!(reg.humidity_samples_averaged(), samples);
    }
}

#[test]
fn temperature_averaging_round_trip_all_levels() {
    let levels = [
        (AvgT::Avg2, 2u16),
        (AvgT::Avg4, 4),
        (AvgT::Avg8, 8),
        (AvgT::Avg16, 16),
        (AvgT::Avg32, 32),
        (AvgT::Avg64, 64),
        (AvgT::Avg128, 128),
        (AvgT::Avg256, 256),
    ];
    for (level, samples) in levels {
        let mut bus = FakeBus::with_response(&[0xFF]);
        let mut reg = AvConf::new(&mut bus).unwrap();
        reg.set_temperature_samples_averaged(level);
        assert_eq!(reg.temperature_samples_averaged(), samples);
    }
}

#[test]
fn averaging_fields_decode_from_raw_byte() {
    // 0b00101001: humidity code 1 -> 8 samples, temperature code 5 -> 64.
    let mut bus = FakeBus::with_response(&[0b00101001]);
    let reg = AvConf::new(&mut bus).unwrap();
    assert_eq!(reg.humidity_samples_averaged(), 8);
    assert_eq!(reg.temperature_samples_averaged(), 64);
}

#[test]
fn averaging_setters_leave_other_field_alone() {
    let mut bus = FakeBus::with_response(&[0xFF]);
    let mut reg = AvConf::new(&mut bus).unwrap();
    reg.set_humidity_samples_averaged(AvgH::Avg4);
    assert_eq!(reg.humidity_samples_averaged(), 4);
    assert_eq!(reg.temperature_samples_averaged(), 256);
    reg.modify(&mut bus, |w| w).unwrap();
    assert_eq!(bus.writes, vec![(0x5F, vec![0x10, 0b11111000])]);

    let mut bus = FakeBus::with_response(&[0xFF]);
    let mut reg = AvConf::new(&mut bus).unwrap();
    reg.set_temperature_samples_averaged(AvgT::Avg2);
    assert_eq!(reg.temperature_samples_averaged(), 2);
    assert_eq!(reg.humidity_samples_averaged(), 512);
    reg.modify(&mut bus, |w| w).unwrap();
    assert_eq!(bus.writes, vec![(0x5F, vec![0x10, 0b11000111])]);
}

#[test]
fn averaging_modify_commits_mutated_byte() {
    let mut bus = FakeBus::with_response(&[0x00]);
    let mut reg = AvConf::new(&mut bus).unwrap();
    reg.modify(&mut bus, |mut w| {
        w.set_humidity_samples_averaged(AvgH::Avg512);
        w
    })
    .unwrap();
    assert_eq!(bus.writes, vec![(0x5F, vec![0x10, 0x07])]);
    assert_eq!(reg.humidity_samples_averaged(), 512);
}

#[test]
fn data_rate_round_trip_all_rates() {
    let rates = [
        DataRate::OneShot,
        DataRate::Continuous1Hz,
        DataRate::Continuous7Hz,
        DataRate::Continuous12_5Hz,
    ];
    for rate in rates {
        let mut bus = FakeBus::with_response(&[0x00]);
        let mut reg = CtrlReg1::new(&mut bus).unwrap();
        reg.set_data_rate(rate);
        assert_eq!(reg.data_rate(), rate);
    }
}

#[test]
fn data_rate_decodes_from_raw_byte() {
    let mut bus = FakeBus::with_response(&[0x02]);
    let reg = CtrlReg1::new(&mut bus).unwrap();
    assert_eq!(reg.data_rate(), DataRate::Continuous7Hz);
}

#[test]
fn ctrl_reg1_flags_decode_from_raw_byte() {
    // 0x85: powered up (bit 7), block update (bit 2), rate 0b01.
    let mut bus = FakeBus::with_response(&[0x85]);
    let reg = CtrlReg1::new(&mut bus).unwrap();
    assert!(reg.is_powered_up());
    assert!(reg.is_block_update());
    assert_eq!(reg.data_rate(), DataRate::Continuous1Hz);

    let mut bus = FakeBus::with_response(&[0x00]);
    let reg = CtrlReg1::new(&mut bus).unwrap();
    assert!(!reg.is_powered_up());
    assert!(!reg.is_block_update());
    assert_eq!(reg.data_rate(), DataRate::OneShot);
}

#[test]
fn ctrl_reg1_toggles_touch_only_their_bit() {
    let mut bus = FakeBus::with_response(&[0x00]);
    let mut reg = CtrlReg1::new(&mut bus).unwrap();
    reg.modify(&mut bus, |mut w| {
        w.power_up();
        w
    })
    .unwrap();
    assert_eq!(bus.writes, vec![(0x5F, vec![0x20, 0x80])]);

    let mut bus = FakeBus::with_response(&[0xFF]);
    let mut reg = CtrlReg1::new(&mut bus).unwrap();
    reg.modify(&mut bus, |mut w| {
        w.power_down();
        w
    })
    .unwrap();
    assert_eq!(bus.writes, vec![(0x5F, vec![0x20, 0x7F])]);

    let mut bus = FakeBus::with_response(&[0x00]);
    let mut reg = CtrlReg1::new(&mut bus).unwrap();
    reg.modify(&mut bus, |mut w| {
        w.set_block_update();
        w
    })
    .unwrap();
    assert_eq!(bus.writes, vec![(0x5F, vec![0x20, 0x04])]);

    let mut bus = FakeBus::with_response(&[0xFF]);
    let mut reg = CtrlReg1::new(&mut bus).unwrap();
    reg.modify(&mut bus, |mut w| {
        w.set_continuous_update();
        w
    })
    .unwrap();
    assert_eq!(bus.writes, vec![(0x5F, vec![0x20, 0xFB])]);
}

#[test]
fn set_data_rate_preserves_upper_bits() {
    let mut bus = FakeBus::with_response(&[0xFF]);
    let mut reg = CtrlReg1::new(&mut bus).unwrap();
    reg.modify(&mut bus, |mut w| {
        w.set_data_rate(DataRate::OneShot);
        w
    })
    .unwrap();
    assert_eq!(bus.writes, vec![(0x5F, vec![0x20, 0xFC])]);
    assert!(reg.is_powered_up());
    assert!(reg.is_block_update());
}

#[test]
fn ctrl_reg2_flags_decode_from_raw_byte() {
    // 0x83: booting (bit 7), heater on (bit 1), one-shot pending (bit 0).
    let mut bus = FakeBus::with_response(&[0x83]);
    let reg = CtrlReg2::new(&mut bus).unwrap();
    assert!(reg.is_booting());
    assert!(reg.is_heater_on());
    assert!(reg.is_one_shot());

    let mut bus = FakeBus::with_response(&[0x00]);
    let reg = CtrlReg2::new(&mut bus).unwrap();
    assert!(!reg.is_booting());
    assert!(!reg.is_heater_on());
    assert!(!reg.is_one_shot());
}

#[test]
fn ctrl_reg2_toggles_touch_only_their_bit() {
    let mut bus = FakeBus::with_response(&[0x00]);
    let mut reg = CtrlReg2::new(&mut bus).unwrap();
    reg.modify(&mut bus, |mut w| {
        w.boot();
        w
    })
    .unwrap();
    assert_eq!(bus.writes, vec![(0x5F, vec![0x21, 0x80])]);

    let mut bus = FakeBus::with_response(&[0x00]);
    let mut reg = CtrlReg2::new(&mut bus).unwrap();
    reg.modify(&mut bus, |mut w| {
        w.set_heater_on();
        w
    })
    .unwrap();
    assert_eq!(bus.writes, vec![(0x5F, vec![0x21, 0x02])]);

    let mut bus = FakeBus::with_response(&[0xFF]);
    let mut reg = CtrlReg2::new(&mut bus).unwrap();
    reg.modify(&mut bus, |mut w| {
        w.set_heater_off();
        w
    })
    .unwrap();
    assert_eq!(bus.writes, vec![(0x5F, vec![0x21, 0xFD])]);

    let mut bus = FakeBus::with_response(&[0x00]);
    let mut reg = CtrlReg2::new(&mut bus).unwrap();
    reg.modify(&mut bus, |mut w| {
        w.set_one_shot();
        w
    })
    .unwrap();
    assert_eq!(bus.writes, vec![(0x5F, vec![0x21, 0x01])]);
}

#[test]
fn ctrl_reg3_toggles_touch_only_their_bit() {
    let mut bus = FakeBus::with_response(&[0x00]);
    let mut reg = CtrlReg3::new(&mut bus).unwrap();
    reg.modify(&mut bus, |mut w| {
        w.data_ready_low();
        w
    })
    .unwrap();
    assert_eq!(bus.writes, vec![(0x5F, vec![0x22, 0x80])]);

    let mut bus = FakeBus::with_response(&[0xFF]);
    let mut reg = CtrlReg3::new(&mut bus).unwrap();
    reg.modify(&mut bus, |mut w| {
        w.data_ready_high();
        w
    })
    .unwrap();
    assert_eq!(bus.writes, vec![(0x5F, vec![0x22, 0x7F])]);

    let mut bus = FakeBus::with_response(&[0x00]);
    let mut reg = CtrlReg3::new(&mut bus).unwrap();
    reg.modify(&mut bus, |mut w| {
        w.data_ready_open_drain();
        w
    })
    .unwrap();
    assert_eq!(bus.writes, vec![(0x5F, vec![0x22, 0x40])]);

    let mut bus = FakeBus::with_response(&[0xFF]);
    let mut reg = CtrlReg3::new(&mut bus).unwrap();
    reg.modify(&mut bus, |mut w| {
        w.data_ready_push_pull();
        w
    })
    .unwrap();
    assert_eq!(bus.writes, vec![(0x5F, vec![0x22, 0xBF])]);

    let mut bus = FakeBus::with_response(&[0x00]);
    let mut reg = CtrlReg3::new(&mut bus).unwrap();
    reg.modify(&mut bus, |mut w| {
        w.data_ready_enable();
        w
    })
    .unwrap();
    assert_eq!(bus.writes, vec![(0x5F, vec![0x22, 0x04])]);

    let mut bus = FakeBus::with_response(&[0xFF]);
    let mut reg = CtrlReg3::new(&mut bus).unwrap();
    reg.modify(&mut bus, |mut w| {
        w.data_ready_disable();
        w
    })
    .unwrap();
    assert_eq!(bus.writes, vec![(0x5F, vec![0x22, 0xFB])]);
}

#[test]
fn modify_without_mutation_still_writes_unchanged_byte() {
    let mut bus = FakeBus::with_response(&[0xA5]);
    let mut reg = AvConf::new(&mut bus).unwrap();
    reg.modify(&mut bus, |w| w).unwrap();
    assert_eq!(bus.writes, vec![(0x5F, vec![0x10, 0xA5])]);

    let mut bus = FakeBus::with_response(&[0xA5]);
    let mut reg = CtrlReg1::new(&mut bus).unwrap();
    reg.modify(&mut bus, |w| w).unwrap();
    assert_eq!(bus.writes, vec![(0x5F, vec![0x20, 0xA5])]);

    let mut bus = FakeBus::with_response(&[0xA5]);
    let mut reg = CtrlReg2::new(&mut bus).unwrap();
    reg.modify(&mut bus, |w| w).unwrap();
    assert_eq!(bus.writes, vec![(0x5F, vec![0x21, 0xA5])]);

    let mut bus = FakeBus::with_response(&[0xA5]);
    let mut reg = CtrlReg3::new(&mut bus).unwrap();
    reg.modify(&mut bus, |w| w).unwrap();
    assert_eq!(bus.writes, vec![(0x5F, vec![0x22, 0xA5])]);
}

#[test]
fn status_flags_decode_from_raw_byte() {
    let mut bus = FakeBus::with_response(&[0x02]);
    let reg = StatusReg::new(&mut bus).unwrap();
    assert!(reg.humidity_data_available());
    assert!(!reg.temperature_data_available());
    assert_eq!(bus.reads, vec![(0x5F, vec![0x27], 1)]);

    let mut bus = FakeBus::with_response(&[0x01]);
    let reg = StatusReg::new(&mut bus).unwrap();
    assert!(!reg.humidity_data_available());
    assert!(reg.temperature_data_available());

    let mut bus = FakeBus::with_response(&[0x03]);
    let reg = StatusReg::new(&mut bus).unwrap();
    assert!(reg.humidity_data_available());
    assert!(reg.temperature_data_available());
}

#[test]
fn paired_decode_sign_extends() {
    let mut bus = FakeBus::with_response(&[0xFF, 0xFF]);
    assert_eq!(HumidityOut::new(&mut bus).unwrap().value(), -1);

    let mut bus = FakeBus::with_response(&[0x00, 0x80]);
    assert_eq!(HumidityOut::new(&mut bus).unwrap().value(), -32768);

    let mut bus = FakeBus::with_response(&[0xFF, 0x7F]);
    assert_eq!(HumidityOut::new(&mut bus).unwrap().value(), 32767);

    let mut bus = FakeBus::with_response(&[0x00, 0x80]);
    assert_eq!(TemperatureOut::new(&mut bus).unwrap().value(), -32768);

    let mut bus = FakeBus::with_response(&[0x34, 0x12]);
    assert_eq!(TemperatureOut::new(&mut bus).unwrap().value(), 0x1234);
}

#[test]
fn paired_reads_use_auto_increment_addresses() {
    let mut bus = FakeBus::with_response(&[0x01, 0x00]);
    HumidityOut::new(&mut bus).unwrap();
    assert_eq!(bus.reads, vec![(0x5F, vec![0xA8], 2)]);
    assert!(bus.writes.is_empty());

    let mut bus = FakeBus::with_response(&[0x01, 0x00]);
    TemperatureOut::new(&mut bus).unwrap();
    assert_eq!(bus.reads, vec![(0x5F, vec![0xAA], 2)]);
    assert!(bus.writes.is_empty());
}

#[test]
fn calibration_decode_is_bit_exact() {
    let fixture = [
        64u8, 128, 10, 20, 0, 0b00000101, 50, 0, 0, 0, 60, 0, 70, 0, 80, 0,
    ];
    let mut bus = FakeBus::with_response(&fixture);
    let cal = Calibration::new(&mut bus).unwrap();
    assert_eq!(cal.h0_rh_x2, 64);
    assert_eq!(cal.h1_rh_x2, 128);
    // byte 5 bits 0-1 (= 0b01) over byte 2: (1 << 8) | 10 = 266
    assert_eq!(cal.t0_deg_c_x8, 266);
    // byte 5 bits 2-3 (= 0b01) over byte 3: (1 << 8) | 20 = 276
    assert_eq!(cal.t1_deg_c_x8, 276);
    assert_eq!(cal.h0_t0_out, 50);
    assert_eq!(cal.h1_t0_out, 60);
    assert_eq!(cal.t0_out, 70);
    assert_eq!(cal.t1_out, 80);
    assert_eq!(bus.reads, vec![(0x5F, vec![0xB0], 16)]);
    assert!(bus.writes.is_empty());
}

#[test]
fn calibration_temperature_points_use_disjoint_slices() {
    let fixture = [
        0u8, 0, 0xFF, 0x01, 0, 0b00001110, 0xFF, 0x7F, 0, 0, 0x00, 0x80, 0xFF, 0xFF, 0x01, 0x00,
    ];
    let mut bus = FakeBus::with_response(&fixture);
    let cal = Calibration::new(&mut bus).unwrap();
    // byte 5 bits 0-1 = 0b10, byte 5 bits 2-3 = 0b11
    assert_eq!(cal.t0_deg_c_x8, (2 << 8) | 0xFF);
    assert_eq!(cal.t1_deg_c_x8, (3 << 8) | 0x01);
    assert_eq!(cal.h0_t0_out, 32767);
    assert_eq!(cal.h1_t0_out, -32768);
    assert_eq!(cal.t0_out, -1);
    assert_eq!(cal.t1_out, 1);
}

#[test]
fn read_only_wrappers_never_write() {
    let mut bus = FakeBus::new();
    bus.responses.push(vec![0xBC]);
    bus.responses.push(vec![0x55]);
    bus.responses.push(vec![0xAA]);
    bus.responses.push(vec![0x12]);
    bus.responses.push(vec![0x34]);
    bus.responses.push(vec![0x03]);
    bus.responses.push(vec![0x01, 0x02]);
    bus.responses.push(vec![0x03, 0x04]);
    bus.responses.push(vec![0; 16]);
    WhoAmI::new(&mut bus).unwrap();
    AvConf::new(&mut bus).unwrap();
    CtrlReg1::new(&mut bus).unwrap();
    CtrlReg2::new(&mut bus).unwrap();
    CtrlReg3::new(&mut bus).unwrap();
    StatusReg::new(&mut bus).unwrap();
    HumidityOut::new(&mut bus).unwrap();
    TemperatureOut::new(&mut bus).unwrap();
    Calibration::new(&mut bus).unwrap();
    assert!(bus.writes.is_empty());
    assert_eq!(bus.reads.len(), 9);
}

#[test]
fn register_reads_use_documented_addresses() {
    let mut bus = FakeBus::new();
    bus.responses.push(vec![0]);
    bus.responses.push(vec![0]);
    bus.responses.push(vec![0]);
    bus.responses.push(vec![0]);
    bus.responses.push(vec![0]);
    bus.responses.push(vec![0]);
    WhoAmI::new(&mut bus).unwrap();
    AvConf::new(&mut bus).unwrap();
    CtrlReg1::new(&mut bus).unwrap();
    CtrlReg2::new(&mut bus).unwrap();
    CtrlReg3::new(&mut bus).unwrap();
    StatusReg::new(&mut bus).unwrap();
    assert_eq!(
        bus.reads,
        vec![
            (0x5F, vec![0x0F], 1),
            (0x5F, vec![0x10], 1),
            (0x5F, vec![0x20], 1),
            (0x5F, vec![0x21], 1),
            (0x5F, vec![0x22], 1),
            (0x5F, vec![0x27], 1),
        ]
    );
}

#[test]
fn transport_failures_propagate_verbatim() {
    let mut bus = FakeBus::failing();
    assert!(matches!(WhoAmI::new(&mut bus), Err(55)));
    assert!(matches!(AvConf::new(&mut bus), Err(55)));
    assert!(matches!(CtrlReg1::new(&mut bus), Err(55)));
    assert!(matches!(CtrlReg2::new(&mut bus), Err(55)));
    assert!(matches!(CtrlReg3::new(&mut bus), Err(55)));
    assert!(matches!(StatusReg::new(&mut bus), Err(55)));
    assert!(matches!(HumidityOut::new(&mut bus), Err(55)));
    assert!(matches!(TemperatureOut::new(&mut bus), Err(55)));
    assert!(matches!(Calibration::new(&mut bus), Err(55)));
}

#[test]
fn modify_failure_propagates_and_keeps_snapshot() {
    let mut bus = FakeBus::with_response(&[0x00]);
    let mut reg = CtrlReg1::new(&mut bus).unwrap();
    bus.fail = true;
    let r = reg.modify(&mut bus, |mut w| {
        w.power_up();
        w
    });
    assert!(matches!(r, Err(55)));
    // the snapshot carries the mutation even though the commit failed
    assert!(reg.is_powered_up());
    assert!(bus.writes.is_empty());
}
