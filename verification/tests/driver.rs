//! The driver against a simulated sensor.

use i2c_imu::register::ConfigRegister;
use i2c_imu::state::{Change, InterruptSetup, Phase, Startup};
use i2c_imu::{
    AccelScale, Error, GyroScale, Icm42688p, Quantity, Reply, Request, Resolution, SamplingRate,
};

const ACCEL_SCALES: [AccelScale; 4] =
    [AccelScale::Fs2g, AccelScale::Fs4g, AccelScale::Fs8g, AccelScale::Fs16g];

const GYRO_SCALES: [GyroScale; 8] = [
    GyroScale::Fs15_6dps,
    GyroScale::Fs31_2dps,
    GyroScale::Fs62_4dps,
    GyroScale::Fs125dps,
    GyroScale::Fs250dps,
    GyroScale::Fs500dps,
    GyroScale::Fs1000dps,
    GyroScale::Fs2000dps,
];

const RATES: [SamplingRate; 15] = [
    SamplingRate::Odr32k,
    SamplingRate::Odr16k,
    SamplingRate::Odr8k,
    SamplingRate::Odr4k,
    SamplingRate::Odr2k,
    SamplingRate::Odr1k,
    SamplingRate::Odr200,
    SamplingRate::Odr100,
    SamplingRate::Odr50,
    SamplingRate::Odr25,
    SamplingRate::Odr12_5,
    SamplingRate::Odr6_25,
    SamplingRate::Odr3_125,
    SamplingRate::Odr1_5625,
    SamplingRate::Odr500,
];

/// A register file that answers requests and records them.
struct Sensor {
    registers: [u8; 256],
    log: Vec<Request>,
    /// The transport fails from this request on, counted from zero.
    fails_from: Option<usize>,
}

impl Sensor {
    fn new() -> Sensor {
        let mut registers = [0u8; 256];
        registers[0x75] = 0x47;
        registers[0x4F] = 0x06;
        registers[0x50] = 0x06;
        Sensor { registers, log: Vec::new(), fails_from: None }
    }

    fn perform(&mut self, request: Request) -> Reply {
        let position = self.log.len();
        self.log.push(request);
        if self.fails_from.is_some_and(|from| position >= from) {
            return Reply::Failed;
        }
        match request {
            Request::ReadByte { register } => Reply::Byte(self.registers[register as usize]),
            Request::WriteByte { register, value } => {
                self.registers[register as usize] = value;
                Reply::Written
            }
            Request::ReadBlock { register, len } => {
                let start = register as usize;
                Reply::Block(self.registers[start..start + len as usize].to_vec())
            }
            Request::Delay { .. } => Reply::Elapsed,
        }
    }

    fn writes(&self) -> Vec<(u8, u8)> {
        let mut writes = Vec::new();
        for request in &self.log {
            if let Request::WriteByte { register, value } = request {
                writes.push((*register, *value));
            }
        }
        writes
    }
}

fn drive(icm: &mut Icm42688p, sensor: &mut Sensor) -> Result<(), Error> {
    while let Some(request) = icm.request() {
        let reply = sensor.perform(request);
        icm.reply(&reply)?;
    }
    Ok(())
}

fn started(sensor: &mut Sensor) -> Icm42688p {
    let mut icm = Icm42688p::new();
    drive(&mut icm, sensor).unwrap();
    sensor.log.clear();
    icm
}

fn float(q: Quantity) -> f64 {
    q.num as f64 / q.den as f64
}

#[test]
fn new_driver_waits_for_the_identity() {
    let icm = Icm42688p::new();
    assert_eq!(icm.phase(), Phase::Starting(Startup::Identify));
    assert!(!icm.is_ready());
    assert_eq!(icm.request(), Some(Request::ReadByte { register: 0x75 }));
    assert_eq!(icm.accel_res(), Resolution { num: 1, den: 1 });
    assert_eq!(icm.gyro_res(), Resolution { num: 1, den: 1 });
    assert_eq!(icm.sample().temperature, Quantity { num: 0, den: 1 });
    assert_eq!(icm.accel_config(), ConfigRegister { bits: 0 });
    assert_eq!(icm.gyro_config(), ConfigRegister { bits: 0 });
}

#[test]
fn startup_runs_the_fixed_sequence() {
    let mut sensor = Sensor::new();
    sensor.registers[0x50] = 0x26;
    sensor.registers[0x4F] = 0x4B;
    let mut icm = Icm42688p::new();
    assert_eq!(drive(&mut icm, &mut sensor), Ok(()));
    assert_eq!(
        sensor.log,
        vec![
            Request::ReadByte { register: 0x75 },
            Request::ReadByte { register: 0x50 },
            Request::ReadByte { register: 0x4F },
            Request::WriteByte { register: 0x11, value: 0x01 },
            Request::Delay { millis: 1 },
            Request::WriteByte { register: 0x76, value: 0x00 },
            Request::WriteByte { register: 0x4E, value: 0x0F },
        ]
    );
    assert!(icm.is_ready());
    assert_eq!(icm.phase(), Phase::Ready);
    assert_eq!(icm.request(), None);
    assert_eq!(icm.accel_config().bits, 0x26);
    assert_eq!(icm.gyro_config().bits, 0x4B);
    assert_eq!(icm.accel_res(), Resolution { num: 1, den: 1 });
    assert_eq!(icm.gyro_res(), Resolution { num: 1, den: 1 });
}

#[test]
fn wrong_identity_fails_and_writes_nothing() {
    for identity in [0x00u8, 0x46, 0x48, 0xFF] {
        let mut sensor = Sensor::new();
        sensor.registers[0x75] = identity;
        let mut icm = Icm42688p::new();
        assert_eq!(drive(&mut icm, &mut sensor), Err(Error::DeviceNotFound));
        assert_eq!(icm.phase(), Phase::Dead);
        assert_eq!(icm.request(), None);
        assert_eq!(sensor.log, vec![Request::ReadByte { register: 0x75 }]);
        assert!(sensor.writes().is_empty());

        assert_eq!(icm.change_accel_scale(AccelScale::Fs4g), Err(Error::NotReady));
        assert_eq!(icm.change_accel_odr(SamplingRate::Odr1k), Err(Error::NotReady));
        assert_eq!(icm.change_gyro_scale(GyroScale::Fs250dps), Err(Error::NotReady));
        assert_eq!(icm.change_gyro_odr(SamplingRate::Odr1k), Err(Error::NotReady));
        assert_eq!(icm.enable_data_interuption(), Err(Error::NotReady));
        assert_eq!(icm.read_data(), Err(Error::NotReady));
        assert_eq!(icm.reply(&Reply::Written), Err(Error::NotReady));
        assert_eq!(icm.reply(&Reply::Byte(0x47)), Err(Error::NotReady));
        assert_eq!(drive(&mut icm, &mut sensor), Ok(()));
        assert_eq!(icm.phase(), Phase::Dead);
        assert_eq!(sensor.log.len(), 1);
    }
}

#[test]
fn transport_failure_in_startup_is_fatal_at_every_step() {
    for step in 0..7 {
        let mut sensor = Sensor::new();
        sensor.fails_from = Some(step);
        let mut icm = Icm42688p::new();
        assert_eq!(drive(&mut icm, &mut sensor), Err(Error::Transport));
        assert_eq!(icm.phase(), Phase::Dead);
        assert_eq!(icm.request(), None);
        assert_eq!(sensor.log.len(), step + 1);
        assert_eq!(icm.read_data(), Err(Error::NotReady));
    }
}

#[test]
fn reply_of_the_wrong_kind_is_a_transport_error() {
    let mut icm = Icm42688p::new();
    assert_eq!(icm.reply(&Reply::Written), Err(Error::Transport));
    assert_eq!(icm.phase(), Phase::Dead);

    let mut icm = Icm42688p::new();
    assert_eq!(icm.reply(&Reply::Block(vec![0x47])), Err(Error::Transport));
    assert_eq!(icm.phase(), Phase::Dead);

    let mut icm = Icm42688p::new();
    assert_eq!(icm.reply(&Reply::Byte(0x47)), Ok(()));
    assert_eq!(icm.reply(&Reply::Byte(0x06)), Ok(()));
    assert_eq!(icm.reply(&Reply::Byte(0x06)), Ok(()));
    assert_eq!(icm.phase(), Phase::Starting(Startup::SoftReset));
    assert_eq!(icm.reply(&Reply::Written), Ok(()));
    assert_eq!(icm.phase(), Phase::Starting(Startup::Settle));
    assert_eq!(icm.reply(&Reply::Written), Err(Error::Transport));
    assert_eq!(icm.phase(), Phase::Dead);

    let mut sensor = Sensor::new();
    let mut icm = started(&mut sensor);
    icm.change_accel_scale(AccelScale::Fs8g).unwrap();
    assert_eq!(icm.reply(&Reply::Byte(0x46)), Err(Error::Transport));
    assert!(icm.is_ready());
    assert_eq!(icm.accel_config().bits, 0x06);
    assert_eq!(icm.accel_res(), Resolution { num: 1, den: 1 });
    icm.read_data().unwrap();
    assert_eq!(icm.reply(&Reply::Elapsed), Err(Error::Transport));
    assert!(icm.is_ready());
}

#[test]
fn reply_without_a_request_is_refused() {
    let mut sensor = Sensor::new();
    let mut icm = started(&mut sensor);
    assert_eq!(icm.reply(&Reply::Written), Err(Error::NotReady));
    assert_eq!(icm.reply(&Reply::Failed), Err(Error::NotReady));
    assert_eq!(icm.reply(&Reply::Block(vec![0; 14])), Err(Error::NotReady));
    assert!(icm.is_ready());
    assert_eq!(icm.accel_config().bits, 0x06);
    assert_eq!(icm.sample().temperature, Quantity { num: 0, den: 1 });
}

#[test]
fn interrupt_setup_runs_the_fixed_sequence() {
    let mut sensor = Sensor::new();
    let mut icm = started(&mut sensor);
    assert_eq!(icm.enable_data_interuption(), Ok(()));
    assert_eq!(icm.phase(), Phase::Interrupts(InterruptSetup::SetMode));
    assert_eq!(drive(&mut icm, &mut sensor), Ok(()));
    assert_eq!(
        sensor.log,
        vec![
            Request::WriteByte { register: 0x14, value: 0x1B },
            Request::ReadByte { register: 0x14 },
            Request::WriteByte { register: 0x14, value: 0x0B },
            Request::WriteByte { register: 0x65, value: 0x18 },
        ]
    );
    assert!(icm.is_ready());
    assert_eq!(sensor.registers[0x14], 0x0B);
    assert_eq!(sensor.registers[0x65], 0x18);
    assert_eq!(icm.accel_config().bits, 0x06);
    assert_eq!(icm.gyro_config().bits, 0x06);
}

#[test]
fn interrupt_setup_clears_only_bit_four_of_what_it_read() {
    let mut sensor = Sensor::new();
    let mut icm = started(&mut sensor);
    icm.enable_data_interuption().unwrap();
    assert_eq!(icm.reply(&Reply::Written), Ok(()));
    assert_eq!(icm.request(), Some(Request::ReadByte { register: 0x14 }));
    assert_eq!(icm.reply(&Reply::Byte(0xFF)), Ok(()));
    assert_eq!(icm.phase(), Phase::Interrupts(InterruptSetup::ClearAsyncReset(0xFF)));
    assert_eq!(icm.request(), Some(Request::WriteByte { register: 0x14, value: 0xEF }));
    assert_eq!(icm.reply(&Reply::Written), Ok(()));
    assert_eq!(icm.request(), Some(Request::WriteByte { register: 0x65, value: 0x18 }));
    assert_eq!(icm.reply(&Reply::Written), Ok(()));
    assert_eq!(icm.request(), None);
    assert!(icm.is_ready());
}

#[test]
fn interrupt_setup_stops_at_a_transport_failure() {
    for step in 0..4 {
        let mut sensor = Sensor::new();
        let mut icm = started(&mut sensor);
        sensor.fails_from = Some(step);
        icm.enable_data_interuption().unwrap();
        assert_eq!(drive(&mut icm, &mut sensor), Err(Error::Transport));
        assert_eq!(sensor.log.len(), step + 1);
        assert!(icm.is_ready());
        assert_eq!(icm.request(), None);
    }
}

#[test]
fn accel_scale_change_writes_the_merged_byte() {
    let mut sensor = Sensor::new();
    sensor.registers[0x50] = 0x1B;
    let mut icm = started(&mut sensor);
    assert_eq!(icm.change_accel_scale(AccelScale::Fs4g), Ok(()));
    assert_eq!(icm.phase(), Phase::Configuring(Change::AccelScale(AccelScale::Fs4g)));
    assert_eq!(icm.request(), Some(Request::WriteByte { register: 0x50, value: 0x5B }));
    assert_eq!(icm.accel_config().bits, 0x1B);
    assert_eq!(icm.accel_res(), Resolution { num: 1, den: 1 });
    assert_eq!(drive(&mut icm, &mut sensor), Ok(()));
    assert_eq!(sensor.writes(), vec![(0x50, 0x5B)]);
    assert_eq!(icm.accel_config().bits, 0x5B);
    assert_eq!(icm.accel_res(), Resolution { num: 2, den: 32768 });
    assert_eq!(icm.gyro_config().bits, 0x06);
    assert_eq!(icm.gyro_res(), Resolution { num: 1, den: 1 });
}

#[test]
fn gyro_scale_change_writes_the_merged_byte() {
    let mut sensor = Sensor::new();
    sensor.registers[0x4F] = 0xEB;
    let mut icm = started(&mut sensor);
    assert_eq!(icm.change_gyro_scale(GyroScale::Fs125dps), Ok(()));
    assert_eq!(icm.request(), Some(Request::WriteByte { register: 0x4F, value: 0x8B }));
    assert_eq!(drive(&mut icm, &mut sensor), Ok(()));
    assert_eq!(sensor.writes(), vec![(0x4F, 0x8B)]);
    assert_eq!(icm.gyro_config().bits, 0x8B);
    assert_eq!(icm.gyro_res(), Resolution { num: 2000, den: 32768 * 16 });
    assert_eq!(icm.change_gyro_scale(GyroScale::Fs2000dps), Ok(()));
    assert_eq!(icm.request(), Some(Request::WriteByte { register: 0x4F, value: 0x0B }));
    assert_eq!(drive(&mut icm, &mut sensor), Ok(()));
    assert_eq!(icm.gyro_config().bits, 0x0B);
    assert_eq!(icm.gyro_res(), Resolution { num: 2000, den: 32768 });
    assert_eq!(icm.accel_config().bits, 0x06);
    assert_eq!(icm.accel_res(), Resolution { num: 1, den: 1 });
}

#[test]
fn rate_changes_write_the_merged_byte() {
    let mut sensor = Sensor::new();
    sensor.registers[0x50] = 0x66;
    sensor.registers[0x4F] = 0x86;
    let mut icm = started(&mut sensor);
    assert_eq!(icm.change_accel_odr(SamplingRate::Odr12_5), Ok(()));
    assert_eq!(icm.request(), Some(Request::WriteByte { register: 0x50, value: 0x6B }));
    assert_eq!(drive(&mut icm, &mut sensor), Ok(()));
    assert_eq!(icm.change_gyro_odr(SamplingRate::Odr12_5), Ok(()));
    assert_eq!(icm.request(), Some(Request::WriteByte { register: 0x4F, value: 0x8B }));
    assert_eq!(drive(&mut icm, &mut sensor), Ok(()));
    assert_eq!(sensor.writes(), vec![(0x50, 0x6B), (0x4F, 0x8B)]);
    assert_eq!(icm.accel_config().bits, 0x6B);
    assert_eq!(icm.gyro_config().bits, 0x8B);
    assert_eq!(icm.accel_res(), Resolution { num: 1, den: 1 });
    assert_eq!(icm.gyro_res(), Resolution { num: 1, den: 1 });
    assert_eq!(icm.change_accel_odr(SamplingRate::Odr500), Ok(()));
    assert_eq!(icm.request(), Some(Request::WriteByte { register: 0x50, value: 0x6F }));
}

#[test]
fn range_and_rate_are_independent_for_every_combination() {
    for scale in ACCEL_SCALES {
        for rate in RATES {
            let mut sensor = Sensor::new();
            let mut icm = started(&mut sensor);
            icm.change_accel_odr(rate).unwrap();
            drive(&mut icm, &mut sensor).unwrap();
            let before = icm.accel_config();
            icm.change_accel_scale(scale).unwrap();
            drive(&mut icm, &mut sensor).unwrap();
            assert_eq!(icm.accel_config().rate(), before.rate());
            assert_eq!(icm.accel_config().rate(), rate.rate_select());
            assert_eq!(icm.accel_config().range(), scale.range_select());

            let mut sensor = Sensor::new();
            let mut other = started(&mut sensor);
            other.change_accel_scale(scale).unwrap();
            drive(&mut other, &mut sensor).unwrap();
            let before = other.accel_config();
            other.change_accel_odr(rate).unwrap();
            drive(&mut other, &mut sensor).unwrap();
            assert_eq!(other.accel_config().range(), before.range());
            assert_eq!(other.accel_config(), icm.accel_config());
            assert_eq!(other.accel_res(), icm.accel_res());
            assert_eq!(sensor.registers[0x50], other.accel_config().bits);
        }
    }
    for scale in GYRO_SCALES {
        for rate in RATES {
            if !rate.gyro_supports() {
                continue;
            }
            let mut sensor = Sensor::new();
            let mut icm = started(&mut sensor);
            icm.change_gyro_odr(rate).unwrap();
            drive(&mut icm, &mut sensor).unwrap();
            icm.change_gyro_scale(scale).unwrap();
            drive(&mut icm, &mut sensor).unwrap();
            assert_eq!(icm.gyro_config().rate(), rate.rate_select());
            assert_eq!(icm.gyro_config().range(), scale.range_select());
            icm.change_gyro_odr(SamplingRate::Odr1k).unwrap();
            drive(&mut icm, &mut sensor).unwrap();
            assert_eq!(icm.gyro_config().range(), scale.range_select());
            assert_eq!(icm.gyro_config().rate(), 6);
            assert_eq!(icm.gyro_res(), scale.resolution());
            assert_eq!(sensor.registers[0x4F], icm.gyro_config().bits);
        }
    }
}

#[test]
fn cached_range_decodes_to_what_was_written() {
    for start in [0x00u8, 0x06, 0xFF, 0x5A] {
        for scale in ACCEL_SCALES {
            let mut sensor = Sensor::new();
            sensor.registers[0x50] = start;
            let mut icm = started(&mut sensor);
            icm.change_accel_scale(scale).unwrap();
            drive(&mut icm, &mut sensor).unwrap();
            assert_eq!(icm.accel_config().bits >> 5, scale.range_select());
            assert_eq!(AccelScale::from_range_select(icm.accel_config().range()), Some(scale));
            assert_eq!(icm.accel_config().bits & 0x1F, start & 0x1F);
            assert_eq!(icm.accel_res(), scale.resolution());
        }
        for scale in GYRO_SCALES {
            let mut sensor = Sensor::new();
            sensor.registers[0x4F] = start;
            let mut icm = started(&mut sensor);
            icm.change_gyro_scale(scale).unwrap();
            drive(&mut icm, &mut sensor).unwrap();
            assert_eq!(icm.gyro_config().bits >> 5, scale.range_select());
            assert_eq!(GyroScale::from_range_select(icm.gyro_config().range()), Some(scale));
            assert_eq!(icm.gyro_config().bits & 0x1F, start & 0x1F);
            assert_eq!(icm.gyro_res(), scale.resolution());
        }
    }
}

#[test]
fn gyro_rates_under_12_5_hz_change_nothing() {
    for rate in [SamplingRate::Odr6_25, SamplingRate::Odr3_125, SamplingRate::Odr1_5625] {
        let mut sensor = Sensor::new();
        sensor.registers[0x4F] = 0x8B;
        let mut icm = started(&mut sensor);
        let before = icm.gyro_config();
        assert_eq!(icm.change_gyro_odr(rate), Err(Error::RateRejected));
        assert_eq!(icm.gyro_config(), before);
        assert_eq!(icm.phase(), Phase::Ready);
        assert_eq!(icm.request(), None);
        assert_eq!(drive(&mut icm, &mut sensor), Ok(()));
        assert!(sensor.log.is_empty());
        assert_eq!(sensor.registers[0x4F], 0x8B);

        let mut fresh = Icm42688p::new();
        assert_eq!(fresh.change_gyro_odr(rate), Err(Error::RateRejected));
        assert_eq!(fresh.phase(), Phase::Starting(Startup::Identify));

        assert_eq!(icm.change_accel_odr(rate), Ok(()));
        assert_eq!(drive(&mut icm, &mut sensor), Ok(()));
        assert_eq!(icm.accel_config().rate(), rate.rate_select());
    }
    let mut sensor = Sensor::new();
    let mut icm = started(&mut sensor);
    assert_eq!(icm.change_gyro_odr(SamplingRate::Odr12_5), Ok(()));
    assert_eq!(icm.change_gyro_odr(SamplingRate::Odr500), Err(Error::NotReady));
}

#[test]
fn failed_write_leaves_cache_and_resolution() {
    let mut sensor = Sensor::new();
    let mut icm = started(&mut sensor);
    icm.change_accel_scale(AccelScale::Fs4g).unwrap();
    drive(&mut icm, &mut sensor).unwrap();
    sensor.fails_from = Some(0);
    icm.change_accel_scale(AccelScale::Fs16g).unwrap();
    assert_eq!(drive(&mut icm, &mut sensor), Err(Error::Transport));
    assert!(icm.is_ready());
    assert_eq!(icm.accel_config().bits, 0x46);
    assert_eq!(icm.accel_res(), Resolution { num: 2, den: 32768 });
    icm.change_gyro_odr(SamplingRate::Odr50).unwrap();
    assert_eq!(icm.reply(&Reply::Failed), Err(Error::Transport));
    assert_eq!(icm.gyro_config().bits, 0x06);
    sensor.fails_from = None;
    icm.change_accel_scale(AccelScale::Fs16g).unwrap();
    assert_eq!(drive(&mut icm, &mut sensor), Ok(()));
    assert_eq!(icm.accel_config().bits, 0x06);
    assert_eq!(icm.accel_res(), Resolution { num: 8, den: 32768 });
}

#[test]
fn operations_are_refused_while_one_is_in_flight() {
    let mut sensor = Sensor::new();
    let mut icm = started(&mut sensor);
    icm.change_accel_scale(AccelScale::Fs2g).unwrap();
    let pending = icm.phase();
    assert_eq!(icm.change_accel_scale(AccelScale::Fs16g), Err(Error::NotReady));
    assert_eq!(icm.change_accel_odr(SamplingRate::Odr1k), Err(Error::NotReady));
    assert_eq!(icm.change_gyro_scale(GyroScale::Fs125dps), Err(Error::NotReady));
    assert_eq!(icm.change_gyro_odr(SamplingRate::Odr1k), Err(Error::NotReady));
    assert_eq!(icm.enable_data_interuption(), Err(Error::NotReady));
    assert_eq!(icm.read_data(), Err(Error::NotReady));
    assert_eq!(icm.phase(), pending);
    assert_eq!(icm.request(), Some(Request::WriteByte { register: 0x50, value: 0x66 }));

    let mut fresh = Icm42688p::new();
    assert_eq!(fresh.read_data(), Err(Error::NotReady));
    assert_eq!(fresh.enable_data_interuption(), Err(Error::NotReady));
    assert_eq!(fresh.phase(), Phase::Starting(Startup::Identify));
}

#[test]
fn read_data_converts_a_synthetic_burst() {
    let mut sensor = Sensor::new();
    let mut icm = started(&mut sensor);
    icm.change_accel_scale(AccelScale::Fs2g).unwrap();
    drive(&mut icm, &mut sensor).unwrap();
    assert_eq!(icm.accel_res(), Resolution { num: 1, den: 32768 });
    sensor.log.clear();
    let block = [0x00, 0x00, 0x10, 0x00, 0x00, 0x00, 0x00, 0x00, 0x00, 0x00, 0x00, 0x00, 0x00, 0x00];
    sensor.registers[0x1D..0x1D + 14].copy_from_slice(&block);
    assert_eq!(icm.read_data(), Ok(()));
    assert_eq!(icm.phase(), Phase::Sampling);
    assert_eq!(icm.request(), Some(Request::ReadBlock { register: 0x1D, len: 14 }));
    assert_eq!(drive(&mut icm, &mut sensor), Ok(()));
    assert_eq!(sensor.log, vec![Request::ReadBlock { register: 0x1D, len: 14 }]);
    let sample = icm.sample();
    assert_eq!(float(sample.accel[0]), 0.125);
    assert_eq!(sample.accel[0], Quantity { num: 4096, den: 32768 });
    assert_eq!(float(sample.temperature), 25.0);
    assert_eq!(sample.accel[1].num, 0);
    assert_eq!(sample.accel[2].num, 0);
    assert_eq!(sample.gyro, [Quantity { num: 0, den: 1 }; 3]);
    assert!(icm.is_ready());
}

#[test]
fn read_data_uses_the_resolutions_in_force() {
    let mut sensor = Sensor::new();
    let mut icm = started(&mut sensor);
    let block = [
        0xF3, 0x10, 0x40, 0x00, 0xC0, 0x00, 0x00, 0x02, 0x00, 0x10, 0xFF, 0xF0, 0x7F, 0xFF,
    ];
    sensor.registers[0x1D..0x1D + 14].copy_from_slice(&block);

    icm.read_data().unwrap();
    drive(&mut icm, &mut sensor).unwrap();
    let raw = icm.sample();
    assert_eq!(raw.accel, [
        Quantity { num: 16384, den: 1 },
        Quantity { num: -16384, den: 1 },
        Quantity { num: 2, den: 1 },
    ]);
    assert_eq!(raw.gyro, [
        Quantity { num: 16, den: 1 },
        Quantity { num: -16, den: 1 },
        Quantity { num: 32767, den: 1 },
    ]);
    assert_eq!(float(raw.temperature), 0.0);

    icm.change_accel_scale(AccelScale::Fs16g).unwrap();
    drive(&mut icm, &mut sensor).unwrap();
    icm.change_gyro_scale(GyroScale::Fs2000dps).unwrap();
    drive(&mut icm, &mut sensor).unwrap();
    assert_eq!(icm.sample(), raw);

    icm.read_data().unwrap();
    drive(&mut icm, &mut sensor).unwrap();
    let scaled = icm.sample();
    assert_eq!(float(scaled.accel[0]), 4.0);
    assert_eq!(float(scaled.accel[1]), -4.0);
    assert_eq!(scaled.accel[2], Quantity { num: 16, den: 32768 });
    assert_eq!(scaled.gyro[0], Quantity { num: 32000, den: 32768 });
    assert_eq!(float(scaled.gyro[1]), -0.9765625);
    assert_eq!(scaled.gyro[2], Quantity { num: 65534000, den: 32768 });
}

#[test]
fn short_or_failed_burst_keeps_the_previous_sample() {
    let mut sensor = Sensor::new();
    let mut icm = started(&mut sensor);
    sensor.registers[0x1D] = 0x33;
    sensor.registers[0x1E] = 0xC0;
    icm.read_data().unwrap();
    drive(&mut icm, &mut sensor).unwrap();
    let good = icm.sample();
    assert_eq!(float(good.temperature), 125.0);

    for len in [0usize, 1, 13, 15, 32] {
        icm.read_data().unwrap();
        assert_eq!(icm.reply(&Reply::Block(vec![0xFF; len])), Err(Error::Transport));
        assert!(icm.is_ready());
        assert_eq!(icm.sample(), good);
    }
    icm.read_data().unwrap();
    assert_eq!(icm.reply(&Reply::Failed), Err(Error::Transport));
    assert!(icm.is_ready());
    assert_eq!(icm.sample(), good);

    icm.read_data().unwrap();
    assert_eq!(icm.reply(&Reply::Block(vec![0x00; 14])), Ok(()));
    assert_eq!(float(icm.sample().temperature), 25.0);
}
