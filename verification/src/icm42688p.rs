//! The driver: register cache, resolutions and latest sample, advanced
//! one bus transaction at a time.

use vstd::prelude::*;
use crate::bus::{Error, Reply, Request};
use crate::laws::{lemma_after_keeps_wf, lemma_begin_keeps_wf};
use crate::rational::Resolution;
use crate::register::{
    clear_async_reset, ConfigRegister, ACCEL_CONFIG0, BANK_0, BANK_SEL, BURST_LEN, DEVICE_CONFIG,
    DEVICE_ID, GYRO_CONFIG0, INT_CONFIG, INT_PULSED_PUSH_PULL, INT_RESET_DONE_AND_DATA_READY,
    INT_SOURCE0, PWR_MGMT0, RESET_SETTLE_MILLIS, SENSORS_ON, SOFT_RESET, TEMP_DATA1, WHO_AM_I,
};
use crate::sample::Sample;
use crate::state::{Change, InterruptSetup, Phase, Startup, State};

pub use crate::scale::{AccelScale, GyroScale, SamplingRate};

verus! {

/// Driver for one ICM-42688-P.
///
/// The driver decides; the host moves the bytes.  While [`request`] names
/// a transaction, the host performs it and reports the result with
/// [`reply`].  When it names none, the operation is over.
///
/// [`request`]: Icm42688p::request
/// [`reply`]: Icm42688p::reply
#[derive(Debug)]
pub struct Icm42688p {
    phase: Phase,
    accel_config_0: ConfigRegister,
    accel_res: Resolution,
    gyro_config_0: ConfigRegister,
    gyro_res: Resolution,
    sample: Sample,
}

impl View for Icm42688p {
    type V = State;

    closed spec fn view(&self) -> State {
        State {
            phase: self.phase,
            accel_config: self.accel_config_0,
            gyro_config: self.gyro_config_0,
            accel_res: self.accel_res@,
            gyro_res: self.gyro_res@,
            sample: self.sample@,
        }
    }
}

impl Icm42688p {
    #[verifier::type_invariant]
    spec fn well_formed(self) -> bool {
        self@.wf()
    }

    /// A driver at the beginning of start-up.  The first request is the
    /// read of the identity register; the sensor is usable once start-up
    /// has run through.
    pub fn new() -> (icm: Icm42688p)
        ensures
            icm@ == State::initial(),
            icm@.wf(),
    {
        Icm42688p {
            phase: Phase::Starting(Startup::Identify),
            accel_config_0: ConfigRegister { bits: 0 },
            accel_res: Resolution::unit(),
            gyro_config_0: ConfigRegister { bits: 0 },
            gyro_res: Resolution::unit(),
            sample: Sample::zero(),
        }
    }

    /// What the driver is doing.
    pub fn phase(&self) -> (phase: Phase)
        ensures
            phase == self@.phase,
    {
        self.phase
    }

    /// Whether the driver can take a new operation.
    pub fn is_ready(&self) -> (ready: bool)
        ensures
            ready == (self@.phase is Ready),
    {
        match self.phase {
            Phase::Ready => true,
            _ => false,
        }
    }

    /// The cached accelerometer configuration register.
    pub fn accel_config(&self) -> (config: ConfigRegister)
        ensures
            config == self@.accel_config,
    {
        self.accel_config_0
    }

    /// The cached gyroscope configuration register.
    pub fn gyro_config(&self) -> (config: ConfigRegister)
        ensures
            config == self@.gyro_config,
    {
        self.gyro_config_0
    }

    /// Units per count of acceleration.
    pub fn accel_res(&self) -> (res: Resolution)
        ensures
            res@ == self@.accel_res,
            res@.valid(),
    {
        proof {
            use_type_invariant(self);
        }
        self.accel_res
    }

    /// Degrees per second per count of angular rate.
    pub fn gyro_res(&self) -> (res: Resolution)
        ensures
            res@ == self@.gyro_res,
            res@.valid(),
    {
        proof {
            use_type_invariant(self);
        }
        self.gyro_res
    }

    /// The latest measurement.
    pub fn sample(&self) -> (sample: Sample)
        ensures
            sample@ == self@.sample,
            sample@.valid(),
    {
        proof {
            use_type_invariant(self);
        }
        self.sample
    }

    /// The byte that a change writes to its configuration register.
    fn merged(&self, change: Change) -> (config: ConfigRegister)
        ensures
            config == change.merged(self@),
    {
        match change {
            Change::AccelScale(scale) => self.accel_config_0.with_range(scale.range_select()),
            Change::AccelRate(rate) => self.accel_config_0.with_rate(rate.rate_select()),
            Change::GyroScale(scale) => self.gyro_config_0.with_range(scale.range_select()),
            Change::GyroRate(rate) => self.gyro_config_0.with_rate(rate.rate_select()),
        }
    }

    /// The transaction that the driver waits on, if any.
    pub fn request(&self) -> (request: Option<Request>)
        ensures
            request == self@.request(),
    {
        match self.phase {
            Phase::Starting(step) => Some(
                match step {
                    Startup::Identify => Request::ReadByte { register: WHO_AM_I },
                    Startup::LoadAccelConfig => Request::ReadByte { register: ACCEL_CONFIG0 },
                    Startup::LoadGyroConfig => Request::ReadByte { register: GYRO_CONFIG0 },
                    Startup::SoftReset => Request::WriteByte {
                        register: DEVICE_CONFIG,
                        value: SOFT_RESET,
                    },
                    Startup::Settle => Request::Delay { millis: RESET_SETTLE_MILLIS },
                    Startup::SelectBank => Request::WriteByte { register: BANK_SEL, value: BANK_0 },
                    Startup::PowerUp => Request::WriteByte {
                        register: PWR_MGMT0,
                        value: SENSORS_ON,
                    },
                },
            ),
            Phase::Ready | Phase::Dead => None,
            Phase::Interrupts(step) => Some(
                match step {
                    InterruptSetup::SetMode => Request::WriteByte {
                        register: INT_CONFIG,
                        value: INT_PULSED_PUSH_PULL,
                    },
                    InterruptSetup::ReadBack => Request::ReadByte { register: INT_CONFIG },
                    InterruptSetup::ClearAsyncReset(config) => Request::WriteByte {
                        register: INT_CONFIG,
                        value: clear_async_reset(config),
                    },
                    InterruptSetup::Route => Request::WriteByte {
                        register: INT_SOURCE0,
                        value: INT_RESET_DONE_AND_DATA_READY,
                    },
                },
            ),
            Phase::Configuring(change) => {
                let register = match change {
                    Change::AccelScale(_) | Change::AccelRate(_) => ACCEL_CONFIG0,
                    Change::GyroScale(_) | Change::GyroRate(_) => GYRO_CONFIG0,
                };
                Some(Request::WriteByte { register, value: self.merged(change).bits })
            },
            Phase::Sampling => Some(Request::ReadBlock { register: TEMP_DATA1, len: BURST_LEN }),
        }
    }

    /// Moves to `phase` with everything else kept.
    fn enter(&mut self, phase: Phase)
        requires
            old(self)@.at(phase).wf(),
        ensures
            final(self)@ == old(self)@.at(phase),
    {
        *self = Icm42688p {
            phase,
            accel_config_0: self.accel_config_0,
            accel_res: self.accel_res,
            gyro_config_0: self.gyro_config_0,
            gyro_res: self.gyro_res,
            sample: self.sample,
        };
    }

    /// Begins an operation if the driver is ready for one.
    fn begin(&mut self, phase: Phase) -> (outcome: Result<(), Error>)
        requires
            !(phase is Starting),
            phase matches Phase::Configuring(change) ==> change.allowed(),
        ensures
            final(self)@ == old(self)@.begin(phase),
            outcome is Ok <==> old(self)@.phase is Ready,
            outcome is Err ==> outcome == Err::<(), Error>(Error::NotReady),
    {
        proof {
            use_type_invariant(&*self);
            lemma_begin_keeps_wf(self@, phase);
        }
        if self.is_ready() {
            self.enter(phase);
            Ok(())
        } else {
            Err(Error::NotReady)
        }
    }

    /// Takes the answer to the pending request.
    ///
    /// A reply that answers the request moves the operation on: to its
    /// next request, or to its end, where the cache, the resolution or
    /// the sample is brought up to date.  Any other reply, a failure of
    /// the transport or a block of the wrong length among them, ends the
    /// operation with `Error::Transport` and nothing else changed; in
    /// start-up it leaves the driver dead.  An identity byte other than
    /// the sensor's gives `Error::DeviceNotFound` and a dead driver.  With
    /// no request pending the reply is refused with `Error::NotReady`.
    pub fn reply(&mut self, reply: &Reply) -> (outcome: Result<(), Error>)
        ensures
            final(self)@ == old(self)@.after(*reply),
            outcome == old(self)@.outcome(*reply),
            final(self)@.wf(),
    {
        proof {
            use_type_invariant(&*self);
            lemma_after_keeps_wf(self@, *reply);
        }
        match (self.phase, reply) {
            (Phase::Ready, _) | (Phase::Dead, _) => Err(Error::NotReady),
            (Phase::Starting(Startup::Identify), Reply::Byte(identity)) => {
                if *identity == DEVICE_ID {
                    self.enter(Phase::Starting(Startup::LoadAccelConfig));
                    Ok(())
                } else {
                    self.enter(Phase::Dead);
                    Err(Error::DeviceNotFound)
                }
            },
            (Phase::Starting(Startup::LoadAccelConfig), Reply::Byte(config)) => {
                *self = Icm42688p {
                    phase: Phase::Starting(Startup::LoadGyroConfig),
                    accel_config_0: ConfigRegister { bits: *config },
                    accel_res: self.accel_res,
                    gyro_config_0: self.gyro_config_0,
                    gyro_res: self.gyro_res,
                    sample: self.sample,
                };
                Ok(())
            },
            (Phase::Starting(Startup::LoadGyroConfig), Reply::Byte(config)) => {
                *self = Icm42688p {
                    phase: Phase::Starting(Startup::SoftReset),
                    accel_config_0: self.accel_config_0,
                    accel_res: self.accel_res,
                    gyro_config_0: ConfigRegister { bits: *config },
                    gyro_res: self.gyro_res,
                    sample: self.sample,
                };
                Ok(())
            },
            (Phase::Starting(Startup::SoftReset), Reply::Written) => {
                self.enter(Phase::Starting(Startup::Settle));
                Ok(())
            },
            (Phase::Starting(Startup::Settle), Reply::Elapsed) => {
                self.enter(Phase::Starting(Startup::SelectBank));
                Ok(())
            },
            (Phase::Starting(Startup::SelectBank), Reply::Written) => {
                self.enter(Phase::Starting(Startup::PowerUp));
                Ok(())
            },
            (Phase::Starting(Startup::PowerUp), Reply::Written) => {
                self.enter(Phase::Ready);
                Ok(())
            },
            (Phase::Starting(_), _) => {
                self.enter(Phase::Dead);
                Err(Error::Transport)
            },
            (Phase::Interrupts(InterruptSetup::SetMode), Reply::Written) => {
                self.enter(Phase::Interrupts(InterruptSetup::ReadBack));
                Ok(())
            },
            (Phase::Interrupts(InterruptSetup::ReadBack), Reply::Byte(config)) => {
                self.enter(Phase::Interrupts(InterruptSetup::ClearAsyncReset(*config)));
                Ok(())
            },
            (Phase::Interrupts(InterruptSetup::ClearAsyncReset(_)), Reply::Written) => {
                self.enter(Phase::Interrupts(InterruptSetup::Route));
                Ok(())
            },
            (Phase::Interrupts(InterruptSetup::Route), Reply::Written) => {
                self.enter(Phase::Ready);
                Ok(())
            },
            (Phase::Configuring(change), Reply::Written) => {
                let config = self.merged(change);
                *self = match change {
                    Change::AccelScale(scale) => Icm42688p {
                        phase: Phase::Ready,
                        accel_config_0: config,
                        accel_res: scale.resolution(),
                        gyro_config_0: self.gyro_config_0,
                        gyro_res: self.gyro_res,
                        sample: self.sample,
                    },
                    Change::AccelRate(_) => Icm42688p {
                        phase: Phase::Ready,
                        accel_config_0: config,
                        accel_res: self.accel_res,
                        gyro_config_0: self.gyro_config_0,
                        gyro_res: self.gyro_res,
                        sample: self.sample,
                    },
                    Change::GyroScale(scale) => Icm42688p {
                        phase: Phase::Ready,
                        accel_config_0: self.accel_config_0,
                        accel_res: self.accel_res,
                        gyro_config_0: config,
                        gyro_res: scale.resolution(),
                        sample: self.sample,
                    },
                    Change::GyroRate(_) => Icm42688p {
                        phase: Phase::Ready,
                        accel_config_0: self.accel_config_0,
                        accel_res: self.accel_res,
                        gyro_config_0: config,
                        gyro_res: self.gyro_res,
                        sample: self.sample,
                    },
                };
                Ok(())
            },
            (Phase::Sampling, Reply::Block(block)) => {
                match Sample::decode(block.as_slice(), self.accel_res, self.gyro_res) {
                    Some(sample) => {
                        *self = Icm42688p {
                            phase: Phase::Ready,
                            accel_config_0: self.accel_config_0,
                            accel_res: self.accel_res,
                            gyro_config_0: self.gyro_config_0,
                            gyro_res: self.gyro_res,
                            sample,
                        };
                        Ok(())
                    },
                    None => {
                        self.enter(Phase::Ready);
                        Err(Error::Transport)
                    },
                }
            },
            _ => {
                self.enter(Phase::Ready);
                Err(Error::Transport)
            },
        }
    }

    /// Begins interrupt set-up: both pins active high, push-pull and
    /// pulsed; the asynchronous-reset bit cleared in the byte read back;
    /// reset-done and data-ready routed to the first pin.  Refused with
    /// `Error::NotReady`, and nothing changed, unless the driver is ready.
    pub fn enable_data_interuption(&mut self) -> (outcome: Result<(), Error>)
        ensures
            final(self)@ == old(self)@.begin(Phase::Interrupts(InterruptSetup::SetMode)),
            outcome is Ok <==> old(self)@.phase is Ready,
            outcome is Err ==> outcome == Err::<(), Error>(Error::NotReady),
            final(self)@.wf(),
    {
        let outcome = self.begin(Phase::Interrupts(InterruptSetup::SetMode));
        proof {
            use_type_invariant(&*self);
        }
        outcome
    }

    /// Begins a change of the accelerometer's range.  Once the write is
    /// acknowledged the cache holds the new range over the old rate, and
    /// the resolution is that of the new range.  Refused with
    /// `Error::NotReady`, and nothing changed, unless the driver is ready.
    pub fn change_accel_scale(&mut self, scale: AccelScale) -> (outcome: Result<(), Error>)
        ensures
            final(self)@ == old(self)@.begin(Phase::Configuring(Change::AccelScale(scale))),
            outcome is Ok <==> old(self)@.phase is Ready,
            outcome is Err ==> outcome == Err::<(), Error>(Error::NotReady),
            final(self)@.wf(),
    {
        let outcome = self.begin(Phase::Configuring(Change::AccelScale(scale)));
        proof {
            use_type_invariant(&*self);
        }
        outcome
    }

    /// Begins a change of the accelerometer's output data rate.  Once the
    /// write is acknowledged the cache holds the new rate under the old
    /// range.  Refused with `Error::NotReady`, and nothing changed, unless
    /// the driver is ready.
    pub fn change_accel_odr(&mut self, odr: SamplingRate) -> (outcome: Result<(), Error>)
        ensures
            final(self)@ == old(self)@.begin(Phase::Configuring(Change::AccelRate(odr))),
            outcome is Ok <==> old(self)@.phase is Ready,
            outcome is Err ==> outcome == Err::<(), Error>(Error::NotReady),
            final(self)@.wf(),
    {
        let outcome = self.begin(Phase::Configuring(Change::AccelRate(odr)));
        proof {
            use_type_invariant(&*self);
        }
        outcome
    }

    /// Begins a change of the gyroscope's range.  Once the write is
    /// acknowledged the cache holds the new range over the old rate, and
    /// the resolution is that of the new range.  Refused with
    /// `Error::NotReady`, and nothing changed, unless the driver is ready.
    pub fn change_gyro_scale(&mut self, scale: GyroScale) -> (outcome: Result<(), Error>)
        ensures
            final(self)@ == old(self)@.begin(Phase::Configuring(Change::GyroScale(scale))),
            outcome is Ok <==> old(self)@.phase is Ready,
            outcome is Err ==> outcome == Err::<(), Error>(Error::NotReady),
            final(self)@.wf(),
    {
        let outcome = self.begin(Phase::Configuring(Change::GyroScale(scale)));
        proof {
            use_type_invariant(&*self);
        }
        outcome
    }

    /// Begins a change of the gyroscope's output data rate.
    ///
    /// The gyroscope cannot run under 12.5 Hz: such a rate is rejected
    /// with `Error::RateRejected` in every state, nothing is changed and
    /// nothing is written.  Any other rate is refused with
    /// `Error::NotReady`, and nothing changed, unless the driver is ready.
    pub fn change_gyro_odr(&mut self, odr: SamplingRate) -> (outcome: Result<(), Error>)
        ensures
            odr.below_gyro_minimum() ==> final(self)@ == old(self)@ && outcome == Err::<(), Error>(
                Error::RateRejected,
            ),
            !odr.below_gyro_minimum() ==> final(self)@ == old(self)@.begin(
                Phase::Configuring(Change::GyroRate(odr)),
            ),
            outcome is Ok <==> !odr.below_gyro_minimum() && old(self)@.phase is Ready,
            outcome is Err && !odr.below_gyro_minimum() ==> outcome == Err::<(), Error>(
                Error::NotReady,
            ),
            final(self)@.wf(),
    {
        proof {
            use_type_invariant(&*self);
        }
        if !odr.gyro_supports() {
            return Err(Error::RateRejected);
        }
        let outcome = self.begin(Phase::Configuring(Change::GyroRate(odr)));
        proof {
            use_type_invariant(&*self);
        }
        outcome
    }

    /// Begins a burst read of temperature, acceleration and angular rate.
    /// The block that answers it replaces the sample, converted at the
    /// resolutions then in force.  Refused with `Error::NotReady`, and
    /// nothing changed, unless the driver is ready.
    pub fn read_data(&mut self) -> (outcome: Result<(), Error>)
        ensures
            final(self)@ == old(self)@.begin(Phase::Sampling),
            outcome is Ok <==> old(self)@.phase is Ready,
            outcome is Err ==> outcome == Err::<(), Error>(Error::NotReady),
            final(self)@.wf(),
    {
        let outcome = self.begin(Phase::Sampling);
        proof {
            use_type_invariant(&*self);
        }
        outcome
    }
}

} // verus!
