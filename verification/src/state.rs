//! The driver as a state machine: which request each state waits on, and
//! where each reply leads.

use vstd::prelude::*;
use crate::bus::{Error, Reply, Request};
use crate::rational::Rational;
use crate::register::{
    clear_async_reset, ConfigRegister, ACCEL_CONFIG0, BANK_0, BANK_SEL, BURST_LEN, DEVICE_CONFIG,
    DEVICE_ID, GYRO_CONFIG0, INT_CONFIG, INT_PULSED_PUSH_PULL, INT_RESET_DONE_AND_DATA_READY,
    INT_SOURCE0, PWR_MGMT0, RESET_SETTLE_MILLIS, SENSORS_ON, SOFT_RESET, TEMP_DATA1, WHO_AM_I,
};
use crate::sample::{decode, SampleView};
use crate::scale::{accel_resolution, gyro_resolution, AccelScale, GyroScale, SamplingRate};

verus! {

/// The steps of start-up, each named after the reply it waits for.
#[derive(Clone, Copy, Debug, PartialEq, Eq, Structural)]
pub enum Startup {
    /// The identity register is being read.
    Identify,
    /// The accelerometer configuration is being read into the cache.
    LoadAccelConfig,
    /// The gyroscope configuration is being read into the cache.
    LoadGyroConfig,
    /// The soft reset is being written.
    SoftReset,
    /// The sensor is completing its reset.
    Settle,
    /// Bank 0 is being selected.
    SelectBank,
    /// Both sensors are being switched on.
    PowerUp,
}

/// The steps of interrupt set-up, each named after the reply it waits for.
#[derive(Clone, Copy, Debug, PartialEq, Eq, Structural)]
pub enum InterruptSetup {
    /// Polarity and drive mode are being written.
    SetMode,
    /// The interrupt configuration is being read back.
    ReadBack,
    /// The byte read back is being written with its asynchronous-reset
    /// bit cleared.
    ClearAsyncReset(u8),
    /// The interrupt sources are being routed to the first pin.
    Route,
}

/// One change of a configuration register.
#[derive(Clone, Copy, Debug, PartialEq, Eq, Structural)]
pub enum Change {
    AccelScale(AccelScale),
    AccelRate(SamplingRate),
    GyroScale(GyroScale),
    GyroRate(SamplingRate),
}

/// What the driver is doing.
#[derive(Clone, Copy, Debug, PartialEq, Eq, Structural)]
pub enum Phase {
    /// Start-up is under way.
    Starting(Startup),
    /// No operation is in flight.
    Ready,
    /// Start-up failed; the driver stays unusable.
    Dead,
    /// Interrupt set-up is under way.
    Interrupts(InterruptSetup),
    /// A configuration write is waiting for its acknowledgement.
    Configuring(Change),
    /// A burst read is waiting for its block.
    Sampling,
}

/// Everything the driver knows.
pub struct State {
    pub phase: Phase,
    /// The accelerometer configuration register as last read or written.
    pub accel_config: ConfigRegister,
    /// The gyroscope configuration register as last read or written.
    pub gyro_config: ConfigRegister,
    /// Units per count of acceleration.
    pub accel_res: Rational,
    /// Degrees per second per count of angular rate.
    pub gyro_res: Rational,
    /// The latest measurement.
    pub sample: SampleView,
}

impl Startup {
    /// What the step asks of the transport.
    pub open spec fn request(self) -> Request {
        match self {
            Startup::Identify => Request::ReadByte { register: WHO_AM_I },
            Startup::LoadAccelConfig => Request::ReadByte { register: ACCEL_CONFIG0 },
            Startup::LoadGyroConfig => Request::ReadByte { register: GYRO_CONFIG0 },
            Startup::SoftReset => Request::WriteByte { register: DEVICE_CONFIG, value: SOFT_RESET },
            Startup::Settle => Request::Delay { millis: RESET_SETTLE_MILLIS },
            Startup::SelectBank => Request::WriteByte { register: BANK_SEL, value: BANK_0 },
            Startup::PowerUp => Request::WriteByte { register: PWR_MGMT0, value: SENSORS_ON },
        }
    }

    /// The phase that follows the step once `reply` has answered it.
    pub open spec fn next(self, reply: Reply) -> Phase {
        match self {
            Startup::Identify => if reply.byte() == DEVICE_ID {
                Phase::Starting(Startup::LoadAccelConfig)
            } else {
                Phase::Dead
            },
            Startup::LoadAccelConfig => Phase::Starting(Startup::LoadGyroConfig),
            Startup::LoadGyroConfig => Phase::Starting(Startup::SoftReset),
            Startup::SoftReset => Phase::Starting(Startup::Settle),
            Startup::Settle => Phase::Starting(Startup::SelectBank),
            Startup::SelectBank => Phase::Starting(Startup::PowerUp),
            Startup::PowerUp => Phase::Ready,
        }
    }
}

impl InterruptSetup {
    /// What the step asks of the transport.
    pub open spec fn request(self) -> Request {
        match self {
            InterruptSetup::SetMode => Request::WriteByte {
                register: INT_CONFIG,
                value: INT_PULSED_PUSH_PULL,
            },
            InterruptSetup::ReadBack => Request::ReadByte { register: INT_CONFIG },
            InterruptSetup::ClearAsyncReset(config) => Request::WriteByte {
                register: INT_CONFIG,
                value: clear_async_reset(config),
            },
            InterruptSetup::Route => Request::WriteByte {
                register: INT_SOURCE0,
                value: INT_RESET_DONE_AND_DATA_READY,
            },
        }
    }

    /// The phase that follows the step once `reply` has answered it.
    pub open spec fn next(self, reply: Reply) -> Phase {
        match self {
            InterruptSetup::SetMode => Phase::Interrupts(InterruptSetup::ReadBack),
            InterruptSetup::ReadBack => Phase::Interrupts(
                InterruptSetup::ClearAsyncReset(reply.byte()),
            ),
            InterruptSetup::ClearAsyncReset(_) => Phase::Interrupts(InterruptSetup::Route),
            InterruptSetup::Route => Phase::Ready,
        }
    }
}

impl Change {
    /// The gyroscope is never asked for a rate under 12.5 Hz.
    pub open spec fn allowed(self) -> bool {
        self matches Change::GyroRate(rate) ==> !rate.below_gyro_minimum()
    }

    /// The configuration register that the change writes.
    pub open spec fn register(self) -> u8 {
        match self {
            Change::AccelScale(_) | Change::AccelRate(_) => ACCEL_CONFIG0,
            Change::GyroScale(_) | Change::GyroRate(_) => GYRO_CONFIG0,
        }
    }

    /// The byte that the change writes: the cached register with one
    /// field replaced.
    pub open spec fn merged(self, state: State) -> ConfigRegister {
        match self {
            Change::AccelScale(scale) => state.accel_config.with_range(scale.code()),
            Change::AccelRate(rate) => state.accel_config.with_rate(rate.select()),
            Change::GyroScale(scale) => state.gyro_config.with_range(scale.code()),
            Change::GyroRate(rate) => state.gyro_config.with_rate(rate.select()),
        }
    }

    /// The state once the write has been acknowledged: the cache holds
    /// the byte written, and a change of range brings its resolution.
    pub open spec fn applied(self, state: State) -> State {
        match self {
            Change::AccelScale(scale) => State {
                phase: Phase::Ready,
                accel_config: self.merged(state),
                accel_res: accel_resolution(scale.code() as int),
                ..state
            },
            Change::AccelRate(_) => State {
                phase: Phase::Ready,
                accel_config: self.merged(state),
                ..state
            },
            Change::GyroScale(scale) => State {
                phase: Phase::Ready,
                gyro_config: self.merged(state),
                gyro_res: gyro_resolution(scale.code() as int),
                ..state
            },
            Change::GyroRate(_) => State {
                phase: Phase::Ready,
                gyro_config: self.merged(state),
                ..state
            },
        }
    }
}

impl State {
    /// The state of a new driver: start-up begins with the identity
    /// check, both resolutions are one unit per count and the sample is
    /// zero.
    pub open spec fn initial() -> State {
        State {
            phase: Phase::Starting(Startup::Identify),
            accel_config: ConfigRegister { bits: 0 },
            gyro_config: ConfigRegister { bits: 0 },
            accel_res: Rational::one(),
            gyro_res: Rational::one(),
            sample: SampleView::zero(),
        }
    }

    /// What holds of every state that a driver can reach.
    ///
    /// A resolution is one unit per count until a range has been set, and
    /// from then on it is the resolution of the range in the cached
    /// register.  No range is set during start-up.  A rate that the
    /// gyroscope cannot run at is never in flight.
    pub open spec fn wf(self) -> bool {
        &&& self.accel_res == Rational::one() || (self.accel_config.range() <= 3 && self.accel_res
            == accel_resolution(self.accel_config.range() as int))
        &&& self.gyro_res == Rational::one() || self.gyro_res == gyro_resolution(
            self.gyro_config.range() as int,
        )
        &&& self.phase is Starting ==> self.accel_res == Rational::one() && self.gyro_res
            == Rational::one()
        &&& self.phase matches Phase::Configuring(change) ==> change.allowed()
        &&& self.accel_res.valid()
        &&& self.gyro_res.valid()
        &&& self.sample.valid()
    }

    /// The request that the state waits on; none when the driver is
    /// ready or dead.
    pub open spec fn request(self) -> Option<Request> {
        match self.phase {
            Phase::Starting(step) => Some(step.request()),
            Phase::Ready | Phase::Dead => None,
            Phase::Interrupts(step) => Some(step.request()),
            Phase::Configuring(change) => Some(
                Request::WriteByte { register: change.register(), value: change.merged(self).bits },
            ),
            Phase::Sampling => Some(Request::ReadBlock { register: TEMP_DATA1, len: BURST_LEN }),
        }
    }

    /// The state moved to `phase`, with everything else kept.
    pub open spec fn at(self, phase: Phase) -> State {
        State { phase, ..self }
    }

    /// The state with an operation begun, if the driver is ready for
    /// one; otherwise the state as it is.
    pub open spec fn begin(self, phase: Phase) -> State {
        if self.phase is Ready {
            self.at(phase)
        } else {
            self
        }
    }

    /// The state after a reply that does not answer the pending request:
    /// the operation is given up with nothing else changed.  Start-up
    /// cannot be given up and tried again, so it leaves the driver dead.
    pub open spec fn abandoned(self) -> State {
        self.at(if self.phase is Starting { Phase::Dead } else { Phase::Ready })
    }

    /// The state after a reply that answers the pending request.
    pub open spec fn advanced(self, reply: Reply) -> State {
        match self.phase {
            Phase::Starting(step) => match step {
                Startup::LoadAccelConfig => State {
                    phase: step.next(reply),
                    accel_config: ConfigRegister { bits: reply.byte() },
                    ..self
                },
                Startup::LoadGyroConfig => State {
                    phase: step.next(reply),
                    gyro_config: ConfigRegister { bits: reply.byte() },
                    ..self
                },
                _ => State { phase: step.next(reply), ..self },
            },
            Phase::Ready | Phase::Dead => self,
            Phase::Interrupts(step) => State { phase: step.next(reply), ..self },
            Phase::Configuring(change) => change.applied(self),
            Phase::Sampling => State {
                phase: Phase::Ready,
                sample: decode(reply.block(), self.accel_res, self.gyro_res),
                ..self
            },
        }
    }

    /// The state after `reply`.
    pub open spec fn after(self, reply: Reply) -> State {
        match self.request() {
            None => self,
            Some(request) => if reply.answers(request) {
                self.advanced(reply)
            } else {
                self.abandoned()
            },
        }
    }

    /// How many requests the operation in flight still has to make, the
    /// pending one included.
    pub open spec fn remaining(self) -> nat {
        match self.phase {
            Phase::Starting(Startup::Identify) => 7,
            Phase::Starting(Startup::LoadAccelConfig) => 6,
            Phase::Starting(Startup::LoadGyroConfig) => 5,
            Phase::Starting(Startup::SoftReset) => 4,
            Phase::Starting(Startup::Settle) => 3,
            Phase::Starting(Startup::SelectBank) => 2,
            Phase::Starting(Startup::PowerUp) => 1,
            Phase::Ready | Phase::Dead => 0,
            Phase::Interrupts(InterruptSetup::SetMode) => 4,
            Phase::Interrupts(InterruptSetup::ReadBack) => 3,
            Phase::Interrupts(InterruptSetup::ClearAsyncReset(_)) => 2,
            Phase::Interrupts(InterruptSetup::Route) => 1,
            Phase::Configuring(_) => 1,
            Phase::Sampling => 1,
        }
    }

    /// The state after `change` has been begun and its write acknowledged.
    pub open spec fn changed(self, change: Change) -> State {
        self.begin(Phase::Configuring(change)).after(Reply::Written)
    }

    /// The state after each of `replies` in turn.
    pub open spec fn run(self, replies: Seq<Reply>) -> State
        decreases replies.len(),
    {
        if replies.len() == 0 {
            self
        } else {
            self.after(replies[0]).run(replies.drop_first())
        }
    }

    /// The requests that `replies` were given to, in order: all that the
    /// driver asks of the transport while it takes them in turn.
    pub open spec fn trace(self, replies: Seq<Reply>) -> Seq<Request>
        decreases replies.len(),
    {
        if replies.len() == 0 {
            Seq::empty()
        } else {
            let rest = self.after(replies[0]).trace(replies.drop_first());
            match self.request() {
                Some(request) => seq![request] + rest,
                None => rest,
            }
        }
    }

    /// What the driver reports for `reply`.
    pub open spec fn outcome(self, reply: Reply) -> Result<(), Error> {
        match self.request() {
            None => Err(Error::NotReady),
            Some(request) => if !reply.answers(request) {
                Err(Error::Transport)
            } else if self.phase == Phase::Starting(Startup::Identify) && reply.byte()
                != DEVICE_ID {
                Err(Error::DeviceNotFound)
            } else {
                Ok(())
            },
        }
    }
}

} // verus!
