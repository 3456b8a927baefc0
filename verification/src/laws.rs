//! What holds of the state machine in every state.

use vstd::prelude::*;
use vstd::arithmetic::power2::{lemma_pow2_pos, pow2};
use crate::bus::{Error, Reply, Request};
use crate::rational::Rational;
use crate::register::{
    clear_async_reset, lemma_field_round_trip, lemma_merge_arithmetic, lemma_merges_independent,
    ConfigRegister, ACCEL_CONFIG0, BANK_0, BANK_SEL, DEVICE_CONFIG, DEVICE_ID, GYRO_CONFIG0,
    INT_CONFIG, INT_PULSED_PUSH_PULL, INT_RESET_DONE_AND_DATA_READY, INT_SOURCE0, PWR_MGMT0,
    RESET_SETTLE_MILLIS, SENSORS_ON, SOFT_RESET, TEMP_DATA1, WHO_AM_I,
};
use crate::sample::decode;
use crate::scale::{accel_resolution, gyro_resolution, AccelScale, GyroScale, SamplingRate};
use crate::state::{Change, InterruptSetup, Phase, State};

verus! {

/// Every resolution that a range can bring is a fraction with a positive
/// denominator.
pub proof fn lemma_resolutions_valid(code: int)
    requires
        0 <= code,
    ensures
        accel_resolution(code).valid(),
        gyro_resolution(code).valid(),
{
    lemma_pow2_pos(code as nat);
    assert(32768 * (pow2(code as nat) as int) > 0) by (nonlinear_arith)
        requires
            pow2(code as nat) > 0,
    ;
}

/// A burst decoded at valid resolutions is a valid sample.
pub proof fn lemma_decode_valid(block: Seq<u8>, accel: Rational, gyro: Rational)
    requires
        accel.valid(),
        gyro.valid(),
    ensures
        decode(block, accel, gyro).valid(),
{
}

/// An acknowledged change leaves a well-formed state: a new range is in
/// the cache together with its resolution, and a new rate leaves the range
/// and its resolution alone.
pub proof fn lemma_applied_keeps_wf(state: State, change: Change)
    requires
        state.wf(),
        change.allowed(),
    ensures
        change.applied(state).wf(),
{
    match change {
        Change::AccelScale(scale) => {
            lemma_field_round_trip(state.accel_config, scale.code(), scale.code());
            lemma_resolutions_valid(scale.code() as int);
        },
        Change::AccelRate(rate) => {
            lemma_merges_independent(state.accel_config, 0, rate.select());
        },
        Change::GyroScale(scale) => {
            lemma_field_round_trip(state.gyro_config, scale.code(), scale.code());
            lemma_resolutions_valid(scale.code() as int);
        },
        Change::GyroRate(rate) => {
            lemma_merges_independent(state.gyro_config, 0, rate.select());
        },
    }
}

/// No reply leads out of the well-formed states.
pub proof fn lemma_after_keeps_wf(state: State, reply: Reply)
    requires
        state.wf(),
    ensures
        state.after(reply).wf(),
{
    match state.phase {
        Phase::Configuring(change) => {
            lemma_applied_keeps_wf(state, change);
        },
        Phase::Sampling => {
            lemma_decode_valid(reply.block(), state.accel_res, state.gyro_res);
        },
        _ => {},
    }
}

/// A new driver is well-formed, and whatever replies a well-formed driver
/// is given, it stays so.
pub proof fn lemma_run_keeps_wf(state: State, replies: Seq<Reply>)
    requires
        state.wf(),
    ensures
        State::initial().wf(),
        state.run(replies).wf(),
    decreases replies.len(),
{
    if replies.len() > 0 {
        lemma_after_keeps_wf(state, replies[0]);
        lemma_run_keeps_wf(state.after(replies[0]), replies.drop_first());
    }
}

/// Beginning an operation that is allowed leads to a well-formed state.
pub proof fn lemma_begin_keeps_wf(state: State, phase: Phase)
    requires
        state.wf(),
        !(phase is Starting),
        phase matches Phase::Configuring(change) ==> change.allowed(),
    ensures
        state.begin(phase).wf(),
{
}

/// The replies of a start-up in which every transaction succeeds: the
/// sensor's identity, the two configuration bytes, and an acknowledgement
/// for the reset, the delay, the bank selection and the power write.
pub open spec fn startup_replies(accel: u8, gyro: u8) -> Seq<Reply> {
    seq![
        Reply::Byte(DEVICE_ID),
        Reply::Byte(accel),
        Reply::Byte(gyro),
        Reply::Written,
        Reply::Elapsed,
        Reply::Written,
        Reply::Written,
    ]
}

/// The state of a driver whose start-up has run through with the two
/// configuration bytes `accel` and `gyro`.
pub open spec fn started(accel: u8, gyro: u8) -> State {
    State {
        phase: Phase::Ready,
        accel_config: ConfigRegister { bits: accel },
        gyro_config: ConfigRegister { bits: gyro },
        ..State::initial()
    }
}

/// The replies of an interrupt set-up in which every transaction
/// succeeds and the register reads back as `readback`.
pub open spec fn interrupt_replies(readback: u8) -> Seq<Reply> {
    seq![Reply::Written, Reply::Byte(readback), Reply::Written, Reply::Written]
}

/// Taking a first reply and then the rest is taking them all.
pub proof fn lemma_run_unfolds(state: State, first: Reply, rest: Seq<Reply>)
    ensures
        state.run(seq![first] + rest) == state.after(first).run(rest),
        state.trace(seq![first] + rest) == match state.request() {
            Some(request) => seq![request] + state.after(first).trace(rest),
            None => state.after(first).trace(rest),
        },
{
    let all = seq![first] + rest;
    assert(all[0] == first);
    assert(all.drop_first() =~= rest);
}

/// Every operation ends.  Each reply to a pending request brings the
/// operation at least one request nearer to its end, which is at most
/// seven requests away; an operation that succeeds makes exactly the
/// requests that were left.
pub proof fn lemma_every_reply_makes_progress(state: State, reply: Reply)
    ensures
        state.remaining() <= 7,
        state.remaining() == 0 <==> state.request() is None,
        state.request() is Some ==> state.after(reply).remaining() < state.remaining(),
        state.request() is Some && state.outcome(reply) is Ok ==> state.after(reply).remaining()
            == state.remaining() - 1,
        state.outcome(reply) is Err ==> state.after(reply).remaining() == 0,
{
}

/// A driver with nothing pending ignores replies: whatever arrives, it
/// stays as it is and asks nothing of the transport.
pub proof fn lemma_idle_ignores_replies(state: State, replies: Seq<Reply>)
    requires
        state.request() is None,
    ensures
        state.run(replies) == state,
        state.trace(replies) == Seq::<Request>::empty(),
    decreases replies.len(),
{
    if replies.len() > 0 {
        lemma_idle_ignores_replies(state, replies.drop_first());
    }
}

/// A dead driver stays dead: it has no request, no reply moves it, and
/// it begins no operation.
pub proof fn lemma_dead_is_final(state: State, reply: Reply, phase: Phase)
    requires
        state.phase is Dead,
    ensures
        state.request() is None,
        state.after(reply) == state,
        state.outcome(reply) == Err::<(), Error>(Error::NotReady),
        state.begin(phase) == state,
{
}

/// An identity byte other than the sensor's ends start-up at once.  The
/// driver reports that the device was not found and is dead, and however
/// many replies follow, the read of the identity register remains the
/// only thing it ever asked of the transport: nothing is written.
pub proof fn lemma_wrong_identity_writes_nothing(identity: u8, later: Seq<Reply>)
    requires
        identity != DEVICE_ID,
    ensures
        State::initial().outcome(Reply::Byte(identity)) == Err::<(), Error>(Error::DeviceNotFound),
        State::initial().after(Reply::Byte(identity)) == State::initial().at(Phase::Dead),
        State::initial().run(seq![Reply::Byte(identity)] + later) == State::initial().at(
            Phase::Dead,
        ),
        State::initial().trace(seq![Reply::Byte(identity)] + later) == seq![
            Request::ReadByte { register: WHO_AM_I },
        ],
{
    let first = Reply::Byte(identity);
    let dead = State::initial().after(first);
    lemma_run_unfolds(State::initial(), first, later);
    lemma_idle_ignores_replies(dead, later);
    assert(seq![Request::ReadByte { register: WHO_AM_I }] + Seq::<Request>::empty() =~= seq![
        Request::ReadByte { register: WHO_AM_I },
    ]);
}

/// Start-up, when every transaction succeeds and the identity matches:
/// the driver reads the identity and the two configuration registers,
/// resets the sensor, waits for it to settle, selects bank 0 and switches
/// both sensors on, in this order and nothing else.  It is then ready,
/// with the two bytes read in its cache.
pub proof fn lemma_startup_sequence(accel: u8, gyro: u8)
    ensures
        State::initial().trace(startup_replies(accel, gyro)) == seq![
            Request::ReadByte { register: WHO_AM_I },
            Request::ReadByte { register: ACCEL_CONFIG0 },
            Request::ReadByte { register: GYRO_CONFIG0 },
            Request::WriteByte { register: DEVICE_CONFIG, value: SOFT_RESET },
            Request::Delay { millis: RESET_SETTLE_MILLIS },
            Request::WriteByte { register: BANK_SEL, value: BANK_0 },
            Request::WriteByte { register: PWR_MGMT0, value: SENSORS_ON },
        ],
        State::initial().run(startup_replies(accel, gyro)) == started(accel, gyro),
        started(accel, gyro).wf(),
{
    let s0 = State::initial();
    let s1 = s0.after(Reply::Byte(DEVICE_ID));
    let s2 = s1.after(Reply::Byte(accel));
    let s3 = s2.after(Reply::Byte(gyro));
    let s4 = s3.after(Reply::Written);
    let s5 = s4.after(Reply::Elapsed);
    let s6 = s5.after(Reply::Written);
    let s7 = s6.after(Reply::Written);
    let r6 = seq![Reply::Written];
    let r5 = seq![Reply::Written, Reply::Written];
    let r4 = seq![Reply::Elapsed, Reply::Written, Reply::Written];
    let r3 = seq![Reply::Written, Reply::Elapsed, Reply::Written, Reply::Written];
    let r2 = seq![Reply::Byte(gyro), Reply::Written, Reply::Elapsed, Reply::Written, Reply::Written];
    let r1 = seq![
        Reply::Byte(accel),
        Reply::Byte(gyro),
        Reply::Written,
        Reply::Elapsed,
        Reply::Written,
        Reply::Written,
    ];
    let r0 = startup_replies(accel, gyro);
    assert(r6 =~= seq![Reply::Written] + Seq::<Reply>::empty());
    assert(r5 =~= seq![Reply::Written] + r6);
    assert(r4 =~= seq![Reply::Elapsed] + r5);
    assert(r3 =~= seq![Reply::Written] + r4);
    assert(r2 =~= seq![Reply::Byte(gyro)] + r3);
    assert(r1 =~= seq![Reply::Byte(accel)] + r2);
    assert(r0 =~= seq![Reply::Byte(DEVICE_ID)] + r1);
    lemma_run_unfolds(s6, Reply::Written, Seq::<Reply>::empty());
    lemma_run_unfolds(s5, Reply::Written, r6);
    lemma_run_unfolds(s4, Reply::Elapsed, r5);
    lemma_run_unfolds(s3, Reply::Written, r4);
    lemma_run_unfolds(s2, Reply::Byte(gyro), r3);
    lemma_run_unfolds(s1, Reply::Byte(accel), r2);
    lemma_run_unfolds(s0, Reply::Byte(DEVICE_ID), r1);
    assert(s7 == started(accel, gyro));
    assert(s0.trace(r0) =~= seq![
        Request::ReadByte { register: WHO_AM_I },
        Request::ReadByte { register: ACCEL_CONFIG0 },
        Request::ReadByte { register: GYRO_CONFIG0 },
        Request::WriteByte { register: DEVICE_CONFIG, value: SOFT_RESET },
        Request::Delay { millis: RESET_SETTLE_MILLIS },
        Request::WriteByte { register: BANK_SEL, value: BANK_0 },
        Request::WriteByte { register: PWR_MGMT0, value: SENSORS_ON },
    ]);
}

/// Interrupt set-up, when every transaction succeeds: the driver writes
/// the pin mode, reads the register back, writes what it read with only
/// the asynchronous-reset bit cleared, and routes the two sources, in
/// this order and nothing else.  It is then ready again, and its cache,
/// resolutions and sample are as before.
pub proof fn lemma_interrupt_sequence(state: State, readback: u8)
    requires
        state.phase is Ready,
    ensures
        state.begin(Phase::Interrupts(InterruptSetup::SetMode)).trace(interrupt_replies(readback))
            == seq![
            Request::WriteByte { register: INT_CONFIG, value: INT_PULSED_PUSH_PULL },
            Request::ReadByte { register: INT_CONFIG },
            Request::WriteByte { register: INT_CONFIG, value: clear_async_reset(readback) },
            Request::WriteByte { register: INT_SOURCE0, value: INT_RESET_DONE_AND_DATA_READY },
        ],
        state.begin(Phase::Interrupts(InterruptSetup::SetMode)).run(interrupt_replies(readback))
            == state,
{
    let s0 = state.begin(Phase::Interrupts(InterruptSetup::SetMode));
    let s1 = s0.after(Reply::Written);
    let s2 = s1.after(Reply::Byte(readback));
    let s3 = s2.after(Reply::Written);
    let s4 = s3.after(Reply::Written);
    let r3 = seq![Reply::Written];
    let r2 = seq![Reply::Written, Reply::Written];
    let r1 = seq![Reply::Byte(readback), Reply::Written, Reply::Written];
    let r0 = interrupt_replies(readback);
    assert(r3 =~= seq![Reply::Written] + Seq::<Reply>::empty());
    assert(r2 =~= seq![Reply::Written] + r3);
    assert(r1 =~= seq![Reply::Byte(readback)] + r2);
    assert(r0 =~= seq![Reply::Written] + r1);
    lemma_run_unfolds(s3, Reply::Written, Seq::<Reply>::empty());
    lemma_run_unfolds(s2, Reply::Written, r3);
    lemma_run_unfolds(s1, Reply::Byte(readback), r2);
    lemma_run_unfolds(s0, Reply::Written, r1);
    assert(s4 == state);
    assert(s0.trace(r0) =~= seq![
        Request::WriteByte { register: INT_CONFIG, value: INT_PULSED_PUSH_PULL },
        Request::ReadByte { register: INT_CONFIG },
        Request::WriteByte { register: INT_CONFIG, value: clear_async_reset(readback) },
        Request::WriteByte { register: INT_SOURCE0, value: INT_RESET_DONE_AND_DATA_READY },
    ]);
}

/// A change that is begun asks for one write: of the cached register
/// with the one field replaced, to the register that it came from.  Once
/// acknowledged, that byte is the cache.
pub proof fn lemma_change_writes_what_it_caches(state: State, change: Change)
    requires
        state.phase is Ready,
    ensures
        state.begin(Phase::Configuring(change)).request() == Some(
            Request::WriteByte { register: change.register(), value: change.merged(state).bits },
        ),
        state.changed(change) == change.applied(state),
        state.changed(change).phase is Ready,
        change.register() == ACCEL_CONFIG0 ==> state.changed(change).accel_config
            == change.merged(state),
        change.register() == GYRO_CONFIG0 ==> state.changed(change).gyro_config == change.merged(
            state,
        ),
{
}

/// A change of the accelerometer's range: afterwards the cached register
/// decodes to the new range over the rate that was there, the resolution
/// is that of the new range, and nothing else has changed.
pub proof fn lemma_accel_scale_changed(state: State, scale: AccelScale)
    requires
        state.phase is Ready,
    ensures
        state.changed(Change::AccelScale(scale)).accel_config.range() == scale.code(),
        AccelScale::decode(state.changed(Change::AccelScale(scale)).accel_config.range()) == Some(
            scale,
        ),
        state.changed(Change::AccelScale(scale)).accel_config.rate() == state.accel_config.rate(),
        state.changed(Change::AccelScale(scale)).accel_config.bits == scale.code() * 32
            + state.accel_config.bits % 32,
        state.changed(Change::AccelScale(scale)).accel_res == accel_resolution(scale.code() as int),
        state.changed(Change::AccelScale(scale)) == (State {
            accel_config: state.changed(Change::AccelScale(scale)).accel_config,
            accel_res: state.changed(Change::AccelScale(scale)).accel_res,
            ..state
        }),
{
    let code = scale.code();
    lemma_merges_independent(state.accel_config, code, 0);
    lemma_field_round_trip(state.accel_config, code, code);
    lemma_merge_arithmetic(state.accel_config, code, 0);
}

/// A change of the gyroscope's range: afterwards the cached register
/// decodes to the new range over the rate that was there, the resolution
/// is that of the new range, and nothing else has changed.
pub proof fn lemma_gyro_scale_changed(state: State, scale: GyroScale)
    requires
        state.phase is Ready,
    ensures
        state.changed(Change::GyroScale(scale)).gyro_config.range() == scale.code(),
        GyroScale::decode(state.changed(Change::GyroScale(scale)).gyro_config.range()) == Some(
            scale,
        ),
        state.changed(Change::GyroScale(scale)).gyro_config.rate() == state.gyro_config.rate(),
        state.changed(Change::GyroScale(scale)).gyro_config.bits == scale.code() * 32
            + state.gyro_config.bits % 32,
        state.changed(Change::GyroScale(scale)).gyro_res == gyro_resolution(scale.code() as int),
        state.changed(Change::GyroScale(scale)) == (State {
            gyro_config: state.changed(Change::GyroScale(scale)).gyro_config,
            gyro_res: state.changed(Change::GyroScale(scale)).gyro_res,
            ..state
        }),
{
    let code = scale.code();
    lemma_merges_independent(state.gyro_config, code, 0);
    lemma_field_round_trip(state.gyro_config, code, code);
    lemma_merge_arithmetic(state.gyro_config, code, 0);
}

/// A change of the accelerometer's rate: afterwards the cached register
/// decodes to the new rate under the range that was there, and nothing
/// else has changed, the resolution included.
pub proof fn lemma_accel_rate_changed(state: State, rate: SamplingRate)
    requires
        state.phase is Ready,
    ensures
        state.changed(Change::AccelRate(rate)).accel_config.rate() == rate.code() + 1,
        state.changed(Change::AccelRate(rate)).accel_config.range() == state.accel_config.range(),
        state.changed(Change::AccelRate(rate)).accel_config.bits == (state.accel_config.bits / 16)
            * 16 + rate.code() + 1,
        state.changed(Change::AccelRate(rate)) == (State {
            accel_config: state.changed(Change::AccelRate(rate)).accel_config,
            ..state
        }),
{
    let code = rate.select();
    lemma_merges_independent(state.accel_config, 0, code);
    lemma_field_round_trip(state.accel_config, code, code);
    lemma_merge_arithmetic(state.accel_config, 0, code);
}

/// A change of the gyroscope's rate to one that it can run at:
/// afterwards the cached register decodes to the new rate under the
/// range that was there, and nothing else has changed, the resolution
/// included.
pub proof fn lemma_gyro_rate_changed(state: State, rate: SamplingRate)
    requires
        state.phase is Ready,
        !rate.below_gyro_minimum(),
    ensures
        state.changed(Change::GyroRate(rate)).gyro_config.rate() == rate.code() + 1,
        state.changed(Change::GyroRate(rate)).gyro_config.range() == state.gyro_config.range(),
        state.changed(Change::GyroRate(rate)).gyro_config.bits == (state.gyro_config.bits / 16)
            * 16 + rate.code() + 1,
        state.changed(Change::GyroRate(rate)) == (State {
            gyro_config: state.changed(Change::GyroRate(rate)).gyro_config,
            ..state
        }),
{
    let code = rate.select();
    lemma_merges_independent(state.gyro_config, 0, code);
    lemma_field_round_trip(state.gyro_config, code, code);
    lemma_merge_arithmetic(state.gyro_config, 0, code);
}

/// Range and rate of one sensor may be set in either order: the cached
/// register ends up the same, holding both.
pub proof fn lemma_scale_and_rate_commute(state: State, accel: AccelScale, gyro: GyroScale, rate: SamplingRate)
    requires
        state.phase is Ready,
        !rate.below_gyro_minimum(),
    ensures
        state.changed(Change::AccelScale(accel)).changed(Change::AccelRate(rate)).accel_config
            == state.changed(Change::AccelRate(rate)).changed(Change::AccelScale(accel)).accel_config,
        state.changed(Change::AccelScale(accel)).changed(Change::AccelRate(rate)).accel_config.range()
            == accel.code(),
        state.changed(Change::AccelScale(accel)).changed(Change::AccelRate(rate)).accel_config.rate()
            == rate.code() + 1,
        state.changed(Change::GyroScale(gyro)).changed(Change::GyroRate(rate)).gyro_config
            == state.changed(Change::GyroRate(rate)).changed(Change::GyroScale(gyro)).gyro_config,
        state.changed(Change::GyroScale(gyro)).changed(Change::GyroRate(rate)).gyro_config.range()
            == gyro.code(),
        state.changed(Change::GyroScale(gyro)).changed(Change::GyroRate(rate)).gyro_config.rate()
            == rate.code() + 1,
{
    lemma_merges_independent(state.accel_config, accel.code(), rate.select());
    lemma_merges_independent(state.gyro_config, gyro.code(), rate.select());
}

/// An operation that fails, fails whole: whatever reply the driver
/// reports an error for leaves the cache, the resolutions and the sample
/// exactly as they were.
pub proof fn lemma_failure_changes_no_data(state: State, reply: Reply)
    requires
        state.outcome(reply) is Err,
    ensures
        state.after(reply).accel_config == state.accel_config,
        state.after(reply).gyro_config == state.gyro_config,
        state.after(reply).accel_res == state.accel_res,
        state.after(reply).gyro_res == state.gyro_res,
        state.after(reply).sample == state.sample,
        state.after(reply).request() is None,
{
}

/// The cache follows the transport.  A cached register changes only when
/// a write of that register is acknowledged, and then to the byte
/// written; or, in start-up, when that register has been read, and then
/// to the byte read.
pub proof fn lemma_cache_follows_transport(state: State, reply: Reply)
    ensures
        state.after(reply).accel_config != state.accel_config ==> {
            ||| state.request() == Some(
                Request::WriteByte {
                    register: ACCEL_CONFIG0,
                    value: state.after(reply).accel_config.bits,
                },
            ) && reply is Written
            ||| state.request() == Some(Request::ReadByte { register: ACCEL_CONFIG0 }) && reply
                == Reply::Byte(state.after(reply).accel_config.bits)
        },
        state.after(reply).gyro_config != state.gyro_config ==> {
            ||| state.request() == Some(
                Request::WriteByte {
                    register: GYRO_CONFIG0,
                    value: state.after(reply).gyro_config.bits,
                },
            ) && reply is Written
            ||| state.request() == Some(Request::ReadByte { register: GYRO_CONFIG0 }) && reply
                == Reply::Byte(state.after(reply).gyro_config.bits)
        },
{
}

/// A resolution changes only together with its range: when the write of
/// a new range is acknowledged, and then to the resolution of the range
/// that the cache holds from that moment.
pub proof fn lemma_resolution_follows_range(state: State, reply: Reply)
    ensures
        state.after(reply).accel_res != state.accel_res ==> reply is Written && state.after(
            reply,
        ).accel_config.range() <= 3 && state.after(reply).accel_res == accel_resolution(
            state.after(reply).accel_config.range() as int,
        ),
        state.after(reply).gyro_res != state.gyro_res ==> reply is Written && state.after(
            reply,
        ).gyro_res == gyro_resolution(state.after(reply).gyro_config.range() as int),
{
    match state.phase {
        Phase::Configuring(Change::AccelScale(scale)) => {
            lemma_field_round_trip(state.accel_config, scale.code(), scale.code());
        },
        Phase::Configuring(Change::GyroScale(scale)) => {
            lemma_field_round_trip(state.gyro_config, scale.code(), scale.code());
        },
        _ => {},
    }
}

/// A burst read asks for fourteen bytes from the temperature register.
/// A block of fourteen bytes replaces the sample, converted at the
/// resolutions in force, and changes nothing else.  Any other block
/// is a transport error and changes nothing at all.
pub proof fn lemma_read_replaces_sample(state: State, block: Vec<u8>)
    requires
        state.phase is Ready,
    ensures
        state.begin(Phase::Sampling).request() == Some(
            Request::ReadBlock { register: TEMP_DATA1, len: 14 },
        ),
        block@.len() == 14 ==> state.begin(Phase::Sampling).after(Reply::Block(block)) == (State {
            sample: decode(block@, state.accel_res, state.gyro_res),
            ..state
        }) && state.begin(Phase::Sampling).outcome(Reply::Block(block)) is Ok,
        block@.len() != 14 ==> state.begin(Phase::Sampling).after(Reply::Block(block)) == state
            && state.begin(Phase::Sampling).outcome(Reply::Block(block)) == Err::<(), Error>(
            Error::Transport,
        ),
{
}

} // verus!
