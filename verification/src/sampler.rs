//! The boundary to the `rbspy` sampler and to the channels it reports
//! through.
//!
//! Nothing in this module is proved. Each item states what the library
//! relies on of code that the verifier does not read.
use vstd::prelude::*;
use core::time::Duration;
use std::sync::mpsc::{Receiver, Sender, SyncSender};
use std::time::Instant;
use ::rbspy::sampler::Sampler;
use ::rbspy::StackTrace as SampledTrace;
use crate::frame::SampledFrame;

verus! {

/// `rbspy::sampler::Sampler`, the handle of one sampling session. Opaque.
#[verifier::external_type_specification]
#[verifier::external_body]
pub struct ExSampler(Sampler);

/// `rbspy::StackTrace`, a call stack as the sampler queues it. Opaque; what
/// it holds is read through [`sampled_frames`].
#[verifier::external_type_specification]
#[verifier::external_body]
pub struct ExSampledTrace(SampledTrace);

/// `anyhow::Error`, the error of a sampler status. Opaque.
#[verifier::external_type_specification]
#[verifier::external_body]
pub struct ExAnyhowError(anyhow::Error);

/// `std::sync::mpsc::Receiver`, the receiving end of a channel. Opaque.
#[verifier::external_type_specification]
#[verifier::external_body]
#[verifier::reject_recursive_types(T)]
pub struct ExReceiver<T>(Receiver<T>);

/// `std::sync::mpsc::Sender`, the sending end of an unbounded channel.
/// Opaque.
#[verifier::external_type_specification]
#[verifier::external_body]
#[verifier::reject_recursive_types(T)]
pub struct ExSender<T>(Sender<T>);

/// `std::sync::mpsc::SyncSender`, the sending end of a bounded channel.
/// Opaque.
#[verifier::external_type_specification]
#[verifier::external_body]
#[verifier::reject_recursive_types(T)]
pub struct ExSyncSender<T>(SyncSender<T>);

/// `std::time::Instant`, one reading of the monotonic clock. Opaque.
#[verifier::external_type_specification]
#[verifier::external_body]
pub struct ExInstant(Instant);

/// What a sampler was made with.
pub struct SamplerSettings {
    pub pid: i32,
    pub sample_rate: u32,
    pub lock_process: bool,
    pub time_limit: Option<Duration>,
    pub with_subprocesses: bool,
    pub force_version: Option<String>,
    pub on_cpu_only: bool,
}

/// The settings that `sampler` was made with. They never change.
pub uninterp spec fn sampler_settings(sampler: Sampler) -> SamplerSettings;

/// The instant that lies `duration` after `instant`, or `None` where the
/// clock's type on this platform cannot hold it.
pub uninterp spec fn instant_after(instant: Instant, duration: Duration) -> Option<Instant>;

/// The duration of `secs` whole seconds.
pub uninterp spec fn duration_of_secs(secs: u64) -> Duration;

/// The seconds that have to fit behind a sampler's deadline for the sampler
/// to be started: one hour. The sampler reads the clock itself, a moment
/// after the library did, and its deadline has to exist then too.
pub const START_SLACK_SECS: u64 = 3600;

/// Whether a sampler with the time limit `limit` can be started, going by
/// the clock reading `now`: without a limit always, and with one where the
/// clock's type can hold the deadline and the hour behind it.
pub open spec fn deadline_fits(now: Instant, limit: Option<Duration>) -> bool {
    limit matches Some(duration) ==> (instant_after(now, duration) matches Some(deadline)
        && instant_after(deadline, duration_of_secs(START_SLACK_SECS)) is Some)
}

/// The number of slots that the channel behind `receiver` was made with.
pub uninterp spec fn trace_channel_bound(receiver: Receiver<SampledTrace>) -> nat;

/// The frames that `trace` holds, innermost first.
pub uninterp spec fn sampled_frames_of(trace: SampledTrace) -> Seq<SampledFrame>;

/// `rbspy::sampler::Sampler::new` stores its arguments in a new, idle
/// sampler. It samples nothing before it is started.
pub assume_specification[ Sampler::new ](
    pid: ::rbspy::Pid,
    sample_rate: u32,
    lock_process: bool,
    time_limit: Option<Duration>,
    with_subprocesses: bool,
    force_version: Option<String>,
    on_cpu_only: bool,
) -> (sampler: Sampler)
    ensures
        sampler_settings(sampler) == (SamplerSettings {
            pid,
            sample_rate,
            lock_process,
            time_limit,
            with_subprocesses,
            force_version,
            on_cpu_only,
        }),
;

/// `std::time::Instant::now` reads the monotonic clock. Nothing is known of
/// the reading.
pub assume_specification[ Instant::now ]() -> Instant;

/// `std::time::Instant::checked_add` gives the instant that lies `duration`
/// after `instant` where the underlying type can hold it, and `None`
/// otherwise.
pub assume_specification[ Instant::checked_add ](instant: &Instant, duration: Duration) -> (sum:
    Option<Instant>)
    ensures
        sum == instant_after(*instant, duration),
;

/// `core::time::Duration::from_secs` makes the duration of that many whole
/// seconds.
pub assume_specification[ Duration::from_secs ](secs: u64) -> (duration: Duration)
    ensures
        duration == duration_of_secs(secs),
;

/// `rbspy::sampler::Sampler::start` adds the sampler's time limit, where it
/// has one, to the instant at which it is called, spawns the sampling
/// threads, moves the two senders into them and returns `Ok(())`; it has no
/// other return. The addition panics where the clock's type cannot hold the
/// sum. So the caller must have seen the deadline fit with an hour to
/// spare, at some reading of the clock: the call is owed within that hour.
/// What the threads then send is not known here.
#[verifier::external_body]
pub(crate) fn start_sampler(
    sampler: &Sampler,
    trace_sender: SyncSender<SampledTrace>,
    result_sender: Sender<Result<(), anyhow::Error>>,
) -> (r: Result<(), anyhow::Error>)
    requires
        exists|seen: Instant| #[trigger] deadline_fits(seen, sampler_settings(*sampler).time_limit),
    ensures
        r is Ok,
{
    sampler.start(trace_sender, result_sender)
}

/// `rbspy::sampler::Sampler::stop` raises the flag that the sampling threads
/// poll. It returns at once and promises nothing of when they end.
#[verifier::external_body]
pub(crate) fn stop_sampler(sampler: &Sampler) {
    sampler.stop()
}

/// `std::sync::mpsc::channel` makes an unbounded channel. Nothing is known
/// of the two ends but their types.
pub assume_specification<T>[ std::sync::mpsc::channel::<T> ]() -> (Sender<T>, Receiver<T>);

/// `std::sync::mpsc::sync_channel` makes a channel that buffers `bound`
/// items before a send blocks.
#[verifier::external_body]
pub(crate) fn trace_channel(bound: usize) -> (ends: (
    SyncSender<SampledTrace>,
    Receiver<SampledTrace>,
))
    ensures
        trace_channel_bound(ends.1) == bound,
{
    std::sync::mpsc::sync_channel(bound)
}

/// `std::sync::mpsc::Receiver::try_iter` yields the items that are queued
/// now, without blocking, and ends at the first moment the channel is empty
/// or disconnected. Which items those are depends on the sending threads.
#[verifier::external_body]
pub(crate) fn drain<T>(receiver: &Receiver<T>) -> (items: Vec<T>) {
    receiver.try_iter().collect()
}

/// `rbspy::StackTrace::iter` walks the frames of a trace in their stored
/// order, innermost first. Each frame is copied field by field.
#[verifier::external_body]
pub(crate) fn sampled_frames(trace: &SampledTrace) -> (frames: Vec<SampledFrame>)
    ensures
        frames@ == sampled_frames_of(*trace),
{
    trace.iter().map(|frame| SampledFrame {
        name: frame.name.clone(),
        relative_path: frame.relative_path.clone(),
        absolute_path: frame.absolute_path.clone(),
        lineno: frame.lineno,
    }).collect()
}

} // verus!
