//! The backend that drives one `rbspy` sampling session.
use vstd::prelude::*;
use vstd::string::StringExecFns;
use core::time::Duration;
use std::sync::mpsc::Receiver;
use std::time::Instant;
use ::rbspy::sampler::Sampler;
use ::rbspy::StackTrace as SampledTrace;
use crate::config::RbspyConfig;
use crate::error::BackendError;
use crate::formatter::{folded_keys, report_bytes, tally, RbspyFormatter};
use crate::formatter::lemma_tally_counts;
use crate::frame::{folded_key_of, frames_of_sampled, StackTrace};
use crate::sampler::{drain, sampled_frames, sampled_frames_of, sampler_settings};
use crate::sampler::{deadline_fits, START_SLACK_SECS};
use crate::sampler::{start_sampler, stop_sampler, trace_channel, trace_channel_bound};
use crate::sampler::SamplerSettings;
use crate::types::{Backend, State};
use crate::writer::RbspyWriter;

verus! {

/// The number of slots of the stack-trace channel for a sample rate: the
/// rate times 10 times 100, which leaves room for bursts from a hundred
/// threads. Where that does not fit a `usize`, the largest `usize`.
pub open spec fn queue_size_of(sample_rate: u32) -> nat {
    if sample_rate * 10 * 100 <= usize::MAX {
        (sample_rate * 10 * 100) as nat
    } else {
        usize::MAX as nat
    }
}

/// The number of slots of the stack-trace channel for `sample_rate`.
pub fn queue_size(sample_rate: u32) -> (slots: usize)
    ensures
        slots == queue_size_of(sample_rate),
{
    let wide: u64 = sample_rate as u64 * 10 * 100;
    if wide <= usize::MAX as u64 {
        wide as usize
    } else {
        usize::MAX
    }
}

/// The settings of the sampler for `config`, which names a process.
pub open spec fn settings_for(config: RbspyConfig) -> SamplerSettings
    recommends
        config.pid is Some,
{
    SamplerSettings {
        pid: config.pid.unwrap(),
        sample_rate: config.sample_rate,
        lock_process: config.lock_process,
        time_limit: config.time_limit,
        with_subprocesses: config.with_subprocesses,
        force_version: None,
        on_cpu_only: false,
    }
}

/// Whether a sampler with the time limit `limit` can be started, going by
/// the clock reading `now`.
pub fn deadline_fits_at(now: &Instant, limit: &Option<Duration>) -> (fits: bool)
    ensures
        fits == deadline_fits(*now, *limit),
{
    match limit {
        Some(duration) => match now.checked_add(*duration) {
            Some(deadline) => deadline.checked_add(Duration::from_secs(START_SLACK_SECS)).is_some(),
            None => false,
        },
        None => true,
    }
}

/// What `start` returns for a ready backend with a sampler, going by the
/// clock reading `now`.
pub open spec fn start_outcome(now: Instant, limit: Option<Duration>) -> Result<(), BackendError> {
    if deadline_fits(now, limit) {
        Ok(())
    } else {
        Err(BackendError::TimeLimitTooLong)
    }
}

/// The folded keys of the traces that the sampler queued, in order.
pub open spec fn sampled_keys(drained: Seq<SampledTrace>) -> Seq<Seq<char>> {
    drained.map_values(|t: SampledTrace| folded_key_of(frames_of_sampled(sampled_frames_of(t))))
}

/// The traces that the sampler's traces stand for, in the same order.
pub fn traces_from_sampled(drained: &Vec<SampledTrace>) -> (traces: Vec<StackTrace>)
    ensures
        traces@.len() == drained@.len(),
        forall|i: int|
            0 <= i < drained@.len() ==> (#[trigger] traces@[i]).trace@ == frames_of_sampled(
                sampled_frames_of(drained@[i]),
            ),
        folded_keys(traces@) == sampled_keys(drained@),
{
    let mut traces: Vec<StackTrace> = Vec::new();
    let n = drained.len();
    let mut i: usize = 0;
    while i < n
        invariant
            i <= n,
            n == drained@.len(),
            traces@.len() == i,
            forall|j: int|
                0 <= j < i ==> (#[trigger] traces@[j]).trace@ == frames_of_sampled(
                    sampled_frames_of(drained@[j]),
                ),
        decreases n - i,
    {
        traces.push(StackTrace::from_sampled(sampled_frames(&drained[i])));
        i += 1;
    }
    assert(folded_keys(traces@) =~= sampled_keys(drained@));
    traces
}

/// The report for what one drain of the pipeline yielded.
///
/// The traces are counted by folded key and written out, one line for each
/// key in the order of first occurrence. The statuses are diagnostics of the
/// sampler: whatever they hold, failed or not, the report is that of all the
/// traces. Without traces the report is empty.
#[allow(unused_variables)]
pub fn render_report(statuses: &Vec<Result<(), anyhow::Error>>, traces: &Vec<StackTrace>) -> (r:
    Result<Vec<u8>, BackendError>)
    ensures
        r is Ok,
        r.unwrap()@ == report_bytes(tally(folded_keys(traces@))),
        traces@.len() == 0 ==> r.unwrap()@.len() == 0,
{
    let mut outputter = RbspyFormatter::default();
    let n = traces.len();
    let mut i: usize = 0;
    assert(folded_keys(traces@).subrange(0, 0) =~= Seq::<Seq<char>>::empty());
    while i < n
        invariant
            i <= n,
            n == traces@.len(),
            outputter.wf(),
            outputter@ == tally(folded_keys(traces@).subrange(0, i as int)),
        decreases n - i,
    {
        proof {
            let keys = folded_keys(traces@);
            let seen = keys.subrange(0, i as int);
            let now = keys.subrange(0, i + 1);
            lemma_tally_counts(seen, keys[i as int]);
            assert(now.drop_last() =~= seen);
            assert(now.last() == folded_key_of(traces@[i as int].trace@));
        }
        outputter.record(&traces[i])?;
        i += 1;
    }
    assert(folded_keys(traces@).subrange(0, n as int) =~= folded_keys(traces@));
    let mut buffer: Vec<u8> = Vec::new();
    let mut writer = RbspyWriter::new(&mut buffer);
    outputter.complete(&mut writer)?;
    writer.flush()?;
    assert(buffer@ =~= report_bytes(tally(folded_keys(traces@))));
    Ok(buffer)
}

/// The backend for one `rbspy` sampling session.
///
/// It owns the configuration, the sampler once there is one, and the
/// receiving ends of the two channels that the sampler reports through.
#[derive(Debug)]
pub struct Rbspy {
    /// Where the session stands.
    state: State,
    /// What the session was set up with.
    config: RbspyConfig,
    /// The sampler, from `initialize` on.
    sampler: Option<Sampler>,
    /// Where the sampler's stack traces arrive, from `start` on.
    stack_receiver: Option<Receiver<SampledTrace>>,
    /// Where the sampler's statuses arrive, from `start` on.
    error_receiver: Option<Receiver<Result<(), anyhow::Error>>>,
}

impl Default for Rbspy {
    /// An uninitialized backend with the default configuration, which names
    /// no process.
    fn default() -> (backend: Rbspy)
        ensures
            backend.state_of() == State::Uninitialized,
            backend.config_of() == (RbspyConfig {
                pid: None,
                sample_rate: 100,
                lock_process: false,
                time_limit: None,
                with_subprocesses: false,
            }),
            backend.sampler_of() is None,
            backend.stack_receiver_of() is None,
            backend.error_receiver_of() is None,
            backend.wf(),
    {
        Rbspy {
            state: State::Uninitialized,
            config: RbspyConfig::default(),
            sampler: None,
            stack_receiver: None,
            error_receiver: None,
        }
    }
}

impl Rbspy {
    /// The state implies its handles, and a sampler that is there was made
    /// from the configuration.
    #[verifier::type_invariant]
    spec fn inv(self) -> bool {
        &&& self.state != State::Uninitialized ==> self.sampler is Some
        &&& self.state == State::Running ==> self.stack_receiver is Some
            && self.error_receiver is Some
        &&& self.sampler matches Some(sampler) ==> {
            &&& self.config.pid is Some
            &&& sampler_settings(sampler) == settings_for(self.config)
        }
    }

    /// The configuration this backend holds.
    pub closed spec fn config_of(&self) -> RbspyConfig {
        self.config
    }

    /// The sampler, if there is one.
    pub closed spec fn sampler_of(&self) -> Option<Sampler> {
        self.sampler
    }

    /// The receiving end of the stack-trace channel, if there is one.
    pub closed spec fn stack_receiver_of(&self) -> Option<Receiver<SampledTrace>> {
        self.stack_receiver
    }

    /// The receiving end of the status channel, if there is one.
    pub closed spec fn error_receiver_of(&self) -> Option<Receiver<Result<(), anyhow::Error>>> {
        self.error_receiver
    }

    /// The handles that the state implies are there: a sampler in every
    /// state but the first, and both receivers while running.
    pub open spec fn wf(&self) -> bool {
        &&& self.state_of() != State::Uninitialized ==> self.sampler_of() is Some
        &&& self.state_of() == State::Running ==> self.stack_receiver_of() is Some
            && self.error_receiver_of() is Some
    }

    /// An uninitialized backend for `config`.
    pub fn new(config: RbspyConfig) -> (backend: Rbspy)
        ensures
            backend.state_of() == State::Uninitialized,
            backend.config_of() == config,
            backend.sampler_of() is None,
            backend.stack_receiver_of() is None,
            backend.error_receiver_of() is None,
            backend.wf(),
    {
        Rbspy {
            sampler: None,
            stack_receiver: None,
            error_receiver: None,
            state: State::Uninitialized,
            config,
        }
    }
}

impl Backend for Rbspy {
    closed spec fn state_of(&self) -> State {
        self.state
    }

    fn get_state(&self) -> (s: State) {
        self.state
    }

    /// Always `rbspy`.
    fn spy_name(&self) -> (r: Result<String, BackendError>)
        ensures
            r is Ok,
            r.unwrap()@ == "rbspy"@,
    {
        Ok(String::from_str("rbspy"))
    }

    /// The sample rate of the configuration, in any state.
    fn sample_rate(&self) -> (r: Result<u32, BackendError>)
        ensures
            r == Ok::<u32, BackendError>(self.config_of().sample_rate),
    {
        Ok(self.config.sample_rate)
    }

    /// Makes the sampler from the configuration: uninitialized to ready.
    ///
    /// The time limit goes to the sampler as it is. Fails, and changes
    /// nothing, when the backend is not uninitialized or the configuration
    /// names no process.
    fn initialize(&mut self) -> (r: Result<(), BackendError>)
        ensures
            old(self).state_of() != State::Uninitialized ==> r == Err::<(), BackendError>(
                BackendError::AlreadyInitialized,
            ),
            old(self).state_of() == State::Uninitialized && old(self).config_of().pid is None
                ==> r == Err::<(), BackendError>(BackendError::NoProcessId),
            old(self).state_of() == State::Uninitialized && old(self).config_of().pid is Some
                ==> r is Ok,
            r is Err ==> *final(self) == *old(self),
            r is Ok ==> {
                &&& final(self).state_of() == State::Ready
                &&& final(self).config_of() == old(self).config_of()
                &&& final(self).sampler_of() is Some
                &&& sampler_settings(final(self).sampler_of().unwrap()) == settings_for(
                    old(self).config_of(),
                )
                &&& final(self).stack_receiver_of() == old(self).stack_receiver_of()
                &&& final(self).error_receiver_of() == old(self).error_receiver_of()
            },
            final(self).wf(),
    {
        proof {
            use_type_invariant(&*self);
        }
        if self.state != State::Uninitialized {
            return Err(BackendError::AlreadyInitialized);
        }
        let pid = match self.config.pid {
            Some(pid) => pid,
            None => {
                return Err(BackendError::NoProcessId);
            },
        };
        self.sampler = Some(
            Sampler::new(
                pid,
                self.config.sample_rate,
                self.config.lock_process,
                self.config.time_limit,
                self.config.with_subprocesses,
                None,
                false,
            ),
        );
        self.state = State::Ready;
        Ok(())
    }

    /// Opens the pipeline and starts the sampler: ready to running.
    ///
    /// The stack-trace channel gets `queue_size_of` the sample rate slots,
    /// the status channel is unbounded. The sending ends go to the sampler,
    /// the receiving ends replace those of an earlier run.
    ///
    /// Fails, and changes nothing, when the backend is not ready or has no
    /// sampler, and when the clock's type cannot hold the deadline that the
    /// time limit sets: the clock is read once, and `start_outcome` of that
    /// reading is what comes back. Without a time limit a ready backend
    /// always starts.
    fn start(&mut self) -> (r: Result<(), BackendError>)
        ensures
            old(self).state_of() != State::Ready ==> r == Err::<(), BackendError>(
                BackendError::NotReady,
            ),
            old(self).state_of() == State::Ready && old(self).sampler_of() is None ==> r == Err::<
                (),
                BackendError,
            >(BackendError::SamplerNotSet),
            old(self).state_of() == State::Ready && old(self).sampler_of() is Some ==> exists|
                now: Instant,
            | r == #[trigger] start_outcome(now, old(self).config_of().time_limit),
            old(self).state_of() == State::Ready && old(self).sampler_of() is Some && old(
                self,
            ).config_of().time_limit is None ==> r is Ok,
            r is Err ==> *final(self) == *old(self),
            r is Ok ==> {
                &&& final(self).state_of() == State::Running
                &&& final(self).config_of() == old(self).config_of()
                &&& final(self).sampler_of() == old(self).sampler_of()
                &&& final(self).stack_receiver_of() is Some
                &&& final(self).error_receiver_of() is Some
                &&& trace_channel_bound(final(self).stack_receiver_of().unwrap())
                    == queue_size_of(old(self).config_of().sample_rate)
            },
            final(self).wf(),
    {
        proof {
            use_type_invariant(&*self);
        }
        if self.state != State::Ready {
            return Err(BackendError::NotReady);
        }
        let sampler = match &self.sampler {
            Some(sampler) => sampler,
            None => {
                return Err(BackendError::SamplerNotSet);
            },
        };
        let now = Instant::now();
        if !deadline_fits_at(&now, &self.config.time_limit) {
            assert(start_outcome(now, self.config.time_limit) == Err::<(), BackendError>(
                BackendError::TimeLimitTooLong,
            ));
            return Err(BackendError::TimeLimitTooLong);
        }
        assert(start_outcome(now, self.config.time_limit) == Ok::<(), BackendError>(()));
        let (error_sender, error_receiver) = std::sync::mpsc::channel();
        let (stack_sender, stack_receiver) = trace_channel(queue_size(self.config.sample_rate));
        match start_sampler(sampler, stack_sender, error_sender) {
            Ok(()) => {},
            Err(_) => {
                return Err(BackendError::SamplerFailed);
            },
        }
        self.stack_receiver = Some(stack_receiver);
        self.error_receiver = Some(error_receiver);
        self.state = State::Running;
        Ok(())
    }

    /// Tells the sampler to stop: running to ready.
    ///
    /// What is still queued stays queued. Fails, and changes nothing, when
    /// the backend is not running or has no sampler.
    fn stop(&mut self) -> (r: Result<(), BackendError>)
        ensures
            old(self).state_of() != State::Running ==> r == Err::<(), BackendError>(
                BackendError::NotRunning,
            ),
            old(self).state_of() == State::Running && old(self).sampler_of() is None ==> r
                == Err::<(), BackendError>(BackendError::SamplerNotSet),
            old(self).state_of() == State::Running && old(self).sampler_of() is Some ==> r is Ok,
            r is Err ==> *final(self) == *old(self),
            r is Ok ==> {
                &&& final(self).state_of() == State::Ready
                &&& final(self).config_of() == old(self).config_of()
                &&& final(self).sampler_of() == old(self).sampler_of()
                &&& final(self).stack_receiver_of() == old(self).stack_receiver_of()
                &&& final(self).error_receiver_of() == old(self).error_receiver_of()
            },
            final(self).wf(),
    {
        proof {
            use_type_invariant(&*self);
        }
        if self.state != State::Running {
            return Err(BackendError::NotRunning);
        }
        match &self.sampler {
            Some(sampler) => stop_sampler(sampler),
            None => {
                return Err(BackendError::SamplerNotSet);
            },
        }
        self.state = State::Ready;
        Ok(())
    }

    /// Folds what the sampler queued since the last report.
    ///
    /// This is `report_with_statuses` without the statuses: a failed status
    /// is no reason to fail, and the report is that of the traces that were
    /// drained, empty when there were none. Fails when the backend is not
    /// running or lacks a receiver. The backend itself never changes.
    fn report(&mut self) -> (r: Result<Vec<u8>, BackendError>)
        ensures
            *final(self) == *old(self),
            old(self).state_of() != State::Running ==> r == Err::<Vec<u8>, BackendError>(
                BackendError::NotRunning,
            ),
            old(self).state_of() == State::Running && old(self).error_receiver_of() is None ==> r
                == Err::<Vec<u8>, BackendError>(BackendError::ErrorReceiverNotSet),
            old(self).state_of() == State::Running && old(self).error_receiver_of() is Some && old(
                self,
            ).stack_receiver_of() is None ==> r == Err::<Vec<u8>, BackendError>(
                BackendError::StackReceiverNotSet,
            ),
            old(self).state_of() == State::Running && old(self).error_receiver_of() is Some && old(
                self,
            ).stack_receiver_of() is Some ==> r is Ok && exists|drained: Seq<SampledTrace>|
                r.unwrap()@ == report_bytes(tally(#[trigger] sampled_keys(drained))),
    {
        match self.report_with_statuses() {
            Ok((_, report)) => Ok(report),
            Err(error) => Err(error),
        }
    }
}

impl Rbspy {
    /// Folds what the sampler queued since the last report, and hands out
    /// the statuses that were drained with it.
    ///
    /// Both channels are drained without blocking. The statuses come back
    /// as they were queued, for the caller to log the failed ones; none of
    /// them changes the report, which is that of the traces that were
    /// drained and empty when there were none. Fails when the backend is
    /// not running or lacks a receiver. The backend itself never changes.
    pub fn report_with_statuses(&mut self) -> (r: Result<
        (Vec<Result<(), anyhow::Error>>, Vec<u8>),
        BackendError,
    >)
        ensures
            *final(self) == *old(self),
            old(self).state_of() != State::Running ==> r == Err::<
                (Vec<Result<(), anyhow::Error>>, Vec<u8>),
                BackendError,
            >(BackendError::NotRunning),
            old(self).state_of() == State::Running && old(self).error_receiver_of() is None ==> r
                == Err::<(Vec<Result<(), anyhow::Error>>, Vec<u8>), BackendError>(
                BackendError::ErrorReceiverNotSet,
            ),
            old(self).state_of() == State::Running && old(self).error_receiver_of() is Some && old(
                self,
            ).stack_receiver_of() is None ==> r == Err::<
                (Vec<Result<(), anyhow::Error>>, Vec<u8>),
                BackendError,
            >(BackendError::StackReceiverNotSet),
            old(self).state_of() == State::Running && old(self).error_receiver_of() is Some && old(
                self,
            ).stack_receiver_of() is Some ==> r is Ok && exists|drained: Seq<SampledTrace>|
                r.unwrap().1@ == report_bytes(tally(#[trigger] sampled_keys(drained))),
    {
        if self.state != State::Running {
            return Err(BackendError::NotRunning);
        }
        let statuses = match &self.error_receiver {
            Some(receiver) => drain(receiver),
            None => {
                return Err(BackendError::ErrorReceiverNotSet);
            },
        };
        let drained = match &self.stack_receiver {
            Some(receiver) => drain(receiver),
            None => {
                return Err(BackendError::StackReceiverNotSet);
            },
        };
        let traces = traces_from_sampled(&drained);
        let report = render_report(&statuses, &traces)?;
        assert(report@ == report_bytes(tally(sampled_keys(drained@))));
        Ok((statuses, report))
    }
}

} // verus!
