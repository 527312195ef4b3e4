//! The device worker: the one owner of the audio output device. Commands
//! reach it through a queue and are handled strictly one at a time; this
//! module decides what each command does to the device.

use crate::text::{contains, contains_text};
use vstd::prelude::*;

verus! {

/// Something the device can play: audio bytes in memory, or a file on disk
/// named by its path.
#[derive(Debug, Clone)]
pub enum Playable {
    Buffer(Vec<u8>),
    File(String),
}

/// Volume level for unattenuated output, in thousandths.
pub const FULL_VOLUME: u32 = 1000;

/// A playback or transport command for the device worker.
#[derive(Debug)]
pub enum AudioPlayerCommand {
    /// Append an artifact to the queue of what is played.
    Play(Playable),
    Pause,
    Resume,
    /// Pause output; what is queued stays queued.
    Stop,
    /// Set the volume, in thousandths of full volume.
    Volume(u32),
    /// Tear the device down and acquire it again.
    Restart,
}

/// Whether the worker owns a device, is acquiring one again, or has stopped
/// for good.
#[derive(Debug, Clone, Copy, PartialEq, Eq, Structural)]
pub enum DevicePhase {
    Running,
    Reacquiring,
    Terminated,
}

/// What the worker does to the device for one command.
#[derive(Debug)]
pub enum DeviceAction {
    /// Decode the artifact and append it to the device's queue.
    Append(Playable),
    PauseOutput,
    ResumeOutput,
    SetVolume(u32),
    /// Drop the device and acquire one again, then report the outcome.
    Reacquire,
    /// Nothing: the command is dropped.
    Discard,
}

/// The worker's state: its phase, whether output is paused, the volume in
/// thousandths, and the artifacts handed to the current device, in order.
pub struct DeviceView {
    pub phase: DevicePhase,
    pub paused: bool,
    pub volume: u32,
    pub queue: Seq<Playable>,
}

/// The state of a worker that has just acquired a device.
pub open spec fn fresh_device() -> DeviceView {
    DeviceView { phase: DevicePhase::Running, paused: false, volume: FULL_VOLUME, queue: Seq::empty() }
}

/// What one command does: to the state, and to the device.
pub open spec fn device_next(s: DeviceView, cmd: AudioPlayerCommand) -> (DeviceView, DeviceAction) {
    if s.phase != DevicePhase::Running {
        (s, DeviceAction::Discard)
    } else {
        match cmd {
            AudioPlayerCommand::Play(p) => (DeviceView { queue: s.queue.push(p), ..s }, DeviceAction::Append(p)),
            AudioPlayerCommand::Pause => (DeviceView { paused: true, ..s }, DeviceAction::PauseOutput),
            AudioPlayerCommand::Resume => (DeviceView { paused: false, ..s }, DeviceAction::ResumeOutput),
            AudioPlayerCommand::Stop => (DeviceView { paused: true, ..s }, DeviceAction::PauseOutput),
            AudioPlayerCommand::Volume(v) => (DeviceView { volume: v, ..s }, DeviceAction::SetVolume(v)),
            AudioPlayerCommand::Restart => (
                DeviceView { phase: DevicePhase::Reacquiring, ..s },
                DeviceAction::Reacquire,
            ),
        }
    }
}

/// The state after the outcome of a reacquisition is known: a fresh device,
/// or the end of the worker.
pub open spec fn device_reacquired(s: DeviceView, acquired: bool) -> DeviceView {
    if s.phase != DevicePhase::Reacquiring {
        s
    } else if acquired {
        fresh_device()
    } else {
        DeviceView { phase: DevicePhase::Terminated, ..s }
    }
}

/// The state and the device actions after a sequence of commands.
pub open spec fn device_run(s: DeviceView, cmds: Seq<AudioPlayerCommand>) -> (DeviceView, Seq<DeviceAction>)
    decreases cmds.len(),
{
    if cmds.len() == 0 {
        (s, Seq::empty())
    } else {
        let (s1, a) = device_next(s, cmds[0]);
        let (s2, rest) = device_run(s1, cmds.drop_first());
        (s2, seq![a] + rest)
    }
}

/// The artifacts of the `Play` commands, in order.
pub open spec fn played(cmds: Seq<AudioPlayerCommand>) -> Seq<Playable>
    decreases cmds.len(),
{
    if cmds.len() == 0 {
        Seq::empty()
    } else {
        let rest = played(cmds.drop_first());
        match cmds[0] {
            AudioPlayerCommand::Play(p) => seq![p] + rest,
            _ => rest,
        }
    }
}

/// The artifacts appended to the device, in order.
pub open spec fn appended(actions: Seq<DeviceAction>) -> Seq<Playable>
    decreases actions.len(),
{
    if actions.len() == 0 {
        Seq::empty()
    } else {
        let rest = appended(actions.drop_first());
        match actions[0] {
            DeviceAction::Append(p) => seq![p] + rest,
            _ => rest,
        }
    }
}

/// No command of the sequence is a restart.
pub open spec fn no_restart(cmds: Seq<AudioPlayerCommand>) -> bool {
    forall|i: int| 0 <= i < cmds.len() ==> !(cmds[i] is Restart)
}

/// The worker that owns the output device.
pub struct DeviceWorker {
    phase: DevicePhase,
    paused: bool,
    volume: u32,
    queue: Ghost<Seq<Playable>>,
}

impl View for DeviceWorker {
    type V = DeviceView;

    closed spec fn view(&self) -> DeviceView {
        DeviceView { phase: self.phase, paused: self.paused, volume: self.volume, queue: self.queue@ }
    }
}

impl DeviceWorker {
    /// The worker of a device that was just acquired.
    pub fn new() -> (r: DeviceWorker)
        ensures
            r@ == fresh_device(),
    {
        DeviceWorker { phase: DevicePhase::Running, paused: false, volume: FULL_VOLUME, queue: Ghost(Seq::empty()) }
    }

    /// The worker's phase.
    pub fn phase(&self) -> (r: DevicePhase)
        ensures
            r == self@.phase,
    {
        self.phase
    }

    /// Whether output is paused.
    pub fn is_paused(&self) -> (r: bool)
        ensures
            r == self@.paused,
    {
        self.paused
    }

    /// The volume in thousandths of full volume.
    pub fn volume(&self) -> (r: u32)
        ensures
            r == self@.volume,
    {
        self.volume
    }

    /// Takes one command and says what to do to the device.
    pub fn handle(&mut self, cmd: AudioPlayerCommand) -> (r: DeviceAction)
        ensures
            (final(self)@, r) == device_next(old(self)@, cmd),
    {
        let ghost before = self@;
        if self.phase != DevicePhase::Running {
            return DeviceAction::Discard;
        }
        match cmd {
            AudioPlayerCommand::Play(p) => {
                self.queue = Ghost(self.queue@.push(p));
                DeviceAction::Append(p)
            },
            AudioPlayerCommand::Pause => {
                self.paused = true;
                DeviceAction::PauseOutput
            },
            AudioPlayerCommand::Resume => {
                self.paused = false;
                DeviceAction::ResumeOutput
            },
            AudioPlayerCommand::Stop => {
                self.paused = true;
                DeviceAction::PauseOutput
            },
            AudioPlayerCommand::Volume(v) => {
                self.volume = v;
                DeviceAction::SetVolume(v)
            },
            AudioPlayerCommand::Restart => {
                self.phase = DevicePhase::Reacquiring;
                DeviceAction::Reacquire
            },
        }
    }

    /// Takes the outcome of a reacquisition.
    pub fn reacquired(&mut self, acquired: bool)
        ensures
            final(self)@ == device_reacquired(old(self)@, acquired),
    {
        if self.phase == DevicePhase::Reacquiring {
            if acquired {
                self.phase = DevicePhase::Running;
                self.paused = false;
                self.volume = FULL_VOLUME;
                self.queue = Ghost(Seq::empty());
            } else {
                self.phase = DevicePhase::Terminated;
            }
        }
    }
}

/// Commands without a restart, given to a running worker, append their
/// artifacts to the device in the order they were sent, after what was
/// queued before; the worker stays running.
pub proof fn lemma_fifo_playback(s: DeviceView, cmds: Seq<AudioPlayerCommand>)
    requires
        s.phase == DevicePhase::Running,
        no_restart(cmds),
    ensures
        device_run(s, cmds).0.phase == DevicePhase::Running,
        device_run(s, cmds).0.queue == s.queue + played(cmds),
        appended(device_run(s, cmds).1) == played(cmds),
    decreases cmds.len(),
{
    if cmds.len() == 0 {
        assert(s.queue + Seq::<Playable>::empty() =~= s.queue);
    } else {
        let (s1, a) = device_next(s, cmds[0]);
        let tail = cmds.drop_first();
        assert forall|i: int| 0 <= i < tail.len() implies !(tail[i] is Restart) by {
            assert(tail[i] == cmds[i + 1]);
        }
        lemma_fifo_playback(s1, tail);
        let (s2, rest) = device_run(s1, tail);
        assert((seq![a] + rest).drop_first() =~= rest);
        assert((seq![a] + rest)[0] == a);
        match cmds[0] {
            AudioPlayerCommand::Play(p) => {
                assert(s.queue + played(cmds) =~= s.queue.push(p) + played(tail));
            },
            _ => {},
        }
    }
}

/// Stop pauses output and keeps the queue: after `Play(a)`, `Play(b)`,
/// `Stop`, `Resume`, a running worker has both artifacts queued, in order,
/// and plays again.
pub proof fn lemma_stop_keeps_queue(s: DeviceView, a: Playable, b: Playable)
    requires
        s.phase == DevicePhase::Running,
    ensures
        ({
            let cmds = seq![
                AudioPlayerCommand::Play(a),
                AudioPlayerCommand::Play(b),
                AudioPlayerCommand::Stop,
                AudioPlayerCommand::Resume,
            ];
            let end = device_run(s, cmds).0;
            &&& end.phase == DevicePhase::Running
            &&& end.queue == s.queue + seq![a, b]
            &&& !end.paused
            &&& appended(device_run(s, cmds).1) == seq![a, b]
        }),
{
    let cmds = seq![
        AudioPlayerCommand::Play(a),
        AudioPlayerCommand::Play(b),
        AudioPlayerCommand::Stop,
        AudioPlayerCommand::Resume,
    ];
    let c1 = cmds.drop_first();
    let c2 = c1.drop_first();
    let c3 = c2.drop_first();
    let c4 = c3.drop_first();
    assert(c1 =~= seq![AudioPlayerCommand::Play(b), AudioPlayerCommand::Stop, AudioPlayerCommand::Resume]);
    assert(c2 =~= seq![AudioPlayerCommand::Stop, AudioPlayerCommand::Resume]);
    assert(c3 =~= seq![AudioPlayerCommand::Resume]);
    assert(c4 =~= Seq::<AudioPlayerCommand>::empty());
    assert(played(c4) =~= Seq::<Playable>::empty());
    assert(played(c3) =~= Seq::<Playable>::empty());
    assert(played(c2) =~= Seq::<Playable>::empty());
    assert(played(c1) =~= seq![b]);
    assert(played(cmds) =~= seq![a, b]);
    assert forall|i: int| 0 <= i < cmds.len() implies !(cmds[i] is Restart) by {}
    lemma_fifo_playback(s, cmds);
    let s1 = device_next(s, cmds[0]).0;
    let s2 = device_next(s1, c1[0]).0;
    let s3 = device_next(s2, c2[0]).0;
    let s4 = device_next(s3, c3[0]).0;
    assert(device_run(s4, c4).0 == s4);
    assert(device_run(s3, c3).0 == s4);
    assert(device_run(s2, c2).0 == s4);
    assert(device_run(s1, c1).0 == s4);
    assert(device_run(s, cmds).0 == s4);
    assert(!s4.paused);
}

/// A worker that failed to reacquire a device never acts again: whatever
/// commands follow are discarded and it stays terminated.
pub proof fn lemma_terminated_discards(s: DeviceView, cmds: Seq<AudioPlayerCommand>)
    requires
        s.phase == DevicePhase::Terminated,
    ensures
        device_run(s, cmds).0 == s,
        forall|i: int| 0 <= i < cmds.len() ==> device_run(s, cmds).1[i] is Discard,
        device_run(s, cmds).1.len() == cmds.len(),
        appended(device_run(s, cmds).1) == Seq::<Playable>::empty(),
    decreases cmds.len(),
{
    if cmds.len() > 0 {
        let tail = cmds.drop_first();
        lemma_terminated_discards(s, tail);
        let rest = device_run(s, tail).1;
        let all = seq![DeviceAction::Discard] + rest;
        assert(all.drop_first() =~= rest);
        assert forall|i: int| 0 <= i < cmds.len() implies device_run(s, cmds).1[i] is Discard by {
            if i > 0 {
                assert(all[i] == rest[i - 1]);
            }
        }
    }
}

/// After a restart, a worker that reacquires a device plays what is sent
/// next, in order; one that fails to reacquire ends, and whatever is sent
/// next is never played.
pub proof fn lemma_restart_recovery(s: DeviceView, cmds: Seq<AudioPlayerCommand>, acquired: bool)
    requires
        s.phase == DevicePhase::Running,
        no_restart(cmds),
    ensures
        ({
            let after = device_reacquired(device_next(s, AudioPlayerCommand::Restart).0, acquired);
            &&& acquired ==> after == fresh_device()
                && appended(device_run(after, cmds).1) == played(cmds)
                && device_run(after, cmds).0.queue == played(cmds)
            &&& !acquired ==> after.phase == DevicePhase::Terminated
                && appended(device_run(after, cmds).1) == Seq::<Playable>::empty()
        }),
{
    let after = device_reacquired(device_next(s, AudioPlayerCommand::Restart).0, acquired);
    if acquired {
        lemma_fifo_playback(after, cmds);
        assert(Seq::<Playable>::empty() + played(cmds) =~= played(cmds));
    } else {
        lemma_terminated_discards(after, cmds);
    }
}

/// The name of device `i` holds `pattern`.
pub open spec fn name_matches(names: Seq<String>, pattern: Seq<char>, i: int) -> bool {
    contains_text(names[i]@, pattern)
}

/// Indices below `k` whose name holds the pattern, in order.
pub open spec fn preferred_upto(names: Seq<String>, pattern: Seq<char>, k: int) -> Seq<usize>
    decreases k,
{
    if k <= 0 {
        Seq::empty()
    } else if name_matches(names, pattern, k - 1) {
        preferred_upto(names, pattern, k - 1).push((k - 1) as usize)
    } else {
        preferred_upto(names, pattern, k - 1)
    }
}

/// Indices below `k` whose name does not hold the pattern, other than the
/// default device, in order.
pub open spec fn others_upto(names: Seq<String>, pattern: Seq<char>, default: Option<usize>, k: int) -> Seq<usize>
    decreases k,
{
    if k <= 0 {
        Seq::empty()
    } else if !name_matches(names, pattern, k - 1) && default != Some((k - 1) as usize) {
        others_upto(names, pattern, default, k - 1).push((k - 1) as usize)
    } else {
        others_upto(names, pattern, default, k - 1)
    }
}

/// The order in which output devices are tried: those whose name holds the
/// pattern, then the platform default, then any other.
pub open spec fn device_candidates(names: Seq<String>, pattern: Seq<char>, default: Option<usize>) -> Seq<usize> {
    let n = names.len() as int;
    let fallback = match default {
        Some(d) => if d < n && !name_matches(names, pattern, d as int) { seq![d] } else { Seq::empty() },
        None => Seq::empty(),
    };
    preferred_upto(names, pattern, n) + fallback + others_upto(names, pattern, default, n)
}

/// The order in which to try the output devices named `names`: first those
/// whose name contains `pattern`, then the platform default `default_index`,
/// then the rest.
pub fn select_output_device(names: &Vec<String>, pattern: &str, default_index: Option<usize>) -> (r: Vec<usize>)
    ensures
        r@ == device_candidates(names@, pattern@, default_index),
{
    let mut preferred: Vec<usize> = Vec::new();
    let mut others: Vec<usize> = Vec::new();
    let mut default_matches = false;
    let mut i: usize = 0;
    while i < names.len()
        invariant
            i <= names@.len(),
            preferred@ == preferred_upto(names@, pattern@, i as int),
            others@ == others_upto(names@, pattern@, default_index, i as int),
            default_matches == (match default_index {
                Some(d) => d < i && name_matches(names@, pattern@, d as int),
                None => false,
            }),
        decreases names@.len() - i,
    {
        let m = contains(names[i].as_str(), pattern);
        if m {
            preferred.push(i);
            if default_index == Some(i) {
                default_matches = true;
            }
        } else if default_index != Some(i) {
            others.push(i);
        }
        i = i + 1;
    }
    let mut order = preferred;
    match default_index {
        Some(d) => {
            if d < names.len() && !default_matches {
                order.push(d);
            }
        },
        None => {},
    }
    order.append(&mut others);
    order
}

} // verus!
