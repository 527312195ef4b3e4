//! One spoken request, from cache lookup to playback. The session decides;
//! its driver performs each action (a file read, a vendor call, a file
//! write, a broadcast, a device command) and hands back what came of it.

use crate::audio_cache::{entry_path_in, AudioCache};
use vstd::prelude::*;

verus! {

/// Why a spoken request failed.
#[derive(Debug, Clone, Copy, PartialEq, Eq, Structural)]
pub enum SayError {
    /// The vendor could not synthesize the text (network, auth, quota).
    VendorFailed,
    /// No voice of that name is known.
    UnknownVoice,
    /// The device worker no longer takes commands.
    DeviceUnavailable,
}

/// Where a session stands.
#[derive(Debug, Clone, Copy, PartialEq, Eq, Structural)]
pub enum SayStage {
    AwaitCache,
    AwaitSynthesis,
    AwaitStore,
    AwaitPublish,
    AwaitPlay,
    Finished,
}

/// What came of the last action.
#[derive(Debug)]
pub enum SayEvent {
    CacheHit(Vec<u8>),
    CacheMiss,
    Synthesized(Vec<u8>),
    SynthesisFailed,
    Stored,
    StoreFailed,
    Published,
    PublishFailed,
    Enqueued,
    EnqueueFailed,
}

/// What the driver does next.
#[derive(Debug)]
pub enum SayAction {
    /// Read the cached artifact at this path; a missing file is a miss.
    ReadCache(String),
    /// Ask the vendor to synthesize the request.
    Synthesize,
    /// Write the artifact to this path; a failure is logged, not fatal.
    WriteCache(String, Vec<u8>),
    /// Send the artifact on the broadcast channel; a failure is logged.
    Publish(Vec<u8>),
    /// Send the artifact to the device worker.
    Play(Vec<u8>),
    /// The request is over, with this outcome.
    Finish(Result<(), SayError>),
    /// The event did not fit the stage; nothing to do.
    Wait,
}

/// What came of an action, as the model sees it.
pub enum SayEventView {
    CacheHit(Seq<u8>),
    CacheMiss,
    Synthesized(Seq<u8>),
    SynthesisFailed,
    Stored,
    StoreFailed,
    Published,
    PublishFailed,
    Enqueued,
    EnqueueFailed,
}

/// What the driver does next, as the model sees it.
pub enum SayActionView {
    ReadCache(Seq<char>),
    Synthesize,
    WriteCache(Seq<char>, Seq<u8>),
    Publish(Seq<u8>),
    Play(Seq<u8>),
    Finish(Result<(), SayError>),
    Wait,
}

impl View for SayEvent {
    type V = SayEventView;

    open spec fn view(&self) -> SayEventView {
        match self {
            SayEvent::CacheHit(b) => SayEventView::CacheHit(b@),
            SayEvent::CacheMiss => SayEventView::CacheMiss,
            SayEvent::Synthesized(b) => SayEventView::Synthesized(b@),
            SayEvent::SynthesisFailed => SayEventView::SynthesisFailed,
            SayEvent::Stored => SayEventView::Stored,
            SayEvent::StoreFailed => SayEventView::StoreFailed,
            SayEvent::Published => SayEventView::Published,
            SayEvent::PublishFailed => SayEventView::PublishFailed,
            SayEvent::Enqueued => SayEventView::Enqueued,
            SayEvent::EnqueueFailed => SayEventView::EnqueueFailed,
        }
    }
}

impl View for SayAction {
    type V = SayActionView;

    open spec fn view(&self) -> SayActionView {
        match self {
            SayAction::ReadCache(p) => SayActionView::ReadCache(p@),
            SayAction::Synthesize => SayActionView::Synthesize,
            SayAction::WriteCache(p, b) => SayActionView::WriteCache(p@, b@),
            SayAction::Publish(b) => SayActionView::Publish(b@),
            SayAction::Play(b) => SayActionView::Play(b@),
            SayAction::Finish(r) => SayActionView::Finish(*r),
            SayAction::Wait => SayActionView::Wait,
        }
    }
}

/// A session's state: its stage, the cache file of its key (none for the
/// null cache), whether artifacts are broadcast, and the artifact in hand.
pub struct SaySessionView {
    pub stage: SayStage,
    pub cache_file: Option<Seq<char>>,
    pub broadcast: bool,
    pub audio: Seq<u8>,
}

/// The file that holds `key` in `cache`, if caching is enabled.
pub open spec fn cache_file_of(cache: AudioCache, key: Seq<char>) -> Option<Seq<char>> {
    match cache.directory() {
        Some(dir) => Some(entry_path_in(dir, key)),
        None => None,
    }
}

/// The first step: look in the cache, or go to the vendor when caching is
/// disabled.
pub open spec fn say_begin(cache_file: Option<Seq<char>>, broadcast: bool) -> (SaySessionView, SayActionView) {
    match cache_file {
        Some(f) => (
            SaySessionView { stage: SayStage::AwaitCache, cache_file, broadcast, audio: Seq::empty() },
            SayActionView::ReadCache(f),
        ),
        None => (
            SaySessionView { stage: SayStage::AwaitSynthesis, cache_file, broadcast, audio: Seq::empty() },
            SayActionView::Synthesize,
        ),
    }
}

/// Hands the artifact on: to the broadcast first when it is configured,
/// else straight to the device.
pub open spec fn say_deliver(s: SaySessionView, audio: Seq<u8>) -> (SaySessionView, SayActionView) {
    if s.broadcast {
        (SaySessionView { stage: SayStage::AwaitPublish, audio, ..s }, SayActionView::Publish(audio))
    } else {
        (SaySessionView { stage: SayStage::AwaitPlay, audio, ..s }, SayActionView::Play(audio))
    }
}

/// One step of a session.
pub open spec fn say_next(s: SaySessionView, e: SayEventView) -> (SaySessionView, SayActionView) {
    let finished = SaySessionView { stage: SayStage::Finished, audio: Seq::empty(), ..s };
    match (s.stage, e) {
        (SayStage::AwaitCache, SayEventView::CacheHit(b)) => say_deliver(s, b),
        (SayStage::AwaitCache, SayEventView::CacheMiss) => (
            SaySessionView { stage: SayStage::AwaitSynthesis, ..s },
            SayActionView::Synthesize,
        ),
        (SayStage::AwaitSynthesis, SayEventView::Synthesized(b)) => match s.cache_file {
            Some(f) => (
                SaySessionView { stage: SayStage::AwaitStore, audio: b, ..s },
                SayActionView::WriteCache(f, b),
            ),
            None => say_deliver(s, b),
        },
        (SayStage::AwaitSynthesis, SayEventView::SynthesisFailed) => (
            finished,
            SayActionView::Finish(Err(SayError::VendorFailed)),
        ),
        (SayStage::AwaitStore, SayEventView::Stored) => say_deliver(s, s.audio),
        (SayStage::AwaitStore, SayEventView::StoreFailed) => say_deliver(s, s.audio),
        (SayStage::AwaitPublish, SayEventView::Published) => (
            SaySessionView { stage: SayStage::AwaitPlay, ..s },
            SayActionView::Play(s.audio),
        ),
        (SayStage::AwaitPublish, SayEventView::PublishFailed) => (
            SaySessionView { stage: SayStage::AwaitPlay, ..s },
            SayActionView::Play(s.audio),
        ),
        (SayStage::AwaitPlay, SayEventView::Enqueued) => (finished, SayActionView::Finish(Ok(()))),
        (SayStage::AwaitPlay, SayEventView::EnqueueFailed) => (
            finished,
            SayActionView::Finish(Err(SayError::DeviceUnavailable)),
        ),
        _ => (s, SayActionView::Wait),
    }
}

/// One spoken request in progress.
pub struct SaySession {
    stage: SayStage,
    cache_file: Option<String>,
    broadcast: bool,
    audio: Vec<u8>,
}

impl View for SaySession {
    type V = SaySessionView;

    closed spec fn view(&self) -> SaySessionView {
        SaySessionView {
            stage: self.stage,
            cache_file: match self.cache_file {
                Some(f) => Some(f@),
                None => None,
            },
            broadcast: self.broadcast,
            audio: self.audio@,
        }
    }
}

fn copy_bytes(b: &Vec<u8>) -> (r: Vec<u8>)
    ensures
        r@ == b@,
{
    let mut out: Vec<u8> = Vec::new();
    let mut i: usize = 0;
    while i < b.len()
        invariant
            i <= b@.len(),
            out@ == b@.subrange(0, i as int),
        decreases b@.len() - i,
    {
        out.push(b[i]);
        assert(b@.subrange(0, i as int + 1) =~= b@.subrange(0, i as int).push(b@[i as int]));
        i = i + 1;
    }
    assert(b@.subrange(0, b@.len() as int) =~= b@);
    out
}

impl SaySession {
    /// Starts a request for the artifact cached under `key`; `broadcast`
    /// tells whether a broadcast channel is configured.
    pub fn begin(cache: &AudioCache, key: &str, broadcast: bool) -> (r: (SaySession, SayAction))
        ensures
            (r.0@, r.1@) == say_begin(cache_file_of(*cache, key@), broadcast),
    {
        match cache.entry_path(key) {
            Some(f) => {
                let session = SaySession {
                    stage: SayStage::AwaitCache,
                    cache_file: Some(f.clone()),
                    broadcast,
                    audio: Vec::new(),
                };
                (session, SayAction::ReadCache(f))
            },
            None => {
                let session = SaySession { stage: SayStage::AwaitSynthesis, cache_file: None, broadcast, audio: Vec::new() };
                (session, SayAction::Synthesize)
            },
        }
    }

    /// The stage the session is in.
    pub fn stage(&self) -> (r: SayStage)
        ensures
            r == self@.stage,
    {
        self.stage
    }

    fn deliver(&mut self, audio: Vec<u8>) -> (r: SayAction)
        ensures
            (final(self)@, r@) == say_deliver(old(self)@, audio@),
    {
        if self.broadcast {
            let copy = copy_bytes(&audio);
            self.stage = SayStage::AwaitPublish;
            self.audio = audio;
            SayAction::Publish(copy)
        } else {
            let copy = copy_bytes(&audio);
            self.stage = SayStage::AwaitPlay;
            self.audio = audio;
            SayAction::Play(copy)
        }
    }

    fn finish(&mut self, outcome: Result<(), SayError>) -> (r: SayAction)
        ensures
            final(self)@ == (SaySessionView { stage: SayStage::Finished, audio: Seq::empty(), ..old(self)@ }),
            r@ == SayActionView::Finish(outcome),
    {
        self.stage = SayStage::Finished;
        self.audio = Vec::new();
        SayAction::Finish(outcome)
    }

    /// Takes what came of the last action and says what to do next.
    pub fn step(&mut self, event: SayEvent) -> (r: SayAction)
        ensures
            (final(self)@, r@) == say_next(old(self)@, event@),
    {
        match (self.stage, event) {
            (SayStage::AwaitCache, SayEvent::CacheHit(b)) => self.deliver(b),
            (SayStage::AwaitCache, SayEvent::CacheMiss) => {
                self.stage = SayStage::AwaitSynthesis;
                SayAction::Synthesize
            },
            (SayStage::AwaitSynthesis, SayEvent::Synthesized(b)) => {
                match &self.cache_file {
                    Some(f) => {
                        let path = f.clone();
                        let copy = copy_bytes(&b);
                        self.stage = SayStage::AwaitStore;
                        self.audio = b;
                        SayAction::WriteCache(path, copy)
                    },
                    None => self.deliver(b),
                }
            },
            (SayStage::AwaitSynthesis, SayEvent::SynthesisFailed) => self.finish(Err(SayError::VendorFailed)),
            (SayStage::AwaitStore, SayEvent::Stored) | (SayStage::AwaitStore, SayEvent::StoreFailed) => {
                let mut audio: Vec<u8> = Vec::new();
                std::mem::swap(&mut audio, &mut self.audio);
                self.deliver(audio)
            },
            (SayStage::AwaitPublish, SayEvent::Published) | (SayStage::AwaitPublish, SayEvent::PublishFailed) => {
                self.stage = SayStage::AwaitPlay;
                SayAction::Play(copy_bytes(&self.audio))
            },
            (SayStage::AwaitPlay, SayEvent::Enqueued) => self.finish(Ok(())),
            (SayStage::AwaitPlay, SayEvent::EnqueueFailed) => self.finish(Err(SayError::DeviceUnavailable)),
            _ => SayAction::Wait,
        }
    }
}


/// With a broadcast channel, an artifact is published before it is handed
/// to the device, and it is handed to the device whether or not publishing
/// succeeded.
pub proof fn lemma_publish_before_play(s: SaySessionView, audio: Seq<u8>, published: bool)
    requires
        s.broadcast,
    ensures
        say_deliver(s, audio).1 == SayActionView::Publish(audio),
        say_next(
            say_deliver(s, audio).0,
            if published { SayEventView::Published } else { SayEventView::PublishFailed },
        ).1 == SayActionView::Play(audio),
{
}

/// A world in which every action succeeds: the cache directory holds
/// `files`, and the vendor answers every request with `vendor`.
pub struct SayWorld {
    pub files: Map<Seq<char>, Seq<u8>>,
    pub vendor: Seq<u8>,
}

/// How the world answers an action; a finished or waiting session gets no
/// answer.
pub open spec fn world_answer(w: SayWorld, a: SayActionView) -> (SayWorld, Option<SayEventView>) {
    match a {
        SayActionView::ReadCache(f) => if w.files.contains_key(f) {
            (w, Some(SayEventView::CacheHit(w.files[f])))
        } else {
            (w, Some(SayEventView::CacheMiss))
        },
        SayActionView::Synthesize => (w, Some(SayEventView::Synthesized(w.vendor))),
        SayActionView::WriteCache(f, b) => (SayWorld { files: w.files.insert(f, b), ..w }, Some(SayEventView::Stored)),
        SayActionView::Publish(_) => (w, Some(SayEventView::Published)),
        SayActionView::Play(_) => (w, Some(SayEventView::Enqueued)),
        _ => (w, None),
    }
}

/// The actions a session performs from action `a` on, answered by the
/// world, for at most `fuel` answers; and the world afterwards.
pub open spec fn say_drive(s: SaySessionView, a: SayActionView, w: SayWorld, fuel: nat) -> (Seq<SayActionView>, SayWorld)
    decreases fuel,
{
    if fuel == 0 {
        (seq![a], w)
    } else {
        let (w2, e) = world_answer(w, a);
        match e {
            Some(ev) => {
                let (s2, a2) = say_next(s, ev);
                let (rest, w3) = say_drive(s2, a2, w2, (fuel - 1) as nat);
                (seq![a] + rest, w3)
            },
            None => (seq![a], w2),
        }
    }
}

/// A whole request in the world: every action it performs, and the world
/// afterwards. Six answers take any request to its end.
pub open spec fn say_in_world(w: SayWorld, cache_file: Option<Seq<char>>, broadcast: bool) -> (Seq<SayActionView>, SayWorld) {
    let (s, a) = say_begin(cache_file, broadcast);
    say_drive(s, a, w, 6)
}

/// How many of the actions are vendor calls.
pub open spec fn vendor_calls(acts: Seq<SayActionView>) -> nat
    decreases acts.len(),
{
    if acts.len() == 0 {
        0
    } else {
        (if acts[0] is Synthesize { 1nat } else { 0nat }) + vendor_calls(acts.drop_first())
    }
}

/// How many of the actions read the cache.
pub open spec fn cache_reads(acts: Seq<SayActionView>) -> nat
    decreases acts.len(),
{
    if acts.len() == 0 {
        0
    } else {
        (if acts[0] is ReadCache { 1nat } else { 0nat }) + cache_reads(acts.drop_first())
    }
}

/// The artifacts sent to the device, in order.
pub open spec fn plays(acts: Seq<SayActionView>) -> Seq<Seq<u8>>
    decreases acts.len(),
{
    if acts.len() == 0 {
        Seq::empty()
    } else {
        let rest = plays(acts.drop_first());
        match acts[0] {
            SayActionView::Play(b) => seq![b] + rest,
            _ => rest,
        }
    }
}

proof fn lemma_counts_cons(a: SayActionView, rest: Seq<SayActionView>)
    ensures
        vendor_calls(seq![a] + rest) == (if a is Synthesize { 1nat } else { 0nat }) + vendor_calls(rest),
        cache_reads(seq![a] + rest) == (if a is ReadCache { 1nat } else { 0nat }) + cache_reads(rest),
        plays(seq![a] + rest) == (match a {
            SayActionView::Play(b) => seq![b] + plays(rest),
            _ => plays(rest),
        }),
        rest.len() > 0 ==> (seq![a] + rest).last() == rest.last(),
        rest.len() == 0 ==> (seq![a] + rest).last() == a,
{
    assert((seq![a] + rest).drop_first() =~= rest);
    assert((seq![a] + rest)[0] == a);
}

/// The last steps of a request in the world: publishing if it broadcasts,
/// then playing `audio`, then finishing.
proof fn lemma_delivery_run(s: SaySessionView, audio: Seq<u8>, w: SayWorld, fuel: nat)
    requires
        fuel >= 3,
        s.stage == SayStage::AwaitStore || s.stage == SayStage::AwaitCache || s.stage == SayStage::AwaitSynthesis,
    ensures
        ({
            let (s1, a1) = say_deliver(s, audio);
            let run = say_drive(s1, a1, w, fuel);
            &&& vendor_calls(run.0) == 0
            &&& cache_reads(run.0) == 0
            &&& plays(run.0) == seq![audio]
            &&& run.1 == w
            &&& run.0.last() == SayActionView::Finish(Ok(()))
        }),
{
    let e = Seq::<SayActionView>::empty();
    assert(vendor_calls(e) == 0 && cache_reads(e) == 0 && plays(e) =~= Seq::<Seq<u8>>::empty());
    let (s1, a1) = say_deliver(s, audio);
    if s.broadcast {
        let (s2, a2) = say_next(s1, SayEventView::Published);
        let (s3, a3) = say_next(s2, SayEventView::Enqueued);
        assert(a3 == SayActionView::Finish(Ok(())));
        let t3 = say_drive(s3, a3, w, (fuel - 2) as nat);
        assert(t3.0 == seq![a3] + e);
        lemma_counts_cons(a3, e);
        let t2 = say_drive(s2, a2, w, (fuel - 1) as nat);
        lemma_counts_cons(a2, t3.0);
        lemma_counts_cons(a1, t2.0);
        assert(seq![audio] + Seq::<Seq<u8>>::empty() =~= seq![audio]);
    } else {
        let (s2, a2) = say_next(s1, SayEventView::Enqueued);
        assert(a2 == SayActionView::Finish(Ok(())));
        let t2 = say_drive(s2, a2, w, (fuel - 1) as nat);
        assert(t2.0 == seq![a2] + e);
        lemma_counts_cons(a2, e);
        lemma_counts_cons(a1, t2.0);
        assert(seq![audio] + Seq::<Seq<u8>>::empty() =~= seq![audio]);
    }
}

proof fn lemma_miss_run(f: Seq<char>, broadcast: bool, w: SayWorld)
    requires
        !w.files.contains_key(f),
    ensures
        ({
            let run = say_in_world(w, Some(f), broadcast);
            &&& vendor_calls(run.0) == 1
            &&& cache_reads(run.0) == 1
            &&& plays(run.0) == seq![w.vendor]
            &&& run.1.files == w.files.insert(f, w.vendor)
            &&& run.1.vendor == w.vendor
            &&& run.0.last() == SayActionView::Finish(Ok(()))
        }),
{
    let v = w.vendor;
    let w2 = SayWorld { files: w.files.insert(f, v), ..w };
    let (s0, a0) = say_begin(Some(f), broadcast);
    let (s1, a1) = say_next(s0, SayEventView::CacheMiss);
    let (s2, a2) = say_next(s1, SayEventView::Synthesized(v));
    assert(a2 == SayActionView::WriteCache(f, v));
    assert(world_answer(w, a2).0 == w2);
    lemma_delivery_run(s2, v, w2, 3);
    let t3 = say_drive(s2, a2, w, 4);
    let t4 = say_drive(s1, a1, w, 5);
    let t5 = say_drive(s0, a0, w, 6);
    lemma_counts_cons(a2, say_drive(say_deliver(s2, v).0, say_deliver(s2, v).1, w2, 3).0);
    lemma_counts_cons(a1, t3.0);
    lemma_counts_cons(a0, t4.0);
}

proof fn lemma_hit_run(f: Seq<char>, broadcast: bool, w: SayWorld)
    requires
        w.files.contains_key(f),
    ensures
        ({
            let run = say_in_world(w, Some(f), broadcast);
            &&& vendor_calls(run.0) == 0
            &&& cache_reads(run.0) == 1
            &&& plays(run.0) == seq![w.files[f]]
            &&& run.1 == w
            &&& run.0.last() == SayActionView::Finish(Ok(()))
        }),
{
    let b = w.files[f];
    let (s0, a0) = say_begin(Some(f), broadcast);
    lemma_delivery_run(s0, b, w, 5);
    lemma_counts_cons(a0, say_drive(say_deliver(s0, b).0, say_deliver(s0, b).1, w, 5).0);
}

/// With an enabled cache that does not yet hold the key, saying the same
/// thing twice calls the vendor exactly once and plays twice: the second
/// request reads the artifact that the first one stored.
pub proof fn lemma_cache_effect(cache: AudioCache, key: Seq<char>, w: SayWorld, broadcast: bool)
    requires
        cache.directory().is_some(),
        !w.files.contains_key(cache_file_of(cache, key)->Some_0),
    ensures
        ({
            let first = say_in_world(w, cache_file_of(cache, key), broadcast);
            let second = say_in_world(first.1, cache_file_of(cache, key), broadcast);
            &&& vendor_calls(first.0) + vendor_calls(second.0) == 1
            &&& vendor_calls(second.0) == 0
            &&& cache_reads(second.0) == 1
            &&& plays(first.0) + plays(second.0) == seq![w.vendor, w.vendor]
            &&& first.0.last() == SayActionView::Finish(Ok(()))
            &&& second.0.last() == SayActionView::Finish(Ok(()))
        }),
{
    let f = cache_file_of(cache, key)->Some_0;
    lemma_miss_run(f, broadcast, w);
    let first = say_in_world(w, Some(f), broadcast);
    assert(first.1.files.contains_key(f));
    assert(first.1.files[f] == w.vendor);
    lemma_hit_run(f, broadcast, first.1);
    assert(seq![w.vendor] + seq![w.vendor] =~= seq![w.vendor, w.vendor]);
}

/// With the null cache every request goes to the vendor: the cache is
/// never read nor written, and the artifact is played.
pub proof fn lemma_null_cache(cache: AudioCache, key: Seq<char>, w: SayWorld, broadcast: bool)
    requires
        cache.directory() is None,
    ensures
        cache_file_of(cache, key) is None,
        say_begin(cache_file_of(cache, key), broadcast).1 == SayActionView::Synthesize,
        ({
            let run = say_in_world(w, cache_file_of(cache, key), broadcast);
            &&& vendor_calls(run.0) == 1
            &&& cache_reads(run.0) == 0
            &&& run.1 == w
            &&& plays(run.0) == seq![w.vendor]
            &&& run.0.last() == SayActionView::Finish(Ok(()))
        }),
{
    let v = w.vendor;
    let (s0, a0) = say_begin(None, broadcast);
    lemma_delivery_run(s0, v, w, 5);
    lemma_counts_cons(a0, say_drive(say_deliver(s0, v).0, say_deliver(s0, v).1, w, 5).0);
}

} // verus!
