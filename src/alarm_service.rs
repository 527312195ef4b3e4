//! The list of daily alarms, kept in order of their time text.

use crate::cache_key::AzureVoiceStyle;
use crate::config::SavedAlarm;
use vstd::prelude::*;

verus! {

/// `a` comes before `b` in the order of their characters' code points.
pub open spec fn text_lt(a: Seq<char>, b: Seq<char>) -> bool
    decreases a.len(),
{
    if a.len() == 0 {
        b.len() > 0
    } else if b.len() == 0 {
        false
    } else if a[0] != b[0] {
        (a[0] as u32) < (b[0] as u32)
    } else {
        text_lt(a.drop_first(), b.drop_first())
    }
}

proof fn lemma_text_lt_transitive(a: Seq<char>, b: Seq<char>, c: Seq<char>)
    requires
        text_lt(a, b),
        text_lt(b, c),
    ensures
        text_lt(a, c),
    decreases a.len(),
{
    if a.len() > 0 && a[0] == b[0] && b[0] == c[0] {
        lemma_text_lt_transitive(a.drop_first(), b.drop_first(), c.drop_first());
    }
}

proof fn lemma_text_lt_irreflexive(a: Seq<char>)
    ensures
        !text_lt(a, a),
    decreases a.len(),
{
    if a.len() > 0 {
        lemma_text_lt_irreflexive(a.drop_first());
    }
}

/// Whether `a` comes before `b`.
fn text_less(a: &str, b: &str) -> (r: bool)
    ensures
        r == text_lt(a@, b@),
{
    let n = a.unicode_len();
    let m = b.unicode_len();
    let mut i: usize = 0;
    assert(a@.subrange(0, n as int) =~= a@);
    assert(b@.subrange(0, m as int) =~= b@);
    while i < n && i < m
        invariant
            n == a@.len(),
            m == b@.len(),
            i <= n,
            i <= m,
            text_lt(a@, b@) == text_lt(a@.subrange(i as int, n as int), b@.subrange(i as int, m as int)),
        decreases n - i,
    {
        let x = a.get_char(i);
        let y = b.get_char(i);
        let ghost sa = a@.subrange(i as int, n as int);
        let ghost sb = b@.subrange(i as int, m as int);
        assert(sa[0] == x && sb[0] == y);
        if x != y {
            return (x as u32) < (y as u32);
        }
        assert(sa.drop_first() =~= a@.subrange(i + 1, n as int));
        assert(sb.drop_first() =~= b@.subrange(i + 1, m as int));
        i = i + 1;
    }
    i == n && i < m
}

/// Identifies an alarm in its list.
#[derive(Debug, Clone, Copy, PartialEq, Eq, Structural, Hash)]
pub struct AlarmId(pub u64);

/// A daily alarm: the time text it rings at, how often and how many minutes
/// apart it repeats, and what is said in which style.
#[derive(Debug)]
pub struct Alarm {
    pub time: String,
    pub repeat_delay: u32,
    pub repeat_count: usize,
    pub message: String,
    pub style: AzureVoiceStyle,
    pub id: AlarmId,
}

impl Alarm {
    /// A copy of this alarm.
    pub fn copy(&self) -> (r: Alarm)
        ensures
            r == *self,
    {
        Alarm {
            time: self.time.clone(),
            repeat_delay: self.repeat_delay,
            repeat_count: self.repeat_count,
            message: self.message.clone(),
            style: self.style,
            id: self.id,
        }
    }

    /// The alarm as it is saved.
    pub fn to_saved(&self) -> (r: SavedAlarm)
        ensures
            r.time@ == self.time@,
            r.repeat_delay == self.repeat_delay,
            r.repeat_count == self.repeat_count,
            r.message@ == self.message@,
            r.style == self.style,
    {
        SavedAlarm {
            time: self.time.clone(),
            repeat_delay: self.repeat_delay,
            repeat_count: self.repeat_count,
            message: self.message.clone(),
            style: self.style,
        }
    }
}

/// Alarms are in order of their time text.
pub open spec fn sorted_by_time(alarms: Seq<Alarm>) -> bool {
    forall|i: int, j: int| 0 <= i < j < alarms.len() ==> !text_lt(alarms[j].time@, alarms[i].time@)
}

/// Where an alarm at `time` goes: before the first alarm of a later time.
pub open spec fn insert_position(alarms: Seq<Alarm>, time: Seq<char>, k: int) -> int
    decreases alarms.len() - k,
{
    if k < 0 || k >= alarms.len() {
        alarms.len() as int
    } else if text_lt(time, alarms[k].time@) {
        k
    } else {
        insert_position(alarms, time, k + 1)
    }
}

proof fn lemma_insert_position(alarms: Seq<Alarm>, time: Seq<char>, k: int)
    requires
        0 <= k <= alarms.len(),
    ensures
        k <= insert_position(alarms, time, k) <= alarms.len(),
        forall|i: int| k <= i < insert_position(alarms, time, k) ==> !text_lt(time, alarms[i].time@),
        insert_position(alarms, time, k) < alarms.len()
            ==> text_lt(time, alarms[insert_position(alarms, time, k)].time@),
    decreases alarms.len() - k,
{
    if k < alarms.len() && !text_lt(time, alarms[k].time@) {
        lemma_insert_position(alarms, time, k + 1);
    }
}

/// The alarms without the one identified by `id`, from index `k` on.
pub open spec fn without(alarms: Seq<Alarm>, id: AlarmId, k: int) -> Seq<Alarm>
    decreases k,
{
    if k <= 0 {
        Seq::empty()
    } else if alarms[k - 1].id == id {
        without(alarms, id, k - 1)
    } else {
        without(alarms, id, k - 1).push(alarms[k - 1])
    }
}

/// The alarms, in order of their time text, and the identity the next one
/// gets.
pub struct AlarmBook {
    alarms: Vec<Alarm>,
    next_id: u64,
}

impl AlarmBook {
    /// The alarms in order.
    pub closed spec fn entries(&self) -> Seq<Alarm> {
        self.alarms@
    }

    /// The alarms are in order and every one was given an identity below
    /// the next one.
    pub closed spec fn wf(&self) -> bool {
        &&& sorted_by_time(self.alarms@)
        &&& forall|i: int| 0 <= i < self.alarms@.len() ==> self.alarms@[i].id.0 < self.next_id
    }

    /// Every identity has been given out.
    pub closed spec fn exhausted(&self) -> bool {
        self.next_id == u64::MAX
    }

    /// `id` was given out by this book.
    pub closed spec fn issued(&self, id: AlarmId) -> bool {
        id.0 < self.next_id
    }

    /// A book without alarms.
    pub fn new() -> (r: AlarmBook)
        ensures
            r.wf(),
            r.entries() == Seq::<Alarm>::empty(),
    {
        AlarmBook { alarms: Vec::new(), next_id: 0 }
    }

    /// Adds an alarm and places it after the alarms whose time text does
    /// not come later; returns its identity, which no alarm of the book has.
    pub fn add_alarm(
        &mut self,
        time: String,
        repeat_delay: u32,
        repeat_count: usize,
        message: String,
        style: AzureVoiceStyle,
    ) -> (r: Option<AlarmId>)
        requires
            old(self).wf(),
        ensures
            final(self).wf(),
            !old(self).exhausted() ==> (r matches Some(id) && !old(self).issued(id)
                && final(self).entries() == old(self).entries().insert(
                    insert_position(old(self).entries(), time@, 0),
                    Alarm { time, repeat_delay, repeat_count, message, style, id },
                )),
            old(self).exhausted() ==> r is None && final(self).entries() == old(self).entries(),
    {
        if self.next_id == u64::MAX {
            return None;
        }
        let id = AlarmId(self.next_id);
        let ghost old_alarms = self.alarms@;
        let ghost t = time@;
        proof { lemma_insert_position(old_alarms, t, 0); }
        let mut p: usize = 0;
        while p < self.alarms.len() && !text_less(time.as_str(), self.alarms[p].time.as_str())
            invariant
                self.alarms@ == old_alarms,
                t == time@,
                p <= old_alarms.len(),
                insert_position(old_alarms, t, 0) == insert_position(old_alarms, t, p as int),
            decreases old_alarms.len() - p,
        {
            p = p + 1;
        }
        let alarm = Alarm { time, repeat_delay, repeat_count, message, style, id };
        let ghost a = alarm;
        assert(insert_position(old_alarms, t, 0) == p as int);
        self.alarms.insert(p, alarm);
        self.next_id = self.next_id + 1;
        proof {
            let s = self.alarms@;
            let pi = p as int;
            assert(s == old_alarms.insert(pi, a));
            assert forall|i: int, j: int| 0 <= i < j < s.len() implies !text_lt(s[j].time@, s[i].time@) by {
                if j < pi {
                    assert(s[i] == old_alarms[i]);
                    assert(s[j] == old_alarms[j]);
                } else if j == pi {
                    assert(s[i] == old_alarms[i]);
                    assert(s[j] == a);
                } else if i < pi {
                    assert(s[i] == old_alarms[i]);
                    assert(s[j] == old_alarms[j - 1]);
                } else if i == pi {
                    let later = old_alarms[j - 1].time@;
                    let first_later = old_alarms[pi].time@;
                    assert(s[j] == old_alarms[j - 1]);
                    assert(s[i] == a);
                    assert(text_lt(t, first_later));
                    if text_lt(later, t) {
                        lemma_text_lt_transitive(later, t, first_later);
                        if j - 1 == pi {
                            lemma_text_lt_irreflexive(first_later);
                        } else {
                            assert(!text_lt(later, first_later));
                        }
                    }
                } else {
                    assert(s[i] == old_alarms[i - 1]);
                    assert(s[j] == old_alarms[j - 1]);
                }
            }
            assert forall|i: int| 0 <= i < s.len() implies s[i].id.0 < self.next_id by {
                if i < p {
                    assert(s[i] == old_alarms[i]);
                } else if i > p {
                    assert(s[i] == old_alarms[i - 1]);
                }
            }
        }
        Some(id)
    }

    /// Copies of the alarms, in order.
    pub fn alarms(&self) -> (r: Vec<Alarm>)
        ensures
            r@ == self.entries(),
    {
        let mut out: Vec<Alarm> = Vec::new();
        let mut i: usize = 0;
        while i < self.alarms.len()
            invariant
                i <= self.alarms@.len(),
                out@ == self.alarms@.subrange(0, i as int),
            decreases self.alarms@.len() - i,
        {
            out.push(self.alarms[i].copy());
            assert(self.alarms@.subrange(0, i as int + 1) =~= self.alarms@.subrange(0, i as int).push(self.alarms@[i as int]));
            i = i + 1;
        }
        assert(self.alarms@.subrange(0, self.alarms@.len() as int) =~= self.alarms@);
        out
    }

    /// Removes the alarm identified by `alarm_id`, if there is one.
    pub fn remove(&mut self, alarm_id: AlarmId)
        requires
            old(self).wf(),
        ensures
            final(self).wf(),
            final(self).entries() == without(old(self).entries(), alarm_id, old(self).entries().len() as int),
    {
        let ghost old_alarms = self.alarms@;
        let mut kept: Vec<Alarm> = Vec::new();
        let mut old_list: Vec<Alarm> = Vec::new();
        std::mem::swap(&mut old_list, &mut self.alarms);
        let mut i: usize = 0;
        while i < old_list.len()
            invariant
                old_list@ == old_alarms,
                sorted_by_time(old_alarms),
                forall|x: int| 0 <= x < old_alarms.len() ==> old_alarms[x].id.0 < self.next_id,
                i <= old_alarms.len(),
                kept@ == without(old_alarms, alarm_id, i as int),
                sorted_by_time(kept@),
                forall|x: int, j: int| 0 <= x < kept@.len() && i <= j < old_alarms.len()
                    ==> !text_lt(old_alarms[j].time@, kept@[x].time@),
                forall|x: int| 0 <= x < kept@.len() ==> kept@[x].id.0 < self.next_id,
            decreases old_alarms.len() - i,
        {
            if old_list[i].id != alarm_id {
                let ghost before = kept@;
                kept.push(old_list[i].copy());
                proof {
                    assert(kept@ == before.push(old_alarms[i as int]));
                    assert forall|x: int, j: int| 0 <= x < kept@.len() && i + 1 <= j < old_alarms.len()
                        implies !text_lt(old_alarms[j].time@, kept@[x].time@) by {
                        if x == before.len() {
                        }
                    }
                }
            }
            i = i + 1;
        }
        self.alarms = kept;
    }
}

/// The saved form of every alarm, in order.
pub fn saved_alarms(alarms: &Vec<Alarm>) -> (r: Vec<SavedAlarm>)
    ensures
        r@.len() == alarms@.len(),
        forall|i: int| 0 <= i < r@.len() ==> r@[i].time@ == alarms@[i].time@
            && r@[i].repeat_delay == alarms@[i].repeat_delay
            && r@[i].repeat_count == alarms@[i].repeat_count
            && r@[i].message@ == alarms@[i].message@
            && r@[i].style == alarms@[i].style,
{
    let mut out: Vec<SavedAlarm> = Vec::new();
    let mut i: usize = 0;
    while i < alarms.len()
        invariant
            i <= alarms@.len(),
            out@.len() == i,
            forall|k: int| 0 <= k < i ==> out@[k].time@ == alarms@[k].time@
                && out@[k].repeat_delay == alarms@[k].repeat_delay
                && out@[k].repeat_count == alarms@[k].repeat_count
                && out@[k].message@ == alarms@[k].message@
                && out@[k].style == alarms@[k].style,
        decreases alarms@.len() - i,
    {
        out.push(alarms[i].to_saved());
        i = i + 1;
    }
    out
}

} // verus!
