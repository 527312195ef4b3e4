//! Spoken texts about the assistant itself: the startup message, human
//! readable dates and times, and placeholders for them in messages.

use crate::config::AssistantConfig;
use crate::text::{matches_at, occurs_at};
use chrono::{Datelike, Timelike};
use vstd::prelude::*;

verus! {

/// The decimal digit for `n`, which must be below 10.
pub open spec fn digit_char(n: nat) -> char {
    if n == 0 { '0' }
    else if n == 1 { '1' }
    else if n == 2 { '2' }
    else if n == 3 { '3' }
    else if n == 4 { '4' }
    else if n == 5 { '5' }
    else if n == 6 { '6' }
    else if n == 7 { '7' }
    else if n == 8 { '8' }
    else { '9' }
}

/// `n` in decimal, without leading zeros.
pub open spec fn decimal(n: nat) -> Seq<char>
    decreases n,
{
    if n < 10 {
        seq![digit_char(n)]
    } else {
        decimal(n / 10) + seq![digit_char(n % 10)]
    }
}

/// `n` in decimal, padded to two digits.
pub open spec fn two_digits(n: nat) -> Seq<char> {
    if n < 10 { seq!['0'] + decimal(n) } else { decimal(n) }
}

/// The English ordinal suffix of `n`: 1st, 2nd, 3rd, 4th, 11th, 21st, ...
pub open spec fn ordinal_suffix(n: nat) -> Seq<char> {
    if n % 10 == 1 && n % 100 != 11 {
        "st"@
    } else if n % 10 == 2 && n % 100 != 12 {
        "nd"@
    } else if n % 10 == 3 && n % 100 != 13 {
        "rd"@
    } else {
        "th"@
    }
}

fn digit_str(n: u32) -> (r: &'static str)
    requires
        n < 10,
    ensures
        r@ == seq![digit_char(n as nat)],
{
    if n == 0 { proof { reveal_strlit("0"); } "0" }
    else if n == 1 { proof { reveal_strlit("1"); } "1" }
    else if n == 2 { proof { reveal_strlit("2"); } "2" }
    else if n == 3 { proof { reveal_strlit("3"); } "3" }
    else if n == 4 { proof { reveal_strlit("4"); } "4" }
    else if n == 5 { proof { reveal_strlit("5"); } "5" }
    else if n == 6 { proof { reveal_strlit("6"); } "6" }
    else if n == 7 { proof { reveal_strlit("7"); } "7" }
    else if n == 8 { proof { reveal_strlit("8"); } "8" }
    else { proof { reveal_strlit("9"); } "9" }
}

/// Appends `n` in decimal to `out`.
fn push_decimal(out: &mut String, n: u32)
    ensures
        final(out)@ == old(out)@ + decimal(n as nat),
    decreases n,
{
    if n >= 10 {
        push_decimal(out, n / 10);
    }
    out.append(digit_str(n % 10));
    assert(n < 10 ==> n % 10 == n);
}

/// Appends `n` in decimal, padded to two digits, to `out`.
fn push_two_digits(out: &mut String, n: u32)
    ensures
        final(out)@ == old(out)@ + two_digits(n as nat),
{
    if n < 10 {
        proof { reveal_strlit("0"); }
        out.append("0");
    }
    push_decimal(out, n);
}

/// A local date and time as the clock shows it.
#[derive(Debug, Clone, Copy, PartialEq, Eq, Structural)]
pub struct LocalDateTime {
    pub year: i32,
    /// 1 for January to 12 for December.
    pub month: u32,
    /// The day of the month, from 1.
    pub day: u32,
    /// Days since Monday: 0 for Monday to 6 for Sunday.
    pub weekday: u32,
    pub hour: u32,
    pub minute: u32,
}

impl LocalDateTime {
    /// Every field is in its range.
    pub open spec fn wf(&self) -> bool {
        1 <= self.month <= 12 && 1 <= self.day <= 31 && self.weekday < 7 && self.hour < 24 && self.minute < 60
    }
}

/// Relies on chrono's `Local::now`: the current local date and time, whose
/// month, day, weekday, hour and minute chrono keeps in their ranges.
#[verifier::external_body]
fn local_now() -> (r: LocalDateTime)
    ensures
        r.wf(),
{
    let now = chrono::Local::now();
    LocalDateTime {
        year: now.year(),
        month: now.month(),
        day: now.day(),
        weekday: now.weekday().num_days_from_monday(),
        hour: now.hour(),
        minute: now.minute(),
    }
}

/// The abbreviated English name of a weekday.
pub open spec fn weekday_name(w: u32) -> Seq<char> {
    if w == 0 { "Mon"@ }
    else if w == 1 { "Tue"@ }
    else if w == 2 { "Wed"@ }
    else if w == 3 { "Thu"@ }
    else if w == 4 { "Fri"@ }
    else if w == 5 { "Sat"@ }
    else { "Sun"@ }
}

/// The English name of a month.
pub open spec fn month_name(m: u32) -> Seq<char> {
    if m == 1 { "January"@ }
    else if m == 2 { "February"@ }
    else if m == 3 { "March"@ }
    else if m == 4 { "April"@ }
    else if m == 5 { "May"@ }
    else if m == 6 { "June"@ }
    else if m == 7 { "July"@ }
    else if m == 8 { "August"@ }
    else if m == 9 { "September"@ }
    else if m == 10 { "October"@ }
    else if m == 11 { "November"@ }
    else { "December"@ }
}

fn weekday_str(w: u32) -> (r: &'static str)
    ensures
        r@ == weekday_name(w),
{
    if w == 0 { "Mon" }
    else if w == 1 { "Tue" }
    else if w == 2 { "Wed" }
    else if w == 3 { "Thu" }
    else if w == 4 { "Fri" }
    else if w == 5 { "Sat" }
    else { "Sun" }
}

fn month_str(m: u32) -> (r: &'static str)
    ensures
        r@ == month_name(m),
{
    if m == 1 { "January" }
    else if m == 2 { "February" }
    else if m == 3 { "March" }
    else if m == 4 { "April" }
    else if m == 5 { "May" }
    else if m == 6 { "June" }
    else if m == 7 { "July" }
    else if m == 8 { "August" }
    else if m == 9 { "September" }
    else if m == 10 { "October" }
    else if m == 11 { "November" }
    else { "December" }
}

/// A year in decimal, with a minus sign before the years before year zero.
pub open spec fn year_text(y: i32) -> Seq<char> {
    if y < 0 { seq!['-'] + decimal((-(y as int)) as nat) } else { decimal(y as nat) }
}

/// The time as it is spoken: `9:05, `.
pub open spec fn human_time(t: LocalDateTime) -> Seq<char> {
    decimal(t.hour as nat) + ":"@ + two_digits(t.minute as nat) + ", "@
}

/// The date and time as they are spoken: `Mon, 1st of January, 2024 at 9:05, `.
pub open spec fn human_date_time(t: LocalDateTime) -> Seq<char> {
    weekday_name(t.weekday) + ", "@ + decimal(t.day as nat) + ordinal_suffix(t.day as nat) + " of "@
        + month_name(t.month) + ", "@ + year_text(t.year) + " at "@ + human_time(t)
}

/// The time of `t` as it is spoken.
pub fn humanize_time(t: LocalDateTime) -> (r: String)
    ensures
        r@ == human_time(t),
{
    let mut out = String::new();
    push_decimal(&mut out, t.hour);
    out.append(":");
    push_two_digits(&mut out, t.minute);
    out.append(", ");
    assert(out@ =~= human_time(t));
    out
}

fn push_ordinal_suffix(out: &mut String, n: u32)
    ensures
        final(out)@ == old(out)@ + ordinal_suffix(n as nat),
{
    if n % 10 == 1 && n % 100 != 11 {
        out.append("st");
    } else if n % 10 == 2 && n % 100 != 12 {
        out.append("nd");
    } else if n % 10 == 3 && n % 100 != 13 {
        out.append("rd");
    } else {
        out.append("th");
    }
}

/// The date and time of `t` as they are spoken.
pub fn humanize_date_time(t: LocalDateTime) -> (r: String)
    ensures
        r@ == human_date_time(t),
{
    let mut out = String::new();
    out.append(weekday_str(t.weekday));
    out.append(", ");
    push_decimal(&mut out, t.day);
    push_ordinal_suffix(&mut out, t.day);
    out.append(" of ");
    out.append(month_str(t.month));
    out.append(", ");
    if t.year < 0 {
        proof { reveal_strlit("-"); }
        out.append("-");
        let magnitude: u32 = if t.year == i32::MIN { 2147483648u32 } else { (-t.year) as u32 };
        push_decimal(&mut out, magnitude);
    } else {
        push_decimal(&mut out, t.year as u32);
    }
    out.append(" at ");
    let time = humanize_time(t);
    out.append(time.as_str());
    assert(out@ =~= human_date_time(t));
    out
}

/// The current local time as it is spoken.
pub fn get_human_current_time() -> (r: String)
    ensures
        exists|t: LocalDateTime| t.wf() && r@ == human_time(t),
{
    let now = local_now();
    humanize_time(now)
}

/// The current local date and time as they are spoken.
pub fn get_human_current_date_time() -> (r: String)
    ensures
        exists|t: LocalDateTime| t.wf() && r@ == human_date_time(t),
{
    let now = local_now();
    humanize_date_time(now)
}

/// `s` with every occurrence of `from`, left to right and not
/// overlapping, replaced by `to`.
pub open spec fn replaced(s: Seq<char>, from: Seq<char>, to: Seq<char>) -> Seq<char>
    decreases s.len(),
{
    if s.len() == 0 {
        s
    } else if from.len() > 0 && occurs_at(s, from, 0) {
        to + replaced(s.subrange(from.len() as int, s.len() as int), from, to)
    } else {
        seq![s[0]] + replaced(s.subrange(1, s.len() as int), from, to)
    }
}

/// `s` with every occurrence of `from` replaced by `to`.
pub fn replace(s: &str, from: &str, to: &str) -> (r: String)
    requires
        from@.len() > 0,
    ensures
        r@ == replaced(s@, from@, to@),
{
    let n = s.unicode_len();
    let m = from.unicode_len();
    let mut out = String::new();
    let mut i: usize = 0;
    assert(s@.subrange(0, n as int) =~= s@);
    assert(out@ + replaced(s@, from@, to@) =~= replaced(s@, from@, to@));
    while i < n
        invariant
            n == s@.len(),
            m == from@.len(),
            m > 0,
            i <= n,
            out@ + replaced(s@.subrange(i as int, n as int), from@, to@) == replaced(s@, from@, to@),
        decreases n - i,
    {
        let ghost rest = s@.subrange(i as int, n as int);
        if m <= n - i && matches_at(s, from, i, n, m) {
            proof {
                assert(rest.subrange(0, m as int) =~= s@.subrange(i as int, i + m));
                assert(rest.subrange(m as int, rest.len() as int) =~= s@.subrange(i + m, n as int));
            }
            out.append(to);
            i = i + m;
        } else {
            let piece = s.substring_char(i, i + 1);
            proof {
                assert(!occurs_at(rest, from@, 0)) by {
                    if occurs_at(rest, from@, 0) {
                        assert(rest.subrange(0, m as int) =~= s@.subrange(i as int, i + m));
                    }
                }
                assert(piece@ =~= seq![rest[0]]);
                assert(rest.subrange(1, rest.len() as int) =~= s@.subrange(i + 1, n as int));
            }
            out.append(piece);
            i = i + 1;
        }
        assert(out@ + replaced(s@.subrange(i as int, n as int), from@, to@) == replaced(s@, from@, to@));
    }
    assert(s@.subrange(n as int, n as int) =~= Seq::<char>::empty());
    assert(out@ + Seq::<char>::empty() =~= out@);
    out
}


/// `s` ends with `pat`.
pub open spec fn ends_with(s: Seq<char>, pat: Seq<char>) -> bool {
    pat.len() <= s.len() && s.subrange(s.len() - pat.len(), s.len() as int) == pat
}

/// `s` without the copies of `pat` that it ends in.
pub open spec fn trim_end(s: Seq<char>, pat: Seq<char>) -> Seq<char>
    decreases s.len(),
{
    if pat.len() > 0 && ends_with(s, pat) {
        trim_end(s.subrange(0, s.len() - pat.len()), pat)
    } else {
        s
    }
}

/// `s` without the copies of `pat` that it ends in.
pub fn trim_end_matches(s: &str, pat: &str) -> (r: String)
    requires
        pat@.len() > 0,
    ensures
        r@ == trim_end(s@, pat@),
{
    let n = s.unicode_len();
    let m = pat.unicode_len();
    let mut end = n;
    let mut trimming = true;
    assert(s@.subrange(0, n as int) =~= s@);
    while trimming
        invariant
            n == s@.len(),
            m == pat@.len(),
            m > 0,
            end <= n,
            trim_end(s@.subrange(0, end as int), pat@) == trim_end(s@, pat@),
            !trimming ==> !ends_with(s@.subrange(0, end as int), pat@),
        decreases end + (if trimming { 1int } else { 0int }),
    {
        let ghost head = s@.subrange(0, end as int);
        if end >= m && matches_at(s, pat, end - m, n, m) {
            proof {
                assert(head.subrange(head.len() - m, head.len() as int) =~= s@.subrange(end - m, end as int));
                assert(head.subrange(0, head.len() - m) =~= s@.subrange(0, end - m));
            }
            end = end - m;
        } else {
            proof {
                if end >= m {
                    assert(head.subrange(head.len() - m, head.len() as int) =~= s@.subrange(end - m, end as int));
                }
            }
            trimming = false;
        }
    }
    s.substring_char(0, end).to_owned()
}

/// A network interface as the startup message names it.
#[derive(Debug, Clone)]
pub struct NetworkInterface {
    pub name: String,
    /// The address as text.
    pub address: String,
    pub is_ipv4: bool,
    pub is_loopback: bool,
}

/// `name at address, ` for each IPv4 interface below `k` that is not a
/// loopback, in order.
pub open spec fn listed(nics: Seq<NetworkInterface>, k: int) -> Seq<char>
    decreases k,
{
    if k <= 0 {
        Seq::empty()
    } else {
        let nic = nics[k - 1];
        if nic.is_ipv4 && !nic.is_loopback {
            listed(nics, k - 1) + nic.name@ + " at "@ + nic.address@ + ", "@
        } else {
            listed(nics, k - 1)
        }
    }
}

/// The line about the network interfaces.
pub open spec fn network_line(nics: Option<Seq<NetworkInterface>>) -> Seq<char> {
    match nics {
        None => "I can't tell you how to reach me because it looks like I failed to query the local interfaces for some reason."@,
        Some(n) => if n.len() == 0 {
            "Huh, It looks like this device has no network interfaces?"@
        } else {
            "My network interfaces are "@ + trim_end(listed(n, n.len() as int), ", "@) + "."@
        },
    }
}

/// The line about the hostname.
pub open spec fn hostname_line(hostname: Option<Seq<char>>) -> Seq<char> {
    match hostname {
        Some(h) => "My hostname is "@ + h + ". "@,
        None => "I can't detect my hostname. Maybe this platform isn't supported?"@,
    }
}

/// The lines of the startup message at the time spoken as `date_time`.
pub open spec fn startup_lines(
    name: Seq<char>,
    date_time: Seq<char>,
    nics: Option<Seq<NetworkInterface>>,
    hostname: Option<Seq<char>>,
) -> Seq<Seq<char>> {
    seq![
        "Good morning, my name is "@ + name + "!"@,
        "It's "@ + date_time + ". "@,
        network_line(nics),
        hostname_line(hostname),
    ]
}

/// What a message becomes at time `t`: `/time` and `/date` are replaced by
/// the time and the date as they are spoken.
pub open spec fn substituted(message: Seq<char>, t: LocalDateTime) -> Seq<char> {
    replaced(replaced(message, "/time"@, human_time(t)), "/date"@, human_date_time(t))
}

/// Builds the assistant's spoken texts.
#[derive(Debug, Clone)]
pub struct TemplateEngine {
    pub assistant_config: AssistantConfig,
    pub hostname: Option<String>,
    pub network_interfaces: Option<Vec<NetworkInterface>>,
}

impl TemplateEngine {
    /// The view of the interfaces, if they could be listed.
    pub open spec fn nics(&self) -> Option<Seq<NetworkInterface>> {
        match self.network_interfaces {
            Some(v) => Some(v@),
            None => None,
        }
    }

    /// The view of the hostname, if it is known.
    pub open spec fn host(&self) -> Option<Seq<char>> {
        match self.hostname {
            Some(h) => Some(h@),
            None => None,
        }
    }

    /// An engine for `assistant_config`, with the hostname and the network
    /// interfaces of this machine, each `None` when it could not be found.
    pub fn new(
        assistant_config: AssistantConfig,
        hostname: Option<String>,
        network_interfaces: Option<Vec<NetworkInterface>>,
    ) -> (r: TemplateEngine)
        ensures
            r.assistant_config == assistant_config,
            r.hostname == hostname,
            r.network_interfaces == network_interfaces,
    {
        TemplateEngine { assistant_config, hostname, network_interfaces }
    }

    fn network_message(&self) -> (r: String)
        ensures
            r@ == network_line(self.nics()),
    {
        match &self.network_interfaces {
            None => String::from_str(
                "I can't tell you how to reach me because it looks like I failed to query the local interfaces for some reason.",
            ),
            Some(nics) => {
                if nics.len() == 0 {
                    String::from_str("Huh, It looks like this device has no network interfaces?")
                } else {
                    let mut list = String::new();
                    let mut i: usize = 0;
                    while i < nics.len()
                        invariant
                            i <= nics@.len(),
                            list@ == listed(nics@, i as int),
                        decreases nics@.len() - i,
                    {
                        let nic = &nics[i];
                        if nic.is_ipv4 && !nic.is_loopback {
                            list.append(nic.name.as_str());
                            list.append(" at ");
                            list.append(nic.address.as_str());
                            list.append(", ");
                        }
                        i = i + 1;
                    }
                    let mut message = String::from_str("My network interfaces are ");
                    proof { reveal_strlit(", "); }
                    let trimmed = trim_end_matches(list.as_str(), ", ");
                    message.append(trimmed.as_str());
                    message.append(".");
                    message
                }
            },
        }
    }

    /// The startup message at time `now`, one sentence per line.
    pub fn startup_message_at(&self, now: LocalDateTime) -> (r: Vec<String>)
        ensures
            r@.len() == 4,
            forall|i: int| 0 <= i < 4 ==> r@[i]@ == startup_lines(
                self.assistant_config.name@,
                human_date_time(now),
                self.nics(),
                self.host(),
            )[i],
    {
        let mut lines: Vec<String> = Vec::new();
        let mut greeting = String::from_str("Good morning, my name is ");
        greeting.append(self.assistant_config.name.as_str());
        greeting.append("!");
        lines.push(greeting);
        let mut date_line = String::from_str("It's ");
        let date_time = humanize_date_time(now);
        date_line.append(date_time.as_str());
        date_line.append(". ");
        lines.push(date_line);
        lines.push(self.network_message());
        let host_line = match &self.hostname {
            Some(h) => {
                let mut line = String::from_str("My hostname is ");
                line.append(h.as_str());
                line.append(". ");
                line
            },
            None => String::from_str("I can't detect my hostname. Maybe this platform isn't supported?"),
        };
        lines.push(host_line);
        lines
    }

    /// The startup message now.
    pub fn startup_message(&self) -> (r: Vec<String>)
        ensures
            exists|t: LocalDateTime| t.wf() && r@.len() == 4 && forall|i: int| 0 <= i < 4 ==> #[trigger] r@[i]@ == startup_lines(
                self.assistant_config.name@,
                human_date_time(t),
                self.nics(),
                self.host(),
            )[i],
    {
        let now = local_now();
        self.startup_message_at(now)
    }

    /// `message` with `/time` and `/date` replaced by the time and the
    /// date of `now` as they are spoken.
    pub fn template_substitute_at(message: &str, now: LocalDateTime) -> (r: String)
        ensures
            r@ == substituted(message@, now),
    {
        let time = humanize_time(now);
        let date_time = humanize_date_time(now);
        proof {
            reveal_strlit("/time");
            reveal_strlit("/date");
        }
        let with_time = replace(message, "/time", time.as_str());
        replace(with_time.as_str(), "/date", date_time.as_str())
    }

    /// `message` with `/time` and `/date` replaced by the current time and date.
    pub fn template_substitute(message: &str) -> (r: String)
        ensures
            exists|t: LocalDateTime| t.wf() && r@ == substituted(message@, t),
    {
        let now = local_now();
        Self::template_substitute_at(message, now)
    }
}

} // verus!
