use vstd::prelude::*;
use std::time::Instant;
use core::time::Duration;
use crate::text::{decimal_of, digit_char, push_decimal, same_text};

verus! {

/// `std::time::Instant`, a reading of the monotonic clock, carried through
/// opaquely.
#[verifier::external_type_specification]
#[verifier::external_body]
pub struct ExInstant(Instant);

/// Relies on `Instant::now`: reads the monotonic clock. Nothing is promised
/// of the value.
pub assume_specification[ Instant::now ]() -> Instant;

/// Relies on `Instant::duration_since`: the time from `earlier` to `this`
/// (zero when `earlier` is the later one). Nothing is promised of the value.
pub assume_specification[ Instant::duration_since ](this: &Instant, earlier: Instant) -> Duration;

/// Relies on `Instant::checked_add`: `this` moved forward by `duration`,
/// or `None` where the clock cannot represent the result.
pub assume_specification[ Instant::checked_add ](this: &Instant, duration: Duration) -> Option<Instant>;

/// Relies on `Duration::as_nanos`: the duration in whole nanoseconds.
pub assume_specification[ Duration::as_nanos ](this: &Duration) -> u128;

/// The sum of `x / n` over the samples `x` of `s`, each quotient rounded
/// down to a whole nanosecond.
pub open spec fn quotient_sum(s: Seq<u128>, n: nat) -> nat
    decreases s.len(),
{
    if s.len() == 0 {
        0
    } else {
        quotient_sum(s.drop_last(), n) + (s.last() as nat) / n
    }
}

/// The mean of the samples in `s`: each is divided by their count before
/// they are summed.
pub open spec fn mean_of(s: Seq<u128>) -> nat {
    quotient_sum(s, s.len())
}

/// The fractional part of a count of microseconds, from `f` thousandths of a
/// microsecond (`f < 1000`): a point and the digits up to the last nonzero
/// one; nothing when `f` is zero.
pub open spec fn fraction_text(f: nat) -> Seq<char> {
    if f == 0 {
        Seq::empty()
    } else if f % 100 == 0 {
        seq!['.', digit_char(f / 100)]
    } else if f % 10 == 0 {
        seq!['.', digit_char(f / 100), digit_char((f / 10) % 10)]
    } else {
        seq!['.', digit_char(f / 100), digit_char((f / 10) % 10), digit_char(f % 10)]
    }
}

/// `nanos` nanoseconds written as a decimal count of microseconds.
pub open spec fn micros_text(nanos: nat) -> Seq<char> {
    decimal_of(nanos / 1000) + fraction_text(nanos % 1000)
}

/// A duration of `nanos` nanoseconds as the report writes it: the
/// microseconds within the second, preceded by the whole seconds when there
/// are any.
pub open spec fn duration_text(nanos: nat) -> Seq<char> {
    let secs = nanos / 1_000_000_000;
    let sub = nanos % 1_000_000_000;
    if secs == 0 {
        micros_text(sub) + "us"@
    } else {
        decimal_of(secs) + "s,"@ + micros_text(sub) + "us"@
    }
}

/// The separator line of the report.
pub open spec fn rule_text() -> Seq<char> {
    "------------------------------------------------------------------------------------------------------------------------\n"@
}

/// What the profiler holds for one checkpoint message.
pub ghost struct CheckpointView {
    pub msg: Seq<char>,
    /// Time from the start of the measurement, one sample per check.
    pub totals: Seq<u128>,
    /// Time from the previous checkpoint, one sample per check.
    pub since_last: Seq<u128>,
}

/// The report block of one checkpoint; nothing for one without samples.
pub open spec fn block_text(c: CheckpointView) -> Seq<char> {
    if c.totals.len() == 0 {
        Seq::empty()
    } else {
        rule_text() + c.msg + "  (elapsed time --- total: "@ + duration_text(mean_of(c.totals))
            + ", since last checkpoint: "@ + duration_text(mean_of(c.since_last)) + ")\n"@
            + rule_text()
    }
}

/// The report: the blocks of the checkpoints, in order of first check.
pub open spec fn report_text(s: Seq<CheckpointView>) -> Seq<char>
    decreases s.len(),
{
    if s.len() == 0 {
        Seq::empty()
    } else {
        report_text(s.drop_last()) + block_text(s.last())
    }
}

/// The checkpoints after one more check of `msg` with the samples `total`
/// and `since_last`: appended to the message's lists, or a new checkpoint at
/// the end for a message not seen before.
pub open spec fn recorded(s: Seq<CheckpointView>, msg: Seq<char>, total: u128, since_last: u128) -> Seq<
    CheckpointView,
> {
    if exists|i: int| 0 <= i < s.len() && #[trigger] s[i].msg == msg {
        let i = choose|i: int| 0 <= i < s.len() && #[trigger] s[i].msg == msg;
        s.update(
            i,
            CheckpointView {
                msg,
                totals: s[i].totals.push(total),
                since_last: s[i].since_last.push(since_last),
            },
        )
    } else {
        s.push(CheckpointView { msg, totals: seq![total], since_last: seq![since_last] })
    }
}

/// The checkpoints with their samples dropped; the messages and their order
/// stay.
pub open spec fn cleared(s: Seq<CheckpointView>) -> Seq<CheckpointView> {
    s.map_values(|c: CheckpointView| CheckpointView { msg: c.msg, totals: Seq::empty(), since_last: Seq::empty() })
}

/// The samples of one checkpoint message.
pub struct Checkpoint {
    msg: String,
    totals: Vec<u128>,
    since_last: Vec<u128>,
}

impl View for Checkpoint {
    type V = CheckpointView;

    closed spec fn view(&self) -> CheckpointView {
        CheckpointView { msg: self.msg@, totals: self.totals@, since_last: self.since_last@ }
    }
}

spec fn views(cs: Seq<Checkpoint>) -> Seq<CheckpointView> {
    cs.map_values(|c: Checkpoint| c@)
}

/// Measures the time at named checkpoints of a computation and reports the
/// mean time of each from the start and from the previous checkpoint.
pub struct TimeProfiler {
    start_time: Instant,
    last_checkpoint_time: Instant,
    checkpoints: Vec<Checkpoint>,
}

impl TimeProfiler {
    /// The checkpoints, in order of first check.
    pub closed spec fn records(&self) -> Seq<CheckpointView> {
        views(self.checkpoints@)
    }

    /// Each message has one checkpoint, with as many samples of one kind as of
    /// the other.
    pub open spec fn wf(&self) -> bool {
        &&& forall|i: int, j: int|
            0 <= i < j < self.records().len() ==> #[trigger] self.records()[i].msg
                != #[trigger] self.records()[j].msg
        &&& forall|i: int|
            0 <= i < self.records().len() ==> #[trigger] self.records()[i].totals.len()
                == self.records()[i].since_last.len()
    }

    pub fn new() -> (r: Self)
        ensures
            r.wf(),
            r.records().len() == 0,
    {
        let now = Instant::now();
        TimeProfiler { start_time: now, last_checkpoint_time: now, checkpoints: Vec::new() }
    }

    /// Restarts the measurement now; the samples stay.
    pub fn reset_time(&mut self)
        ensures
            final(self).records() == old(self).records(),
    {
        let now = Instant::now();
        self.start_time = now;
        self.last_checkpoint_time = now;
    }

    /// Drops every sample; the messages keep their order.
    pub fn reset_memo(&mut self)
        requires
            old(self).wf(),
        ensures
            final(self).wf(),
            final(self).records() == cleared(old(self).records()),
    {
        let mut fresh: Vec<Checkpoint> = Vec::new();
        let mut i: usize = 0;
        while i < self.checkpoints.len()
            invariant
                self.wf(),
                i <= self.checkpoints.len(),
                fresh.len() == i,
                forall|j: int| 0 <= j < i ==> #[trigger] views(fresh@)[j] == cleared(self.records())[j],
            decreases self.checkpoints.len() - i,
        {
            let msg = self.checkpoints[i].msg.clone();
            let c = Checkpoint { msg, totals: Vec::new(), since_last: Vec::new() };
            proof {
                assert(c@.msg == self.records()[i as int].msg);
                assert(c@.totals =~= Seq::<u128>::empty());
                assert(c@.since_last =~= Seq::<u128>::empty());
            }
            let ghost before = fresh@;
            fresh.push(c);
            proof {
                assert forall|j: int| 0 <= j < i + 1 implies #[trigger] views(fresh@)[j] == cleared(
                    self.records(),
                )[j] by {
                    if j < i {
                        assert(fresh@[j] == before[j]);
                        assert(views(before)[j] == cleared(self.records())[j]);
                    }
                }
            }
            i = i + 1;
        }
        proof {
            assert(views(fresh@) =~= cleared(self.records()));
        }
        self.checkpoints = fresh;
    }

    fn find(&self, msg: &str) -> (r: Option<usize>)
        ensures
            match r {
                Some(k) => k < self.records().len() && self.records()[k as int].msg == msg@,
                None => forall|m: int| 0 <= m < self.records().len() ==> #[trigger] self.records()[m].msg != msg@,
            },
    {
        let mut k: usize = 0;
        while k < self.checkpoints.len()
            invariant
                k <= self.checkpoints.len(),
                forall|m: int| 0 <= m < k ==> #[trigger] self.records()[m].msg != msg@,
            decreases self.checkpoints.len() - k,
        {
            assert(self.records()[k as int] == self.checkpoints@[k as int]@);
            if same_text(self.checkpoints[k].msg.as_str(), msg) {
                return Some(k);
            }
            k = k + 1;
        }
        None
    }

    /// Adds the samples `total` and `since_last` under `msg`.
    pub fn record(&mut self, msg: &str, total: u128, since_last: u128)
        requires
            old(self).wf(),
        ensures
            final(self).wf(),
            final(self).records() == recorded(old(self).records(), msg@, total, since_last),
    {
        let ghost s = self.records();
        let ghost cs = self.checkpoints@;
        if let Some(k) = self.find(msg) {
            let mut c = self.checkpoints.remove(k);
            c.totals.push(total);
            c.since_last.push(since_last);
            let ghost cv = c@;
            self.checkpoints.insert(k, c);
            proof {
                assert(self.checkpoints@ =~= cs.update(k as int, c));
                assert(views(cs.update(k as int, c)) =~= s.update(k as int, cv));
                assert(exists|i: int| 0 <= i < s.len() && #[trigger] s[i].msg == msg@);
                assert(cv == CheckpointView {
                    msg: msg@,
                    totals: s[k as int].totals.push(total),
                    since_last: s[k as int].since_last.push(since_last),
                });
                assert(s[k as int].msg == msg@);
                let i = choose|i: int| 0 <= i < s.len() && #[trigger] s[i].msg == msg@;
                assert(i == k) by {
                    if i != k as int {
                        if i < k {
                            assert(s[i].msg != s[k as int].msg);
                        } else {
                            assert(s[k as int].msg != s[i].msg);
                        }
                    }
                }
                assert(self.records() =~= recorded(s, msg@, total, since_last));
            }
        } else {
            assert(!exists|i: int| 0 <= i < s.len() && #[trigger] s[i].msg == msg@);
            let mut totals: Vec<u128> = Vec::new();
            totals.push(total);
            let mut since: Vec<u128> = Vec::new();
            since.push(since_last);
            let c = Checkpoint { msg: msg.to_owned(), totals, since_last: since };
            let ghost cv = c@;
            self.checkpoints.push(c);
            proof {
                assert(cv.totals =~= seq![total]);
                assert(cv.since_last =~= seq![since_last]);
                assert(self.checkpoints@ =~= cs.push(c));
                assert(views(cs.push(c)) =~= s.push(cv));
                assert(self.records() =~= recorded(s, msg@, total, since_last));
            }
        }
    }

    /// Takes the time at the checkpoint `msg`: its time from the start and
    /// from the previous checkpoint are added under `msg`. The time spent in
    /// this call is not counted against later checkpoints.
    pub fn check(&mut self, msg: &str)
        requires
            old(self).wf(),
        ensures
            final(self).wf(),
            exists|total: u128, since_last: u128|
                final(self).records() == recorded(old(self).records(), msg@, total, since_last),
    {
        let now = Instant::now();
        let total = now.duration_since(self.start_time).as_nanos();
        let since_last = now.duration_since(self.last_checkpoint_time).as_nanos();
        self.record(msg, total, since_last);
        self.last_checkpoint_time = Instant::now();
        let spent = self.last_checkpoint_time.duration_since(now);
        if let Some(shifted) = self.start_time.checked_add(spent) {
            self.start_time = shifted;
        }
    }

    /// The report of the mean times of every checkpoint.
    pub fn output(&self) -> (r: String)
        requires
            self.wf(),
        ensures
            r@ == report_text(self.records()),
    {
        let mut out = String::new();
        let mut i: usize = 0;
        while i < self.checkpoints.len()
            invariant
                self.wf(),
                i <= self.checkpoints.len(),
                out@ == report_text(self.records().take(i as int)),
            decreases self.checkpoints.len() - i,
        {
            let c = &self.checkpoints[i];
            proof {
                assert(self.records()[i as int] == c@);
                assert(c@.totals.len() == c@.since_last.len());
            }
            let b = block(c);
            out.append(b.as_str());
            proof {
                assert(self.records().take(i + 1).drop_last() =~= self.records().take(i as int));
            }
            i = i + 1;
        }
        proof {
            assert(self.records().take(i as int) =~= self.records());
        }
        out
    }
}

fn block(c: &Checkpoint) -> (r: String)
    requires
        c@.totals.len() == c@.since_last.len(),
    ensures
        r@ == block_text(c@),
{
    let mut out = String::new();
    if c.totals.len() > 0 {
        out.append(rule());
        proof {
            assert(out@ =~= rule_text());
        }
        out.append(c.msg.as_str());
        out.append("  (elapsed time --- total: ");
        push_duration(&mut out, mean_duration(&c.totals));
        out.append(", since last checkpoint: ");
        push_duration(&mut out, mean_duration(&c.since_last));
        out.append(")\n");
        out.append(rule());
    }
    out
}

fn rule() -> (r: &'static str)
    ensures
        r@ == rule_text(),
{
    "------------------------------------------------------------------------------------------------------------------------\n"
}

/// The mean of the samples in `v` (see `mean_of`).
pub fn mean_duration(v: &Vec<u128>) -> (r: u128)
    requires
        v.len() > 0,
    ensures
        r == mean_of(v@),
{
    let n = v.len() as u128;
    let ghost max: nat = 0xffff_ffff_ffff_ffff_ffff_ffff_ffff_ffff;
    let mut acc: u128 = 0;
    let mut i: usize = 0;
    while i < v.len()
        invariant
            n == v.len(),
            n > 0,
            i <= v.len(),
            acc == quotient_sum(v@.take(i as int), n as nat),
            acc <= i * (max / n as nat),
            max == u128::MAX,
        decreases v.len() - i,
    {
        let q = v[i] / n;
        proof {
            assert(v@[i as int] <= max);
            vstd::arithmetic::div_mod::lemma_div_is_ordered(v@[i as int] as int, max as int, n as int);
            let b = max / n as nat;
            assert((i + 1) * b <= n * b) by (nonlinear_arith)
                requires
                    i + 1 <= n,
                    b >= 0,
            ;
            vstd::arithmetic::div_mod::lemma_fundamental_div_mod(max as int, n as int);
            assert(n * b <= max) by (nonlinear_arith)
                requires
                    max == n * b + max % n as nat,
                    max % n as nat >= 0,
            ;
            assert((i + 1) * b == i * b + b) by (nonlinear_arith);
            assert(v@.take(i + 1).drop_last() =~= v@.take(i as int));
        }
        acc = acc + q;
        i = i + 1;
    }
    proof {
        assert(v@.take(i as int) =~= v@);
    }
    acc
}

fn push_fraction(out: &mut String, f: u128)
    requires
        f < 1000,
    ensures
        final(out)@ == old(out)@ + fraction_text(f as nat),
{
    if f == 0 {
        return;
    }
    out.append(".");
    proof {
        reveal_strlit(".");
    }
    if f % 100 == 0 {
        push_decimal(out, f / 100);
    } else if f % 10 == 0 {
        push_decimal(out, f / 100);
        push_decimal(out, (f / 10) % 10);
    } else {
        push_decimal(out, f / 100);
        push_decimal(out, (f / 10) % 10);
        push_decimal(out, f % 10);
    }
}

fn push_duration(out: &mut String, nanos: u128)
    ensures
        final(out)@ == old(out)@ + duration_text(nanos as nat),
{
    let secs = nanos / 1_000_000_000;
    let sub = nanos % 1_000_000_000;
    if secs != 0 {
        push_decimal(out, secs);
        out.append("s,");
    }
    push_decimal(out, sub / 1000);
    push_fraction(out, sub % 1000);
    out.append("us");
}

/// A duration of `nanos` nanoseconds as the report writes it (see
/// `duration_text`).
pub fn fmt_duration(nanos: u128) -> (r: String)
    ensures
        r@ == duration_text(nanos as nat),
{
    let mut out = String::new();
    push_duration(&mut out, nanos);
    out
}

} // verus!
