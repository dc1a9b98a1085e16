//! A cooperative, single-threaded scheduler of periodic jobs. It is driven
//! by repeated calls of `tick`, each standing for 500 ms of elapsed time; a
//! job with an interval of `n` seconds fires whenever the time since the
//! scheduler started reaches a multiple of `n` seconds.

use vstd::arithmetic::div_mod::{
    lemma_div_denominator,
    lemma_fundamental_div_mod,
    lemma_fundamental_div_mod_converse,
};
use vstd::prelude::*;

verus! {

/// Milliseconds that one tick stands for.
pub const TICK_MILLIS: u64 = 500;

/// A job fires at tick `t` when `t` completes a whole second and that second
/// is a multiple of the job's interval.
pub open spec fn fires_at(interval: nat, t: nat) -> bool {
    &&& interval > 0
    &&& t > 0
    &&& t % 2 == 0
    &&& (t / 2) % interval == 0
}

/// How many of the ticks `1..=t` a job with this interval fires at.
pub open spec fn fire_count(interval: nat, t: nat) -> nat
    decreases t,
{
    if t == 0 {
        0
    } else {
        fire_count(interval, (t - 1) as nat) + if fires_at(interval, t) {
            1nat
        } else {
            0nat
        }
    }
}

pub struct JobView {
    pub name: Seq<char>,
    pub interval: nat,
    /// The tick count at which the job was registered.
    pub registered_at: nat,
    /// How many times the job has fired since.
    pub fired: nat,
}

pub struct SchedulerView {
    pub jobs: Seq<JobView>,
    pub ticks: nat,
}

impl SchedulerView {
    pub open spec fn wf(self) -> bool {
        forall|j: int|
            0 <= j < self.jobs.len() ==> {
                let job = #[trigger] self.jobs[j];
                &&& job.interval >= 1
                &&& job.registered_at <= self.ticks
                &&& job.fired == fire_count(job.interval, self.ticks) - fire_count(
                    job.interval,
                    job.registered_at,
                )
            }
    }
}

/// The slots among the first `n` jobs that fire at tick `t`, in
/// registration order.
pub open spec fn due_among(jobs: Seq<JobView>, t: nat, n: nat) -> Seq<usize>
    decreases n,
{
    if n == 0 {
        Seq::empty()
    } else {
        let earlier = due_among(jobs, t, (n - 1) as nat);
        if fires_at(jobs[n - 1].interval, t) {
            earlier.push((n - 1) as usize)
        } else {
            earlier
        }
    }
}

/// The scheduler after one more tick: each job that fires at the new tick
/// counts one more firing.
pub open spec fn after_tick(s: SchedulerView) -> SchedulerView {
    SchedulerView {
        jobs: Seq::new(
            s.jobs.len(),
            |j: int|
                JobView {
                    fired: s.jobs[j].fired + if fires_at(s.jobs[j].interval, s.ticks + 1) {
                        1nat
                    } else {
                        0nat
                    },
                    ..s.jobs[j]
                },
        ),
        ticks: s.ticks + 1,
    }
}

/// A registered job: its name, its interval in whole seconds and the tick
/// count when it was registered.
struct Job {
    name: String,
    interval_secs: u64,
    registered_at: u64,
}

pub struct Scheduler {
    jobs: Vec<Job>,
    fired: Vec<u64>,
    ticks: u64,
}

impl View for Scheduler {
    type V = SchedulerView;

    closed spec fn view(&self) -> SchedulerView {
        SchedulerView {
            jobs: Seq::new(
                self.jobs@.len(),
                |j: int|
                    JobView {
                        name: self.jobs@[j].name@,
                        interval: self.jobs@[j].interval_secs as nat,
                        registered_at: self.jobs@[j].registered_at as nat,
                        fired: self.fired@[j] as nat,
                    },
            ),
            ticks: self.ticks as nat,
        }
    }
}

impl Scheduler {
    closed spec fn inv(&self) -> bool {
        &&& self.jobs@.len() == self.fired@.len()
        &&& self@.wf()
    }

    /// The scheduler's own consistency, kept by every operation.
    pub closed spec fn well_formed(&self) -> bool {
        self.inv()
    }

    /// A well-formed scheduler's view keeps the firing counts consistent.
    pub proof fn lemma_well_formed_view(&self)
        requires
            self.well_formed(),
        ensures
            self@.wf(),
    {
    }

    /// A scheduler with no jobs, at time zero.
    pub fn new() -> (r: Scheduler)
        ensures
            r.well_formed(),
            r@.jobs.len() == 0,
            r@.ticks == 0,
    {
        Scheduler { jobs: Vec::new(), fired: Vec::new(), ticks: 0 }
    }

    /// Adds a job that fires every `interval_secs` seconds from the
    /// scheduler's start; returns its slot.
    pub fn register(&mut self, name: String, interval_secs: u64) -> (slot: usize)
        requires
            old(self).well_formed(),
            interval_secs >= 1,
        ensures
            final(self).well_formed(),
            slot == old(self)@.jobs.len(),
            final(self)@ == (SchedulerView {
                jobs: old(self)@.jobs.push(
                    JobView {
                        name: name@,
                        interval: interval_secs as nat,
                        registered_at: old(self)@.ticks,
                        fired: 0,
                    },
                ),
                ticks: old(self)@.ticks,
            }),
    {
        let slot = self.jobs.len();
        let ghost before = self@;
        self.jobs.push(Job { name, interval_secs, registered_at: self.ticks });
        self.fired.push(0);
        assert(self@.jobs =~= before.jobs.push(
            JobView {
                name: name@,
                interval: interval_secs as nat,
                registered_at: before.ticks,
                fired: 0,
            },
        ));
        slot
    }

    /// The number of ticks so far.
    pub fn ticks(&self) -> (r: u64)
        ensures
            r == self@.ticks,
    {
        self.ticks
    }

    /// The number of registered jobs.
    pub fn len(&self) -> (r: usize)
        requires
            self.well_formed(),
        ensures
            r == self@.jobs.len(),
    {
        self.jobs.len()
    }

    /// How many times the job in `slot` has fired.
    pub fn fired(&self, slot: usize) -> (r: u64)
        requires
            self.well_formed(),
            slot < self@.jobs.len(),
        ensures
            r == self@.jobs[slot as int].fired,
    {
        self.fired[slot]
    }

    /// Advances time by one tick and returns the slots of the jobs that fire
    /// now, in registration order; the caller runs them in that order. At the
    /// largest tick count time stands still and nothing fires.
    pub fn tick(&mut self) -> (due: Vec<usize>)
        requires
            old(self).well_formed(),
        ensures
            final(self).well_formed(),
            old(self)@.ticks < u64::MAX ==> final(self)@ == after_tick(old(self)@) && due@
                == due_among(final(self)@.jobs, final(self)@.ticks, final(self)@.jobs.len()),
            old(self)@.ticks >= u64::MAX ==> final(self)@ == old(self)@ && due@.len() == 0,
            forall|k: int| 0 <= k < due@.len() ==> (#[trigger] due@[k] as int) < final(self)@.jobs.len(),
    {
        let mut due: Vec<usize> = Vec::new();
        if self.ticks == u64::MAX {
            return due;
        }
        let ghost before = self@;
        let ghost fired0 = self.fired@;
        let t = self.ticks + 1;
        let n = self.jobs.len();
        let mut i: usize = 0;
        while i < n
            invariant
                0 <= i <= n,
                n == self.jobs@.len(),
                self.fired@.len() == n,
                fired0.len() == n,
                self.ticks + 1 == t,
                before == (SchedulerView {
                    jobs: Seq::new(
                        n as nat,
                        |j: int|
                            JobView {
                                name: self.jobs@[j].name@,
                                interval: self.jobs@[j].interval_secs as nat,
                                registered_at: self.jobs@[j].registered_at as nat,
                                fired: fired0[j] as nat,
                            },
                    ),
                    ticks: self.ticks as nat,
                }),
                before.wf(),
                forall|j: int|
                    0 <= j < i ==> #[trigger] self.fired@[j] == fired0[j] + if fires_at(
                        self.jobs@[j].interval_secs as nat,
                        t as nat,
                    ) {
                        1int
                    } else {
                        0int
                    },
                forall|j: int| i <= j < n ==> #[trigger] self.fired@[j] == fired0[j],
                due@ == due_among(before.jobs, t as nat, i as nat),
            decreases n - i,
        {
            let interval = self.jobs[i].interval_secs;
            assert(before.jobs[i as int].interval == interval);
            if t % 2 == 0 && (t / 2) % interval == 0 {
                let count = self.fired[i];
                proof {
                    let job = before.jobs[i as int];
                    lemma_fire_count_bounds(job.interval, job.registered_at, t as nat);
                }
                self.fired.set(i, count + 1);
                due.push(i);
            }
            i = i + 1;
        }
        self.ticks = t;
        proof {
            assert(self@.jobs =~= after_tick(before).jobs);
            lemma_after_tick_keeps_wf(before);
            lemma_due_among_depends_on_intervals(before.jobs, after_tick(before).jobs, t as nat, n as nat);
            lemma_due_in_registration_order(self@.jobs, t as nat, n as nat);
        }
        due
    }
}

/// Between registration and now a job fires at most once per tick, and the
/// count never shrinks.
proof fn lemma_fire_count_bounds(interval: nat, from: nat, t: nat)
    requires
        from < t,
    ensures
        fire_count(interval, from) <= fire_count(interval, (t - 1) as nat),
        fire_count(interval, (t - 1) as nat) + 1 <= t,
    decreases t - from,
{
    lemma_fire_count_at_most_ticks(interval, (t - 1) as nat);
    if from + 1 < t {
        lemma_fire_count_bounds(interval, from, (t - 1) as nat);
    }
}

proof fn lemma_fire_count_at_most_ticks(interval: nat, t: nat)
    ensures
        fire_count(interval, t) <= t,
    decreases t,
{
    if t > 0 {
        lemma_fire_count_at_most_ticks(interval, (t - 1) as nat);
    }
}

proof fn lemma_fire_count_monotone(interval: nat, from: nat, t: nat)
    requires
        from <= t,
    ensures
        fire_count(interval, from) <= fire_count(interval, t),
    decreases t - from,
{
    if from < t {
        lemma_fire_count_monotone(interval, from, (t - 1) as nat);
    }
}

proof fn lemma_after_tick_keeps_wf(s: SchedulerView)
    requires
        s.wf(),
    ensures
        after_tick(s).wf(),
{
    let next = after_tick(s);
    assert forall|j: int| 0 <= j < next.jobs.len() implies {
        let job = #[trigger] next.jobs[j];
        &&& job.interval >= 1
        &&& job.registered_at <= next.ticks
        &&& job.fired == fire_count(job.interval, next.ticks) - fire_count(
            job.interval,
            job.registered_at,
        )
    } by {
        let old_job = s.jobs[j];
        lemma_fire_count_monotone(old_job.interval, old_job.registered_at, s.ticks);
    }
}

/// Which slots are due depends only on the jobs' intervals.
proof fn lemma_due_among_depends_on_intervals(a: Seq<JobView>, b: Seq<JobView>, t: nat, n: nat)
    requires
        n <= a.len(),
        n <= b.len(),
        forall|j: int| 0 <= j < n ==> (#[trigger] a[j]).interval == b[j].interval,
    ensures
        due_among(a, t, n) == due_among(b, t, n),
    decreases n,
{
    if n > 0 {
        lemma_due_among_depends_on_intervals(a, b, t, (n - 1) as nat);
    }
}


/// Over whole seconds: a multiple of the interval is reached once more at
/// second `s` exactly when `s` is itself a multiple.
proof fn lemma_quotient_step(s: int, interval: int)
    requires
        s >= 1,
        interval >= 1,
    ensures
        s / interval == (s - 1) / interval + if s % interval == 0 {
            1int
        } else {
            0int
        },
{
    let q = (s - 1) / interval;
    let r = (s - 1) % interval;
    lemma_fundamental_div_mod(s - 1, interval);
    if r == interval - 1 {
        assert(s == (q + 1) * interval + 0) by (nonlinear_arith)
            requires
                s - 1 == interval * q + r,
                r == interval - 1,
        ;
        lemma_fundamental_div_mod_converse(s, interval, q + 1, 0);
    } else {
        assert(s == q * interval + (r + 1)) by (nonlinear_arith)
            requires
                s - 1 == interval * q + r,
        ;
        lemma_fundamental_div_mod_converse(s, interval, q, r + 1);
    }
}

/// A job fires at as many of the ticks `1..=t` as there are whole intervals
/// in the `t / 2` seconds that have passed.
proof fn lemma_fire_count_in_seconds(interval: nat, t: nat)
    requires
        interval >= 1,
    ensures
        fire_count(interval, t) == (t / 2) / interval,
    decreases t,
{
    if t > 0 {
        lemma_fire_count_in_seconds(interval, (t - 1) as nat);
        if t % 2 == 0 {
            lemma_quotient_step((t / 2) as int, interval as int);
        }
    }
}

/// A job registered with an interval of `n` seconds and driven for `t` ticks
/// of 500 ms has fired `floor(t * 0.5 / n)` times.
pub proof fn lemma_fire_count_formula(interval: nat, t: nat)
    requires
        interval >= 1,
    ensures
        fire_count(interval, t) == t / (2 * interval),
{
    lemma_fire_count_in_seconds(interval, t);
    lemma_div_denominator(t as int, 2, interval as int);
}

/// In a well-formed scheduler, a job registered at its start has fired
/// `floor(ticks * 0.5 / interval)` times.
pub proof fn lemma_job_fire_count(s: SchedulerView, slot: int)
    requires
        s.wf(),
        0 <= slot < s.jobs.len(),
        s.jobs[slot].registered_at == 0,
    ensures
        s.jobs[slot].fired == s.ticks / (2 * s.jobs[slot].interval),
{
    let job = s.jobs[slot];
    lemma_fire_count_formula(job.interval, s.ticks);
}

/// The slots due at one tick are exactly the jobs that fire at it, each once,
/// in registration order.
pub proof fn lemma_due_in_registration_order(jobs: Seq<JobView>, t: nat, n: nat)
    requires
        n <= jobs.len(),
        n <= usize::MAX + 1,
    ensures
        forall|a: int, b: int|
            0 <= a < b < due_among(jobs, t, n).len() ==> due_among(jobs, t, n)[a] < due_among(
                jobs,
                t,
                n,
            )[b],
        forall|k: int|
            0 <= k < due_among(jobs, t, n).len() ==> {
                let slot = #[trigger] due_among(jobs, t, n)[k];
                slot < n && fires_at(jobs[slot as int].interval, t)
            },
        forall|j: int|
            0 <= j < n && fires_at(jobs[j].interval, t) ==> due_among(jobs, t, n).contains(
                j as usize,
            ),
    decreases n,
{
    if n > 0 {
        lemma_due_in_registration_order(jobs, t, (n - 1) as nat);
        let earlier = due_among(jobs, t, (n - 1) as nat);
        if fires_at(jobs[n - 1].interval, t) {
            let now = earlier.push((n - 1) as usize);
            assert forall|j: int| 0 <= j < n && fires_at(jobs[j].interval, t) implies now.contains(
                j as usize,
            ) by {
                if j < n - 1 {
                    let k = choose|k: int| 0 <= k < earlier.len() && earlier[k] == j as usize;
                    assert(now[k] == j as usize);
                } else {
                    assert(now[now.len() - 1] == j as usize);
                }
            }
        }
    }
}

} // verus!
