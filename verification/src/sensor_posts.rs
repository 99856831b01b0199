//! Schedule resolution: turning partially-specified, possibly conflicting
//! timing and concurrency knobs into one unambiguous execution plan.

use crate::decimal::spec_digits;
use crate::decimal::u32_to_string;
use crate::duration::Duration;
use crate::duration::NANOS_PER_SEC;
use crate::error::PostSchedulerError;
use vstd::prelude::*;

verus! {

/// How many readings to post when no amount is supplied.
pub const DEFAULT_POST_AMOUNT: u32 = 1;

/// Seconds between posts when neither an interval nor a total time is
/// supplied.
pub const DEFAULT_TIME_PER_POST_SECS: u64 = 10;

/// How many workers run when no thread count is supplied.
pub const DEFAULT_NUM_THREADS: u32 = 1;

/// The largest accepted thread count.
pub const MAX_NUM_THREADS: u32 = 10;

/// Accumulates the optional user-supplied run parameters.  Any subset may
/// be absent; `build` resolves them into a [`PostScheduler`].
#[derive(Clone, Copy, Debug)]
pub struct PostSchedulerBuilder {
    pub post_amount: Option<u32>,
    pub time_per_post: Option<Duration>,
    pub total_time: Option<Duration>,
    pub num_threads: Option<u32>,
}

impl PostSchedulerBuilder {
    /// The run loops forever exactly when no post amount was supplied but a
    /// time per post was.
    pub open spec fn resolves_indefinite(self) -> bool {
        self.post_amount is None && self.time_per_post is Some
    }

    /// The post amount defaults to one when absent.
    pub open spec fn resolved_post_amount(self) -> u32 {
        match self.post_amount {
            Option::Some(n) => n,
            Option::None => DEFAULT_POST_AMOUNT,
        }
    }

    /// The thread count defaults to one when absent.
    pub open spec fn resolved_num_threads(self) -> u32 {
        match self.num_threads {
            Option::Some(n) => n,
            Option::None => DEFAULT_NUM_THREADS,
        }
    }

    /// The interval between posts, in nanoseconds: a supplied time per post
    /// wins over everything (a total time beside it is ignored); a total
    /// time alone is divided evenly over the post amount; with neither, the
    /// default applies.
    pub open spec fn resolved_interval_nanos(self) -> int {
        match (self.time_per_post, self.total_time) {
            (Option::None, Option::None) => DEFAULT_TIME_PER_POST_SECS * (NANOS_PER_SEC as int),
            (Option::None, Option::Some(t)) => t.as_nanos_spec() / (
            self.resolved_post_amount() as int),
            (Option::Some(p), _) => p.as_nanos_spec(),
        }
    }

    /// A builder with every parameter absent.
    pub fn default() -> (b: PostSchedulerBuilder)
        ensures
            b.post_amount is None,
            b.time_per_post is None,
            b.total_time is None,
            b.num_threads is None,
    {
        PostSchedulerBuilder { post_amount: None, time_per_post: None, total_time: None, num_threads: None }
    }

    pub fn with_some_post_amount(self, post_amount: &Option<u32>) -> (b: Self)
        ensures
            b == (PostSchedulerBuilder { post_amount: *post_amount, ..self }),
    {
        PostSchedulerBuilder { post_amount: *post_amount, ..self }
    }

    pub fn with_some_time_per_post(self, time_per_post: &Option<Duration>) -> (b: Self)
        ensures
            b == (PostSchedulerBuilder { time_per_post: *time_per_post, ..self }),
    {
        PostSchedulerBuilder { time_per_post: *time_per_post, ..self }
    }

    pub fn with_some_total_time(self, total_time: &Option<Duration>) -> (b: Self)
        ensures
            b == (PostSchedulerBuilder { total_time: *total_time, ..self }),
    {
        PostSchedulerBuilder { total_time: *total_time, ..self }
    }

    pub fn with_some_num_threads(self, num_threads: &Option<u32>) -> (b: Self)
        ensures
            b == (PostSchedulerBuilder { num_threads: *num_threads, ..self }),
    {
        PostSchedulerBuilder { num_threads: *num_threads, ..self }
    }

    /// Resolves the accumulated parameters into an execution plan.
    ///
    /// Succeeds exactly when the resolved thread count lies in
    /// `1..=MAX_NUM_THREADS`; otherwise it fails with an error naming
    /// `num_threads`, its value, and the violated bound.
    ///
    /// A supplied post amount of zero together with only a total time is
    /// excluded: the interval would be a division by zero.
    pub fn build(self) -> (r: Result<PostScheduler, PostSchedulerError>)
        requires
            !(self.post_amount == Some(0u32) && self.time_per_post is None
                && self.total_time is Some),
        ensures
            r is Ok <==> 1 <= self.resolved_num_threads() <= MAX_NUM_THREADS,
            (match r {
                Result::Ok(s) => {
                    &&& s.post_amount == self.resolved_post_amount()
                    &&& s.time_per_post.as_nanos_spec() == self.resolved_interval_nanos()
                    &&& (self.time_per_post is Some ==> s.time_per_post == self.time_per_post->0)
                    &&& s.num_threads == self.resolved_num_threads()
                    &&& s.loop_indefinitely == self.resolves_indefinite()
                },
                Result::Err(e) => {
                    &&& e matches PostSchedulerError::InvalidArgument {
                        argument_name,
                        value,
                        message,
                    }
                    &&& e->argument_name@ == "num_threads"@
                    &&& e->value@ == spec_digits(self.resolved_num_threads() as nat)
                    &&& e->message@ == (if self.resolved_num_threads() == 0 {
                        "You must use at least 1 thread."@
                    } else {
                        "You can't use more than 10 threads."@
                    })
                },
            }),
    {
        // Loop indefinitely if no post amount is set.  If a time per post is
        // also not set then don't loop.
        let loop_indefinitely = self.post_amount.is_none() && self.time_per_post.is_some();

        let post_amount = match self.post_amount {
            Some(n) => n,
            None => DEFAULT_POST_AMOUNT,
        };

        let time_per_post = match (&self.time_per_post, &self.total_time) {
            (None, None) => Duration::from_secs(DEFAULT_TIME_PER_POST_SECS),
            (None, Some(total_time)) => total_time.div_by(post_amount),
            (Some(time_per_post), _) => *time_per_post,
        };

        let num_threads = match self.num_threads {
            Some(n) => n,
            None => DEFAULT_NUM_THREADS,
        };

        if num_threads == 0 {
            return Err(PostSchedulerError::InvalidArgument {
                argument_name: String::from_str("num_threads"),
                value: u32_to_string(num_threads),
                message: String::from_str("You must use at least 1 thread."),
            });
        }
        if num_threads > MAX_NUM_THREADS {
            return Err(PostSchedulerError::InvalidArgument {
                argument_name: String::from_str("num_threads"),
                value: u32_to_string(num_threads),
                message: String::from_str("You can't use more than 10 threads."),
            });
        }

        Ok(PostScheduler { post_amount, time_per_post, num_threads, loop_indefinitely })
    }
}

/// The immutable, fully-resolved execution plan for one run.
#[derive(Clone, Copy, Debug)]
pub struct PostScheduler {
    /// How many posts each worker makes; consulted only in bounded mode.
    pub post_amount: u32,
    /// The delay between consecutive posts of one worker.
    pub time_per_post: Duration,
    /// How many independent workers run the full workload.
    pub num_threads: u32,
    /// True means each worker posts forever; only external cancellation
    /// stops the run.
    pub loop_indefinitely: bool,
}

/// With no parameters supplied at all, the plan is one bounded post on one
/// worker at the default interval.
pub proof fn lemma_default_resolution(b: PostSchedulerBuilder)
    requires
        b.post_amount is None,
        b.time_per_post is None,
        b.total_time is None,
        b.num_threads is None,
    ensures
        !b.resolves_indefinite(),
        b.resolved_post_amount() == 1,
        b.resolved_num_threads() == 1,
        b.resolved_interval_nanos() == DEFAULT_TIME_PER_POST_SECS * (NANOS_PER_SEC as int),
{
}

/// With only a total time supplied, the interval divides it evenly over the
/// resolved post amount, and the run stays bounded: a supplied amount is
/// kept as it is.
pub proof fn lemma_total_time_division(b: PostSchedulerBuilder)
    requires
        b.time_per_post is None,
        b.total_time is Some,
    ensures
        b.resolved_interval_nanos() == b.total_time->0.as_nanos_spec() / (
        b.resolved_post_amount() as int),
        !b.resolves_indefinite(),
        b.post_amount is Some ==> b.resolved_post_amount() == b.post_amount->0,
{
}

/// A supplied time per post always wins: a total time standing beside it is
/// silently ignored.
pub proof fn lemma_time_per_post_precedence(b: PostSchedulerBuilder)
    requires
        b.time_per_post is Some,
    ensures
        b.resolved_interval_nanos() == b.time_per_post->0.as_nanos_spec(),
{
}

/// With no post amount but a time per post, the run is indefinite: it keeps
/// the supplied interval, and the amount falls back to its default, which
/// an indefinite run never consults.
pub proof fn lemma_interval_only_is_indefinite(b: PostSchedulerBuilder)
    requires
        b.post_amount is None,
        b.time_per_post is Some,
    ensures
        b.resolves_indefinite(),
        b.resolved_interval_nanos() == b.time_per_post->0.as_nanos_spec(),
        b.resolved_post_amount() == DEFAULT_POST_AMOUNT,
{
}

/// The classified cause of a failed submission.
#[derive(Clone, Copy, Debug, PartialEq, Eq, Structural)]
pub enum PostErrorKind {
    /// The request could not be carried out (a connection error).
    Request,
    /// The request timed out.
    Timeout,
    /// The transport failed for an unspecified reason.
    Unknown,
}

/// The outcome of one submission: a response with its status code, or a
/// failure with its classified cause.
#[derive(Clone, Copy, Debug, PartialEq, Eq, Structural)]
pub enum PostOutcome {
    Delivered { status: u16 },
    Failed { kind: PostErrorKind },
}

/// Maps the transport's failure flags into the closed error taxonomy: a
/// request error wins over a timeout, and anything else is unknown.
pub fn classify_post_error(is_request: bool, is_timeout: bool) -> (k: PostErrorKind)
    ensures
        k == (if is_request {
            PostErrorKind::Request
        } else if is_timeout {
            PostErrorKind::Timeout
        } else {
            PostErrorKind::Unknown
        }),
{
    if is_request {
        PostErrorKind::Request
    } else if is_timeout {
        PostErrorKind::Timeout
    } else {
        PostErrorKind::Unknown
    }
}

/// Whether a status code reports success: exactly the codes from 200 up to
/// but not including 300.
pub fn status_is_success(status: u16) -> (r: bool)
    ensures
        r <==> 200 <= status < 300,
{
    200 <= status && status < 300
}

/// What a worker does next: post one reading (and then sleep, or not), or
/// stop.
#[derive(Clone, Copy, Debug, PartialEq, Eq, Structural)]
pub enum WorkerStep {
    Post { sleep_after: bool },
    Done,
}

/// How many of `outcomes` are failures.
pub open spec fn count_failures(outcomes: Seq<PostOutcome>) -> int
    decreases outcomes.len(),
{
    if outcomes.len() == 0 {
        0
    } else {
        count_failures(outcomes.drop_last()) + if outcomes.last() is Failed {
            1int
        } else {
            0int
        }
    }
}

/// What a worker holding this plan does after `posts_done` posts.
#[derive(Clone, Copy, Debug, PartialEq, Eq, Structural)]
pub struct WorkerReport {
    /// How many posts the worker performed.
    pub posts_sent: u32,
    /// How many inter-post sleeps it took.
    pub sleeps: u32,
    /// How many of its submissions failed.
    pub failures: u32,
}

impl PostScheduler {
    /// The next move of a worker that has completed `posts_done` posts:
    /// in indefinite mode always another post followed by a sleep; in
    /// bounded mode a post while the amount is not yet reached, with the
    /// sleep suppressed after the last one.
    pub open spec fn step_spec(self, posts_done: u32) -> WorkerStep {
        if self.loop_indefinitely {
            WorkerStep::Post { sleep_after: true }
        } else if posts_done < self.post_amount {
            WorkerStep::Post { sleep_after: posts_done + 1 < self.post_amount }
        } else {
            WorkerStep::Done
        }
    }

    /// Decides a worker's next step from the plan and its own progress
    /// alone; no submission outcome enters the decision.
    pub fn next_step(&self, posts_done: u32) -> (s: WorkerStep)
        ensures
            s == self.step_spec(posts_done),
    {
        if self.loop_indefinitely {
            WorkerStep::Post { sleep_after: true }
        } else if posts_done < self.post_amount {
            WorkerStep::Post { sleep_after: posts_done + 1 < self.post_amount }
        } else {
            WorkerStep::Done
        }
    }

    /// Runs one bounded worker to completion over the given submission
    /// outcomes, one outcome per post.
    ///
    /// Whatever the outcomes hold, the worker performs exactly
    /// `post_amount` posts and sleeps after each but the last: failures are
    /// counted, never retried, and never cut the run short.
    pub fn run_worker(&self, outcomes: &Vec<PostOutcome>) -> (r: WorkerReport)
        requires
            !self.loop_indefinitely,
            outcomes@.len() == self.post_amount,
        ensures
            r.posts_sent == self.post_amount,
            r.sleeps == if self.post_amount == 0 {
                0int
            } else {
                self.post_amount - 1
            },
            r.failures == count_failures(outcomes@),
    {
        let mut posts_done: u32 = 0;
        let mut sleeps: u32 = 0;
        let mut failures: u32 = 0;
        loop
            invariant
                !self.loop_indefinitely,
                outcomes@.len() == self.post_amount,
                posts_done <= self.post_amount,
                sleeps == if posts_done < self.post_amount {
                    posts_done as int
                } else if self.post_amount == 0 {
                    0int
                } else {
                    self.post_amount - 1
                },
                failures <= posts_done,
                failures == count_failures(outcomes@.take(posts_done as int)),
            ensures
                posts_done == self.post_amount,
                sleeps == if self.post_amount == 0 {
                    0int
                } else {
                    self.post_amount - 1
                },
                failures == count_failures(outcomes@.take(posts_done as int)),
            decreases self.post_amount - posts_done,
        {
            match self.next_step(posts_done) {
                WorkerStep::Done => {
                    break ;
                },
                WorkerStep::Post { sleep_after } => {
                    proof {
                        assert(outcomes@.take(posts_done as int + 1).drop_last() =~= outcomes@.take(
                            posts_done as int,
                        ));
                    }
                    match outcomes[posts_done as usize] {
                        PostOutcome::Failed { .. } => {
                            failures = failures + 1;
                        },
                        PostOutcome::Delivered { .. } => {},
                    }
                    if sleep_after {
                        sleeps = sleeps + 1;
                    }
                    posts_done = posts_done + 1;
                },
            }
        }
        proof {
            assert(outcomes@.take(posts_done as int) =~= outcomes@);
        }
        WorkerReport { posts_sent: posts_done, sleeps, failures }
    }

    /// Whether the run stays on the calling thread: exactly when one worker
    /// is asked for, the dispatcher uses the current thread instead of
    /// spawning.
    pub fn use_current_thread(&self) -> (r: bool)
        ensures
            r <==> self.num_threads == 1,
    {
        self.num_threads == 1
    }

    /// The ordinal identifiers of the workers this plan starts: one worker
    /// per unit of concurrency, numbered from zero.  The identifiers serve
    /// log attribution only; every worker runs the same full workload.
    pub fn worker_ids(&self) -> (ids: Vec<u32>)
        ensures
            ids@.len() == self.num_threads,
            forall|i: int| 0 <= i < ids@.len() ==> ids@[i] == i,
    {
        let mut ids: Vec<u32> = Vec::new();
        let mut t: u32 = 0;
        while t < self.num_threads
            invariant
                t <= self.num_threads,
                ids@.len() == t,
                forall|i: int| 0 <= i < t ==> ids@[i] == i,
            decreases self.num_threads - t,
        {
            ids.push(t);
            t = t + 1;
        }
        ids
    }
}

/// A bounded worker posts exactly `post_amount` times — the step after `i`
/// completed posts is a post exactly when `i` is below the amount — and the
/// sleep is suppressed exactly on the last post, so a bounded run of `n`
/// posts sleeps `n - 1` times.
pub proof fn lemma_bounded_worker_steps(s: PostScheduler, i: u32)
    requires
        !s.loop_indefinitely,
    ensures
        (s.step_spec(i) is Post) <==> (i < s.post_amount),
        s.step_spec(i) is Post ==> ((s.step_spec(i)->sleep_after) <==> (i + 1 < s.post_amount)),
{
}

/// An indefinite worker never stops on its own: every step is a post
/// followed unconditionally by a sleep, whatever the progress counter says.
pub proof fn lemma_indefinite_worker_steps(s: PostScheduler, i: u32)
    requires
        s.loop_indefinitely,
    ensures
        s.step_spec(i) == (WorkerStep::Post { sleep_after: true }),
{
}

} // verus!
