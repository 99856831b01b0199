//! A mock client for a fleet of environmental sensors.
//!
//! The library resolves partially-specified timing and concurrency
//! parameters into one unambiguous execution plan, decides each step of a
//! worker's generate-submit-classify loop, and fabricates the sensor
//! readings themselves.  Performing the HTTP submissions, sleeping between
//! iterations and spawning worker threads are left to the surrounding
//! application.

pub mod data;
pub mod decimal;
pub mod duration;
pub mod error;
pub mod sensor_posts;

use crate::decimal::all_digits;
use crate::decimal::digits_part;
use crate::decimal::digits_value;
use crate::decimal::is_u32_text;
use crate::decimal::parse_u32;
use crate::decimal::spec_digits;
use crate::duration::Duration;
use crate::duration::NANOS_PER_SEC;
use crate::error::PostSchedulerError;
use crate::sensor_posts::DEFAULT_NUM_THREADS;
use crate::sensor_posts::DEFAULT_POST_AMOUNT;
use crate::sensor_posts::DEFAULT_TIME_PER_POST_SECS;
use crate::sensor_posts::MAX_NUM_THREADS;
use crate::sensor_posts::PostScheduler;
use crate::sensor_posts::PostSchedulerBuilder;
use vstd::prelude::*;

verus! {

/// The command line surface: a verbosity toggle, which never enters
/// scheduling, and the four optional run parameters.
#[derive(Clone, Copy, Debug)]
pub struct Cli {
    /// Turns verbose console debug output on.
    pub debug: bool,
    /// The number of sensor readings to post.
    pub post_amount: Option<u32>,
    /// The time between each sensor reading post, in seconds.
    pub time_per_post_s: Option<u64>,
    /// The total time over which all the sensor reading posts must be sent,
    /// in seconds.
    pub total_time_s: Option<u64>,
    /// The number of threads to spawn.  The workload is cloned to each
    /// thread, not divided.
    pub num_threads: Option<u32>,
}

impl Cli {
    /// See [`PostSchedulerBuilder::resolves_indefinite`].
    pub open spec fn resolves_indefinite(self) -> bool {
        self.post_amount is None && self.time_per_post_s is Some
    }

    /// See [`PostSchedulerBuilder::resolved_post_amount`].
    pub open spec fn resolved_post_amount(self) -> u32 {
        match self.post_amount {
            Option::Some(n) => n,
            Option::None => DEFAULT_POST_AMOUNT,
        }
    }

    /// See [`PostSchedulerBuilder::resolved_num_threads`].
    pub open spec fn resolved_num_threads(self) -> u32 {
        match self.num_threads {
            Option::Some(n) => n,
            Option::None => DEFAULT_NUM_THREADS,
        }
    }

    /// See [`PostSchedulerBuilder::resolved_interval_nanos`].
    pub open spec fn resolved_interval_nanos(self) -> int {
        match (self.time_per_post_s, self.total_time_s) {
            (Option::None, Option::None) => DEFAULT_TIME_PER_POST_SECS * (NANOS_PER_SEC as int),
            (Option::None, Option::Some(t)) => (t * (NANOS_PER_SEC as int)) / (
            self.resolved_post_amount() as int),
            (Option::Some(p), _) => p * (NANOS_PER_SEC as int),
        }
    }
}

/// Ensures that the number of threads is in `1..=MAX_NUM_THREADS`.
///
/// Accepts exactly the texts of a `u32` (an optional leading `+`, then
/// digits) whose value lies in that range; everything else earns the
/// message naming what went wrong.
pub fn is_valid_num_of_threads(val: &str) -> (r: Result<u32, String>)
    ensures
        r is Ok <==> (is_u32_text(val@) && 1 <= digits_value(digits_part(val@))
            <= MAX_NUM_THREADS),
        r is Ok ==> r->Ok_0 == digits_value(digits_part(val@)),
        (match r {
            Result::Err(m) => m@ == (if !is_u32_text(val@) {
                "value wasn't a number!"@
            } else if digits_value(digits_part(val@)) == 0 {
                "You must use at least 1 thread."@
            } else {
                "You can't use more than 10 threads."@
            }),
            Result::Ok(_) => true,
        }),
{
    proof {
        if all_digits(digits_part(val@)) {
            crate::decimal::lemma_digits_value_nonneg(digits_part(val@));
        }
    }
    match parse_u32(val) {
        Option::None => Err(String::from_str("value wasn't a number!")),
        Option::Some(num_threads) => {
            if num_threads == 0 {
                Err(String::from_str("You must use at least 1 thread."))
            } else if num_threads <= MAX_NUM_THREADS {
                Ok(num_threads)
            } else {
                Err(String::from_str("You can't use more than 10 threads."))
            }
        },
    }
}

/// Resolves the command line parameters into one execution plan.
///
/// Fails exactly when the thread count falls outside
/// `1..=MAX_NUM_THREADS`; carrying the plan out — posting, sleeping,
/// spawning — is the application's part.
pub fn run(cli: &Cli) -> (r: Result<PostScheduler, PostSchedulerError>)
    requires
        !(cli.post_amount == Some(0u32) && cli.time_per_post_s is None && cli.total_time_s is Some),
    ensures
        r is Ok <==> 1 <= cli.resolved_num_threads() <= MAX_NUM_THREADS,
        (match r {
            Result::Ok(s) => {
                &&& s.post_amount == cli.resolved_post_amount()
                &&& s.time_per_post.as_nanos_spec() == cli.resolved_interval_nanos()
                &&& s.num_threads == cli.resolved_num_threads()
                &&& s.loop_indefinitely == cli.resolves_indefinite()
            },
            Result::Err(e) => {
                &&& e matches PostSchedulerError::InvalidArgument { .. }
                &&& e->argument_name@ == "num_threads"@
                &&& e->value@ == spec_digits(cli.resolved_num_threads() as nat)
                &&& e->message@ == (if cli.resolved_num_threads() == 0 {
                    "You must use at least 1 thread."@
                } else {
                    "You can't use more than 10 threads."@
                })
            },
        }),
{
    let time_per_post = match cli.time_per_post_s {
        Some(s) => Some(Duration::from_secs(s)),
        None => None,
    };
    let total_time = match cli.total_time_s {
        Some(s) => Some(Duration::from_secs(s)),
        None => None,
    };

    PostSchedulerBuilder::default().with_some_post_amount(&cli.post_amount).with_some_time_per_post(
        &time_per_post,
    ).with_some_total_time(&total_time).with_some_num_threads(&cli.num_threads).build()
}

} // verus!
