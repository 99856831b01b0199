use ambi_mock_client::duration::Duration;
use ambi_mock_client::error::PostSchedulerError;
use ambi_mock_client::sensor_posts::PostSchedulerBuilder;
use ambi_mock_client::sensor_posts::MAX_NUM_THREADS;

#[test]
fn requests_test_invalid_num_threads_low() {
    let req_scheduler = PostSchedulerBuilder::default().with_some_num_threads(&Some(0)).build();

    assert!(req_scheduler.is_err())
}

#[test]
fn requests_test_invalid_num_threads_high() {
    let req_scheduler = PostSchedulerBuilder::default()
        .with_some_num_threads(&Some(MAX_NUM_THREADS + 1))
        .build();

    assert!(req_scheduler.is_err())
}

#[test]
fn default_resolution_is_one_bounded_post() {
    let schedule = PostSchedulerBuilder::default().build().unwrap();

    assert_eq!(schedule.post_amount, 1);
    assert!(!schedule.loop_indefinitely);
    assert_eq!(schedule.num_threads, 1);
    assert!(schedule.time_per_post == Duration::from_secs(10));
}

#[test]
fn every_thread_count_in_range_resolves() {
    for n in 1..=MAX_NUM_THREADS {
        let schedule = PostSchedulerBuilder::default().with_some_num_threads(&Some(n)).build();
        assert_eq!(schedule.unwrap().num_threads, n);
    }
}

#[test]
fn zero_threads_is_rejected_naming_the_argument() {
    let err = PostSchedulerBuilder::default().with_some_num_threads(&Some(0)).build().unwrap_err();

    let PostSchedulerError::InvalidArgument { argument_name, value, message } = err;
    assert_eq!(argument_name.as_str(), "num_threads");
    assert_eq!(value.as_str(), "0");
    assert_eq!(message.as_str(), "You must use at least 1 thread.");
}

#[test]
fn too_many_threads_is_rejected_naming_the_argument() {
    let err = PostSchedulerBuilder::default()
        .with_some_num_threads(&Some(MAX_NUM_THREADS + 1))
        .build()
        .unwrap_err();

    let PostSchedulerError::InvalidArgument { argument_name, value, message } = err;
    assert_eq!(argument_name.as_str(), "num_threads");
    assert_eq!(value.as_str(), "11");
    assert_eq!(message.as_str(), "You can't use more than 10 threads.");
}

#[test]
fn error_describes_itself() {
    let err = PostSchedulerBuilder::default().with_some_num_threads(&Some(0)).build().unwrap_err();

    assert_eq!(
        err.describe().as_str(),
        "Invalid value \"0\" for argument num_threads. You must use at least 1 thread."
    );
}

#[test]
fn total_time_is_divided_over_the_post_amount() {
    let schedule = PostSchedulerBuilder::default()
        .with_some_post_amount(&Some(4))
        .with_some_total_time(&Some(Duration::from_secs(20)))
        .build()
        .unwrap();

    assert!(schedule.time_per_post == Duration::from_secs(5));
}

#[test]
fn total_time_division_keeps_nanosecond_precision() {
    let schedule = PostSchedulerBuilder::default()
        .with_some_post_amount(&Some(3))
        .with_some_total_time(&Some(Duration::from_secs(10)))
        .build()
        .unwrap();

    assert_eq!(schedule.time_per_post.as_secs(), 3);
    assert_eq!(schedule.time_per_post.subsec_nanos(), 333_333_333);
}

#[test]
fn time_per_post_wins_over_total_time() {
    let schedule = PostSchedulerBuilder::default()
        .with_some_post_amount(&Some(4))
        .with_some_time_per_post(&Some(Duration::from_secs(7)))
        .with_some_total_time(&Some(Duration::from_secs(100)))
        .build()
        .unwrap();

    assert!(schedule.time_per_post == Duration::from_secs(7));
}

#[test]
fn interval_without_amount_means_indefinite() {
    let schedule = PostSchedulerBuilder::default()
        .with_some_time_per_post(&Some(Duration::from_secs(5)))
        .build()
        .unwrap();

    assert!(schedule.loop_indefinitely);
    assert!(schedule.time_per_post == Duration::from_secs(5));
}

#[test]
fn total_time_alone_stays_bounded() {
    let schedule = PostSchedulerBuilder::default()
        .with_some_total_time(&Some(Duration::from_secs(30)))
        .build()
        .unwrap();

    assert!(!schedule.loop_indefinitely);
    assert_eq!(schedule.post_amount, 1);
    assert!(schedule.time_per_post == Duration::from_secs(30));
}

#[test]
fn supplied_amount_stays_bounded() {
    let schedule = PostSchedulerBuilder::default()
        .with_some_post_amount(&Some(6))
        .with_some_time_per_post(&Some(Duration::from_secs(2)))
        .build()
        .unwrap();

    assert!(!schedule.loop_indefinitely);
    assert_eq!(schedule.post_amount, 6);
}
