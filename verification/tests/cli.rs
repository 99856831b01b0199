use ambi_mock_client::Cli;
use ambi_mock_client::decimal::u32_to_string;
use ambi_mock_client::duration::Duration;
use ambi_mock_client::error::PostSchedulerError;
use ambi_mock_client::is_valid_num_of_threads;
use ambi_mock_client::run;

fn empty_cli() -> Cli {
    Cli { debug: false, post_amount: None, time_per_post_s: None, total_time_s: None, num_threads: None }
}

#[test]
fn thread_counts_in_range_validate() {
    assert_eq!(is_valid_num_of_threads("1"), Ok(1));
    assert_eq!(is_valid_num_of_threads("5"), Ok(5));
    assert_eq!(is_valid_num_of_threads("10"), Ok(10));
}

#[test]
fn a_leading_plus_sign_is_accepted() {
    assert_eq!(is_valid_num_of_threads("+5"), Ok(5));
    assert_eq!(is_valid_num_of_threads("+10"), Ok(10));
    assert_eq!(is_valid_num_of_threads("+0"), Err("You must use at least 1 thread.".to_string()));
}

#[test]
fn zero_threads_fail_validation() {
    assert_eq!(is_valid_num_of_threads("0"), Err("You must use at least 1 thread.".to_string()));
}

#[test]
fn too_many_threads_fail_validation() {
    let expected = Err("You can't use more than 10 threads.".to_string());
    assert_eq!(is_valid_num_of_threads("11"), expected);
    assert_eq!(is_valid_num_of_threads("4294967295"), expected);
}

#[test]
fn non_numbers_fail_validation() {
    let expected = Err("value wasn't a number!".to_string());
    assert_eq!(is_valid_num_of_threads(""), expected);
    assert_eq!(is_valid_num_of_threads("abc"), expected);
    assert_eq!(is_valid_num_of_threads("-1"), expected);
    assert_eq!(is_valid_num_of_threads("1 "), expected);
    assert_eq!(is_valid_num_of_threads("+"), expected);
    assert_eq!(is_valid_num_of_threads("++5"), expected);
    assert_eq!(is_valid_num_of_threads("4294967296"), expected);
}

#[test]
fn run_with_no_arguments_plans_one_default_post() {
    let schedule = run(&empty_cli()).unwrap();

    assert_eq!(schedule.post_amount, 1);
    assert!(!schedule.loop_indefinitely);
    assert_eq!(schedule.num_threads, 1);
    assert!(schedule.time_per_post == Duration::from_secs(10));
}

#[test]
fn run_converts_seconds_and_applies_precedence() {
    let cli = Cli {
        time_per_post_s: Some(3),
        total_time_s: Some(600),
        ..empty_cli()
    };
    let schedule = run(&cli).unwrap();

    assert!(schedule.loop_indefinitely);
    assert!(schedule.time_per_post == Duration::from_secs(3));
}

#[test]
fn run_rejects_a_bad_thread_count() {
    let cli = Cli { num_threads: Some(11), ..empty_cli() };
    let PostSchedulerError::InvalidArgument { argument_name, value, message } =
        run(&cli).unwrap_err();

    assert_eq!(argument_name.as_str(), "num_threads");
    assert_eq!(value.as_str(), "11");
    assert_eq!(message.as_str(), "You can't use more than 10 threads.");
}

#[test]
fn decimal_rendering_matches_std() {
    for n in [0u32, 7, 10, 99, 100, 12_345, u32::MAX] {
        assert_eq!(u32_to_string(n), n.to_string());
    }
}
