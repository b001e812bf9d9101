use bench_core::benchmarks::{
    run_fibonacci_task, run_in_process_set, run_sieve_task, run_sort_task, FIBONACCI_OPERATIONS,
    SIEVE_OPERATIONS, SORT_OPERATIONS,
};
use bench_core::fib::fibonacci;
use bench_core::primes::sieve_of_eratosthenes;
use bench_core::sorting::{descending_values, sort_descending_run};
use bench_core::timing::{measure, throughput, Throughput};

fn iterative_fibonacci(n: u32) -> u64 {
    let (mut a, mut b) = (0u64, 1u64);
    for _ in 0..n {
        let next = a + b;
        a = b;
        b = next;
    }
    a
}

#[test]
fn fibonacci_small_values() {
    assert_eq!(fibonacci(0), 0);
    assert_eq!(fibonacci(1), 1);
    assert_eq!(fibonacci(2), 1);
    assert_eq!(fibonacci(10), 55);
    assert_eq!(fibonacci(20), 6765);
}

#[test]
fn fibonacci_matches_iterative_reference() {
    for n in 0..=25 {
        assert_eq!(fibonacci(n), iterative_fibonacci(n));
    }
}

fn is_prime_by_trial(n: usize) -> bool {
    n >= 2 && (2..n).all(|d| n % d != 0)
}

#[test]
fn sieve_empty_for_zero_and_one() {
    assert!(sieve_of_eratosthenes(0).is_empty());
    assert!(sieve_of_eratosthenes(1).is_empty());
}

#[test]
fn sieve_small_limits() {
    assert_eq!(sieve_of_eratosthenes(2), vec![2]);
    assert_eq!(sieve_of_eratosthenes(3), vec![2, 3]);
    assert_eq!(sieve_of_eratosthenes(4), vec![2, 3]);
    assert_eq!(sieve_of_eratosthenes(30), vec![2, 3, 5, 7, 11, 13, 17, 19, 23, 29]);
    assert_eq!(sieve_of_eratosthenes(49), vec![2, 3, 5, 7, 11, 13, 17, 19, 23, 29, 31, 37, 41, 43, 47]);
}

#[test]
fn sieve_matches_trial_division() {
    for limit in 0..300 {
        let expected: Vec<usize> = (0..=limit).filter(|&n| is_prime_by_trial(n)).collect();
        assert_eq!(sieve_of_eratosthenes(limit), expected);
    }
}

#[test]
fn sieve_counts_primes_to_one_hundred_thousand() {
    let primes = sieve_of_eratosthenes(100000);
    assert_eq!(primes.len(), 9592);
    assert_eq!(primes[primes.len() - 1], 99991);
    assert!(primes.windows(2).all(|w| w[0] < w[1]));
}

#[test]
fn descending_values_are_reversed_range() {
    assert_eq!(descending_values(0), Vec::<i32>::new());
    assert_eq!(descending_values(5), vec![4, 3, 2, 1, 0]);
}

#[test]
fn sorting_descending_run_gives_ascending_range() {
    let sorted = sort_descending_run(100000);
    assert_eq!(sorted.len(), 100000);
    assert!(sorted.windows(2).all(|w| w[0] < w[1]));
    for (k, v) in sorted.iter().enumerate() {
        assert_eq!(*v, k as i32);
    }
    assert!(sort_descending_run(0).is_empty());
}

#[test]
fn throughput_special_cases_zero_duration() {
    assert_eq!(throughput(1000, 0), Throughput::Unbounded);
    assert_eq!(throughput(1000, 4), Throughput::Rate { operations: 1000, per_millis: 4 });
    assert_eq!(throughput(0, 7), Throughput::Rate { operations: 0, per_millis: 7 });
}

#[test]
fn measure_runs_work_once_and_returns_its_value() {
    let mut calls = 0;
    let (value, _ms) = measure(|| {
        calls += 1;
        42u32
    });
    assert_eq!(value, 42);
    assert_eq!(calls, 1);
}

#[test]
fn fibonacci_task_reports_value_and_record() {
    let (value, record) = run_fibonacci_task();
    assert_eq!(value, 102334155);
    assert_eq!(record.source_name, "Rust");
    assert_eq!(record.task_name, "Fibonacci(40)");
    assert_eq!(record.throughput, throughput(FIBONACCI_OPERATIONS, record.duration_ms));
}

#[test]
fn sort_task_reports_sorted_values() {
    let (sorted, record) = run_sort_task();
    assert_eq!(sorted, (0..100000).collect::<Vec<i32>>());
    assert_eq!(record.task_name, "Sort 100k integers");
    assert_eq!(record.throughput, throughput(SORT_OPERATIONS, record.duration_ms));
}

#[test]
fn sieve_task_reports_primes() {
    let (primes, record) = run_sieve_task();
    assert_eq!(primes.len(), 9592);
    assert_eq!(record.task_name, "Primes up to 100k");
    assert_eq!(record.throughput, throughput(SIEVE_OPERATIONS, record.duration_ms));
}

#[test]
fn in_process_set_has_three_records_in_order() {
    let records = run_in_process_set();
    let names: Vec<&str> = records.iter().map(|r| r.task_name.as_str()).collect();
    assert_eq!(names, vec!["Fibonacci(40)", "Sort 100k integers", "Primes up to 100k"]);
    for r in &records {
        assert_eq!(r.source_name, "Rust");
        match r.throughput {
            Throughput::Unbounded => assert_eq!(r.duration_ms, 0),
            Throughput::Rate { per_millis, .. } => {
                assert!(per_millis > 0);
                assert_eq!(per_millis, r.duration_ms);
            }
        }
    }
}
