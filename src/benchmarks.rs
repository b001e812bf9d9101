//! The in-process benchmark set: three CPU-bound workloads, each timed alone
//! and reported with a fixed nominal operation count.
use crate::fib::{fib, fibonacci, lemma_fib_fits_u64};
use crate::primes::{is_prime, sieve_of_eratosthenes};
use crate::sorting::sort_descending_run;
use crate::timing::{measure, throughput, throughput_of, Throughput};
use vstd::prelude::*;

verus! {

/// The Fibonacci index computed by the first task.
pub const FIBONACCI_INPUT: u32 = 40;

/// How many integers the sort task sorts.
pub const SORT_SIZE: i32 = 100000;

/// The bound up to which the sieve task finds primes.
pub const SIEVE_LIMIT: usize = 100000;

/// Nominal operation counts, one per task, intrinsic to the task.
pub const FIBONACCI_OPERATIONS: u64 = 1000;

pub const SORT_OPERATIONS: u64 = 100000;

pub const SIEVE_OPERATIONS: u64 = 100000;

/// One timed run of an in-process task.
pub struct TaskRecord {
    pub source_name: String,
    pub task_name: String,
    pub duration_ms: u128,
    pub throughput: Throughput,
}

/// The source name that every in-process record carries.
pub open spec fn in_process_source() -> Seq<char> {
    "Rust"@
}

/// The task names, in definition order.
pub open spec fn in_process_task_names() -> Seq<Seq<char>> {
    seq!["Fibonacci(40)"@, "Sort 100k integers"@, "Primes up to 100k"@]
}

/// The nominal operation counts, in definition order.
pub open spec fn in_process_operations() -> Seq<u64> {
    seq![FIBONACCI_OPERATIONS, SORT_OPERATIONS, SIEVE_OPERATIONS]
}

/// `r` reports task `task_name` of this set, with `operations` done in its duration.
pub open spec fn records_task(r: TaskRecord, task_name: Seq<char>, operations: u64) -> bool {
    &&& r.source_name@ == in_process_source()
    &&& r.task_name@ == task_name
    &&& r.throughput == throughput_of(operations, r.duration_ms)
}

fn task_record(task_name: &str, operations: u64, duration_ms: u128) -> (r: TaskRecord)
    ensures
        records_task(r, task_name@, operations),
        r.duration_ms == duration_ms,
{
    TaskRecord {
        source_name: "Rust".to_owned(),
        task_name: task_name.to_owned(),
        duration_ms,
        throughput: throughput(operations, duration_ms),
    }
}

fn fibonacci_work() -> (v: u64)
    ensures
        v == fib(FIBONACCI_INPUT as nat),
{
    proof {
        lemma_fib_fits_u64(FIBONACCI_INPUT as nat);
    }
    fibonacci(FIBONACCI_INPUT)
}

fn sort_work() -> (v: Vec<i32>)
    ensures
        v@.len() == SORT_SIZE,
        forall|a: int, b: int| 0 <= a < b < v@.len() ==> v[a] < v[b],
        forall|x: i32| v@.contains(x) <==> 0 <= x < SORT_SIZE,
{
    sort_descending_run(SORT_SIZE)
}

fn sieve_work() -> (v: Vec<usize>)
    ensures
        forall|a: int, b: int| 0 <= a < b < v.len() ==> v[a] < v[b],
        forall|a: int| 0 <= a < v.len() ==> v[a] <= SIEVE_LIMIT && is_prime(v[a] as int),
        forall|p: int| 0 <= p <= SIEVE_LIMIT && is_prime(p) ==> v@.contains(p as usize),
{
    sieve_of_eratosthenes(SIEVE_LIMIT)
}

/// Times naive recursive Fibonacci of 40; returns the number and the record.
pub fn run_fibonacci_task() -> (r: (u64, TaskRecord))
    ensures
        r.0 == fib(FIBONACCI_INPUT as nat),
        records_task(r.1, in_process_task_names()[0], FIBONACCI_OPERATIONS),
{
    let (value, ms) = measure(fibonacci_work);
    (value, task_record("Fibonacci(40)", FIBONACCI_OPERATIONS, ms))
}

/// Times building `SORT_SIZE - 1, ..., 0` and sorting it; returns the sorted
/// values and the record.
pub fn run_sort_task() -> (r: (Vec<i32>, TaskRecord))
    ensures
        r.0@.len() == SORT_SIZE,
        forall|a: int, b: int| 0 <= a < b < r.0@.len() ==> r.0[a] < r.0[b],
        forall|x: i32| r.0@.contains(x) <==> 0 <= x < SORT_SIZE,
        records_task(r.1, in_process_task_names()[1], SORT_OPERATIONS),
{
    let (sorted, ms) = measure(sort_work);
    (sorted, task_record("Sort 100k integers", SORT_OPERATIONS, ms))
}

/// Times the sieve up to `SIEVE_LIMIT`; returns the primes and the record.
pub fn run_sieve_task() -> (r: (Vec<usize>, TaskRecord))
    ensures
        forall|a: int, b: int| 0 <= a < b < r.0.len() ==> r.0[a] < r.0[b],
        forall|a: int| 0 <= a < r.0.len() ==> r.0[a] <= SIEVE_LIMIT && is_prime(r.0[a] as int),
        forall|p: int| 0 <= p <= SIEVE_LIMIT && is_prime(p) ==> r.0@.contains(p as usize),
        records_task(r.1, in_process_task_names()[2], SIEVE_OPERATIONS),
{
    let (primes, ms) = measure(sieve_work);
    (primes, task_record("Primes up to 100k", SIEVE_OPERATIONS, ms))
}

/// `s` holds one record per task of the set, in definition order.
pub open spec fn is_in_process_set(s: Seq<TaskRecord>) -> bool {
    &&& s.len() == 3
    &&& forall|k: int|
        0 <= k < 3 ==> records_task(
            #[trigger] s[k],
            in_process_task_names()[k],
            in_process_operations()[k],
        )
}

/// Any two passes over the in-process set report the same tasks, from the
/// same source, in the same order; only the timings may differ.
pub proof fn lemma_in_process_sets_agree(a: Seq<TaskRecord>, b: Seq<TaskRecord>)
    requires
        is_in_process_set(a),
        is_in_process_set(b),
    ensures
        a.len() == b.len(),
        forall|k: int|
            0 <= k < a.len() ==> (#[trigger] a[k]).task_name@ == b[k].task_name@
                && a[k].source_name@ == b[k].source_name@,
{
    assert forall|k: int| 0 <= k < a.len() implies (#[trigger] a[k]).task_name@
        == b[k].task_name@ && a[k].source_name@ == b[k].source_name@ by {
        assert(records_task(a[k], in_process_task_names()[k], in_process_operations()[k]));
        assert(records_task(b[k], in_process_task_names()[k], in_process_operations()[k]));
    }
}

/// Every in-process record has a throughput that is a rate over a positive
/// duration, or unbounded exactly where the duration is zero: it is never
/// obtained by dividing by zero.
pub proof fn lemma_in_process_throughput_defined(s: Seq<TaskRecord>)
    requires
        is_in_process_set(s),
    ensures
        forall|k: int|
            0 <= k < s.len() ==> (#[trigger] s[k]).throughput.wf() && (s[k].throughput
                is Unbounded <==> s[k].duration_ms == 0),
{
    assert forall|k: int| 0 <= k < s.len() implies (#[trigger] s[k]).throughput.wf() && (
    s[k].throughput is Unbounded <==> s[k].duration_ms == 0) by {
        assert(records_task(s[k], in_process_task_names()[k], in_process_operations()[k]));
    }
}

/// Runs the three tasks one after another, in definition order, and returns
/// one record per task.
pub fn run_in_process_set() -> (r: Vec<TaskRecord>)
    ensures
        is_in_process_set(r@),
{
    let mut records: Vec<TaskRecord> = Vec::new();
    let (_, fib_record) = run_fibonacci_task();
    records.push(fib_record);
    let (_, sort_record) = run_sort_task();
    records.push(sort_record);
    let (_, sieve_record) = run_sieve_task();
    records.push(sieve_record);
    records
}

} // verus!
