//! Benchmark aggregation core: fixed in-process workloads, the decisions of
//! the external runner, and the assembly of one result set per request.
pub mod fib;
pub mod primes;
pub mod timing;
pub mod sorting;
pub mod benchmarks;
pub mod runner;
pub mod aggregate;
