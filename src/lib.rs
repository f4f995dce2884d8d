//! Serverless function handlers: a greeting handler over a JSON-like value,
//! and a prime-number handler over an event envelope, with their contracts.

pub mod envelope;
pub mod error;
pub mod hello;
pub mod json;
pub mod prime;
pub mod primes;
