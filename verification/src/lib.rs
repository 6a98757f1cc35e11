//! A small static-file HTTP server library.
//!
//! The library holds the request-handling core of the server: sanitizing
//! untrusted URL paths, routing a request to a filesystem target, building
//! the response, deciding port-binding retries, and formatting access-log
//! lines. Network and filesystem I/O live outside, in the program that
//! drives it; the routing functions hand back what to look up next, and
//! take the filesystem's answer as an argument.

pub mod binder;
pub mod logline;
pub mod paths;
pub mod response;
pub mod router;
pub mod strutil;

