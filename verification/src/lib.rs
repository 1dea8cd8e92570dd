//! A page-fetch probe: decides whether a plain HTTP request is enough to
//! obtain a page or whether the page must be rendered in a browser, drives
//! the rendering to a well-defined point of readiness, and reports what it
//! found, degrading gracefully when a page does not settle in time.
//!
//! The library holds the decisions and proves them with Verus; it does no
//! I/O. Its caller fetches, talks to the browser, sleeps and writes files,
//! and tells the library what happened:
//!
//! - [`probe`] runs one probe from the plain fetch to the outcome.
//! - [`fetch`] classifies the response of the plain fetch.
//! - [`session`] plans a render session and builds its launch arguments.
//! - [`readiness`] decides when a rendered page has settled, with the bounded
//!   waits of [`gates`] and the probe values of [`signals`]; [`driver`]
//!   bounds the length of a whole wait.
//! - [`scripts`] builds the scripts installed in every new document.
//! - [`antibot`] looks for bot-verification interstitials.
//! - [`policy`] tells timeouts from other failures and applies the caller's
//!   disposition; [`report`] holds the records that a probe ends in.
//! - [`cookies`], [`paths`] and [`config`] hold cookies, file names and the
//!   caller's settings; [`text`] and [`decimal`] are the text utilities
//!   underneath.

pub mod antibot;
pub mod config;
pub mod cookies;
pub mod decimal;
pub mod driver;
pub mod fetch;
pub mod gates;
pub mod paths;
pub mod policy;
pub mod probe;
pub mod readiness;
pub mod report;
pub mod scripts;
pub mod session;
pub mod signals;
pub mod text;
