//! Report-and-submit pipeline for posting a network-configuration report as
//! an issue to a project-management API.
//!
//! The library builds the report (title and fenced body), percent-encodes the
//! two fields, assembles the target URL with them as query parameters, and
//! interprets the response body, falling back to the raw text when it is not
//! the expected structured document. Running the diagnostic command and
//! carrying out the HTTP request are left to the caller.

pub mod encode;
pub mod report;
pub mod strutil;
pub mod submit;
