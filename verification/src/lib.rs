//! Request-routing and tool-dispatch core for a local AI desktop assistant.
//!
//! The library decides how a free-form query is handled: either forwarded to
//! a local inference service under a model identifier, or dispatched to a
//! named local tool (calculator, file search, file read/write, system info,
//! OCR, calendar, email).  All decision logic, response parsing, envelope
//! assembly and the bounded file-search and OCR state machines live here and
//! are verified; the surrounding process (HTTP, subprocesses, filesystem
//! walks) supplies events and carries out the requested effects.

pub mod backend;
pub mod json;
pub mod ocr;
pub mod router;
pub mod search;
pub mod tools;
pub mod text;
