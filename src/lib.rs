//! Request-scoped structured logging context for a web server: the fields that
//! describe each request and response, the startup manifest, the per-request
//! transaction, and the ordered chain of user callbacks that refine a logger.
pub mod chain;
pub mod digits;
pub mod enrich;
pub mod field;
pub mod manifest;
pub mod request;
pub mod slogger;
pub mod transaction;
