//! A verified core for an object-interception thumbnail service: fetch an
//! original object under a hard size ceiling, derive one square PNG
//! thumbnail from it, and submit the thumbnail as the platform's response,
//! classifying any submission failure for observability.
pub mod fetch;
pub mod handler;
pub mod publish;
pub mod thumb;
