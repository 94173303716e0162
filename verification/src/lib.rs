//! A verified fan-out/fan-in ranking pipeline over a remote top-stories
//! listing: the candidate ids are deduplicated into a dispatch plan, each
//! fetched body decodes into one of five record kinds, only stories pass
//! the filter, and an aggregation point drains every outcome into a
//! score-ordered ranking structure and an id-keyed lookup table that
//! always describe the same stories. The network sits outside; what each
//! stage decides is stated in contracts and proved.

pub mod aggregate;
pub mod dispatch;
pub mod json;
pub mod pipeline;
pub mod ranking;
pub mod schema;
pub mod types;
