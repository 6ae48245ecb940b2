//! Timetable lookup library: builds deterministic transit-search queries,
//! extracts departure/arrival time pairs from result pages, and resolves
//! the access key the JSON search API needs.

pub mod agent;
pub mod errors;
pub mod extract;
pub mod query;
pub mod response;
pub mod secret;
pub mod timefmt;

pub use agent::ApiAgent;
pub use errors::AgentError;
pub use extract::TrainTime;
pub use query::RouteConfig;
pub use timefmt::TimeSnapshot;
