// Topic value synchronization for a telemetry dashboard: a typed model of
// the values a pub/sub telemetry service publishes, a store holding the
// latest value of each topic, the decisions of the push and poll update
// paths, and the connection identity handed to the service.
pub mod connection;
pub mod display;
pub mod shared;
pub mod store;
pub mod sync;
pub mod value;
