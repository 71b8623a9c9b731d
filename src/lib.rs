//! Support machinery of a command-line tool: flattening of a parsed command
//! invocation into a telemetry event, the telemetry event builder's
//! configuration rules, and the build-and-strip packaging steps.
pub mod dist;
pub mod invocation;
pub mod telemetry;
