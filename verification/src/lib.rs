pub mod config;
pub mod envelope;
pub mod schedule;

pub use config::ConfigError;
pub use config::EngineConfig;
pub use config::GridShape;
pub use envelope::classify_envelope_axis;
pub use envelope::classify_envelope_point;
pub use envelope::EnvelopeSide;
pub use schedule::evolution_schedule;
pub use schedule::SubStep;
