//! Payload data types of the HSES protocol and the trait they share.

pub mod alarm;
pub mod job;
pub mod payload_trait;
pub mod position;
pub mod status;
pub mod variable;

pub use alarm::Alarm;
pub use job::ExecutingJobInfo;
pub use payload_trait::HsesPayload;
pub use position::{CartesianPosition, Position, PulsePosition};
pub use status::{Status, StatusData1, StatusData2, StatusWrapper};
