//! HSES commands, grouped by what they act on.

pub mod alarm;
pub mod command_trait;
pub mod cycle_mode;
pub mod file;
pub mod io;
pub mod job;
pub mod position;
pub mod register;
pub mod servo;
pub mod status;
pub mod var_type;
pub mod variable;

pub use alarm::{AlarmAttribute, AlarmCategory, AlarmReset, AlarmResetType, ReadAlarmData, ReadAlarmHistory};
pub use command_trait::{Command, Division, Service};
pub use cycle_mode::{CycleMode, CycleModeSwitchingCommand};
pub use file::response::{parse_file_content, parse_file_list};
pub use file::{DeleteFile, ReadFileList, ReceiveFile, SendFile};
pub use io::{IoCategory, ReadIo, ReadMultipleIo, WriteIo, WriteMultipleIo};
pub use job::{JobSelectCommand, JobSelectType, JobStartCommand, ReadExecutingJobInfo, TaskType};
pub use position::ReadCurrentPosition;
pub use register::{ReadMultipleRegisters, ReadRegister, WriteMultipleRegisters, WriteRegister};
pub use servo::{HoldServoControl, HoldServoType, HoldServoValue};
pub use status::{ReadStatus, ReadStatusData1, ReadStatusData2};
pub use variable::{
    MultipleVariableCommandId, MultipleVariableResponse, ReadMultipleVariables, ReadVariable,
    VariableCommandId, WriteMultipleStringVariables, WriteMultipleVariables, WriteStringVar,
    WriteVariable,
};
pub use var_type::{ReadVar, VariableType, WriteVar};
