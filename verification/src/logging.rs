//! Log targets and where the log files go.
use vstd::prelude::*;
use crate::paths::{join_path, join_relative};

verus! {

/// Where a log line is routed.
pub enum LogTarget {
    HTTP,
    MODBUS,
    FS,
    Clearcore,
}

impl LogTarget {
    /// The target name as the logger sees it.
    pub open spec fn spec_name(self) -> Seq<char> {
        match self {
            LogTarget::HTTP => "http"@,
            LogTarget::MODBUS => "modbus"@,
            LogTarget::FS => "fs"@,
            LogTarget::Clearcore => "clearcore"@,
        }
    }

    pub fn to_str(self) -> (s: &'static str)
        ensures
            s@ == self.spec_name(),
    {
        match self {
            LogTarget::HTTP => "http",
            LogTarget::MODBUS => "modbus",
            LogTarget::FS => "fs",
            LogTarget::Clearcore => "clearcore",
        }
    }
}


/// Size at which the current log file is rolled over.
pub const MAX_LOG_FILE_SIZE_BYTES: u64 = 1048576;

/// Number of rolled-over log files kept.
pub const MAX_LOG_FILES: u32 = 100;

/// The current log file in `log_dir`, and the name pattern of the rolled-over ones
/// (`{}` stands for the file's number).
pub fn log_file_paths(log_dir: &str) -> (r: (String, String))
    ensures
        r.0@ == join_relative(log_dir@, "log-current.txt"@),
        r.1@ == join_relative(log_dir@, "log-{}.txt"@),
{
    (join_path(log_dir, "log-current.txt"), join_path(log_dir, "log-{}.txt"))
}

} // verus!
