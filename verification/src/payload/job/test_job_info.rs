//! Predefined job information for testing.

use crate::payload::job::ExecutingJobInfo;
use vstd::prelude::*;

verus! {

/// TEST.JOB at line 1000, step 1, 100 %.
pub fn default_job() -> (r: ExecutingJobInfo)
    ensures
        r.job_name@ == "TEST.JOB"@,
        r.line_number == 1000,
        r.step_number == 1,
        r.speed_override_value == 100,
{
    ExecutingJobInfo::new("TEST.JOB".to_string(), 1000, 1, 100)
}

/// PRODUCTION.JOB at line 2500, step 15, 80 %.
pub fn running_job() -> (r: ExecutingJobInfo)
    ensures
        r.job_name@ == "PRODUCTION.JOB"@,
        r.line_number == 2500,
        r.step_number == 15,
        r.speed_override_value == 80,
{
    ExecutingJobInfo::new("PRODUCTION.JOB".to_string(), 2500, 15, 80)
}

/// MAINTENANCE.JOB at line 500, step 3, 50 %.
pub fn paused_job() -> (r: ExecutingJobInfo)
    ensures
        r.job_name@ == "MAINTENANCE.JOB"@,
        r.line_number == 500,
        r.step_number == 3,
        r.speed_override_value == 50,
{
    ExecutingJobInfo::new("MAINTENANCE.JOB".to_string(), 500, 3, 50)
}

} // verus!
