//! Log file naming. Writing to the log files and to standard output is the
//! runtime's business; what belongs here is the pure naming scheme of the
//! per-day files.

use vstd::prelude::*;

verus! {

/// The application log: its file names are derived from the service name
/// and the calendar day.
#[derive(Clone, Copy, Debug)]
pub struct AppLog {
    pub app_name: &'static str,
}

impl AppLog {
    /// The log file for one day: `./log/<app>_<day>.txt`.
    pub fn log_file_name_for_day(&self, day: &str) -> (r: String)
        ensures
            r@ == "./log/"@ + self.app_name@ + "_"@ + day@ + ".txt"@,
    {
        let mut s = "./log/".to_owned();
        s.append(self.app_name);
        s.append("_");
        s.append(day);
        s.append(".txt");
        s
    }

    /// The statistics file for one day: `./log/stats_<app>_<day>.txt`.
    pub fn stats_file_name_for_day(&self, day: &str) -> (r: String)
        ensures
            r@ == "./log/stats_"@ + self.app_name@ + "_"@ + day@ + ".txt"@,
    {
        let mut s = "./log/stats_".to_owned();
        s.append(self.app_name);
        s.append("_");
        s.append(day);
        s.append(".txt");
        s
    }
}

} // verus!
