//! The state of the periodically refreshing live view.
//!
//! The loop around it — terminal setup, drawing, key polling, clocks —
//! lives with the binary; what is decided here is how a fetch outcome
//! changes the state and when a refresh is due, over plain elapsed
//! seconds.

use vstd::prelude::*;

use crate::error::DatapassError;
use crate::error::message_spec;
use crate::types::DataUsage;

verus! {

/// The live view's state: the last good record, the last error, and the
/// refresh interval.
#[derive(Debug, Clone)]
pub struct TuiApp {
    /// Seconds between automatic refreshes.
    pub refresh_interval_secs: u64,
    /// The last successfully extracted record, kept across later errors.
    pub data: Option<DataUsage>,
    /// The message of the last failed refresh, cleared by a success.
    pub error: Option<String>,
}

impl TuiApp {
    /// A fresh state with nothing fetched yet.
    pub fn new(refresh_interval: u64) -> (r: TuiApp)
        ensures
            r.refresh_interval_secs == refresh_interval,
            r.data is None,
            r.error is None,
    {
        TuiApp { refresh_interval_secs: refresh_interval, data: None, error: None }
    }

    /// Takes a fetch outcome: a success replaces the record and clears
    /// the error; a failure keeps the record and stores the message.
    pub fn update_data(&mut self, data: Result<DataUsage, DatapassError>)
        ensures
            final(self).refresh_interval_secs == old(self).refresh_interval_secs,
            match data {
                Ok(u) => final(self).data == Some(u) && final(self).error is None,
                Err(e) => final(self).data == old(self).data && (final(self).error matches Some(m)
                    && m@ == "Error: "@ + message_spec(e)),
            },
    {
        match data {
            Ok(usage) => {
                self.data = Some(usage);
                self.error = None;
            },
            Err(e) => {
                self.error = Some(String::from_str("Error: ").concat(e.message().as_str()));
            },
        }
    }

    /// Whether an automatic refresh is due.
    pub fn should_refresh(&self, elapsed_secs: u64) -> (r: bool)
        ensures
            r == (elapsed_secs >= self.refresh_interval_secs),
    {
        elapsed_secs >= self.refresh_interval_secs
    }

    /// Seconds until the next automatic refresh.
    pub fn next_refresh_in(&self, elapsed_secs: u64) -> (r: u64)
        ensures
            r == if elapsed_secs < self.refresh_interval_secs {
                self.refresh_interval_secs - elapsed_secs
            } else {
                0
            },
    {
        if elapsed_secs < self.refresh_interval_secs {
            self.refresh_interval_secs - elapsed_secs
        } else {
            0
        }
    }
}

} // verus!
