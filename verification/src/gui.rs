//! State of the operator's front end that does not depend on how it is drawn.

use vstd::prelude::*;

verus! {

/// The log panel: the messages received, and which severities are shown.
pub struct LoggerApp {
    logs: Vec<String>,
    display_error: bool,
    display_debug: bool,
}

impl LoggerApp {
    /// The messages logged, the oldest first.
    pub closed spec fn spec_logs(&self) -> Seq<Seq<char>> {
        self.logs.deep_view()
    }

    /// Whether errors are shown.
    pub closed spec fn spec_display_error(&self) -> bool {
        self.display_error
    }

    /// Whether debug messages are shown.
    pub closed spec fn spec_display_debug(&self) -> bool {
        self.display_debug
    }

    /// Appends a message to the log.
    pub fn log(&mut self, msg: String)
        ensures
            final(self).spec_logs() == old(self).spec_logs().push(msg@),
            final(self).spec_display_error() == old(self).spec_display_error(),
            final(self).spec_display_debug() == old(self).spec_display_debug(),
    {
        self.logs.push(msg);
        assert(self.logs.deep_view() =~= old(self).logs.deep_view().push(msg@));
    }

    /// The number of messages logged.
    pub fn len(&self) -> (r: usize)
        ensures
            r == self.spec_logs().len(),
    {
        self.logs.len()
    }

    /// The message at a place in the log.
    pub fn get(&self, i: usize) -> (r: &str)
        requires
            i < self.spec_logs().len(),
        ensures
            r@ == self.spec_logs()[i as int],
    {
        self.logs[i].as_str()
    }
}

impl Default for LoggerApp {
    /// An empty log that shows errors and hides debug messages.
    fn default() -> (r: Self)
        ensures
            r.spec_logs() == Seq::<Seq<char>>::empty(),
            r.spec_display_error(),
            !r.spec_display_debug(),
    {
        let r = LoggerApp { logs: Vec::new(), display_error: true, display_debug: false };
        assert(r.logs.deep_view() =~= Seq::<Seq<char>>::empty());
        r
    }
}

/// The telemetry panel.
#[derive(Clone, Copy, Debug, PartialEq, Eq, Structural)]
pub struct TelemetryApp {}

impl Default for TelemetryApp {
    fn default() -> (r: Self)
        ensures
            r == (TelemetryApp {  }),
    {
        TelemetryApp {  }
    }
}

/// A frame of the remote panel.
#[derive(Clone, Copy, Debug, PartialEq, Eq, Structural)]
pub struct DataFrameRemote {}

impl Default for DataFrameRemote {
    fn default() -> (r: Self)
        ensures
            r == (DataFrameRemote {  }),
    {
        DataFrameRemote {  }
    }
}

} // verus!
