//! The log lines of the container that is looked at.

use vstd::prelude::*;
use crate::text::{split_lines, text_lines};

verus! {

/// How many of the latest lines are asked for.
pub const LOG_TAIL_LINES: i64 = 200;

/// What is asked of the cluster for a container's log.
#[derive(Clone, Debug, PartialEq, Eq)]
pub struct LogRequest {
    pub container: String,
    pub timestamps: bool,
    pub tail_lines: i64,
}

/// The lines of a container's log.
#[derive(Clone, Debug)]
pub struct LogData {
    pub lines: Vec<String>,
}

/// The line shown in place of a log that could not be fetched.
pub open spec fn fetch_failure_text(
    container: Seq<char>,
    pod: Seq<char>,
    namespace: Seq<char>,
) -> Seq<char> {
    "Failed to fetch logs for container '"@ + container + "' in pod '"@ + pod + "', namespace '"@
        + namespace + "'"@
}

/// The line shown in place of a log that could not be fetched.
pub fn fetch_failure(container: &str, pod: &str, namespace: &str) -> (text: String)
    ensures
        text@ == fetch_failure_text(container@, pod@, namespace@),
{
    let mut text = String::from_str("Failed to fetch logs for container '");
    text.append(container);
    text.append("' in pod '");
    text.append(pod);
    text.append("', namespace '");
    text.append(namespace);
    text.append("'");
    text
}

/// The request for the log of `container`: its latest lines, each with its
/// time.
pub fn log_request(container: &str) -> (request: LogRequest)
    ensures
        request.container@ == container@,
        request.timestamps,
        request.tail_lines == LOG_TAIL_LINES,
{
    LogRequest {
        container: String::from_str(container),
        timestamps: true,
        tail_lines: LOG_TAIL_LINES,
    }
}

impl LogData {
    /// No line known yet.
    pub fn new() -> (data: Self)
        ensures
            data.lines@.len() == 0,
    {
        LogData { lines: Vec::new() }
    }

    /// Takes in the log text that the cluster gave for a container, or
    /// `None` where the fetch failed: the lines are then the one line that
    /// says so.
    pub fn update(
        &mut self,
        fetched: Option<String>,
        namespace: &str,
        pod_name: &str,
        container_name: &str,
    )
        ensures
            final(self).lines.deep_view() == text_lines(
                match fetched {
                    Some(text) => text@,
                    None => fetch_failure_text(container_name@, pod_name@, namespace@),
                },
            ),
    {
        let text = match fetched {
            Some(text) => text,
            None => fetch_failure(container_name, pod_name, namespace),
        };
        self.lines = split_lines(text.as_str());
    }
}

impl Default for LogData {
    fn default() -> (data: Self)
        ensures
            data.lines@.len() == 0,
    {
        LogData::new()
    }
}

} // verus!
