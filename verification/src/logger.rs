//! Deployment logger: accumulates timestamped lines in an in-memory buffer
//! for one deployment attempt, and derives from it the notification payload
//! and the block appended to the on-disk log file.

use vstd::prelude::*;

use crate::executor::{captured_output_spec, ExecutionResult};
use crate::mail::EmailPayload;
use crate::text::{replace_newlines, replace_newlines_spec};

verus! {

/// `c` is an ASCII decimal digit.
pub open spec fn is_digit(c: char) -> bool {
    '0' <= c && c <= '9'
}

/// `t` has the shape of a wall-clock timestamp: two-digit hour, minute and
/// second, separated by colons.
pub open spec fn is_hms(t: Seq<char>) -> bool {
    &&& t.len() == 8
    &&& is_digit(t[0])
    &&& is_digit(t[1])
    &&& t[2] == ':'
    &&& is_digit(t[3])
    &&& is_digit(t[4])
    &&& t[5] == ':'
    &&& is_digit(t[6])
    &&& is_digit(t[7])
}

/// One log line: the decorative marker, the timestamp, a separator, the
/// content, and a terminating newline.
pub open spec fn line_spec(t: Seq<char>, content: Seq<char>) -> Seq<char> {
    "⏰ "@ + t + ": "@ + content + "\n"@
}

/// Relies on chrono's `Local::now` formatted as `%H:%M:%S`: hour (00-23),
/// minute (00-59) and second (00-60), each zero-padded to two digits and
/// separated by colons, whatever the current wall-clock time is.
#[verifier::external_body]
fn now_hms() -> (t: String)
    ensures
        is_hms(t@),
{
    chrono::Local::now().format("%H:%M:%S").to_string()
}

/// The in-memory log buffer of one deployment attempt.
pub struct DeploymentLog {
    buf: String,
}

impl View for DeploymentLog {
    type V = Seq<char>;

    closed spec fn view(&self) -> Seq<char> {
        self.buf@
    }
}

impl DeploymentLog {
    /// A fresh, empty log buffer.
    pub fn new() -> (r: Self)
        ensures
            r@ == Seq::<char>::empty(),
    {
        Self { buf: String::new() }
    }

    /// Append one line stamped with the given timestamp.
    pub fn push_line(&mut self, timestamp: &str, content: &str)
        requires
            is_hms(timestamp@),
        ensures
            final(self)@ == old(self)@ + line_spec(timestamp@, content@),
    {
        self.buf.append("⏰ ");
        self.buf.append(timestamp);
        self.buf.append(": ");
        self.buf.append(content);
        self.buf.append("\n");
        proof {
            assert(self@ =~= old(self)@ + line_spec(timestamp@, content@));
        }
    }

    /// Append one line stamped with the current wall-clock time, and return
    /// the timestamp the line was stamped with.
    pub fn write_log(&mut self, content: &str) -> (t: String)
        ensures
            is_hms(t@),
            final(self)@ == old(self)@ + line_spec(t@, content@),
    {
        let t = now_hms();
        self.push_line(t.as_str(), content);
        t
    }

    /// The accumulated text of the buffer.
    pub fn as_str(&self) -> (r: &str)
        ensures
            r@ == self@,
    {
        self.buf.as_str()
    }

    /// The block appended to the on-disk log file for this attempt: the whole
    /// buffer, preceded and followed by a blank separator line.
    pub fn file_block(&self) -> (r: String)
        ensures
            r@ == file_block_spec(self@),
    {
        let r = String::from_str("\n").concat(self.as_str()).concat("\n");
        proof {
            assert(r@ =~= file_block_spec(self@));
        }
        r
    }
}

/// The block a completed attempt appends to the log file.
pub open spec fn file_block_spec(log: Seq<char>) -> Seq<char> {
    "\n"@ + log + "\n"@
}

/// The fixed line announcing that build output follows.
pub open spec fn announce_spec() -> Seq<char> {
    "构建输出"@
}

/// The summary line's content: success or failure, in the operator's language.
pub open spec fn summary_spec(exit_success: bool) -> Seq<char> {
    "构建结果: "@ + (if exit_success {
        "成功"@
    } else {
        "失败"@
    })
}

/// The notification subject for a finished deployment of `project`.
pub open spec fn subject_spec(project: Seq<char>, exit_success: bool) -> Seq<char> {
    if exit_success {
        "✅ 应用["@ + project + "]部署成功"@
    } else {
        "❌ 应用["@ + project + "]部署失败"@
    }
}

/// The three records of one deployment attempt's log entry, in order: the
/// announcement, the captured stream, and the summary.
pub open spec fn entry_records(
    t1: Seq<char>,
    t2: Seq<char>,
    t3: Seq<char>,
    exit_success: bool,
    captured: Seq<char>,
) -> Seq<Seq<char>> {
    seq![
        line_spec(t1, announce_spec()),
        line_spec(t2, captured),
        line_spec(t3, summary_spec(exit_success)),
    ]
}

/// The whole log entry of one deployment attempt: its three records, in order.
pub open spec fn entry_spec(
    t1: Seq<char>,
    t2: Seq<char>,
    t3: Seq<char>,
    exit_success: bool,
    captured: Seq<char>,
) -> Seq<char> {
    line_spec(t1, announce_spec()) + line_spec(t2, captured) + line_spec(
        t3,
        summary_spec(exit_success),
    )
}

/// Build the log entry and the notification payload for one finished script
/// run: announcement, then standard output on success or standard error on
/// failure, then the summary; the payload's subject names the project and the
/// outcome, and its body is the entry with newlines as HTML line breaks.
pub fn record_deployment(project_name: &str, result: &ExecutionResult) -> (r: (
    DeploymentLog,
    EmailPayload,
))
    ensures
        exists|t1: Seq<char>, t2: Seq<char>, t3: Seq<char>|
            is_hms(t1) && is_hms(t2) && is_hms(t3) && r.0@ == entry_spec(
                t1,
                t2,
                t3,
                result.exit_success,
                captured_output_spec(result),
            ),
        r.1.subject matches Some(s) && s@ == subject_spec(project_name@, result.exit_success),
        r.1.content@ == replace_newlines_spec(r.0@),
{
    let mut log = DeploymentLog::new();
    let t1 = log.write_log("构建输出");
    let t2 = if result.exit_success {
        log.write_log(result.stdout.as_str())
    } else {
        log.write_log(result.stderr.as_str())
    };
    let subject = if result.exit_success {
        String::from_str("✅ 应用[").concat(project_name).concat("]部署成功")
    } else {
        String::from_str("❌ 应用[").concat(project_name).concat("]部署失败")
    };
    let summary = String::from_str("构建结果: ").concat(if result.exit_success {
        "成功"
    } else {
        "失败"
    });
    let t3 = log.write_log(summary.as_str());
    let content = replace_newlines(log.as_str());
    proof {
        assert(subject@ =~= subject_spec(project_name@, result.exit_success));
        assert(summary@ =~= summary_spec(result.exit_success));
        assert(log@ =~= entry_spec(
            t1@,
            t2@,
            t3@,
            result.exit_success,
            captured_output_spec(result),
        ));
        assert(exists|t1: Seq<char>, t2: Seq<char>, t3: Seq<char>|
            is_hms(t1) && is_hms(t2) && is_hms(t3) && log@ == entry_spec(
                t1,
                t2,
                t3,
                result.exit_success,
                captured_output_spec(result),
            ));
    }
    let payload = EmailPayload { subject: Some(subject), content };
    (log, payload)
}

/// A record begins with the decorative marker and a complete
/// hour:minute:second timestamp.
pub open spec fn record_timestamped(l: Seq<char>) -> bool {
    &&& l.len() >= 11
    &&& l[0] == '⏰'
    &&& l[1] == ' '
    &&& is_hms(l.subrange(2, 10))
}

/// Every record of a deployment attempt's log entry begins with the marker
/// and an hour:minute:second timestamp, whatever the run produced.
pub proof fn lemma_every_record_timestamped(
    t1: Seq<char>,
    t2: Seq<char>,
    t3: Seq<char>,
    exit_success: bool,
    captured: Seq<char>,
)
    requires
        is_hms(t1),
        is_hms(t2),
        is_hms(t3),
    ensures
        forall|i: int|
            0 <= i < entry_records(t1, t2, t3, exit_success, captured).len()
                ==> record_timestamped(
                #[trigger] entry_records(t1, t2, t3, exit_success, captured)[i],
            ),
        entry_spec(t1, t2, t3, exit_success, captured) == entry_records(
            t1,
            t2,
            t3,
            exit_success,
            captured,
        )[0] + entry_records(t1, t2, t3, exit_success, captured)[1] + entry_records(
            t1,
            t2,
            t3,
            exit_success,
            captured,
        )[2],
{
    reveal_strlit("⏰ ");
    lemma_line_timestamped(t1, announce_spec());
    lemma_line_timestamped(t2, captured);
    lemma_line_timestamped(t3, summary_spec(exit_success));
}

/// A single log line carries its timestamp at the fixed offset after the
/// marker.
pub proof fn lemma_line_timestamped(t: Seq<char>, content: Seq<char>)
    requires
        is_hms(t),
    ensures
        record_timestamped(line_spec(t, content)),
{
    reveal_strlit("⏰ ");
    reveal_strlit(": ");
    reveal_strlit("\n");
    assert(line_spec(t, content).subrange(2, 10) =~= t);
}

/// When the script exited successfully, the entry's captured record holds the
/// script's standard-output text, and its summary record states success.
pub proof fn lemma_entry_success(
    r: &ExecutionResult,
    t1: Seq<char>,
    t2: Seq<char>,
    t3: Seq<char>,
)
    requires
        r.exit_success,
    ensures
        entry_records(t1, t2, t3, r.exit_success, captured_output_spec(r))[1] == line_spec(
            t2,
            r.stdout@,
        ),
        entry_records(t1, t2, t3, r.exit_success, captured_output_spec(r))[2] == line_spec(
            t3,
            "构建结果: 成功"@,
        ),
{
    reveal_strlit("构建结果: ");
    reveal_strlit("成功");
    reveal_strlit("构建结果: 成功");
    assert(summary_spec(true) =~= "构建结果: 成功"@);
}

/// When the script exited with a non-zero status, the entry's captured record
/// holds the script's standard-error text, and its summary record states
/// failure.
pub proof fn lemma_entry_failure(
    r: &ExecutionResult,
    t1: Seq<char>,
    t2: Seq<char>,
    t3: Seq<char>,
)
    requires
        !r.exit_success,
    ensures
        entry_records(t1, t2, t3, r.exit_success, captured_output_spec(r))[1] == line_spec(
            t2,
            r.stderr@,
        ),
        entry_records(t1, t2, t3, r.exit_success, captured_output_spec(r))[2] == line_spec(
            t3,
            "构建结果: 失败"@,
        ),
{
    reveal_strlit("构建结果: ");
    reveal_strlit("失败");
    reveal_strlit("构建结果: 失败");
    assert(summary_spec(false) =~= "构建结果: 失败"@);
}

/// The file block of a log entry is strictly longer than nothing: an appended
/// attempt always grows the log file.
pub proof fn lemma_file_block_grows(log: Seq<char>)
    ensures
        file_block_spec(log).len() == log.len() + 2,
        file_block_spec(log).len() > 0,
{
    reveal_strlit("\n");
}

} // verus!
