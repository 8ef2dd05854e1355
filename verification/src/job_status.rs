//! The lightweight status document polled through `GET /status`.
use vstd::prelude::*;
use crate::json::{escape_json_string, escape_round_trip, escape_seq, json_unescape, lemma_plain_unescape};
use crate::models::{JobPhase, JobState, ManageSummary};
use crate::text::{decimal, push_decimal, push_str};

verus! {

/// The job id as written in the status document (empty when there is none).
pub open spec fn job_id_text(s: JobState) -> Seq<char> {
    match s.job_id {
        Some(id) => id@,
        None => Seq::empty(),
    }
}

/// `"summary":{...}` body of a completed job.
pub open spec fn summary_json(m: ManageSummary) -> Seq<char> {
    "{\"total\":"@ + decimal(m.total as nat) + ",\"success\":"@ + decimal(m.success as nat)
        + ",\"already_correct\":"@ + decimal(m.already_correct as nat) + ",\"not_found\":"@
        + decimal(m.not_found as nat) + ",\"errors\":"@ + decimal(m.errors as nat)
        + ",\"aborted\":"@ + decimal(m.aborted as nat) + "}"@
}

/// The status document of `s`. `scan_progress_json` is the serialised scan
/// progress, used only for a running scan job without linear progress.
///
/// - idle: `{"state":"idle"}`
/// - running with progress: state, jobId and
///   `"progress":{"completed":..,"total":..,"currentId":"..","phase":".."}`,
///   with the id and phase escaped
/// - running with scan progress: state, jobId and `"scanProgress":<json>`
/// - completed with a result: state, jobId and the summary counters
/// - otherwise: state and jobId only
pub open spec fn status_json_spec(s: JobState, scan_progress_json: Seq<char>) -> Seq<char> {
    match s.state {
        JobPhase::Idle => "{\"state\":\"idle\"}"@,
        JobPhase::Running => {
            if s.progress is Some {
                let p = s.progress->0;
                "{\"state\":\"running\",\"jobId\":\""@ + job_id_text(s)
                    + "\",\"progress\":{\"completed\":"@ + decimal(p.completed as nat)
                    + ",\"total\":"@ + decimal(p.total as nat) + ",\"currentId\":\""@
                    + escape_seq(p.current_id@) + "\",\"phase\":\""@ + escape_seq(p.phase@)
                    + "\"}}"@
            } else if s.scan_progress is Some {
                "{\"state\":\"running\",\"jobId\":\""@ + job_id_text(s) + "\",\"scanProgress\":"@
                    + scan_progress_json + "}"@
            } else {
                "{\"state\":\"running\",\"jobId\":\""@ + job_id_text(s) + "\"}"@
            }
        },
        JobPhase::Completed => {
            if s.result is Some {
                "{\"state\":\"completed\",\"jobId\":\""@ + job_id_text(s) + "\",\"summary\":"@
                    + summary_json(s.result->0.summary) + "}"@
            } else {
                "{\"state\":\"completed\",\"jobId\":\""@ + job_id_text(s) + "\"}"@
            }
        },
    }
}

fn push_job_id(out: &mut String, s: &JobState)
    ensures
        final(out)@ == old(out)@ + job_id_text(*s),
{
    match &s.job_id {
        Some(id) => push_str(out, id.as_str()),
        None => {
            assert(old(out)@ + job_id_text(*s) =~= old(out)@);
        },
    }
}

fn push_summary(out: &mut String, m: &ManageSummary)
    ensures
        final(out)@ == old(out)@ + summary_json(*m),
{
    let ghost start = out@;
    push_str(out, "{\"total\":");
    push_decimal(out, m.total as u64);
    push_str(out, ",\"success\":");
    push_decimal(out, m.success as u64);
    push_str(out, ",\"already_correct\":");
    push_decimal(out, m.already_correct as u64);
    push_str(out, ",\"not_found\":");
    push_decimal(out, m.not_found as u64);
    push_str(out, ",\"errors\":");
    push_decimal(out, m.errors as u64);
    push_str(out, ",\"aborted\":");
    push_decimal(out, m.aborted as u64);
    push_str(out, "}");
    assert(out@ =~= start + summary_json(*m));
}

impl JobState {
    /// Lightweight JSON for polling: the state, the job id, and the progress
    /// (while running) or the summary (once completed); never the full result.
    pub fn status_json(&self, scan_progress_json: &str) -> (out: String)
        ensures
            out@ == status_json_spec(*self, scan_progress_json@),
    {
        let mut out = String::new();
        match self.state {
            JobPhase::Idle => {
                push_str(&mut out, "{\"state\":\"idle\"}");
            },
            JobPhase::Running => {
                push_str(&mut out, "{\"state\":\"running\",\"jobId\":\"");
                push_job_id(&mut out, self);
                if let Some(p) = &self.progress {
                    let cid = escape_json_string(p.current_id.as_str());
                    let phase = escape_json_string(p.phase.as_str());
                    push_str(&mut out, "\",\"progress\":{\"completed\":");
                    push_decimal(&mut out, p.completed as u64);
                    push_str(&mut out, ",\"total\":");
                    push_decimal(&mut out, p.total as u64);
                    push_str(&mut out, ",\"currentId\":\"");
                    push_str(&mut out, cid.as_str());
                    push_str(&mut out, "\",\"phase\":\"");
                    push_str(&mut out, phase.as_str());
                    push_str(&mut out, "\"}}");
                } else if self.scan_progress.is_some() {
                    push_str(&mut out, "\",\"scanProgress\":");
                    push_str(&mut out, scan_progress_json);
                    push_str(&mut out, "}");
                } else {
                    push_str(&mut out, "\"}");
                }
            },
            JobPhase::Completed => {
                push_str(&mut out, "{\"state\":\"completed\",\"jobId\":\"");
                push_job_id(&mut out, self);
                if let Some(r) = &self.result {
                    push_str(&mut out, "\",\"summary\":");
                    push_summary(&mut out, &r.summary);
                    push_str(&mut out, "}");
                } else {
                    push_str(&mut out, "\"}");
                }
            },
        }
        assert(out@ =~= status_json_spec(*self, scan_progress_json@));
        out
    }
}

/// The status document of a running job reads back: its job id (a uuid)
/// needs no escaping, and its `currentId` and `phase` strings decode to
/// exactly the job's current id and phase, whatever characters they hold.
pub proof fn running_status_reads_back(s: JobState, scan_progress_json: Seq<char>)
    requires
        s.state == JobPhase::Running,
        s.progress is Some,
        crate::server::is_uuid_text(job_id_text(s)),
    ensures
        status_json_spec(s, scan_progress_json) == "{\"state\":\"running\",\"jobId\":\""@
            + job_id_text(s) + "\",\"progress\":{\"completed\":"@ + decimal(
            s.progress->0.completed as nat,
        ) + ",\"total\":"@ + decimal(s.progress->0.total as nat) + ",\"currentId\":\""@
            + escape_seq(s.progress->0.current_id@) + "\",\"phase\":\""@ + escape_seq(
            s.progress->0.phase@,
        ) + "\"}}"@,
        json_unescape(job_id_text(s)) == Some(job_id_text(s)),
        json_unescape(escape_seq(s.progress->0.current_id@)) == Some(s.progress->0.current_id@),
        json_unescape(escape_seq(s.progress->0.phase@)) == Some(s.progress->0.phase@),
{
    let id = job_id_text(s);
    assert forall|i: int| 0 <= i < id.len() implies #[trigger] id[i] != '"' && id[i] != '\\'
        && (id[i] as u32) >= 0x20 by {
        assert('0' <= id[i] <= '9' || 'a' <= id[i] <= 'f' || id[i] == '-');
    }
    lemma_plain_unescape(id);
    escape_round_trip(s.progress->0.current_id@);
    escape_round_trip(s.progress->0.phase@);
}

} // verus!
