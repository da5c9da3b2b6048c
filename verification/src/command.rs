//! Assembly of the argument vector and the log-header text.

use vstd::prelude::*;
use crate::types::{Job, JobView, RcloneActions};

verus! {

/// The ordered argument vector for one invocation of the external tool:
/// the tool's path, the action verb, source, destination, the job's
/// extra options, then `--log-file` with the log path only when one is
/// set, then `--filter-from` with the filter file only when the filter
/// file is non-empty. No shell quoting: this is an argument vector, not
/// a shell string.
pub open spec fn command_spec(job: JobView, action: RcloneActions, rclone_exe: Seq<char>) -> Seq<
    Seq<char>,
> {
    seq![rclone_exe, action.spec_name(), job.source, job.destination] + job.options + (
    match job.log_path {
        Some(lp) => seq!["--log-file"@, lp],
        None => Seq::empty(),
    }) + (if job.filters.len() > 0 {
        seq!["--filter-from"@, job.tmp_filter_file]
    } else {
        Seq::empty()
    })
}

/// Builds the argument vector handed to the process launcher for one
/// job.
pub fn get_command(job: &Job, rclone_exe: &str, action: &RcloneActions) -> (r: Vec<String>)
    ensures
        r.deep_view() == command_spec(job@, *action, rclone_exe@),
{
    let ghost base = seq![rclone_exe@, action.spec_name(), job@.source, job@.destination];
    let mut args: Vec<String> = Vec::new();
    args.push(rclone_exe.to_owned());
    args.push(action.name().to_owned());
    args.push(job.source.clone());
    args.push(job.destination.clone());
    proof {
        assert(args.deep_view() =~= base);
        assert(job@.options.take(0) =~= Seq::<Seq<char>>::empty());
        assert(base + Seq::<Seq<char>>::empty() =~= base);
    }
    let n = job.options.len();
    for i in 0..n
        invariant
            n == job.options@.len(),
            args.deep_view() == base + job@.options.take(i as int),
    {
        let ghost prev = args.deep_view();
        args.push(job.options[i].clone());
        proof {
            assert(args.deep_view() =~= prev.push(job@.options[i as int]));
            assert((base + job@.options.take(i as int)).push(job@.options[i as int]) =~= base
                + job@.options.take(i + 1));
        }
    }
    proof {
        assert(job@.options.take(n as int) =~= job@.options);
    }
    let ghost with_options = base + job@.options;
    match &job.log_path {
        Some(lp) => {
            let ghost prev = args.deep_view();
            args.push(String::from_str("--log-file"));
            args.push(lp.clone());
            proof {
                assert(args.deep_view() =~= prev + seq!["--log-file"@, lp@]);
            }
        },
        None => {
            proof {
                assert(with_options + Seq::<Seq<char>>::empty() =~= with_options);
            }
        },
    }
    let ghost with_log = with_options + (match job@.log_path {
        Some(lp) => seq!["--log-file"@, lp],
        None => Seq::empty(),
    });
    if job.filters.len() > 0 {
        let ghost prev = args.deep_view();
        args.push(String::from_str("--filter-from"));
        args.push(job.tmp_filter_file.clone());
        proof {
            assert(args.deep_view() =~= prev + seq!["--filter-from"@, job@.tmp_filter_file]);
        }
    } else {
        proof {
            assert(with_log + Seq::<Seq<char>>::empty() =~= with_log);
        }
    }
    args
}

/// The text block appended to a job's log file before the job runs: a
/// blank-line pair, a fixed-width separator line carrying the action
/// name, and a FROM/TO line naming source and destination.
pub open spec fn header_spec(job: JobView, action: RcloneActions) -> Seq<char> {
    "\n\n_____________________________________________"@ + action.spec_name()
        + "_____________________________________________"@ + "\nFROM: "@ + job.source
        + "             TO: "@ + job.destination + "\n"@
}

/// Produces the log-header text for one job. Meant to be called only
/// when the job carries a log path; the caller appends the text to that
/// file in append mode before the external tool runs.
pub fn log_header(job: &Job, action: &RcloneActions) -> (r: String)
    ensures
        r@ == header_spec(job@, *action),
{
    let mut header = String::from_str("\n\n_____________________________________________");
    header.append(action.name());
    header.append("_____________________________________________");
    header.append("\nFROM: ");
    header.append(job.source.as_str());
    header.append("             TO: ");
    header.append(job.destination.as_str());
    header.append("\n");
    header
}

} // verus!
