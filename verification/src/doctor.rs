//! The checks that tell a user what is missing.
use crate::config;
use crate::config::Config;
use crate::failure;
use crate::failure::{Failure, FailureView};
use crate::files;
use crate::files::PathProbe;
use crate::paths;
use crate::text;
use vstd::prelude::*;

verus! {

/// What came of a connection to the daemon.
#[derive(Debug, PartialEq, Eq)]
pub enum Connection {
    Connected,
    Failed(String),
    TimedOut,
}

/// What was found out about the system.
pub struct DoctorProbe {
    /// The place that the TDLib library was loaded from, or why it was not.
    pub tdlib: Result<String, Failure>,
    pub session_exists: bool,
    pub files_dir_exists: bool,
    pub socket: PathProbe,
    pub connection: Connection,
}

/// What a check found: a detail, or what is wrong.
pub type Finding = Result<Seq<char>, FailureView>;

/// The view of what a check found.
pub open spec fn finding(found: Result<String, Failure>) -> Finding {
    match found {
        Ok(detail) => Ok(detail@),
        Err(failure) => Err(failure@),
    }
}

/// The line that tells of a check.
pub open spec fn check_line(label: Seq<char>, found: Finding) -> Seq<char> {
    match found {
        Ok(detail) => "ok   "@ + label + ": "@ + detail,
        Err(failure) => "fail "@ + label + ": "@ + failure::failure_message(failure),
    }
}

/// One line of the doctor's report.
#[derive(Debug, PartialEq, Eq)]
pub struct Check {
    pub line: String,
    pub passed: bool,
}

/// Tells of a check.
pub fn check(label: &str, found: &Result<String, Failure>) -> (told: Check)
    ensures
        told.line@ == check_line(label@, finding(*found)),
        told.passed == found is Ok,
{
    match found {
        Ok(detail) => {
            let mut line = "ok   ".to_owned();
            line.append(label);
            line.append(": ");
            line.append(detail.as_str());
            Check { line, passed: true }
        },
        Err(failure) => {
            let mut line = "fail ".to_owned();
            line.append(label);
            line.append(": ");
            let message = failure.message();
            line.append(message.as_str());
            Check { line, passed: false }
        },
    }
}

/// The check of the TDLib library.
pub open spec fn library_finding(probe: DoctorProbe) -> Finding {
    match probe.tdlib {
        Ok(source) => Ok("loaded from "@ + source@),
        Err(failure) => Err(failure@),
    }
}

/// The check of the credentials.
pub open spec fn credentials_finding(config: Config) -> Finding {
    if config.has_credentials() {
        Ok("configured"@)
    } else {
        Err(FailureView::MissingCredentials)
    }
}

/// The check of the session.
pub open spec fn session_finding(config: Config, probe: DoctorProbe) -> Finding {
    if probe.session_exists {
        Ok(paths::shown(config.database_dir@))
    } else {
        Err(FailureView::MissingSession(config.database_dir@))
    }
}

/// The check of the files directory.
pub open spec fn files_finding(config: Config, probe: DoctorProbe) -> Finding {
    if probe.files_dir_exists {
        Ok(paths::shown(config.files_dir@))
    } else {
        Err(FailureView::Missing(config.files_dir@))
    }
}

/// The check of the socket.
pub open spec fn socket_finding(config: Config, probe: DoctorProbe) -> Finding {
    let path = config.socket_path@;
    match probe.socket {
        PathProbe::Missing => Err(FailureView::Missing(path)),
        PathProbe::Unreadable(cause) => Err(FailureView::Uninspectable { path, cause: cause@ }),
        PathProbe::Other => Err(FailureView::NotASocket(path)),
        PathProbe::Socket => Ok(paths::shown(path)),
    }
}

/// The check of the connection.
pub open spec fn connection_finding(probe: DoctorProbe) -> Finding {
    match probe.connection {
        Connection::Connected => Ok("connected"@),
        Connection::Failed(cause) => Err(FailureView::ConnectionFailed(cause@)),
        Connection::TimedOut => Err(FailureView::ConnectionTimedOut),
    }
}

/// The six checks, each with its label.
pub open spec fn findings(config: Config, probe: DoctorProbe) -> Seq<(Seq<char>, Finding)> {
    seq![
        ("TDLib"@, library_finding(probe)),
        ("Telegram API credentials"@, credentials_finding(config)),
        ("TDLib database"@, session_finding(config, probe)),
        ("TDLib files directory"@, files_finding(config, probe)),
        ("daemon socket"@, socket_finding(config, probe)),
        ("daemon connectivity"@, connection_finding(probe)),
    ]
}

/// Whether no check found anything wrong.
pub open spec fn all_passed(findings: Seq<(Seq<char>, Finding)>) -> bool {
    forall|i: int| 0 <= i < findings.len() ==> (#[trigger] findings[i]).1 is Ok
}

/// What the doctor says.
pub struct Report {
    pub lines: Vec<String>,
    pub healthy: bool,
}

/// What is told at the end of a report.
pub open spec fn judgement(healthy: bool) -> Option<FailureView> {
    if healthy {
        None
    } else {
        Some(FailureView::ProblemsFound)
    }
}

impl Report {
    /// Whether the report tells of `findings`: a line for each, in order, and whether all passed.
    pub open spec fn tells(self, findings: Seq<(Seq<char>, Finding)>) -> bool {
        &&& text::text_views(self.lines@) == findings.map_values(
            |found: (Seq<char>, Finding)| check_line(found.0, found.1),
        )
        &&& self.healthy == all_passed(findings)
    }

    /// Adds a check to the report.
    fn add(&mut self, label: &str, found: &Result<String, Failure>, told: Ghost<Seq<(Seq<char>, Finding)>>)
        requires
            old(self).tells(told@),
        ensures
            final(self).tells(told@.push((label@, finding(*found)))),
    {
        let check = check(label, found);
        let ghost line = check.line@;
        self.lines.push(check.line);
        self.healthy = self.healthy && check.passed;
        proof {
            let all = told@.push((label@, finding(*found)));
            assert(text::text_views(self.lines@) =~= text::text_views(old(self).lines@).push(line));
            assert(text::text_views(self.lines@) =~= all.map_values(
                |found: (Seq<char>, Finding)| check_line(found.0, found.1),
            ));
            if all_passed(told@) && check.passed {
                assert(all_passed(all));
            } else if all_passed(all) {
                assert(all[told@.len() as int].1 is Ok);
                assert forall|i: int| 0 <= i < told@.len() implies (#[trigger] told@[i]).1 is Ok by {
                    assert(all[i].1 is Ok);
                }
            }
        }
    }

    /// Whether the doctor is content.
    pub fn verdict(&self) -> (verdict: Result<(), Failure>)
        ensures
            match verdict {
                Ok(()) => self.healthy,
                Err(failure) => !self.healthy && failure@ == FailureView::ProblemsFound,
            },
            judgement(self.healthy) == match verdict {
                Ok(()) => None,
                Err(failure) => Some(failure@),
            },
    {
        if self.healthy {
            Ok(())
        } else {
            Err(Failure::ProblemsFound)
        }
    }
}

/// Checks the library, the credentials, the session, the files directory, the socket and the
/// connection, and tells of each, whatever the others found.
pub fn doctor(config: &Config, probe: DoctorProbe) -> (report: Report)
    ensures
        report.tells(findings(*config, probe)),
{
    let mut report = Report { lines: Vec::new(), healthy: true };
    let ghost all = findings(*config, probe);
    assert(text::text_views(report.lines@) =~= Seq::<(Seq<char>, Finding)>::empty().map_values(
        |found: (Seq<char>, Finding)| check_line(found.0, found.1),
    ));
    let library: Result<String, Failure> = match probe.tdlib {
        Ok(source) => Ok(failure::joined_text("loaded from ", source.as_str())),
        Err(failure) => Err(failure),
    };
    report.add("TDLib", &library, Ghost(Seq::empty()));
    let credentials: Result<String, Failure> = match config::credentials(config) {
        Ok(_) => Ok("configured".to_owned()),
        Err(failure) => Err(failure),
    };
    report.add("Telegram API credentials", &credentials, Ghost(Seq::empty().push(all[0])));
    let session: Result<String, Failure> = match config::require_existing_session(
        config,
        probe.session_exists,
    ) {
        Ok(()) => Ok(config.database_dir.display()),
        Err(failure) => Err(failure),
    };
    report.add("TDLib database", &session, Ghost(Seq::empty().push(all[0]).push(all[1])));
    let files_dir: Result<String, Failure> = if probe.files_dir_exists {
        Ok(config.files_dir.display())
    } else {
        Err(Failure::Missing(config.files_dir.duplicate()))
    };
    report.add(
        "TDLib files directory",
        &files_dir,
        Ghost(Seq::empty().push(all[0]).push(all[1]).push(all[2])),
    );
    let socket = files::daemon_socket_status(&config.socket_path, &probe.socket);
    report.add(
        "daemon socket",
        &socket,
        Ghost(Seq::empty().push(all[0]).push(all[1]).push(all[2]).push(all[3])),
    );
    let connection: Result<String, Failure> = match &probe.connection {
        Connection::Connected => Ok("connected".to_owned()),
        Connection::Failed(cause) => Err(Failure::ConnectionFailed(cause.clone())),
        Connection::TimedOut => Err(Failure::ConnectionTimedOut),
    };
    report.add(
        "daemon connectivity",
        &connection,
        Ghost(Seq::empty().push(all[0]).push(all[1]).push(all[2]).push(all[3]).push(all[4])),
    );
    assert(Seq::empty().push(all[0]).push(all[1]).push(all[2]).push(all[3]).push(all[4]).push(
        all[5],
    ) =~= all);
    report
}

/// The doctor is content when everything that the daemon and its clients need is there, and
/// only then; it says six lines either way.
pub proof fn healthy_means_ready(config: Config, probe: DoctorProbe, report: Report)
    requires
        report.tells(findings(config, probe)),
    ensures
        report.lines@.len() == 6,
        report.healthy <==> {
            &&& probe.tdlib is Ok
            &&& config.has_credentials()
            &&& probe.session_exists
            &&& probe.files_dir_exists
            &&& probe.socket == PathProbe::Socket
            &&& probe.connection == Connection::Connected
        },
{
    let all = findings(config, probe);
    assert(text::text_views(report.lines@).len() == all.len());
    if report.healthy {
        assert(all[0].1 is Ok);
        assert(all[1].1 is Ok);
        assert(all[2].1 is Ok);
        assert(all[3].1 is Ok);
        assert(all[4].1 is Ok);
        assert(all[5].1 is Ok);
    }
}

/// Each check passes where its own condition holds and nowhere else, whatever the other five find.
pub proof fn checks_pass_by_their_own_conditions(config: Config, probe: DoctorProbe)
    ensures
        ({
            let all = findings(config, probe);
            &&& all.len() == 6
            &&& all[0].1 is Ok <==> probe.tdlib is Ok
            &&& all[1].1 is Ok <==> config.api_id is Some && (config.api_hash matches Some(api_hash)
                && api_hash@.len() > 0)
            &&& all[2].1 is Ok <==> probe.session_exists
            &&& all[3].1 is Ok <==> probe.files_dir_exists
            &&& all[4].1 is Ok <==> probe.socket is Socket
            &&& all[5].1 is Ok <==> probe.connection is Connected
        }),
{
}

/// What a check finds depends on what it looks at and on nothing else: two systems that agree in
/// that are told the same in that line.
pub proof fn checks_do_not_touch_each_other(
    left: Config,
    left_probe: DoctorProbe,
    right: Config,
    right_probe: DoctorProbe,
)
    ensures
        ({
            let first = findings(left, left_probe);
            let second = findings(right, right_probe);
            &&& left_probe.tdlib == right_probe.tdlib ==> first[0] == second[0]
            &&& left.api_id == right.api_id && left.api_hash == right.api_hash ==> first[1]
                == second[1]
            &&& left.database_dir == right.database_dir && left_probe.session_exists
                == right_probe.session_exists ==> first[2] == second[2]
            &&& left.files_dir == right.files_dir && left_probe.files_dir_exists
                == right_probe.files_dir_exists ==> first[3] == second[3]
            &&& left.socket_path == right.socket_path && left_probe.socket == right_probe.socket
                ==> first[4] == second[4]
            &&& left_probe.connection == right_probe.connection ==> first[5] == second[5]
        }),
{
}

/// The lines of a report, one for each check in a fixed order: `ok` or `fail`, the name of the
/// check, and what was found or what is wrong.
pub proof fn reports_have_these_lines(config: Config, probe: DoctorProbe, report: Report)
    requires
        report.tells(findings(config, probe)),
    ensures
        report.lines@.len() == 6,
        report.lines@[0]@ == match probe.tdlib {
            Ok(source) => "ok   "@ + "TDLib"@ + ": "@ + ("loaded from "@ + source@),
            Err(failure) => "fail "@ + "TDLib"@ + ": "@ + failure::failure_message(failure@),
        },
        report.lines@[1]@ == if config.api_id is Some && (config.api_hash matches Some(api_hash)
            && api_hash@.len() > 0) {
            "ok   "@ + "Telegram API credentials"@ + ": "@ + "configured"@
        } else {
            "fail "@ + "Telegram API credentials"@ + ": "@
                + "missing Telegram API credentials; run `tgdyk setup` first"@
        },
        report.lines@[2]@ == if probe.session_exists {
            "ok   "@ + "TDLib database"@ + ": "@ + text::lossy_text(config.database_dir.bytes@)
        } else {
            "fail "@ + "TDLib database"@ + ": "@ + ("missing TDLib session in "@
                + text::lossy_text(config.database_dir.bytes@) + "; run `tgdyk setup` first"@)
        },
        report.lines@[3]@ == if probe.files_dir_exists {
            "ok   "@ + "TDLib files directory"@ + ": "@ + text::lossy_text(config.files_dir.bytes@)
        } else {
            "fail "@ + "TDLib files directory"@ + ": "@ + ("missing "@ + text::lossy_text(
                config.files_dir.bytes@,
            ))
        },
        report.lines@[4]@ == match probe.socket {
            PathProbe::Socket => "ok   "@ + "daemon socket"@ + ": "@ + text::lossy_text(
                config.socket_path.bytes@,
            ),
            PathProbe::Missing => "fail "@ + "daemon socket"@ + ": "@ + ("missing "@
                + text::lossy_text(config.socket_path.bytes@)),
            PathProbe::Other => "fail "@ + "daemon socket"@ + ": "@ + ("not a Unix socket "@
                + text::lossy_text(config.socket_path.bytes@)),
            PathProbe::Unreadable(_) => "fail "@ + "daemon socket"@ + ": "@ + (
            "failed to inspect "@ + text::lossy_text(config.socket_path.bytes@)),
        },
        report.lines@[5]@ == match probe.connection {
            Connection::Connected => "ok   "@ + "daemon connectivity"@ + ": "@ + "connected"@,
            Connection::Failed(cause) => "fail "@ + "daemon connectivity"@ + ": "@ + cause@,
            Connection::TimedOut => "fail "@ + "daemon connectivity"@ + ": "@
                + "connection timed out"@,
        },
{
    let all = findings(config, probe);
    let lines = all.map_values(|found: (Seq<char>, Finding)| check_line(found.0, found.1));
    let views = text::text_views(report.lines@);
    assert(views.len() == all.len());
    assert(report.lines@[0]@ == views[0] && views[0] == lines[0]);
    assert(report.lines@[1]@ == views[1] && views[1] == lines[1]);
    assert(report.lines@[2]@ == views[2] && views[2] == lines[2]);
    assert(report.lines@[3]@ == views[3] && views[3] == lines[3]);
    assert(report.lines@[4]@ == views[4] && views[4] == lines[4]);
    assert(report.lines@[5]@ == views[5] && views[5] == lines[5]);
}

/// The verdict is good exactly where no line starts with `fail`.
pub proof fn verdicts_fit_the_lines(config: Config, probe: DoctorProbe, report: Report)
    requires
        report.tells(findings(config, probe)),
    ensures
        report.lines@.len() == 6,
        report.healthy <==> forall|i: int|
            0 <= i < report.lines@.len() ==> (#[trigger] report.lines@[i])@[0] == 'o',
{
    reports_have_these_lines(config, probe, report);
    healthy_means_ready(config, probe, report);
    checks_pass_by_their_own_conditions(config, probe);
    reveal_strlit("ok   ");
    reveal_strlit("fail ");
    assert("ok   "@[0] == 'o');
    assert("fail "@[0] == 'f');
    if !report.healthy {
        let all = findings(config, probe);
        let lines = report.lines@;
        assert(lines[0]@[0] == 'f' || lines[1]@[0] == 'f' || lines[2]@[0] == 'f' || lines[3]@[0]
            == 'f' || lines[4]@[0] == 'f' || lines[5]@[0] == 'f');
    }
}

/// The line of a check holds its label and what was found, in full; it says which of the two it is
/// in its first five characters.
pub proof fn check_lines_are_in_columns(
    label: Seq<char>,
    detail: Seq<char>,
    failure: FailureView,
)
    ensures
        check_line(label, Ok(detail)) == "ok   "@ + label + ": "@ + detail,
        check_line(label, Err(failure)) == "fail "@ + label + ": "@ + failure::failure_message(
            failure,
        ),
        "ok   "@.len() == "fail "@.len(),
{
    reveal_strlit("ok   ");
    reveal_strlit("fail ");
}

/// What a check found is seen as it is.
pub proof fn findings_are_seen_as_they_are(detail: String, failure: Failure)
    ensures
        finding(Ok(detail)) == Ok::<Seq<char>, FailureView>(detail@),
        finding(Err(failure)) == Err::<Seq<char>, FailureView>(failure@),
{
}

/// The command fails exactly where some check failed, and says that problems were found.
pub proof fn failed_checks_fail_the_command(config: Config, probe: DoctorProbe, report: Report)
    requires
        report.tells(findings(config, probe)),
    ensures
        judgement(report.healthy) is Some <==> exists|i: int|
            0 <= i < report.lines@.len() && (#[trigger] report.lines@[i])@[0] == 'f',
        judgement(report.healthy) matches Some(failure) ==> failure == FailureView::ProblemsFound,
{
    reports_have_these_lines(config, probe, report);
    verdicts_fit_the_lines(config, probe, report);
    checks_pass_by_their_own_conditions(config, probe);
    reveal_strlit("ok   ");
    reveal_strlit("fail ");
    assert("ok   "@[0] == 'o');
    assert("fail "@[0] == 'f');
    let lines = report.lines@;
    if !report.healthy {
        assert(lines[0]@[0] == 'f' || lines[1]@[0] == 'f' || lines[2]@[0] == 'f' || lines[3]@[0]
            == 'f' || lines[4]@[0] == 'f' || lines[5]@[0] == 'f');
    }
}

} // verus!
