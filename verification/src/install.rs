//! The installation procedure of an app: which package manager to try, in
//! which order, when to fall back to a direct download, and how each outcome
//! is logged and recorded.
//!
//! The procedure alternates work on the host (probing for commands, running
//! package managers, downloading, running installers) with decisions. The
//! decisions live here as a state machine: [`InstallPlan::step`] takes the
//! outcome of the last piece of work and names the next one.

use vstd::prelude::*;
use crate::text::{same_text, bytes_hex, eq_ignore_ascii_case_spec};
use crate::checksum::{sha256_spec, checksum_matches};
use crate::catalog::text;
use crate::platform::{PlatformData, PackageSource, DirectSource, source_id};

verus! {

/// The operating system the store runs on.
#[derive(Clone, Copy, PartialEq, Eq, Structural)]
pub enum Host {
    Windows,
    Linux,
}

/// Where an installation stands.
#[derive(Clone, Copy, PartialEq, Eq, Structural)]
pub enum Phase {
    Start,
    ProbePreferred,
    RunPreferred,
    ProbeApt,
    ProbeDnf,
    ProbePacman,
    RunNative,
    Downloading,
    Verifying,
    Aborting,
    RunningDirect,
    Cleanup,
    Finished,
}

/// How a downloaded file is installed.
#[derive(Clone, Copy, PartialEq, Eq, Structural)]
pub enum DirectKind {
    /// Linux AppImage, copied to the user's binaries.
    AppImage,
    /// Linux tarball, unpacked into the store's install directory.
    TarGz,
    /// Windows portable ZIP archive, unpacked into the store's install directory.
    PortableZip,
    /// Windows MSI or EXE installer, run silently.
    Installer,
}

/// One line of the installation log: step, status, message.
pub struct LogLine {
    pub step: String,
    pub status: String,
    pub message: String,
}

impl View for LogLine {
    type V = (Seq<char>, Seq<char>, Seq<char>);

    open spec fn view(&self) -> (Seq<char>, Seq<char>, Seq<char>) {
        (self.step@, self.status@, self.message@)
    }
}

/// The next piece of work of an installation.
pub enum InstallAction {
    /// Find out whether `command` is available on the host.
    Probe { command: String },
    /// Install `package_id` with the package manager `manager`.
    RunManager { manager: String, package_id: String },
    /// Download `url` into the cache directory as `file_name`.
    Download { url: String, file_name: String },
    /// Read the downloaded file and hand its bytes back.
    VerifyChecksum { expected: String },
    /// Install the downloaded file.
    RunDirect { kind: DirectKind, file_type: String, silent_args: String },
    /// Delete the downloaded file.
    RemoveDownload,
    /// Done: record the app as installed with this method and executable path.
    Register { method: String, exec_path: String },
    /// Done: the installation failed with this message.
    Fail { message: String },
}

/// Mathematical form of [`InstallAction`].
pub enum ActionView {
    Probe(Seq<char>),
    RunManager(Seq<char>, Seq<char>),
    Download(Seq<char>, Seq<char>),
    VerifyChecksum(Seq<char>),
    RunDirect(DirectKind, Seq<char>, Seq<char>),
    RemoveDownload,
    Register(Seq<char>, Seq<char>),
    Fail(Seq<char>),
}

impl View for InstallAction {
    type V = ActionView;

    open spec fn view(&self) -> ActionView {
        match self {
            InstallAction::Probe { command } => ActionView::Probe(command@),
            InstallAction::RunManager { manager, package_id } => ActionView::RunManager(manager@, package_id@),
            InstallAction::Download { url, file_name } => ActionView::Download(url@, file_name@),
            InstallAction::VerifyChecksum { expected } => ActionView::VerifyChecksum(expected@),
            InstallAction::RunDirect { kind, file_type, silent_args } => ActionView::RunDirect(*kind, file_type@, silent_args@),
            InstallAction::RemoveDownload => ActionView::RemoveDownload,
            InstallAction::Register { method, exec_path } => ActionView::Register(method@, exec_path@),
            InstallAction::Fail { message } => ActionView::Fail(message@),
        }
    }
}

/// The outcome of the last piece of work.
pub enum InstallEvent {
    /// The installation begins.
    Start,
    /// Whether the probed command is available.
    Probed(bool),
    /// Whether the package manager succeeded.
    ManagerDone(bool),
    /// The download finished, or failed with a message.
    Downloaded(Result<(), String>),
    /// The bytes of the downloaded file, or why it could not be read.
    InstallerBytes(Result<Vec<u8>, String>),
    /// The installer finished with the executable path it found, or failed with a message.
    DirectDone(Result<String, String>),
    /// The downloaded file was deleted.
    Removed,
}

/// Mathematical form of [`InstallEvent`].
pub enum EventView {
    Start,
    Probed(bool),
    ManagerDone(bool),
    Downloaded(Result<(), Seq<char>>),
    InstallerBytes(Result<Seq<u8>, Seq<char>>),
    DirectDone(Result<Seq<char>, Seq<char>>),
    Removed,
}

impl View for InstallEvent {
    type V = EventView;

    open spec fn view(&self) -> EventView {
        match self {
            InstallEvent::Start => EventView::Start,
            InstallEvent::Probed(b) => EventView::Probed(*b),
            InstallEvent::ManagerDone(b) => EventView::ManagerDone(*b),
            InstallEvent::Downloaded(r) => EventView::Downloaded(match r {
                Ok(_) => Ok(()),
                Err(e) => Err(e@),
            }),
            InstallEvent::InstallerBytes(r) => EventView::InstallerBytes(match r {
                Ok(b) => Ok(b@),
                Err(e) => Err(e@),
            }),
            InstallEvent::DirectDone(r) => EventView::DirectDone(match r {
                Ok(p) => Ok(p@),
                Err(e) => Err(e@),
            }),
            InstallEvent::Removed => EventView::Removed,
        }
    }
}

/// Mathematical form of a list of log lines.
pub open spec fn logs_view(v: Seq<LogLine>) -> Seq<(Seq<char>, Seq<char>, Seq<char>)> {
    v.map_values(|l: LogLine| l@)
}

/// Log lines to record, then the next piece of work.
pub struct InstallStep {
    pub logs: Vec<LogLine>,
    pub action: InstallAction,
}

/// Mathematical form of [`InstallStep`].
pub struct StepView {
    pub logs: Seq<(Seq<char>, Seq<char>, Seq<char>)>,
    pub action: ActionView,
}

impl View for InstallStep {
    type V = StepView;

    open spec fn view(&self) -> StepView {
        StepView { logs: logs_view(self.logs@), action: self.action@ }
    }
}

/// The installation of one app on one host.
pub struct InstallPlan {
    pub host: Host,
    pub app_id: String,
    pub name: String,
    pub version: String,
    pub platform: PlatformData,
    pub phase: Phase,
    /// An installation method has succeeded.
    pub installed: bool,
    /// The method recorded on success (package manager or file type).
    pub method: String,
    pub exec_path: String,
    pub file_type: String,
    pub silent_args: String,
    pub checksum: String,
    /// The message of a failure that is reported once the download is deleted.
    pub failure: String,
}

/// Mathematical form of [`InstallPlan`].
pub struct PlanView {
    pub host: Host,
    pub app_id: Seq<char>,
    pub name: Seq<char>,
    pub version: Seq<char>,
    pub platform: PlatformData,
    pub phase: Phase,
    pub installed: bool,
    pub method: Seq<char>,
    pub exec_path: Seq<char>,
    pub file_type: Seq<char>,
    pub silent_args: Seq<char>,
    pub checksum: Seq<char>,
    pub failure: Seq<char>,
}

impl View for InstallPlan {
    type V = PlanView;

    open spec fn view(&self) -> PlanView {
        PlanView {
            host: self.host,
            app_id: self.app_id@,
            name: self.name@,
            version: self.version@,
            platform: self.platform,
            phase: self.phase,
            installed: self.installed,
            method: self.method@,
            exec_path: self.exec_path@,
            file_type: self.file_type@,
            silent_args: self.silent_args@,
            checksum: self.checksum@,
            failure: self.failure@,
        }
    }
}

// ---------------------------------------------------------------------------
// The procedure, stated over the mathematical forms.
// ---------------------------------------------------------------------------

/// The text of an optional string, or `default` when absent.
pub open spec fn text_or(o: Option<String>, default: Seq<char>) -> Seq<char> {
    match o {
        Some(s) => s@,
        None => default,
    }
}

/// The message of a host without installation data.
pub open spec fn no_instructions_msg(host: Host) -> Seq<char> {
    match host {
        Host::Windows => "No Windows installation instructions found in application metadata"@,
        Host::Linux => "No Linux installation instructions found in application metadata"@,
    }
}

/// The message when every method was exhausted.
pub open spec fn exhausted_msg(host: Host) -> Seq<char> {
    match host {
        Host::Windows => "Failed to install application. No compatible package managers found and direct installer fallback was not configured."@,
        Host::Linux => "Linux installation failed. Compatible package managers (Flatpak, Snap, APT) not found and direct binary installation failed."@,
    }
}

/// The message when the checksum of the download does not match.
pub open spec fn checksum_failed_msg(host: Host) -> Seq<char> {
    match host {
        Host::Windows => "SHA-256 checksum verification failed. The installer file may be corrupted or modified."@,
        Host::Linux => "SHA-256 checksum verification failed."@,
    }
}

/// The message logged when a download starts, before its URL.
pub open spec fn download_start_msg(host: Host) -> Seq<char> {
    match host {
        Host::Windows => "Downloading installer from: "@,
        Host::Linux => "Downloading source file: "@,
    }
}

/// The message logged when a download completes.
pub open spec fn download_done_msg(host: Host) -> Seq<char> {
    match host {
        Host::Windows => "Installer downloaded successfully."@,
        Host::Linux => "Source download complete."@,
    }
}

/// The message logged when checksum verification starts.
pub open spec fn verify_start_msg(host: Host) -> Seq<char> {
    match host {
        Host::Windows => "Verifying SHA-256 installer checksum..."@,
        Host::Linux => "Verifying SHA-256 download checksum..."@,
    }
}

/// The message logged when the checksum matches.
pub open spec fn verify_done_msg(host: Host) -> Seq<char> {
    match host {
        Host::Windows => "SHA-256 checksum verified successfully."@,
        Host::Linux => "SHA-256 checksum verified."@,
    }
}

/// The package manager tried first when none is named.
pub open spec fn default_manager_of(host: Host) -> Seq<char> {
    match host {
        Host::Windows => "direct"@,
        Host::Linux => "flatpak"@,
    }
}

/// The file type of a direct download when none is named.
pub open spec fn default_file_type(host: Host) -> Seq<char> {
    match host {
        Host::Windows => "exe"@,
        Host::Linux => "appimage"@,
    }
}

/// The cache file name of a downloaded installer: `install_<app>_<version>.<type>`.
pub open spec fn installer_file_name(app_id: Seq<char>, version: Seq<char>, file_type: Seq<char>) -> Seq<char> {
    "install_"@ + app_id + "_"@ + version + "."@ + file_type
}

/// Whether the bytes of a download have the expected SHA-256 checksum.
pub open spec fn checksum_ok(bytes: Seq<u8>, expected: Seq<char>) -> bool {
    eq_ignore_ascii_case_spec(bytes_hex(sha256_spec(bytes)), expected)
}

/// A log line of the installation log.
pub open spec fn log(step: Seq<char>, status: Seq<char>, message: Seq<char>) -> (Seq<char>, Seq<char>, Seq<char>) {
    (step, status, message)
}

/// The same state in another phase.
pub open spec fn at(st: PlanView, phase: Phase) -> PlanView {
    PlanView { phase, ..st }
}

/// A step with these log lines and this action.
pub open spec fn emit(logs: Seq<(Seq<char>, Seq<char>, Seq<char>)>, action: ActionView) -> StepView {
    StepView { logs, action }
}

/// The same outcome with `logs` recorded first.
pub open spec fn after_logs(logs: Seq<(Seq<char>, Seq<char>, Seq<char>)>, r: (PlanView, StepView)) -> (PlanView, StepView) {
    (r.0, StepView { logs: logs + r.1.logs, action: r.1.action })
}

/// The installation ends in failure with `msg`.
pub open spec fn fail_with(st: PlanView, logs: Seq<(Seq<char>, Seq<char>, Seq<char>)>, msg: Seq<char>) -> (PlanView, StepView) {
    (at(st, Phase::Finished), emit(logs, ActionView::Fail(msg)))
}

/// The installation ends: registered when a method succeeded, else failed.
pub open spec fn finish_spec(st: PlanView) -> (PlanView, StepView) {
    if st.installed {
        (at(st, Phase::Finished), emit(Seq::empty(), ActionView::Register(st.method, st.exec_path)))
    } else {
        fail_with(st, seq![log("Failed"@, "Error"@, exhausted_msg(st.host))], exhausted_msg(st.host))
    }
}

/// The direct download data of the host.
pub open spec fn direct_of(st: PlanView) -> Option<DirectSource> {
    match st.host {
        Host::Windows => match st.platform.windows {
            Some(w) => w.direct,
            None => None,
        },
        Host::Linux => match st.platform.linux {
            Some(l) => l.direct,
            None => None,
        },
    }
}

/// The fallback to a direct download, or the end when there is none.
pub open spec fn direct_stage_spec(st: PlanView) -> (PlanView, StepView) {
    match direct_of(st) {
        None => finish_spec(st),
        Some(d) => match d.url {
            None => fail_with(st, Seq::empty(), "Missing download URL"@),
            Some(url) => {
                let ft = text_or(d.file_type, default_file_type(st.host));
                let method = match st.host {
                    Host::Windows => if ft == "zip"@ { "portable"@ } else { "direct"@ },
                    Host::Linux => ft,
                };
                let st2 = PlanView {
                    phase: Phase::Downloading,
                    file_type: ft,
                    silent_args: text_or(d.silent_args, ""@),
                    checksum: text_or(d.checksum, ""@),
                    method,
                    ..st
                };
                (st2, emit(
                    seq![log("Downloading"@, "Info"@, download_start_msg(st.host) + url@)],
                    ActionView::Download(url@, installer_file_name(st.app_id, st.version, ft)),
                ))
            },
        },
    }
}

/// What follows the preferred package manager when it was not used or failed.
pub open spec fn after_preferred_spec(st: PlanView) -> (PlanView, StepView) {
    match st.host {
        Host::Windows => direct_stage_spec(st),
        Host::Linux => (at(st, Phase::ProbeApt), emit(Seq::empty(), ActionView::Probe("apt-get"@))),
    }
}

/// The package source of the preferred package manager.
pub open spec fn preferred_source(st: PlanView) -> Option<PackageSource> {
    match st.host {
        Host::Windows => match st.platform.windows {
            Some(w) => if st.method == "winget"@ {
                w.winget
            } else if st.method == "chocolatey"@ {
                w.chocolatey
            } else {
                w.scoop
            },
            None => None,
        },
        Host::Linux => match st.platform.linux {
            Some(l) => if st.method == "snap"@ { l.snap } else { l.flatpak },
            None => None,
        },
    }
}

/// The native Linux package manager probed in `phase`, its package source and
/// the probe of the next one.
pub open spec fn native_source(st: PlanView) -> Option<PackageSource> {
    match st.platform.linux {
        Some(l) => if st.phase == Phase::ProbeApt {
            l.apt
        } else if st.phase == Phase::ProbeDnf {
            l.dnf
        } else {
            l.pacman
        },
        None => None,
    }
}

/// The name of the native Linux package manager probed in `phase`.
pub open spec fn native_name(phase: Phase) -> Seq<char> {
    if phase == Phase::ProbeApt { "apt"@ } else if phase == Phase::ProbeDnf { "dnf"@ } else { "pacman"@ }
}

/// How the downloaded file is installed, by host and file type; `None` when
/// the file type is not installable.
pub open spec fn direct_kind_of(host: Host, ft: Seq<char>) -> Option<DirectKind> {
    match host {
        Host::Windows => if ft == "zip"@ { Some(DirectKind::PortableZip) } else { Some(DirectKind::Installer) },
        Host::Linux => if ft == "appimage"@ {
            Some(DirectKind::AppImage)
        } else if ft == "targz"@ || ft == "tar.gz"@ {
            Some(DirectKind::TarGz)
        } else {
            None
        },
    }
}

/// Running the downloaded file, after `logs`.
pub open spec fn dispatch_spec(st: PlanView, logs: Seq<(Seq<char>, Seq<char>, Seq<char>)>) -> (PlanView, StepView) {
    match direct_kind_of(st.host, st.file_type) {
        Some(k) => (at(st, Phase::RunningDirect), emit(logs, ActionView::RunDirect(k, st.file_type, st.silent_args))),
        None => (at(st, Phase::Cleanup), emit(logs, ActionView::RemoveDownload)),
    }
}

/// The first step of an installation.
pub open spec fn start_spec(st: PlanView) -> (PlanView, StepView) {
    let intro = seq![log("Installing"@, "Info"@, "Starting installation process for "@ + st.name + "..."@)];
    let has_data = match st.host {
        Host::Windows => st.platform.windows is Some,
        Host::Linux => st.platform.linux is Some,
    };
    if !has_data {
        fail_with(st, intro + seq![log("Failed"@, "Error"@, no_instructions_msg(st.host))], no_instructions_msg(st.host))
    } else {
        let dm = match st.host {
            Host::Windows => text_or(st.platform.windows.unwrap().default_manager, default_manager_of(st.host)),
            Host::Linux => text_or(st.platform.linux.unwrap().default_manager, default_manager_of(st.host)),
        };
        let st1 = PlanView { method: dm, ..st };
        match st.host {
            Host::Windows => if dm == "winget"@ {
                (at(st1, Phase::ProbePreferred), emit(intro, ActionView::Probe("winget"@)))
            } else if dm == "chocolatey"@ {
                (at(st1, Phase::ProbePreferred), emit(intro, ActionView::Probe("choco"@)))
            } else if dm == "scoop"@ {
                (at(st1, Phase::ProbePreferred), emit(intro, ActionView::Probe("scoop"@)))
            } else {
                after_logs(intro, direct_stage_spec(st1))
            },
            Host::Linux => if dm == "flatpak"@ {
                (at(st1, Phase::ProbePreferred), emit(intro, ActionView::Probe("flatpak"@)))
            } else if dm == "snap"@ {
                (at(st1, Phase::ProbePreferred), emit(intro, ActionView::Probe("snap"@)))
            } else {
                (at(st1, Phase::ProbeApt), emit(intro, ActionView::Probe("apt-get"@)))
            },
        }
    }
}

/// Events that do not fit the phase leave the state as it is and fail.
pub open spec fn unexpected(st: PlanView) -> (PlanView, StepView) {
    (st, emit(Seq::empty(), ActionView::Fail("Unexpected installer event"@)))
}

/// One step of the installation procedure: the new state, the log lines to
/// record and the next piece of work, given the outcome of the last one.
pub open spec fn next_spec(st: PlanView, ev: EventView) -> (PlanView, StepView) {
    match (st.phase, ev) {
        (Phase::Start, EventView::Start) => start_spec(st),
        (Phase::ProbePreferred, EventView::Probed(avail)) => {
            match if avail { source_id(preferred_source(st)) } else { None } {
                Some(id) => (at(st, Phase::RunPreferred), emit(Seq::empty(), ActionView::RunManager(st.method, id))),
                None => after_preferred_spec(st),
            }
        },
        (Phase::RunPreferred, EventView::ManagerDone(ok)) => {
            if ok {
                finish_spec(PlanView { installed: true, ..st })
            } else {
                after_preferred_spec(st)
            }
        },
        (Phase::ProbeApt, EventView::Probed(avail)) => native_probe_spec(st, avail),
        (Phase::ProbeDnf, EventView::Probed(avail)) => native_probe_spec(st, avail),
        (Phase::ProbePacman, EventView::Probed(avail)) => native_probe_spec(st, avail),
        (Phase::RunNative, EventView::ManagerDone(ok)) => {
            if ok {
                finish_spec(PlanView { installed: true, ..st })
            } else {
                direct_stage_spec(st)
            }
        },
        (Phase::Downloading, EventView::Downloaded(r)) => match r {
            Err(e) => fail_with(st, Seq::empty(), e),
            Ok(_) => {
                let logs = seq![log("Downloading"@, "Success"@, download_done_msg(st.host))];
                if st.checksum.len() > 0 {
                    (at(st, Phase::Verifying), emit(
                        logs + seq![log("Installing"@, "Info"@, verify_start_msg(st.host))],
                        ActionView::VerifyChecksum(st.checksum),
                    ))
                } else {
                    dispatch_spec(st, logs)
                }
            },
        },
        (Phase::Verifying, EventView::InstallerBytes(r)) => match r {
            Err(e) => fail_with(st, Seq::empty(), e),
            Ok(bytes) => if checksum_ok(bytes, st.checksum) {
                dispatch_spec(st, seq![log("Installing"@, "Success"@, verify_done_msg(st.host))])
            } else {
                (PlanView { phase: Phase::Aborting, failure: checksum_failed_msg(st.host), ..st },
                 emit(seq![log("Failed"@, "Error"@, checksum_failed_msg(st.host))], ActionView::RemoveDownload))
            },
        },
        (Phase::Aborting, EventView::Removed) => fail_with(st, Seq::empty(), st.failure),
        (Phase::RunningDirect, EventView::DirectDone(r)) => match r {
            Err(e) => fail_with(st, Seq::empty(), e),
            Ok(p) => {
                let keeps_path = st.host == Host::Windows && st.file_type != "zip"@;
                let exec_path = if keeps_path { st.exec_path } else { p };
                (PlanView { phase: Phase::Cleanup, installed: true, exec_path, ..st },
                 emit(Seq::empty(), ActionView::RemoveDownload))
            },
        },
        (Phase::Cleanup, EventView::Removed) => finish_spec(st),
        _ => unexpected(st),
    }
}

/// The outcome of probing a native Linux package manager.
pub open spec fn native_probe_spec(st: PlanView, avail: bool) -> (PlanView, StepView) {
    let src = native_source(st);
    if avail && src is Some {
        match source_id(src) {
            Some(id) => {
                let name = native_name(st.phase);
                (PlanView { phase: Phase::RunNative, method: name, ..st },
                 emit(Seq::empty(), ActionView::RunManager(name, id)))
            },
            None => direct_stage_spec(st),
        }
    } else if st.phase == Phase::ProbeApt {
        (at(st, Phase::ProbeDnf), emit(Seq::empty(), ActionView::Probe("dnf"@)))
    } else if st.phase == Phase::ProbeDnf {
        (at(st, Phase::ProbePacman), emit(Seq::empty(), ActionView::Probe("pacman"@)))
    } else {
        direct_stage_spec(st)
    }
}


// ---------------------------------------------------------------------------
// The procedure, executable.
// ---------------------------------------------------------------------------

fn line(step: &str, status: &str, message: String) -> (r: LogLine)
    ensures
        r@ == log(step@, status@, message@),
{
    LogLine { step: text(step), status: text(status), message }
}

fn no_logs() -> (r: Vec<LogLine>)
    ensures
        logs_view(r@) == Seq::<(Seq<char>, Seq<char>, Seq<char>)>::empty(),
{
    let r: Vec<LogLine> = Vec::new();
    assert(logs_view(r@) =~= Seq::<(Seq<char>, Seq<char>, Seq<char>)>::empty());
    r
}

fn one_log(l: LogLine) -> (r: Vec<LogLine>)
    ensures
        logs_view(r@) == seq![l@],
{
    let mut r: Vec<LogLine> = Vec::new();
    r.push(l);
    assert(logs_view(r@) =~= seq![l@]);
    r
}

fn push_log(v: &mut Vec<LogLine>, l: LogLine)
    ensures
        logs_view(final(v)@) == logs_view(old(v)@) + seq![l@],
{
    v.push(l);
    assert(logs_view(final(v)@) =~= logs_view(old(v)@) + seq![l@]);
}

fn prepend_logs(first: Vec<LogLine>, r: InstallStep) -> (out: InstallStep)
    ensures
        out@ == (StepView { logs: logs_view(first@) + r@.logs, action: r@.action }),
{
    let mut logs = first;
    let InstallStep { logs: rest, action } = r;
    let ghost l0 = logs@;
    let mut i: usize = 0;
    while i < rest.len()
        invariant
            i <= rest.len(),
            logs_view(logs@) == logs_view(l0) + logs_view(rest@.subrange(0, i as int)),
        decreases rest.len() - i,
    {
        let ghost before = logs@;
        let x = LogLine { step: rest[i].step.clone(), status: rest[i].status.clone(), message: rest[i].message.clone() };
        logs.push(x);
        assert(logs_view(logs@) =~= logs_view(before) + seq![rest@[i as int]@]);
        assert(rest@.subrange(0, i + 1) =~= rest@.subrange(0, i as int).push(rest@[i as int]));
        assert(logs_view(rest@.subrange(0, i + 1)) =~= logs_view(rest@.subrange(0, i as int)) + seq![rest@[i as int]@]);
        i = i + 1;
    }
    assert(rest@.subrange(0, rest.len() as int) =~= rest@);
    InstallStep { logs, action }
}

fn text_or_exec(o: &Option<String>, default: &str) -> (r: String)
    ensures
        r@ == text_or(*o, default@),
{
    match o {
        Some(s) => s.clone(),
        None => text(default),
    }
}

fn host_text(host: Host, windows: &str, linux: &str) -> (r: String)
    ensures
        r@ == match host {
            Host::Windows => windows@,
            Host::Linux => linux@,
        },
{
    match host {
        Host::Windows => text(windows),
        Host::Linux => text(linux),
    }
}

impl InstallPlan {
    /// A new installation of `app_id` on `host`, before its first step.
    pub fn new(host: Host, app_id: String, name: String, version: String, platform: PlatformData) -> (r: InstallPlan)
        ensures
            r@.host == host,
            r@.app_id == app_id@,
            r@.name == name@,
            r@.version == version@,
            r@.platform == platform,
            r@.phase == Phase::Start,
            !r@.installed,
            r@.method == Seq::<char>::empty(),
            r@.exec_path == Seq::<char>::empty(),
            r@.checksum == Seq::<char>::empty(),
    {
        InstallPlan {
            host,
            app_id,
            name,
            version,
            platform,
            phase: Phase::Start,
            installed: false,
            method: String::new(),
            exec_path: String::new(),
            file_type: String::new(),
            silent_args: String::new(),
            checksum: String::new(),
            failure: String::new(),
        }
    }

    fn fail(&mut self, logs: Vec<LogLine>, message: String) -> (r: InstallStep)
        ensures
            (final(self)@, r@) == fail_with(old(self)@, logs_view(logs@), message@),
    {
        self.phase = Phase::Finished;
        InstallStep { logs, action: InstallAction::Fail { message } }
    }

    fn finish(&mut self) -> (r: InstallStep)
        ensures
            (final(self)@, r@) == finish_spec(old(self)@),
    {
        if self.installed {
            self.phase = Phase::Finished;
            InstallStep {
                logs: no_logs(),
                action: InstallAction::Register { method: self.method.clone(), exec_path: self.exec_path.clone() },
            }
        } else {
            let msg = host_text(self.host,
                "Failed to install application. No compatible package managers found and direct installer fallback was not configured.",
                "Linux installation failed. Compatible package managers (Flatpak, Snap, APT) not found and direct binary installation failed.");
            let logs = one_log(line("Failed", "Error", msg.clone()));
            self.fail(logs, msg)
        }
    }

    fn direct_source(&self) -> (r: Option<&DirectSource>)
        ensures
            match r {
                Some(d) => direct_of(self@) == Some(*d),
                None => direct_of(self@) is None,
            },
    {
        match self.host {
            Host::Windows => match &self.platform.windows {
                Some(w) => match &w.direct {
                    Some(d) => Some(d),
                    None => None,
                },
                None => None,
            },
            Host::Linux => match &self.platform.linux {
                Some(l) => match &l.direct {
                    Some(d) => Some(d),
                    None => None,
                },
                None => None,
            },
        }
    }

    fn direct_stage(&mut self) -> (r: InstallStep)
        ensures
            (final(self)@, r@) == direct_stage_spec(old(self)@),
    {
        let (url, ft, sa, ck) = match self.direct_source() {
            None => {
                return self.finish();
            },
            Some(d) => match &d.url {
                None => {
                    return self.fail(no_logs(), text("Missing download URL"));
                },
                Some(url) => {
                    let ft = match self.host {
                        Host::Windows => text_or_exec(&d.file_type, "exe"),
                        Host::Linux => text_or_exec(&d.file_type, "appimage"),
                    };
                    (url.clone(), ft, text_or_exec(&d.silent_args, ""), text_or_exec(&d.checksum, ""))
                },
            },
        };
        let method = match self.host {
            Host::Windows => if same_text(ft.as_str(), "zip") { text("portable") } else { text("direct") },
            Host::Linux => ft.clone(),
        };
        let mut file_name = text("install_");
        file_name.append(self.app_id.as_str());
        file_name.append("_");
        file_name.append(self.version.as_str());
        file_name.append(".");
        file_name.append(ft.as_str());
        let mut msg = host_text(self.host, "Downloading installer from: ", "Downloading source file: ");
        msg.append(url.as_str());
        self.phase = Phase::Downloading;
        self.file_type = ft;
        self.silent_args = sa;
        self.checksum = ck;
        self.method = method;
        InstallStep {
            logs: one_log(line("Downloading", "Info", msg)),
            action: InstallAction::Download { url, file_name },
        }
    }

    fn after_preferred(&mut self) -> (r: InstallStep)
        ensures
            (final(self)@, r@) == after_preferred_spec(old(self)@),
    {
        match self.host {
            Host::Windows => self.direct_stage(),
            Host::Linux => {
                self.phase = Phase::ProbeApt;
                InstallStep { logs: no_logs(), action: InstallAction::Probe { command: text("apt-get") } }
            },
        }
    }

    fn preferred_source(&self) -> (r: &Option<PackageSource>)
        requires
            match self.host {
                Host::Windows => self.platform.windows is Some,
                Host::Linux => self.platform.linux is Some,
            },
        ensures
            *r == preferred_source(self@),
    {
        match self.host {
            Host::Windows => {
                let w = self.platform.windows.as_ref().unwrap();
                if same_text(self.method.as_str(), "winget") {
                    &w.winget
                } else if same_text(self.method.as_str(), "chocolatey") {
                    &w.chocolatey
                } else {
                    &w.scoop
                }
            },
            Host::Linux => {
                let l = self.platform.linux.as_ref().unwrap();
                if same_text(self.method.as_str(), "snap") {
                    &l.snap
                } else {
                    &l.flatpak
                }
            },
        }
    }

    fn dispatch(&mut self, logs: Vec<LogLine>) -> (r: InstallStep)
        ensures
            (final(self)@, r@) == dispatch_spec(old(self)@, logs_view(logs@)),
    {
        let kind = match self.host {
            Host::Windows => if same_text(self.file_type.as_str(), "zip") {
                Some(DirectKind::PortableZip)
            } else {
                Some(DirectKind::Installer)
            },
            Host::Linux => if same_text(self.file_type.as_str(), "appimage") {
                Some(DirectKind::AppImage)
            } else if same_text(self.file_type.as_str(), "targz") || same_text(self.file_type.as_str(), "tar.gz") {
                Some(DirectKind::TarGz)
            } else {
                None
            },
        };
        match kind {
            Some(k) => {
                self.phase = Phase::RunningDirect;
                InstallStep {
                    logs,
                    action: InstallAction::RunDirect { kind: k, file_type: self.file_type.clone(), silent_args: self.silent_args.clone() },
                }
            },
            None => {
                self.phase = Phase::Cleanup;
                InstallStep { logs, action: InstallAction::RemoveDownload }
            },
        }
    }

    fn native_probe(&mut self, avail: bool) -> (r: InstallStep)
        requires
            old(self).phase == Phase::ProbeApt || old(self).phase == Phase::ProbeDnf || old(self).phase == Phase::ProbePacman,
        ensures
            (final(self)@, r@) == native_probe_spec(old(self)@, avail),
    {
        let src: Option<&PackageSource> = match &self.platform.linux {
            Some(l) => {
                let s = if self.phase == Phase::ProbeApt {
                    &l.apt
                } else if self.phase == Phase::ProbeDnf {
                    &l.dnf
                } else {
                    &l.pacman
                };
                match s {
                    Some(p) => Some(p),
                    None => None,
                }
            },
            None => None,
        };
        assert(src is Some <==> native_source(self@) is Some);
        if avail && src.is_some() {
            let p = src.unwrap();
            assert(native_source(self@) == Some(*p));
            match &p.id {
                Some(id) => {
                    let package_id = id.clone();
                    let name = if self.phase == Phase::ProbeApt {
                        text("apt")
                    } else if self.phase == Phase::ProbeDnf {
                        text("dnf")
                    } else {
                        text("pacman")
                    };
                    self.phase = Phase::RunNative;
                    self.method = name.clone();
                    InstallStep { logs: no_logs(), action: InstallAction::RunManager { manager: name, package_id } }
                },
                None => self.direct_stage(),
            }
        } else if self.phase == Phase::ProbeApt {
            self.phase = Phase::ProbeDnf;
            InstallStep { logs: no_logs(), action: InstallAction::Probe { command: text("dnf") } }
        } else if self.phase == Phase::ProbeDnf {
            self.phase = Phase::ProbePacman;
            InstallStep { logs: no_logs(), action: InstallAction::Probe { command: text("pacman") } }
        } else {
            self.direct_stage()
        }
    }

    fn start(&mut self) -> (r: InstallStep)
        ensures
            (final(self)@, r@) == start_spec(old(self)@),
    {
        let mut intro_msg = text("Starting installation process for ");
        intro_msg.append(self.name.as_str());
        intro_msg.append("...");
        let intro = line("Installing", "Info", intro_msg);
        let has_data = match self.host {
            Host::Windows => self.platform.windows.is_some(),
            Host::Linux => self.platform.linux.is_some(),
        };
        if !has_data {
            let msg = host_text(self.host,
                "No Windows installation instructions found in application metadata",
                "No Linux installation instructions found in application metadata");
            let mut logs = one_log(intro);
            push_log(&mut logs, line("Failed", "Error", msg.clone()));
            return self.fail(logs, msg);
        }
        let dm = match self.host {
            Host::Windows => text_or_exec(&self.platform.windows.as_ref().unwrap().default_manager, "direct"),
            Host::Linux => text_or_exec(&self.platform.linux.as_ref().unwrap().default_manager, "flatpak"),
        };
        let probe: Option<&str> = match self.host {
            Host::Windows => if same_text(dm.as_str(), "winget") {
                Some("winget")
            } else if same_text(dm.as_str(), "chocolatey") {
                Some("choco")
            } else if same_text(dm.as_str(), "scoop") {
                Some("scoop")
            } else {
                None
            },
            Host::Linux => if same_text(dm.as_str(), "flatpak") {
                Some("flatpak")
            } else if same_text(dm.as_str(), "snap") {
                Some("snap")
            } else {
                None
            },
        };
        self.method = dm;
        match probe {
            Some(cmd) => {
                self.phase = Phase::ProbePreferred;
                InstallStep { logs: one_log(intro), action: InstallAction::Probe { command: text(cmd) } }
            },
            None => match self.host {
                Host::Windows => {
                    let r = self.direct_stage();
                    prepend_logs(one_log(intro), r)
                },
                Host::Linux => {
                    self.phase = Phase::ProbeApt;
                    InstallStep { logs: one_log(intro), action: InstallAction::Probe { command: text("apt-get") } }
                },
            },
        }
    }

    /// Advances the installation by one step: given the outcome of the last
    /// piece of work, updates the state and returns the log lines to record
    /// and the next piece of work (ending with `Register` or `Fail`).
    pub fn step(&mut self, ev: InstallEvent) -> (r: InstallStep)
        ensures
            (final(self)@, r@) == next_spec(old(self)@, ev@),
    {
        let phase = self.phase;
        match ev {
            InstallEvent::Start => {
                if phase == Phase::Start {
                    return self.start();
                }
            },
            InstallEvent::Probed(avail) => {
                if phase == Phase::ProbePreferred {
                    let has_data = match self.host {
                        Host::Windows => self.platform.windows.is_some(),
                        Host::Linux => self.platform.linux.is_some(),
                    };
                    let id: Option<String> = if avail && has_data {
                        match self.preferred_source() {
                            Some(p) => match &p.id {
                                Some(id) => Some(id.clone()),
                                None => None,
                            },
                            None => None,
                        }
                    } else {
                        None
                    };
                    proof {
                        if !has_data {
                            assert(preferred_source(self@) is None);
                        }
                    }
                    return match id {
                        Some(package_id) => {
                            self.phase = Phase::RunPreferred;
                            InstallStep {
                                logs: no_logs(),
                                action: InstallAction::RunManager { manager: self.method.clone(), package_id },
                            }
                        },
                        None => self.after_preferred(),
                    };
                } else if phase == Phase::ProbeApt || phase == Phase::ProbeDnf || phase == Phase::ProbePacman {
                    return self.native_probe(avail);
                }
            },
            InstallEvent::ManagerDone(ok) => {
                if phase == Phase::RunPreferred {
                    if ok {
                        self.installed = true;
                        return self.finish();
                    } else {
                        return self.after_preferred();
                    }
                } else if phase == Phase::RunNative {
                    if ok {
                        self.installed = true;
                        return self.finish();
                    } else {
                        return self.direct_stage();
                    }
                }
            },
            InstallEvent::Downloaded(res) => {
                if phase == Phase::Downloading {
                    match res {
                        Err(e) => {
                            return self.fail(no_logs(), e);
                        },
                        Ok(_) => {
                            let done = host_text(self.host, "Installer downloaded successfully.", "Source download complete.");
                            let mut logs = one_log(line("Downloading", "Success", done));
                            if self.checksum.unicode_len() > 0 {
                                let msg = host_text(self.host, "Verifying SHA-256 installer checksum...", "Verifying SHA-256 download checksum...");
                                push_log(&mut logs, line("Installing", "Info", msg));
                                self.phase = Phase::Verifying;
                                return InstallStep { logs, action: InstallAction::VerifyChecksum { expected: self.checksum.clone() } };
                            } else {
                                return self.dispatch(logs);
                            }
                        },
                    }
                }
            },
            InstallEvent::InstallerBytes(res) => {
                if phase == Phase::Verifying {
                    match res {
                        Err(e) => {
                            return self.fail(no_logs(), e);
                        },
                        Ok(bytes) => {
                            if checksum_matches(bytes.as_slice(), self.checksum.as_str()) {
                                let msg = host_text(self.host, "SHA-256 checksum verified successfully.", "SHA-256 checksum verified.");
                                return self.dispatch(one_log(line("Installing", "Success", msg)));
                            } else {
                                let msg = host_text(self.host,
                                    "SHA-256 checksum verification failed. The installer file may be corrupted or modified.",
                                    "SHA-256 checksum verification failed.");
                                self.phase = Phase::Aborting;
                                self.failure = msg.clone();
                                return InstallStep { logs: one_log(line("Failed", "Error", msg)), action: InstallAction::RemoveDownload };
                            }
                        },
                    }
                }
            },
            InstallEvent::DirectDone(res) => {
                if phase == Phase::RunningDirect {
                    match res {
                        Err(e) => {
                            return self.fail(no_logs(), e);
                        },
                        Ok(p) => {
                            let keeps_path = self.host == Host::Windows && !same_text(self.file_type.as_str(), "zip");
                            if !keeps_path {
                                self.exec_path = p;
                            }
                            self.phase = Phase::Cleanup;
                            self.installed = true;
                            return InstallStep { logs: no_logs(), action: InstallAction::RemoveDownload };
                        },
                    }
                }
            },
            InstallEvent::Removed => {
                if phase == Phase::Aborting {
                    let msg = self.failure.clone();
                    return self.fail(no_logs(), msg);
                } else if phase == Phase::Cleanup {
                    return self.finish();
                }
            },
        }
        InstallStep { logs: no_logs(), action: InstallAction::Fail { message: text("Unexpected installer event") } }
    }
}

} // verus!
