//! Properties of the installation procedure that span its steps and the
//! uninstaller.

use vstd::prelude::*;
use crate::text::{bytes_hex, eq_ignore_ascii_case_spec};
use crate::checksum::sha256_spec;
use crate::install::{Host, Phase, PlanView, EventView, next_spec, direct_stage_spec, dispatch_spec, direct_kind_of, text_or, default_manager_of, log, download_done_msg, verify_done_msg};
use crate::commands::{uninstall_spec, UninstallView, uninstall_package_id_spec, lemma_method_names};
use crate::install::{ActionView, preferred_source, native_source, native_name};
use crate::platform::source_id;

verus! {

/// The methods an installation on `host` can record.
pub open spec fn recordable_method(host: Host, m: Seq<char>) -> bool {
    match host {
        Host::Windows => m == "winget"@ || m == "chocolatey"@ || m == "scoop"@ || m == "direct"@ || m == "portable"@,
        Host::Linux => m == "flatpak"@ || m == "snap"@ || m == "apt"@ || m == "dnf"@ || m == "pacman"@ || m == "appimage"@
            || m == "targz"@ || m == "tar.gz"@,
    }
}

/// The method recorded for a direct download, fixed when the download starts.
pub open spec fn direct_method(st: PlanView) -> bool {
    match st.host {
        Host::Windows => st.method == "direct"@ || st.method == "portable"@,
        Host::Linux => st.method == st.file_type,
    }
}

/// What holds of every state the installation procedure reaches.
pub open spec fn plan_inv(st: PlanView) -> bool {
    &&& st.phase == Phase::Start ==> !st.installed
    &&& (st.phase == Phase::ProbePreferred || st.phase == Phase::RunPreferred) ==> match st.host {
        Host::Windows => st.method == "winget"@ || st.method == "chocolatey"@ || st.method == "scoop"@,
        Host::Linux => st.method == "flatpak"@ || st.method == "snap"@,
    }
    &&& (st.phase == Phase::ProbeApt || st.phase == Phase::ProbeDnf || st.phase == Phase::ProbePacman) ==> st.host == Host::Linux
    &&& st.phase == Phase::RunNative ==> st.host == Host::Linux && (st.method == "apt"@ || st.method == "dnf"@ || st.method == "pacman"@)
    &&& (st.phase == Phase::Downloading || st.phase == Phase::Verifying) ==> direct_method(st)
    &&& st.phase == Phase::RunningDirect ==> direct_method(st) && direct_kind_of(st.host, st.file_type) is Some
    &&& st.installed ==> recordable_method(st.host, st.method)
    &&& (st.phase != Phase::Cleanup && st.phase != Phase::Finished) ==> !st.installed
}

/// A new installation satisfies the invariant.
pub proof fn lemma_plan_inv_initial(st: PlanView)
    requires
        st.phase == Phase::Start,
        !st.installed,
    ensures
        plan_inv(st),
{
}

proof fn lemma_direct_stage_inv(st: PlanView)
    requires
        plan_inv(st),
        !st.installed,
    ensures
        plan_inv(direct_stage_spec(st).0),
{
}

proof fn lemma_dispatch_inv(st: PlanView, logs: Seq<(Seq<char>, Seq<char>, Seq<char>)>)
    requires
        plan_inv(st),
        direct_method(st),
        !st.installed,
    ensures
        plan_inv(dispatch_spec(st, logs).0),
{
}

/// Every step of the installation procedure keeps its invariant.
pub proof fn lemma_plan_inv_step(st: PlanView, ev: EventView)
    requires
        plan_inv(st),
    ensures
        plan_inv(next_spec(st, ev).0),
{
    match (st.phase, ev) {
        (Phase::Start, EventView::Start) => {
            if st.host == Host::Windows && st.platform.windows is Some {
                let dm = text_or(st.platform.windows.unwrap().default_manager, default_manager_of(st.host));
                lemma_direct_stage_inv(PlanView { method: dm, ..st });
            }
        },
        (Phase::ProbePreferred, EventView::Probed(_)) => {
            lemma_direct_stage_inv(st);
        },
        (Phase::RunPreferred, EventView::ManagerDone(_)) => {
            lemma_direct_stage_inv(st);
        },
        (Phase::ProbeApt, EventView::Probed(_)) => {
            lemma_direct_stage_inv(st);
        },
        (Phase::ProbeDnf, EventView::Probed(_)) => {
            lemma_direct_stage_inv(st);
        },
        (Phase::ProbePacman, EventView::Probed(_)) => {
            lemma_direct_stage_inv(st);
        },
        (Phase::RunNative, EventView::ManagerDone(_)) => {
            lemma_direct_stage_inv(st);
        },
        (Phase::Downloading, EventView::Downloaded(_)) => {
            lemma_dispatch_inv(st, seq![log("Downloading"@, "Success"@, download_done_msg(st.host))]);
        },
        (Phase::Verifying, EventView::InstallerBytes(_)) => {
            lemma_dispatch_inv(st, seq![log("Installing"@, "Success"@, verify_done_msg(st.host))]);
        },
        _ => {},
    }
}

/// An app is registered only after one of its installation methods
/// succeeded, and never before the procedure began.
pub proof fn lemma_register_requires_success(st: PlanView, ev: EventView)
    requires
        plan_inv(st),
        next_spec(st, ev).1.action is Register,
    ensures
        next_spec(st, ev).0.installed,
        next_spec(st, ev).0.phase == Phase::Finished,
{
    lemma_plan_inv_step(st, ev);
}

/// Every app the store registers as installed can be uninstalled again by
/// the method it was registered with, except for archives whose file type
/// was given as `tar.gz` (the uninstaller knows them as `targz`).
pub proof fn lemma_registered_method_uninstallable(st: PlanView, ev: EventView, pkg: Seq<char>)
    requires
        plan_inv(st),
        next_spec(st, ev).1.action is Register,
        next_spec(st, ev).1.action->Register_0 != "tar.gz"@,
    ensures
        uninstall_spec(st.host, next_spec(st, ev).1.action->Register_0, pkg) != UninstallView::Unsupported,
{
    lemma_plan_inv_step(st, ev);
    let post = next_spec(st, ev).0;
    assert(post.installed);
    assert(recordable_method(post.host, post.method));
    assert(next_spec(st, ev).1.action->Register_0 == post.method);
}


/// An app installed by a package manager is uninstalled by the package it was
/// installed with: whenever the procedure runs manager `m` on package `id`,
/// the uninstaller of an app recorded with method `m` removes `id`. (dnf and
/// pacman are left out: their uninstaller removes the package named like the
/// app.)
pub proof fn lemma_uninstall_uses_installed_package(st: PlanView, ev: EventView, m: Seq<char>, id: Seq<char>)
    requires
        plan_inv(st),
        next_spec(st, ev).1.action == ActionView::RunManager(m, id),
        m != "dnf"@,
        m != "pacman"@,
    ensures
        uninstall_package_id_spec(st.host, m, st.platform, st.app_id) == id,
{
    lemma_method_names();
    match (st.phase, ev) {
        (Phase::ProbePreferred, EventView::Probed(avail)) => {
            assert(avail && source_id(preferred_source(st)) == Some(id));
            assert(m == st.method);
        },
        (Phase::ProbeApt, EventView::Probed(_)) => {
            assert(m == "apt"@);
            assert(source_id(native_source(st)) == Some(id));
        },
        (Phase::ProbeDnf, EventView::Probed(_)) => {
            assert(m == "dnf"@);
        },
        (Phase::ProbePacman, EventView::Probed(_)) => {
            assert(m == "pacman"@);
        },
        _ => {},
    }
}

/// A download whose SHA-256 checksum does not match is never run: from the
/// check, a mismatch removes the file and aborts with the host's
/// checksum-failure message; an aborted installation only fails; and an
/// installer is started only after a matching checksum, or when the catalog
/// gives none.
pub proof fn lemma_checksum_guards_installer(st: PlanView, ev: EventView)
    ensures
        st.phase == Phase::Verifying ==> (ev matches EventView::InstallerBytes(Ok(b)) ==>
            (!eq_ignore_ascii_case_spec(bytes_hex(sha256_spec(b)), st.checksum) ==> {
                &&& next_spec(st, ev).1.action == ActionView::RemoveDownload
                &&& next_spec(st, ev).0.phase == Phase::Aborting
                &&& next_spec(st, ev).0.installed == st.installed
                &&& next_spec(st, ev).0.failure == match st.host {
                    Host::Windows => "SHA-256 checksum verification failed. The installer file may be corrupted or modified."@,
                    Host::Linux => "SHA-256 checksum verification failed."@,
                }
            })),
        st.phase == Phase::Aborting ==> {
            &&& next_spec(st, ev).1.action is Fail
            &&& (ev is Removed ==> next_spec(st, ev).1.action == ActionView::Fail(st.failure))
        },
        next_spec(st, ev).1.action is RunDirect ==> {
            ||| st.phase == Phase::Downloading && st.checksum.len() == 0
            ||| st.phase == Phase::Verifying && (ev matches EventView::InstallerBytes(Ok(b))
                    && eq_ignore_ascii_case_spec(bytes_hex(sha256_spec(b)), st.checksum))
        },
{
}

} // verus!
