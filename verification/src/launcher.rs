//! Finding how to start an installed app, and starting it detached from the store.

use vstd::prelude::*;
use crate::catalog::{text, bundled_entries, AppView};
use crate::text::same_text;
use crate::install::Host;
use crate::commands::{CommandSpec, command_view};

verus! {

/// A check on the host that, when it succeeds, tells how to start the app.
pub enum DetectProbe {
    /// The command is found on the `PATH`; start it by name.
    InPath(String),
    /// The Flatpak application is installed; start it with `flatpak run <id>`.
    Flatpak(String),
    /// `/snap/bin/<binary>` exists; start it with the given command.
    Snap { binary: String, command: String },
    /// The file exists; start it by its quoted path.
    FileExists(String),
    /// The file under the user's local application data directory exists;
    /// start it by its quoted path followed by `suffix`.
    LocalAppData { parts: Vec<String>, suffix: String },
}

/// Mathematical form of [`DetectProbe`].
pub enum ProbeView {
    InPath(Seq<char>),
    Flatpak(Seq<char>),
    Snap(Seq<char>, Seq<char>),
    FileExists(Seq<char>),
    LocalAppData(Seq<Seq<char>>, Seq<char>),
}

impl View for DetectProbe {
    type V = ProbeView;

    open spec fn view(&self) -> ProbeView {
        match self {
            DetectProbe::InPath(c) => ProbeView::InPath(c@),
            DetectProbe::Flatpak(id) => ProbeView::Flatpak(id@),
            DetectProbe::Snap { binary, command } => ProbeView::Snap(binary@, command@),
            DetectProbe::FileExists(p) => ProbeView::FileExists(p@),
            DetectProbe::LocalAppData { parts, suffix } => ProbeView::LocalAppData(parts@.map_values(|s: String| s@), suffix@),
        }
    }
}

/// Mathematical form of a list of probes.
pub open spec fn probes_view(v: Seq<DetectProbe>) -> Seq<ProbeView> {
    v.map_values(|p: DetectProbe| p@)
}

/// Commands looked up on the `PATH` for an app.
pub open spec fn path_commands(host: Host, app_id: Seq<char>) -> Seq<Seq<char>> {
    match host {
        Host::Linux => if app_id == "vscode"@ { seq!["code"@] }
            else if app_id == "brave"@ { seq!["brave-browser"@, "brave"@] }
            else if app_id == "gimp"@ { seq!["gimp"@] }
            else if app_id == "obs"@ { seq!["obs"@] }
            else if app_id == "blender"@ { seq!["blender"@] }
            else if app_id == "discord"@ { seq!["discord"@] }
            else if app_id == "vlc"@ { seq!["vlc"@] }
            else if app_id == "spotify"@ { seq!["spotify"@] }
            else { seq![app_id] },
        Host::Windows => if app_id == "vscode"@ { seq!["code.cmd"@, "code.exe"@] }
            else if app_id == "brave"@ { seq!["brave.exe"@] }
            else if app_id == "gimp"@ { seq!["gimp-2.10.exe"@, "gimp.exe"@] }
            else if app_id == "obs"@ { seq!["obs64.exe"@, "obs.exe"@] }
            else if app_id == "blender"@ { seq!["blender.exe"@] }
            else if app_id == "discord"@ { seq!["Update.exe"@, "Discord.exe"@] }
            else if app_id == "vlc"@ { seq!["vlc.exe"@] }
            else if app_id == "spotify"@ { seq!["Spotify.exe"@] }
            else if app_id == "python"@ { seq!["python.exe"@] }
            else { Seq::empty() },
    }
}

/// Flatpak application ids of the known apps.
pub open spec fn flatpak_ids(app_id: Seq<char>) -> Seq<Seq<char>> {
    if app_id == "vscode"@ { seq!["com.visualstudio.code"@] }
    else if app_id == "brave"@ { seq!["com.brave.Browser"@] }
    else if app_id == "gimp"@ { seq!["org.gimp.GIMP"@] }
    else if app_id == "obs"@ { seq!["com.obsproject.Studio"@] }
    else if app_id == "blender"@ { seq!["org.blender.Blender"@] }
    else if app_id == "discord"@ { seq!["com.discordapp.Discord"@] }
    else if app_id == "vlc"@ { seq!["org.videolan.VLC"@] }
    else if app_id == "spotify"@ { seq!["com.spotify.Client"@] }
    else { Seq::empty() }
}

/// Snap probes of the known apps: (binary under `/snap/bin`, command).
pub open spec fn snap_probes(app_id: Seq<char>) -> Seq<ProbeView> {
    if app_id == "vscode"@ { seq![ProbeView::Snap("code"@, "snap run code"@)] }
    else if app_id == "discord"@ { seq![ProbeView::Snap("discord"@, "snap run discord"@)] }
    else { Seq::empty() }
}

/// Standard Windows install locations checked for an app.
pub open spec fn windows_paths(app_id: Seq<char>, app_name: Seq<char>) -> Seq<Seq<char>> {
    seq![
        "C:\\Program Files\\"@ + app_name + "\\"@ + app_name + "\\"@ + app_id + ".exe"@,
        "C:\\Program Files (x86)\\"@ + app_name + "\\"@ + app_id + ".exe"@,
        "C:\\Program Files\\Microsoft VS Code\\Code.exe"@,
        "C:\\Program Files\\BraveSoftware\\Brave-Browser\\Application\\brave.exe"@,
        "C:\\Program Files\\GIMP 2\\bin\\gimp-2.10.exe"@,
        "C:\\Program Files\\obs-studio\\bin\\64bit\\obs64.exe"@,
        "C:\\Program Files\\Blender Foundation\\Blender 4.1\\blender.exe"@,
        "C:\\Program Files\\VideoLAN\\VLC\\vlc.exe"@,
        "C:\\Users\\Shivam\\AppData\\Local\\Microsoft\\WindowsApps\\code.exe"@,
        "C:\\Users\\Shivam\\AppData\\Local\\Discord\\Update.exe"@,
    ]
}

/// The checks made, in order, to find how to start an app that has no
/// usable recorded executable; the first that succeeds decides, and when
/// none does the app id itself is run.
pub open spec fn detection_plan_spec(host: Host, app_id: Seq<char>, app_name: Seq<char>) -> Seq<ProbeView> {
    match host {
        Host::Linux =>
            path_commands(host, app_id).map_values(|c: Seq<char>| ProbeView::InPath(c))
            + flatpak_ids(app_id).map_values(|f: Seq<char>| ProbeView::Flatpak(f))
            + snap_probes(app_id),
        Host::Windows =>
            path_commands(host, app_id).map_values(|c: Seq<char>| ProbeView::InPath(c))
            + windows_paths(app_id, app_name).map_values(|p: Seq<char>| ProbeView::FileExists(p))
            + seq![
                ProbeView::LocalAppData(seq!["Discord"@, "Update.exe"@], " --processStart Discord.exe"@),
                ProbeView::LocalAppData(seq!["Programs"@, "Microsoft VS Code"@, "Code.exe"@], ""@),
            ],
    }
}

fn push_probe(plan: &mut Vec<DetectProbe>, p: DetectProbe)
    ensures
        probes_view(final(plan)@) == probes_view(old(plan)@).push(p@),
{
    plan.push(p);
    assert(probes_view(final(plan)@) =~= probes_view(old(plan)@).push(p@));
}

fn add_in_path(plan: &mut Vec<DetectProbe>, cmds: Vec<&str>)
    ensures
        probes_view(final(plan)@) == probes_view(old(plan)@)
            + cmds@.map_values(|c: &str| c@).map_values(|c: Seq<char>| ProbeView::InPath(c)),
{
    let ghost start = probes_view(plan@);
    let ghost cv = cmds@.map_values(|c: &str| c@).map_values(|c: Seq<char>| ProbeView::InPath(c));
    let mut i: usize = 0;
    while i < cmds.len()
        invariant
            i <= cmds@.len(),
            cv == cmds@.map_values(|c: &str| c@).map_values(|c: Seq<char>| ProbeView::InPath(c)),
            probes_view(plan@) == start + cv.subrange(0, i as int),
        decreases cmds.len() - i,
    {
        push_probe(plan, DetectProbe::InPath(text(cmds[i])));
        proof {
            assert(cv.subrange(0, i + 1) =~= cv.subrange(0, i as int).push(cv[i as int]));
        }
        i = i + 1;
        assert(probes_view(plan@) =~= start + cv.subrange(0, i as int));
    }
    assert(cv.subrange(0, cmds@.len() as int) =~= cv);
}

/// The checks made, in order, to find how to start an app.
pub fn detection_plan(host: Host, app_id: &str, app_name: &str) -> (r: Vec<DetectProbe>)
    ensures
        probes_view(r@) == detection_plan_spec(host, app_id@, app_name@),
{
    let mut plan: Vec<DetectProbe> = Vec::new();
    let ghost p0 = probes_view(plan@);
    let id = app_id;
    let cmds: Vec<&str> = match host {
        Host::Linux => if same_text(id, "vscode") { vec!["code"] }
            else if same_text(id, "brave") { vec!["brave-browser", "brave"] }
            else if same_text(id, "gimp") { vec!["gimp"] }
            else if same_text(id, "obs") { vec!["obs"] }
            else if same_text(id, "blender") { vec!["blender"] }
            else if same_text(id, "discord") { vec!["discord"] }
            else if same_text(id, "vlc") { vec!["vlc"] }
            else if same_text(id, "spotify") { vec!["spotify"] }
            else { vec![id] },
        Host::Windows => if same_text(id, "vscode") { vec!["code.cmd", "code.exe"] }
            else if same_text(id, "brave") { vec!["brave.exe"] }
            else if same_text(id, "gimp") { vec!["gimp-2.10.exe", "gimp.exe"] }
            else if same_text(id, "obs") { vec!["obs64.exe", "obs.exe"] }
            else if same_text(id, "blender") { vec!["blender.exe"] }
            else if same_text(id, "discord") { vec!["Update.exe", "Discord.exe"] }
            else if same_text(id, "vlc") { vec!["vlc.exe"] }
            else if same_text(id, "spotify") { vec!["Spotify.exe"] }
            else if same_text(id, "python") { vec!["python.exe"] }
            else { Vec::new() },
    };
    assert(cmds@.map_values(|c: &str| c@) =~= path_commands(host, app_id@));
    add_in_path(&mut plan, cmds);
    let ghost p1 = probes_view(plan@);
    assert(p1 =~= path_commands(host, app_id@).map_values(|c: Seq<char>| ProbeView::InPath(c)));
    match host {
        Host::Linux => {
            let f: Option<&str> = if same_text(id, "vscode") { Some("com.visualstudio.code") }
                else if same_text(id, "brave") { Some("com.brave.Browser") }
                else if same_text(id, "gimp") { Some("org.gimp.GIMP") }
                else if same_text(id, "obs") { Some("com.obsproject.Studio") }
                else if same_text(id, "blender") { Some("org.blender.Blender") }
                else if same_text(id, "discord") { Some("com.discordapp.Discord") }
                else if same_text(id, "vlc") { Some("org.videolan.VLC") }
                else if same_text(id, "spotify") { Some("com.spotify.Client") }
                else { None };
            match f {
                Some(fid) => {
                    push_probe(&mut plan, DetectProbe::Flatpak(text(fid)));
                    assert(flatpak_ids(app_id@).map_values(|f: Seq<char>| ProbeView::Flatpak(f)) =~= seq![ProbeView::Flatpak(fid@)]);
                },
                None => {
                    assert(flatpak_ids(app_id@).map_values(|f: Seq<char>| ProbeView::Flatpak(f)) =~= Seq::<ProbeView>::empty());
                    assert(probes_view(plan@) =~= p1 + Seq::<ProbeView>::empty());
                },
            }
            let ghost p2 = probes_view(plan@);
            if same_text(id, "vscode") {
                push_probe(&mut plan, DetectProbe::Snap { binary: text("code"), command: text("snap run code") });
            } else if same_text(id, "discord") {
                push_probe(&mut plan, DetectProbe::Snap { binary: text("discord"), command: text("snap run discord") });
            } else {
                assert(probes_view(plan@) =~= p2 + snap_probes(app_id@));
            }
            assert(probes_view(plan@) =~= detection_plan_spec(host, app_id@, app_name@));
        },
        Host::Windows => {
            let mut p = text("C:\\Program Files\\");
            p.append(app_name);
            p.append("\\");
            p.append(app_name);
            p.append("\\");
            p.append(app_id);
            p.append(".exe");
            assert(p@ == windows_paths(app_id@, app_name@)[0]);
            push_probe(&mut plan, DetectProbe::FileExists(p));
            let mut q = text("C:\\Program Files (x86)\\");
            q.append(app_name);
            q.append("\\");
            q.append(app_id);
            q.append(".exe");
            assert(q@ == windows_paths(app_id@, app_name@)[1]);
            push_probe(&mut plan, DetectProbe::FileExists(q));
            push_probe(&mut plan, DetectProbe::FileExists(text("C:\\Program Files\\Microsoft VS Code\\Code.exe")));
            push_probe(&mut plan, DetectProbe::FileExists(text("C:\\Program Files\\BraveSoftware\\Brave-Browser\\Application\\brave.exe")));
            push_probe(&mut plan, DetectProbe::FileExists(text("C:\\Program Files\\GIMP 2\\bin\\gimp-2.10.exe")));
            push_probe(&mut plan, DetectProbe::FileExists(text("C:\\Program Files\\obs-studio\\bin\\64bit\\obs64.exe")));
            push_probe(&mut plan, DetectProbe::FileExists(text("C:\\Program Files\\Blender Foundation\\Blender 4.1\\blender.exe")));
            push_probe(&mut plan, DetectProbe::FileExists(text("C:\\Program Files\\VideoLAN\\VLC\\vlc.exe")));
            push_probe(&mut plan, DetectProbe::FileExists(text("C:\\Users\\Shivam\\AppData\\Local\\Microsoft\\WindowsApps\\code.exe")));
            push_probe(&mut plan, DetectProbe::FileExists(text("C:\\Users\\Shivam\\AppData\\Local\\Discord\\Update.exe")));
            let d = vec![text("Discord"), text("Update.exe")];
            assert(d@.map_values(|s: String| s@) =~= seq!["Discord"@, "Update.exe"@]);
            push_probe(&mut plan, DetectProbe::LocalAppData { parts: d, suffix: text(" --processStart Discord.exe") });
            let v = vec![text("Programs"), text("Microsoft VS Code"), text("Code.exe")];
            assert(v@.map_values(|s: String| s@) =~= seq!["Programs"@, "Microsoft VS Code"@, "Code.exe"@]);
            push_probe(&mut plan, DetectProbe::LocalAppData { parts: v, suffix: text("") });
            let ghost wp = windows_paths(app_id@, app_name@).map_values(|p: Seq<char>| ProbeView::FileExists(p));
            assert(wp.len() == 10);
            assert(probes_view(plan@).subrange(0, p1.len() as int) =~= p1);
            assert forall|k: int| 0 <= k < 10 implies probes_view(plan@)[p1.len() + k] == #[trigger] wp[k] by {
            }
            assert(probes_view(plan@) =~= detection_plan_spec(host, app_id@, app_name@));
        },
    }
    plan
}


/// The command that starts the app when `probe` succeeds; `resolved` is the
/// full path of a file under the local application data directory.
pub open spec fn hit_command_spec(probe: ProbeView, resolved: Seq<char>) -> Seq<char> {
    match probe {
        ProbeView::InPath(c) => c,
        ProbeView::Flatpak(id) => "flatpak run "@ + id,
        ProbeView::Snap(_, c) => c,
        ProbeView::FileExists(p) => "\""@ + p + "\""@,
        ProbeView::LocalAppData(_, suffix) => "\""@ + resolved + "\""@ + suffix,
    }
}

/// The command that starts the app when `probe` succeeds.
pub fn hit_command(probe: &DetectProbe, resolved: &str) -> (r: String)
    ensures
        r@ == hit_command_spec(probe@, resolved@),
{
    match probe {
        DetectProbe::InPath(c) => c.clone(),
        DetectProbe::Flatpak(id) => {
            let mut r = text("flatpak run ");
            r.append(id.as_str());
            r
        },
        DetectProbe::Snap { binary: _, command } => command.clone(),
        DetectProbe::FileExists(p) => {
            let mut r = text("\"");
            r.append(p.as_str());
            r.append("\"");
            r
        },
        DetectProbe::LocalAppData { parts: _, suffix } => {
            let mut r = text("\"");
            r.append(resolved);
            r.append("\"");
            r.append(suffix.as_str());
            r
        },
    }
}

/// Mathematical form of the outcomes of the probes that were run: for each,
/// `None` when it failed, else the resolved path it found (empty unless the
/// probe looks under the local application data directory).
pub open spec fn outcomes_view(v: Seq<Option<String>>) -> Seq<Option<Seq<char>>> {
    v.map_values(|o: Option<String>| match o { Some(s) => Some(s@), None => None })
}

/// The command that starts the app: that of the first probe that succeeded,
/// or the app id itself when none did.
pub open spec fn detected_spec(app_id: Seq<char>, probes: Seq<ProbeView>, outcomes: Seq<Option<Seq<char>>>) -> Seq<char>
    decreases outcomes.len(),
{
    if outcomes.len() == 0 || probes.len() == 0 {
        app_id
    } else {
        match outcomes[0] {
            Some(resolved) => hit_command_spec(probes[0], resolved),
            None => detected_spec(app_id, probes.drop_first(), outcomes.drop_first()),
        }
    }
}

/// The command that starts the app, from the outcomes of the probes of
/// `probes` run in order up to the first that succeeded (or all of them).
pub fn detected_command(app_id: &str, probes: &Vec<DetectProbe>, outcomes: &Vec<Option<String>>) -> (r: String)
    requires
        outcomes.len() <= probes.len(),
    ensures
        r@ == detected_spec(app_id@, probes_view(probes@), outcomes_view(outcomes@)),
{
    let ghost pv = probes_view(probes@);
    let ghost ov = outcomes_view(outcomes@);
    assert(pv.subrange(0, pv.len() as int) =~= pv);
    assert(ov.subrange(0, ov.len() as int) =~= ov);
    let mut i: usize = 0;
    while i < outcomes.len()
        invariant
            i <= outcomes.len() <= probes.len(),
            pv == probes_view(probes@),
            ov == outcomes_view(outcomes@),
            forall|k: int| 0 <= k < i ==> ov[k] is None,
            detected_spec(app_id@, pv, ov)
                == detected_spec(app_id@, pv.subrange(i as int, pv.len() as int), ov.subrange(i as int, ov.len() as int)),
        decreases outcomes.len() - i,
    {
        let ghost ps = pv.subrange(i as int, pv.len() as int);
        let ghost os = ov.subrange(i as int, ov.len() as int);
        assert(ps[0] == probes@[i as int]@);
        assert(os[0] == ov[i as int]);
        match &outcomes[i] {
            Some(resolved) => {
                return hit_command(&probes[i], resolved.as_str());
            },
            None => {
                assert(ps.drop_first() =~= pv.subrange(i + 1, pv.len() as int));
                assert(os.drop_first() =~= ov.subrange(i + 1, ov.len() as int));
            },
        }
        i = i + 1;
    }
    proof {
        let os = ov.subrange(i as int, ov.len() as int);
        assert(os.len() == 0);
    }
    text(app_id)
}

/// When the probes before `k` failed and probe `k` succeeded, the app is
/// started by the command of probe `k`, whatever the later probes would say.
pub proof fn lemma_first_success_wins(app_id: Seq<char>, probes: Seq<ProbeView>, outcomes: Seq<Option<Seq<char>>>, k: int)
    requires
        0 <= k < outcomes.len() <= probes.len(),
        outcomes[k] is Some,
        forall|j: int| 0 <= j < k ==> outcomes[j] is None,
    ensures
        detected_spec(app_id, probes, outcomes) == hit_command_spec(probes[k], outcomes[k].unwrap()),
    decreases k,
{
    if k > 0 {
        let p2 = probes.drop_first();
        let o2 = outcomes.drop_first();
        assert(outcomes[0] is None);
        assert forall|j: int| 0 <= j < k - 1 implies o2[j] is None by {
            assert(o2[j] == outcomes[j + 1]);
        }
        lemma_first_success_wins(app_id, p2, o2, k - 1);
    }
}

/// When every probe failed, the app is started by its id.
pub proof fn lemma_no_success_runs_id(app_id: Seq<char>, probes: Seq<ProbeView>, outcomes: Seq<Option<Seq<char>>>)
    requires
        outcomes.len() <= probes.len(),
        forall|j: int| 0 <= j < outcomes.len() ==> outcomes[j] is None,
    ensures
        detected_spec(app_id, probes, outcomes) == app_id,
    decreases outcomes.len(),
{
    if outcomes.len() > 0 {
        let o2 = outcomes.drop_first();
        assert(outcomes[0] is None);
        assert forall|j: int| 0 <= j < o2.len() implies o2[j] is None by {
            assert(o2[j] == outcomes[j + 1]);
        }
        lemma_no_success_runs_id(app_id, probes.drop_first(), o2);
    }
}

/// The recorded executable path of an installed app, when one is recorded and
/// not empty (it is used if the file still exists).
pub fn recorded_exec_path(recorded: Option<String>) -> (r: Option<String>)
    ensures
        match recorded {
            Some(p) => if p@.len() > 0 { r == Some(p) } else { r is None },
            None => r is None,
        },
{
    match recorded {
        Some(p) => if p.unicode_len() > 0 { Some(p) } else { None },
        None => None,
    }
}

/// The command that starts `command_line` detached from the store: through
/// `sh -c "nohup <cmd> >/dev/null 2>&1 &"` on Linux and `cmd /c start "" <cmd>`
/// on Windows.
pub open spec fn launch_command_spec(host: Host, command_line: Seq<char>) -> (Seq<char>, Seq<Seq<char>>) {
    match host {
        Host::Linux => ("sh"@, seq!["-c"@, "nohup "@ + command_line + " >/dev/null 2>&1 &"@]),
        Host::Windows => ("cmd"@, seq!["/c"@, "start"@, ""@, command_line]),
    }
}

/// Builds the command that starts an app detached from the store.
pub fn launch_command(host: Host, command_line: &str) -> (r: CommandSpec)
    ensures
        command_view(r) == launch_command_spec(host, command_line@),
{
    match host {
        Host::Linux => {
            let mut script = text("nohup ");
            script.append(command_line);
            script.append(" >/dev/null 2>&1 &");
            let r = CommandSpec { program: text("sh"), args: vec![text("-c"), script] };
            assert(command_view(r).1 =~= launch_command_spec(host, command_line@).1);
            r
        },
        Host::Windows => {
            let r = CommandSpec { program: text("cmd"), args: vec![text("/c"), text("start"), text(""), text(command_line)] };
            assert(command_view(r).1 =~= launch_command_spec(host, command_line@).1);
            r
        },
    }
}


/// The Flatpak id with which the catalog installs an app on Linux.
pub open spec fn catalog_flatpak(a: AppView) -> Option<Seq<char>> {
    match a.platform.linux {
        Some(l) => match l.flatpak {
            Some(p) => p.id,
            None => None,
        },
        None => None,
    }
}

/// The Linux detection plan of an app probes for its Flatpak under the id
/// the catalog installs it with, and under no other; an app the catalog
/// installs without a Flatpak gets no Flatpak probe.
pub open spec fn flatpak_probe_agrees(a: AppView) -> bool {
    let plan = detection_plan_spec(Host::Linux, a.id, a.name);
    match catalog_flatpak(a) {
        Some(f) => {
            &&& plan.contains(ProbeView::Flatpak(f))
            &&& forall|j: int| 0 <= j < plan.len() && (#[trigger] plan[j]) is Flatpak ==> plan[j] == ProbeView::Flatpak(f)
        },
        None => forall|j: int| 0 <= j < plan.len() ==> !((#[trigger] plan[j]) is Flatpak),
    }
}

proof fn lemma_app_id_keys()
    ensures
        "vscode"@.len() == 6, "vscode"@[0] == 'v',
        "brave"@.len() == 5, "brave"@[0] == 'b',
        "gimp"@.len() == 4, "gimp"@[0] == 'g',
        "obs"@.len() == 3, "obs"@[0] == 'o',
        "blender"@.len() == 7, "blender"@[0] == 'b',
        "discord"@.len() == 7, "discord"@[0] == 'd',
        "vlc"@.len() == 3, "vlc"@[0] == 'v',
        "spotify"@.len() == 7, "spotify"@[0] == 's',
        "docker"@.len() == 6, "docker"@[0] == 'd',
        "python"@.len() == 6, "python"@[0] == 'p',
{
    reveal_strlit("vscode");
    reveal_strlit("brave");
    reveal_strlit("gimp");
    reveal_strlit("obs");
    reveal_strlit("blender");
    reveal_strlit("discord");
    reveal_strlit("vlc");
    reveal_strlit("spotify");
    reveal_strlit("docker");
    reveal_strlit("python");
}

proof fn lemma_entry_flatpak(i: int)
    requires
        0 <= i < bundled_entries().len(),
    ensures
        flatpak_probe_agrees(bundled_entries()[i]),
{
    lemma_app_id_keys();
    let a = bundled_entries()[i];
    let pc = path_commands(Host::Linux, a.id).map_values(|c: Seq<char>| ProbeView::InPath(c));
    let fl = flatpak_ids(a.id).map_values(|f: Seq<char>| ProbeView::Flatpak(f));
    let sn = snap_probes(a.id);
    let plan = detection_plan_spec(Host::Linux, a.id, a.name);
    assert(plan == pc + fl + sn);
    assert forall|j: int| 0 <= j < sn.len() implies !(#[trigger] sn[j] is Flatpak) by {}
    match catalog_flatpak(a) {
        Some(f) => {
            assert(flatpak_ids(a.id) == seq![f]);
            assert(fl =~= seq![ProbeView::Flatpak(f)]);
            assert(plan[pc.len() as int] == ProbeView::Flatpak(f));
            assert forall|j: int| 0 <= j < plan.len() && (#[trigger] plan[j]) is Flatpak implies plan[j] == ProbeView::Flatpak(f) by {
                if j < pc.len() {
                    assert(plan[j] == pc[j]);
                } else if j >= pc.len() + 1 {
                    assert(plan[j] == sn[j - pc.len() - 1]);
                }
            }
        },
        None => {
            assert(flatpak_ids(a.id) =~= Seq::<Seq<char>>::empty());
            assert(fl =~= Seq::<ProbeView>::empty());
            assert forall|j: int| 0 <= j < plan.len() implies !((#[trigger] plan[j]) is Flatpak) by {
                if j < pc.len() {
                    assert(plan[j] == pc[j]);
                } else {
                    assert(plan[j] == sn[j - pc.len()]);
                }
            }
        },
    }
}

/// For every app of the bundled catalog, the launcher looks for its Flatpak
/// under exactly the id the catalog installs it with.
pub proof fn lemma_flatpak_probe_matches_catalog()
    ensures
        forall|i: int| 0 <= i < bundled_entries().len() ==> flatpak_probe_agrees(#[trigger] bundled_entries()[i]),
{
    assert forall|i: int| 0 <= i < bundled_entries().len() implies flatpak_probe_agrees(#[trigger] bundled_entries()[i]) by {
        lemma_entry_flatpak(i);
    }
}

} // verus!
