//! Start menu shortcuts (Windows) and desktop entries (Linux) for installed apps.

use vstd::prelude::*;
use crate::catalog::text;
use crate::text::{chars_of, push_char};

verus! {

/// Creating a Windows shortcut on a host that is not Windows: refused.
pub fn create_windows_shortcut(_name: &str, _exec_path: &str, _work_dir: &str) -> (r: Result<String, String>)
    ensures
        r is Err && r->Err_0@ == "Windows shortcut creation is only supported on Windows hosts"@,
{
    Err(text("Windows shortcut creation is only supported on Windows hosts"))
}

/// Creating a Linux desktop entry on a host that is not Linux: refused.
pub fn create_linux_shortcut(_id: &str, _name: &str, _exec_path: &str, _icon_path: &str, _categories: &str) -> (r: Result<String, String>)
    ensures
        r is Err && r->Err_0@ == "Linux shortcut creation is only supported on Linux hosts"@,
{
    Err(text("Linux shortcut creation is only supported on Linux hosts"))
}

/// Removing a Windows shortcut on a host that is not Windows: nothing to do.
pub fn remove_windows_shortcut(_name: &str) -> (r: Result<(), String>)
    ensures
        r is Ok,
{
    Ok(())
}

/// Removing a Linux desktop entry on a host that is not Linux: nothing to do.
pub fn remove_linux_shortcut(_id: &str) -> (r: Result<(), String>)
    ensures
        r is Ok,
{
    Ok(())
}

/// The contents of the `.desktop` entry that launches an installed app.
pub open spec fn desktop_entry_spec(name: Seq<char>, exec_path: Seq<char>, icon: Seq<char>, categories: Seq<char>) -> Seq<char> {
    "[Desktop Entry]\nType=Application\nVersion=1.0\nName="@ + name + "\nExec="@ + exec_path
        + "\nIcon="@ + icon + "\nCategories="@ + categories + ";\nTerminal=false\nStartupNotify=true\n"@
}

/// Builds the contents of the `.desktop` entry that launches an installed app.
pub fn desktop_entry(name: &str, exec_path: &str, icon: &str, categories: &str) -> (r: String)
    ensures
        r@ == desktop_entry_spec(name@, exec_path@, icon@, categories@),
{
    let mut r = text("[Desktop Entry]\nType=Application\nVersion=1.0\nName=");
    r.append(name);
    r.append("\nExec=");
    r.append(exec_path);
    r.append("\nIcon=");
    r.append(icon);
    r.append("\nCategories=");
    r.append(categories);
    r.append(";\nTerminal=false\nStartupNotify=true\n");
    r
}

/// File name of the desktop entry of an app: `<id>.desktop`.
pub fn desktop_file_name(id: &str) -> (r: String)
    ensures
        r@ == id@ + ".desktop"@,
{
    let mut r = text(id);
    r.append(".desktop");
    r
}

/// File name of the Start menu shortcut of an app: `<name>.lnk`.
pub fn shortcut_file_name(name: &str) -> (r: String)
    ensures
        r@ == name@ + ".lnk"@,
{
    let mut r = text(name);
    r.append(".lnk");
    r
}

/// `s` with every single quote doubled, as PowerShell single-quoted strings
/// require.
pub open spec fn ps_escape(s: Seq<char>) -> Seq<char>
    decreases s.len(),
{
    if s.len() == 0 {
        Seq::empty()
    } else if s.last() == '\'' {
        ps_escape(s.drop_last()) + seq!['\'', '\'']
    } else {
        ps_escape(s.drop_last()).push(s.last())
    }
}

fn push_escaped(out: &mut String, s: &str)
    ensures
        final(out)@ == old(out)@ + ps_escape(s@),
{
    let cs = chars_of(s);
    let ghost start = out@;
    let mut i: usize = 0;
    while i < cs.len()
        invariant
            cs@ == s@,
            i <= cs.len(),
            out@ == start + ps_escape(s@.subrange(0, i as int)),
        decreases cs.len() - i,
    {
        let c = cs[i];
        proof {
            let nxt = s@.subrange(0, i + 1);
            assert(nxt.drop_last() =~= s@.subrange(0, i as int));
            assert(nxt.last() == c);
        }
        if c == '\'' {
            push_char(out, '\'');
            push_char(out, '\'');
        } else {
            push_char(out, c);
        }
        i = i + 1;
        assert(out@ =~= start + ps_escape(s@.subrange(0, i as int)));
    }
    assert(s@.subrange(0, cs.len() as int) =~= s@);
}

/// The PowerShell script that writes a Start menu shortcut at `shortcut_path`
/// targeting `exec_path` and starting in `work_dir`.
pub open spec fn shortcut_script_spec(shortcut_path: Seq<char>, exec_path: Seq<char>, work_dir: Seq<char>) -> Seq<char> {
    "$WshShell = New-Object -ComObject WScript.Shell; $Shortcut = $WshShell.CreateShortcut('"@
        + ps_escape(shortcut_path) + "'); $Shortcut.TargetPath = '"@ + ps_escape(exec_path)
        + "'; $Shortcut.WorkingDirectory = '"@ + ps_escape(work_dir) + "'; $Shortcut.Save()"@
}

/// Builds the PowerShell script that writes a Start menu shortcut.
pub fn shortcut_script(shortcut_path: &str, exec_path: &str, work_dir: &str) -> (r: String)
    ensures
        r@ == shortcut_script_spec(shortcut_path@, exec_path@, work_dir@),
{
    let mut r = text("$WshShell = New-Object -ComObject WScript.Shell; $Shortcut = $WshShell.CreateShortcut('");
    push_escaped(&mut r, shortcut_path);
    r.append("'); $Shortcut.TargetPath = '");
    push_escaped(&mut r, exec_path);
    r.append("'; $Shortcut.WorkingDirectory = '");
    push_escaped(&mut r, work_dir);
    r.append("'; $Shortcut.Save()");
    r
}


/// The message logged at the end of a direct installation, reporting whether
/// its shortcut was created (the installation succeeds either way).
pub open spec fn shortcut_outcome_spec(outcome: Result<Seq<char>, Seq<char>>, created_prefix: Seq<char>) -> Seq<char> {
    match outcome {
        Ok(path) => created_prefix + path,
        Err(e) => "Installation completed. Shortcut creation failed: "@ + e,
    }
}

/// The message logged at the end of a direct installation; `created_prefix`
/// introduces the path of a created shortcut.
pub fn shortcut_outcome_message(outcome: &Result<String, String>, created_prefix: &str) -> (r: String)
    ensures
        r@ == shortcut_outcome_spec(match outcome { Ok(p) => Ok(p@), Err(e) => Err(e@) }, created_prefix@),
{
    match outcome {
        Ok(path) => {
            let mut r = text(created_prefix);
            r.append(path.as_str());
            r
        },
        Err(e) => {
            let mut r = text("Installation completed. Shortcut creation failed: ");
            r.append(e.as_str());
            r
        },
    }
}

} // verus!
