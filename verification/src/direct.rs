//! Command lines for running a downloaded Windows installer silently, and for
//! retrying it with elevation.

use vstd::prelude::*;
use crate::catalog::text;
use crate::text::{texts, chars_of, string_of, eq_ignore_ascii_case, eq_ignore_ascii_case_spec};
use crate::commands::{CommandSpec, command_view};

verus! {

/// Whether `c` is white space in the Unicode sense (`char::is_whitespace`):
/// the characters with the `White_Space` property.
pub open spec fn is_white(c: char) -> bool {
    let v = c as u32;
    (9 <= v && v <= 13) || v == 32 || v == 0x85 || v == 0xA0 || v == 0x1680
        || (0x2000 <= v && v <= 0x200A) || v == 0x2028 || v == 0x2029 || v == 0x202F
        || v == 0x205F || v == 0x3000
}

fn white(c: char) -> (r: bool)
    ensures
        r == is_white(c),
{
    let v = c as u32;
    (9 <= v && v <= 13) || v == 32 || v == 0x85 || v == 0xA0 || v == 0x1680
        || (0x2000 <= v && v <= 0x200A) || v == 0x2028 || v == 0x2029 || v == 0x202F
        || v == 0x205F || v == 0x3000
}

/// The words of `s`: its maximal runs of non-white characters, in order
/// (`str::split_whitespace`).
pub open spec fn words(s: Seq<char>) -> Seq<Seq<char>>
    decreases s.len(),
{
    if s.len() == 0 {
        Seq::empty()
    } else {
        let t = s.drop_last();
        let c = s.last();
        if is_white(c) {
            words(t)
        } else if t.len() > 0 && !is_white(t.last()) {
            words(t).drop_last().push(words(t).last().push(c))
        } else {
            words(t).push(seq![c])
        }
    }
}

/// Splits `s` at white space into its words.
pub fn split_words(s: &str) -> (r: Vec<String>)
    ensures
        r@.map_values(|w: String| w@) == words(s@),
{
    let cs = chars_of(s);
    let mut done: Vec<String> = Vec::new();
    let mut cur: Vec<char> = Vec::new();
    let mut i: usize = 0;
    while i < cs.len()
        invariant
            cs@ == s@,
            i <= cs.len(),
            cur@.len() > 0 <==> (i > 0 && !is_white(s@[i - 1])),
            words_state(done@, cur@) == words(s@.subrange(0, i as int)),
        decreases cs.len() - i,
    {
        let c = cs[i];
        let ghost pre = s@.subrange(0, i as int);
        let ghost next = s@.subrange(0, i + 1);
        proof {
            assert(next.drop_last() =~= pre);
            assert(next.last() == c);
            if i > 0 {
                assert(pre.last() == s@[i - 1]);
            }
        }
        let ghost d0 = done@;
        let ghost c0 = cur@;
        if white(c) {
            if cur.len() > 0 {
                let w = string_of(&cur);
                let ghost wg = w;
                done.push(w);
                cur = Vec::new();
                proof { lemma_state_flush(d0, c0, wg); }
            }
        } else {
            cur.push(c);
            proof { lemma_state_extend(d0, c0, c); }
        }
        i = i + 1;
    }
    if cur.len() > 0 {
        let ghost d0 = done@;
        let ghost c0 = cur@;
        let w = string_of(&cur);
        let ghost wg = w;
        done.push(w);
        proof { lemma_state_flush(d0, c0, wg); }
    }
    assert(s@.subrange(0, cs.len() as int) =~= s@);
    done
}

/// The words found so far: the finished ones, then the current one if any.
pub open spec fn words_state(done: Seq<String>, cur: Seq<char>) -> Seq<Seq<char>> {
    if cur.len() > 0 {
        done.map_values(|w: String| w@).push(cur)
    } else {
        done.map_values(|w: String| w@)
    }
}

proof fn lemma_state_flush(d0: Seq<String>, c0: Seq<char>, w: String)
    requires
        w@ == c0,
        c0.len() > 0,
    ensures
        words_state(d0.push(w), Seq::empty()) == words_state(d0, c0),
{
    assert(words_state(d0.push(w), Seq::empty()) =~= words_state(d0, c0));
}

proof fn lemma_state_extend(d0: Seq<String>, c0: Seq<char>, c: char)
    ensures
        c0.len() > 0 ==> words_state(d0, c0.push(c)) == words_state(d0, c0).drop_last().push(words_state(d0, c0).last().push(c)),
        c0.len() == 0 ==> words_state(d0, c0.push(c)) == words_state(d0, c0).push(seq![c]),
{
    if c0.len() > 0 {
        assert(words_state(d0, c0).drop_last() =~= d0.map_values(|w: String| w@));
        assert(words_state(d0, c0.push(c)) =~= words_state(d0, c0).drop_last().push(words_state(d0, c0).last().push(c)));
    } else {
        assert(c0.push(c) =~= seq![c]);
        assert(words_state(d0, c0.push(c)) =~= words_state(d0, c0).push(seq![c]));
    }
}


/// `parts` joined with `sep` between consecutive parts.
pub open spec fn join(parts: Seq<Seq<char>>, sep: Seq<char>) -> Seq<char>
    decreases parts.len(),
{
    if parts.len() == 0 {
        Seq::empty()
    } else if parts.len() == 1 {
        parts[0]
    } else {
        join(parts.drop_last(), sep) + sep + parts.last()
    }
}

/// Joins `parts` with `sep` between consecutive parts.
pub fn join_strings(parts: &Vec<String>, sep: &str) -> (r: String)
    ensures
        r@ == join(parts@.map_values(|p: String| p@), sep@),
{
    let ghost pv = parts@.map_values(|p: String| p@);
    let mut r = String::new();
    let mut i: usize = 0;
    while i < parts.len()
        invariant
            i <= parts.len(),
            pv == parts@.map_values(|p: String| p@),
            r@ == join(pv.subrange(0, i as int), sep@),
        decreases parts.len() - i,
    {
        let ghost before = r@;
        if i > 0 {
            r.append(sep);
        }
        r.append(parts[i].as_str());
        proof {
            let next = pv.subrange(0, i + 1);
            assert(next.drop_last() =~= pv.subrange(0, i as int));
            assert(next.last() == parts@[i as int]@);
            if i == 0 {
                assert(before =~= Seq::<char>::empty());
                assert(r@ =~= join(next, sep@));
            } else {
                assert(r@ =~= join(next, sep@));
            }
        }
        i = i + 1;
    }
    assert(pv.subrange(0, parts.len() as int) =~= pv);
    r
}

/// The command that runs a downloaded Windows installer silently: MSI
/// packages through `msiexec.exe /i "<path>" /qn /norestart`, other installers
/// directly with the words of their silent arguments.
pub open spec fn installer_command_spec(path: Seq<char>, file_type: Seq<char>, silent_args: Seq<char>) -> (Seq<char>, Seq<Seq<char>>) {
    if eq_ignore_ascii_case_spec(file_type, "msi"@) {
        ("msiexec.exe"@, seq!["/i"@, "\""@ + path + "\""@, "/qn"@, "/norestart"@])
    } else {
        (path, words(silent_args))
    }
}

/// Builds the command that runs a downloaded Windows installer silently.
pub fn installer_command(path: &str, file_type: &str, silent_args: &str) -> (r: CommandSpec)
    ensures
        command_view(r) == installer_command_spec(path@, file_type@, silent_args@),
{
    if eq_ignore_ascii_case(file_type, "msi") {
        let mut quoted = text("\"");
        quoted.append(path);
        quoted.append("\"");
        let args = vec![text("/i"), quoted, text("/qn"), text("/norestart")];
        let r = CommandSpec { program: text("msiexec.exe"), args };
        assert(command_view(r).1 =~= installer_command_spec(path@, file_type@, silent_args@).1);
        r
    } else {
        CommandSpec { program: text(path), args: split_words(silent_args) }
    }
}

/// The message logged before the installer runs: `Executing command: <program> <args>`.
pub fn executing_message(c: &CommandSpec) -> (r: String)
    ensures
        r@ == "Executing command: "@ + command_view(*c).0 + " "@ + join(command_view(*c).1, " "@),
{
    let mut r = text("Executing command: ");
    r.append(c.program.as_str());
    r.append(" ");
    let a = join_strings(&c.args, " ");
    r.append(a.as_str());
    r
}

/// `'a'` for each argument.
pub open spec fn single_quoted(args: Seq<Seq<char>>) -> Seq<Seq<char>> {
    args.map_values(|a: Seq<char>| "'"@ + a + "'"@)
}

/// The PowerShell command that reruns the installer with elevation:
/// `Start-Process -FilePath '<program>' -ArgumentList @('<a1>','<a2>',..) -Verb RunAs -Wait -PassThru`.
pub open spec fn elevation_script_spec(program: Seq<char>, args: Seq<Seq<char>>) -> Seq<char> {
    "Start-Process -FilePath '"@ + program + "' -ArgumentList @("@ + join(single_quoted(args), ","@)
        + ") -Verb RunAs -Wait -PassThru"@
}

/// The command that reruns an installer with an elevation prompt, through PowerShell.
pub fn elevation_command(c: &CommandSpec) -> (r: CommandSpec)
    ensures
        command_view(r) == ("powershell"@, seq!["-NoProfile"@, "-Command"@,
            elevation_script_spec(command_view(*c).0, command_view(*c).1)]),
{
    let ghost av = c.args@.map_values(|a: String| a@);
    let mut quoted: Vec<String> = Vec::new();
    let mut i: usize = 0;
    while i < c.args.len()
        invariant
            i <= c.args.len(),
            av == c.args@.map_values(|a: String| a@),
            quoted@.map_values(|a: String| a@) == single_quoted(av.subrange(0, i as int)),
        decreases c.args.len() - i,
    {
        let mut q = text("'");
        q.append(c.args[i].as_str());
        q.append("'");
        let ghost before = quoted@;
        quoted.push(q);
        proof {
            let pre = av.subrange(0, i as int);
            let nxt = av.subrange(0, i + 1);
            assert(q@ == "'"@ + av[i as int] + "'"@);
            assert(texts(before) == single_quoted(pre));
            assert forall|k: int| 0 <= k < i + 1 implies
                #[trigger] texts(quoted@)[k] == single_quoted(nxt)[k] by {
                if k < i {
                    assert(texts(before)[k] == single_quoted(pre)[k]);
                    assert(quoted@[k] == before[k]);
                    assert(nxt[k] == pre[k]);
                }
            }
            assert(texts(quoted@) =~= single_quoted(nxt));
        }
        i = i + 1;
    }
    assert(av.subrange(0, c.args.len() as int) =~= av);
    let mut script = text("Start-Process -FilePath '");
    script.append(c.program.as_str());
    script.append("' -ArgumentList @(");
    let joined = join_strings(&quoted, ",");
    script.append(joined.as_str());
    script.append(") -Verb RunAs -Wait -PassThru");
    let r = CommandSpec { program: text("powershell"), args: vec![text("-NoProfile"), text("-Command"), script] };
    assert(command_view(r).1 =~= seq!["-NoProfile"@, "-Command"@, elevation_script_spec(command_view(*c).0, command_view(*c).1)]);
    r
}

} // verus!
