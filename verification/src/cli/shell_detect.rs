//! Recognising the user's shell for completion scripts.

use vstd::prelude::*;
use crate::text::{str_eq, string_of, to_lowercase, lowercase_of, trim, trimmed_of, chars_of};

verus! {

/// The shells for which completion scripts are generated.
#[derive(Debug, Clone, Copy, PartialEq, Eq, Structural)]
pub enum CompletionShell {
    Bash,
    Elvish,
    Fish,
    PowerShell,
    Zsh,
}

/// The shell found running.
#[derive(Debug, Clone)]
pub enum DetectedShell {
    /// A shell that completion scripts are made for
    Supported(CompletionShell),
    /// Windows Command Prompt (CMD)
    WindowsCmd,
    /// Unknown or unsupported shell, by its program name
    Unknown(String),
}

/// The display name of a detected shell.
pub open spec fn shell_display(s: DetectedShell) -> Seq<char> {
    match s {
        DetectedShell::Supported(CompletionShell::Bash) => "Bash"@,
        DetectedShell::Supported(CompletionShell::Elvish) => "Elvish"@,
        DetectedShell::Supported(CompletionShell::Fish) => "Fish"@,
        DetectedShell::Supported(CompletionShell::PowerShell) => "PowerShell"@,
        DetectedShell::Supported(CompletionShell::Zsh) => "Zsh"@,
        DetectedShell::WindowsCmd => "Windows Command Prompt (CMD)"@,
        DetectedShell::Unknown(name) => name@,
    }
}

impl DetectedShell {
    /// The shell's display name; an unknown shell shows its program name.
    pub fn display_name(&self) -> (res: &str)
        ensures
            res@ == shell_display(*self),
    {
        match self {
            DetectedShell::Supported(CompletionShell::Bash) => "Bash",
            DetectedShell::Supported(CompletionShell::Elvish) => "Elvish",
            DetectedShell::Supported(CompletionShell::Fish) => "Fish",
            DetectedShell::Supported(CompletionShell::PowerShell) => "PowerShell",
            DetectedShell::Supported(CompletionShell::Zsh) => "Zsh",
            DetectedShell::WindowsCmd => "Windows Command Prompt (CMD)",
            DetectedShell::Unknown(name) => name.as_str(),
        }
    }
}

/// What `Path::file_name` gives for a path: its last component, or nothing
/// for a path that ends in `..` or has no normal component.
pub uninterp spec fn path_file_name(path: Seq<char>) -> Option<Seq<char>>;

/// The last component of a path (`std::path::Path::file_name`, then
/// `to_str`, which cannot fail on text). The result is named.
#[verifier::external_body]
fn file_name_of(path: &str) -> (res: Option<String>)
    ensures
        match res {
            Some(n) => path_file_name(path@) == Some(n@),
            None => path_file_name(path@) is None,
        },
{
    std::path::Path::new(path).file_name().and_then(|n| n.to_str()).map(|n| n.to_string())
}

/// A name with every trailing `.exe` removed.
pub open spec fn strip_exe(s: Seq<char>) -> Seq<char>
    decreases s.len(),
{
    if s.len() >= 4 && s.skip(s.len() - 4) == ".exe"@ {
        strip_exe(s.take(s.len() - 4))
    } else {
        s
    }
}

/// The shell a program name stands for.
pub open spec fn shell_named(name: Seq<char>) -> DetectedShell {
    if name == "bash"@ || name == "sh"@ {
        DetectedShell::Supported(CompletionShell::Bash)
    } else if name == "zsh"@ {
        DetectedShell::Supported(CompletionShell::Zsh)
    } else if name == "fish"@ {
        DetectedShell::Supported(CompletionShell::Fish)
    } else if name == "pwsh"@ || name == "powershell"@ {
        DetectedShell::Supported(CompletionShell::PowerShell)
    } else if name == "elvish"@ {
        DetectedShell::Supported(CompletionShell::Elvish)
    } else if name == "cmd"@ {
        DetectedShell::WindowsCmd
    } else {
        DetectedShell::Unknown(arbitrary())
    }
}

/// `d` is the shell that a program name stands for.
pub open spec fn names_shell(name: Seq<char>, d: DetectedShell) -> bool {
    match shell_named(name) {
        DetectedShell::Unknown(_) => d matches DetectedShell::Unknown(n) && n@ == name,
        other => d == other,
    }
}

fn strip_exe_suffixes(name: &str) -> (res: String)
    ensures
        res@ == strip_exe(name@),
{
    let cs = chars_of(name);
    let mut end = cs.len();
    proof { reveal_strlit(".exe"); }
    assert(name@.take(end as int) =~= name@);
    while end >= 4 && cs[end - 4] == '.' && cs[end - 3] == 'e' && cs[end - 2] == 'x' && cs[end - 1] == 'e'
        invariant
            cs@ == name@,
            end <= cs@.len(),
            strip_exe(name@) == strip_exe(name@.take(end as int)),
        decreases end,
    {
        let ghost t = name@.take(end as int);
        proof { reveal_strlit(".exe"); }
        assert(t.skip(t.len() - 4)[0] == cs@[end - 4]);
        assert(t.skip(t.len() - 4)[1] == cs@[end - 3]);
        assert(t.skip(t.len() - 4)[2] == cs@[end - 2]);
        assert(t.skip(t.len() - 4)[3] == cs@[end - 1]);
        assert(t.skip(t.len() - 4) =~= ".exe"@);
        assert(t.take(t.len() - 4) =~= name@.take(end - 4));
        end = end - 4;
    }
    let ghost t = name@.take(end as int);
    proof { reveal_strlit(".exe"); }
    assert(end >= 4 ==> !(t.skip(t.len() - 4) =~= ".exe"@)) by {
        if end >= 4 && t.skip(t.len() - 4) =~= ".exe"@ {
            assert(t.skip(t.len() - 4)[0] == cs@[end - 4]);
            assert(t.skip(t.len() - 4)[1] == cs@[end - 3]);
            assert(t.skip(t.len() - 4)[2] == cs@[end - 2]);
            assert(t.skip(t.len() - 4)[3] == cs@[end - 1]);
        }
    }
    let mut out = String::new();
    let mut i: usize = 0;
    while i < end
        invariant
            cs@ == name@,
            i <= end <= cs@.len(),
            out@ == name@.take(i as int),
        decreases end - i,
    {
        crate::text::push_char(&mut out, cs[i]);
        assert(name@.take(i + 1) =~= name@.take(i as int).push(cs@[i as int]));
        i = i + 1;
    }
    out
}

/// The shell a program path names: its file name without `.exe` endings;
/// nothing when the path has no file name.
pub fn detect_from_path(path: &str) -> (res: Option<DetectedShell>)
    ensures
        match path_file_name(path@) {
            Some(f) => res matches Some(d) && names_shell(strip_exe(f), d),
            None => res is None,
        },
{
    let file = match file_name_of(path) {
        Some(f) => f,
        None => { return None; }
    };
    let name = strip_exe_suffixes(file.as_str());
    let n = name.as_str();
    if str_eq(n, "bash") || str_eq(n, "sh") {
        Some(DetectedShell::Supported(CompletionShell::Bash))
    } else if str_eq(n, "zsh") {
        Some(DetectedShell::Supported(CompletionShell::Zsh))
    } else if str_eq(n, "fish") {
        Some(DetectedShell::Supported(CompletionShell::Fish))
    } else if str_eq(n, "pwsh") || str_eq(n, "powershell") {
        Some(DetectedShell::Supported(CompletionShell::PowerShell))
    } else if str_eq(n, "elvish") {
        Some(DetectedShell::Supported(CompletionShell::Elvish))
    } else if str_eq(n, "cmd") {
        Some(DetectedShell::WindowsCmd)
    } else {
        Some(DetectedShell::Unknown(name))
    }
}

/// The shell detected from which shell-specific environment variables are
/// set: Bash, then Zsh, then Fish, then PowerShell.
pub fn detect_from_environment(bash_version: bool, zsh_version_or_name: bool, fish_version: bool, ps_module_path: bool)
    -> (res: Option<DetectedShell>)
    ensures
        res == if bash_version {
            Some(DetectedShell::Supported(CompletionShell::Bash))
        } else if zsh_version_or_name {
            Some(DetectedShell::Supported(CompletionShell::Zsh))
        } else if fish_version {
            Some(DetectedShell::Supported(CompletionShell::Fish))
        } else if ps_module_path {
            Some(DetectedShell::Supported(CompletionShell::PowerShell))
        } else {
            None::<DetectedShell>
        },
{
    if bash_version {
        Some(DetectedShell::Supported(CompletionShell::Bash))
    } else if zsh_version_or_name {
        Some(DetectedShell::Supported(CompletionShell::Zsh))
    } else if fish_version {
        Some(DetectedShell::Supported(CompletionShell::Fish))
    } else if ps_module_path {
        Some(DetectedShell::Supported(CompletionShell::PowerShell))
    } else {
        None
    }
}

/// The shell to make completions for: a supported shell itself, PowerShell
/// for CMD, none for an unknown shell.
pub fn get_completion_shell(detected: &DetectedShell) -> (res: Option<CompletionShell>)
    ensures
        res == match *detected {
            DetectedShell::Supported(s) => Some(s),
            DetectedShell::WindowsCmd => Some(CompletionShell::PowerShell),
            DetectedShell::Unknown(_) => None::<CompletionShell>,
        },
{
    match detected {
        DetectedShell::Supported(s) => Some(*s),
        DetectedShell::WindowsCmd => Some(CompletionShell::PowerShell),
        DetectedShell::Unknown(_) => None,
    }
}

/// Whether an answer to a yes/no question is yes: `y` or `yes` once
/// trimmed and lowercased.
pub fn is_affirmative(input: &str) -> (res: bool)
    ensures
        res == (lowercase_of(trimmed_of(input@)) == "y"@ || lowercase_of(trimmed_of(input@)) == "yes"@),
{
    let t = trim(input);
    let l = to_lowercase(t.as_str());
    str_eq(l.as_str(), "y") || str_eq(l.as_str(), "yes")
}

} // verus!
