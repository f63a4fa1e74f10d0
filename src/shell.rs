//! The supported shells as one closed set, each rendering the statements the
//! `init` command prints: a `PATH` prefix, an environment assignment, a hook
//! run on directory change, and a rehash command.

use vstd::prelude::*;
use crate::config::MamimiConfig;
use crate::text::{join, join_path, str_eq};

verus! {

/// What `{:?}` prints for a string: the string in double quotes, escaped.
pub uninterp spec fn debug_quoted_of(s: Seq<char>) -> Seq<char>;

/// Relies on the `Debug` impl of `str` (through `format!`): its text
/// depends on the string alone.
#[verifier::external_body]
fn debug_quoted(s: &str) -> (r: String)
    ensures
        r@ == debug_quoted_of(s@),
{
    format!("{:?}", s)
}

/// `a + b + c` as a new string.
fn concat3(a: &str, b: &str, c: &str) -> (r: String)
    ensures
        r@ == a@ + b@ + c@,
{
    let mut r = String::from_str(a);
    r.append(b);
    r.append(c);
    r
}

pub const BASH_USE_ON_CD: &'static str = "__mamimicd() {\n    \\cd \"$@\" || return $?\n    mamimi --log-level quiet local\n}\nalias cd=__mamimicd\n";

pub const ZSH_USE_ON_CD: &'static str = "autoload -U add-zsh-hook\n_mamimi_autoload_hook () {\n    mamimi --log-level quiet local\n}\nadd-zsh-hook chpwd _mamimi_autoload_hook \\\n    && _mamimi_autoload_hook\n";

pub const FISH_USE_ON_CD: &'static str = "function _mamimi_autoload_hook --on-variable PWD --description 'Change Python version on directory change'\n    status --is-command-substitution; and return\n    mamimi --log-level quiet local\nend\n";

pub const POWERSHELL_USE_ON_CD: &'static str = "function Set-LocationWithMamimi {\n    param($path)\n    Set-Location $path\n    If (Test-Path .python-version) { & mamimi --log-level quiet local }\n}\nSet-Alias cd_with_mamimi Set-LocationWithMamimi -Force\nRemove-Item alias:\\cd\nNew-Alias cd Set-LocationWithMamimi\n";

#[derive(Clone, Copy, Debug, PartialEq, Eq, Structural)]
pub struct Bash;

#[derive(Clone, Copy, Debug, PartialEq, Eq, Structural)]
pub struct Zsh;

#[derive(Clone, Copy, Debug, PartialEq, Eq, Structural)]
pub struct Fish;

#[derive(Clone, Copy, Debug, PartialEq, Eq, Structural)]
pub struct PowerShell;

#[derive(Clone, Copy, Debug, PartialEq, Eq, Structural)]
pub struct WindowsCommand;

impl Bash {
    /// `export PATH="<path>":$PATH`
    pub fn path(&self, path: &str) -> (r: String)
        ensures
            r@ == "export PATH="@ + debug_quoted_of(path@) + ":$PATH"@,
    {
        let q = debug_quoted(path);
        concat3("export PATH=", q.as_str(), ":$PATH")
    }

    /// `export NAME="value"`
    pub fn set_env_var(&self, name: &str, value: &str) -> (r: String)
        ensures
            r@ == "export "@ + name@ + "="@ + debug_quoted_of(value@),
    {
        let q = debug_quoted(value);
        let mut r = concat3("export ", name, "=");
        r.append(q.as_str());
        r
    }

    pub fn rehash(&self) -> (r: Option<String>)
        ensures
            r matches Some(s) && s@ == "rehash"@,
    {
        Some(String::from_str("rehash"))
    }

    /// A `cd` wrapper that re-selects the version after each directory change.
    pub fn use_on_cd(&self) -> (r: String)
        ensures
            r@ == BASH_USE_ON_CD@,
    {
        String::from_str(BASH_USE_ON_CD)
    }
}

impl Zsh {
    /// `export PATH="<path>":$PATH`
    pub fn path(&self, path: &str) -> (r: String)
        ensures
            r@ == "export PATH="@ + debug_quoted_of(path@) + ":$PATH"@,
    {
        let q = debug_quoted(path);
        concat3("export PATH=", q.as_str(), ":$PATH")
    }

    /// `export NAME="value"`
    pub fn set_env_var(&self, name: &str, value: &str) -> (r: String)
        ensures
            r@ == "export "@ + name@ + "="@ + debug_quoted_of(value@),
    {
        let q = debug_quoted(value);
        let mut r = concat3("export ", name, "=");
        r.append(q.as_str());
        r
    }

    pub fn rehash(&self) -> (r: Option<String>)
        ensures
            r matches Some(s) && s@ == "rehash"@,
    {
        Some(String::from_str("rehash"))
    }

    /// A `chpwd` hook that re-selects the version after each directory change.
    pub fn use_on_cd(&self) -> (r: String)
        ensures
            r@ == ZSH_USE_ON_CD@,
    {
        String::from_str(ZSH_USE_ON_CD)
    }
}

impl Fish {
    /// `set -gx PATH "<path>" $PATH;`
    pub fn path(&self, path: &str) -> (r: String)
        ensures
            r@ == "set -gx PATH "@ + debug_quoted_of(path@) + " $PATH;"@,
    {
        let q = debug_quoted(path);
        concat3("set -gx PATH ", q.as_str(), " $PATH;")
    }

    /// `set -gx NAME "value";`
    pub fn set_env_var(&self, name: &str, value: &str) -> (r: String)
        ensures
            r@ == "set -gx "@ + name@ + " "@ + debug_quoted_of(value@) + ";"@,
    {
        let q = debug_quoted(value);
        let mut r = concat3("set -gx ", name, " ");
        r.append(q.as_str());
        r.append(";");
        r
    }

    pub fn rehash(&self) -> (r: Option<String>)
        ensures
            r matches Some(s) && s@ == "rehash"@,
    {
        Some(String::from_str("rehash"))
    }

    /// A `PWD` watcher that re-selects the version after each directory
    /// change.
    pub fn use_on_cd(&self) -> (r: String)
        ensures
            r@ == FISH_USE_ON_CD@,
    {
        String::from_str(FISH_USE_ON_CD)
    }
}

impl PowerShell {
    /// `$env:PATH = "<new PATH>"`, the new value being the installation's
    /// directory joined in front of the current `PATH`.
    pub fn path(&self, joined_path: &str) -> (r: String)
        ensures
            r@ == "$env:PATH = \""@ + joined_path@ + "\""@,
    {
        concat3("$env:PATH = \"", joined_path, "\"")
    }

    /// `$env:NAME = "value"`
    pub fn set_env_var(&self, name: &str, value: &str) -> (r: String)
        ensures
            r@ == "$env:"@ + name@ + " = \""@ + value@ + "\""@,
    {
        let mut r = concat3("$env:", name, " = \"");
        r.append(value);
        r.append("\"");
        r
    }

    /// A `cd` replacement that re-selects the version where a version file
    /// is present.
    pub fn use_on_cd(&self) -> (r: String)
        ensures
            r@ == POWERSHELL_USE_ON_CD@,
    {
        String::from_str(POWERSHELL_USE_ON_CD)
    }
}

impl WindowsCommand {
    /// `SET PATH=<new PATH>`
    pub fn path(&self, joined_path: &str) -> (r: String)
        ensures
            r@ == "SET PATH="@ + joined_path@,
    {
        let mut r = String::from_str("SET PATH=");
        r.append(joined_path);
        r
    }

    /// `SET NAME=value`
    pub fn set_env_var(&self, name: &str, value: &str) -> (r: String)
        ensures
            r@ == "SET "@ + name@ + "="@ + value@,
    {
        concat3("SET ", name, "=").concat(value)
    }

    /// Where the `cd` script is written: `<base>/cd.cmd`.
    pub fn cd_file_path(&self, config: &MamimiConfig) -> (r: String)
        ensures
            r@ == join(config.base_dir@, "cd.cmd"@),
    {
        join_path(config.base_dir.as_str(), "cd.cmd")
    }

    /// `doskey cd=<base>/cd.cmd $*`; the script itself is written by the
    /// surface.
    pub fn use_on_cd(&self, config: &MamimiConfig) -> (r: String)
        ensures
            r@ == "doskey cd="@ + join(config.base_dir@, "cd.cmd"@) + " $*"@,
    {
        let p = self.cd_file_path(config);
        concat3("doskey cd=", p.as_str(), " $*")
    }
}

/// The statement that puts `path` first on `PATH`.
pub open spec fn path_text(shell: Shell, path: Seq<char>, joined_path: Seq<char>) -> Seq<char> {
    match shell {
        Shell::Bash | Shell::Zsh => "export PATH="@ + debug_quoted_of(path) + ":$PATH"@,
        Shell::Fish => "set -gx PATH "@ + debug_quoted_of(path) + " $PATH;"@,
        Shell::PowerShell => "$env:PATH = \""@ + joined_path + "\""@,
        Shell::WindowsCommand => "SET PATH="@ + joined_path,
    }
}

/// The statement that sets the environment variable `name` to `value`.
pub open spec fn env_text(shell: Shell, name: Seq<char>, value: Seq<char>) -> Seq<char> {
    match shell {
        Shell::Bash | Shell::Zsh => "export "@ + name + "="@ + debug_quoted_of(value),
        Shell::Fish => "set -gx "@ + name + " "@ + debug_quoted_of(value) + ";"@,
        Shell::PowerShell => "$env:"@ + name + " = \""@ + value + "\""@,
        Shell::WindowsCommand => "SET "@ + name + "="@ + value,
    }
}

/// The hook that re-selects the version on directory change.
pub open spec fn use_on_cd_text(shell: Shell, base_dir: Seq<char>) -> Seq<char> {
    match shell {
        Shell::Bash => BASH_USE_ON_CD@,
        Shell::Zsh => ZSH_USE_ON_CD@,
        Shell::Fish => FISH_USE_ON_CD@,
        Shell::PowerShell => POWERSHELL_USE_ON_CD@,
        Shell::WindowsCommand => "doskey cd="@ + join(base_dir, "cd.cmd"@) + " $*"@,
    }
}

/// The supported shells.
#[derive(Clone, Copy, Debug, PartialEq, Eq, Structural)]
pub enum Shell {
    Bash,
    Zsh,
    Fish,
    PowerShell,
    WindowsCommand,
}

/// The shell a process name stands for.
pub open spec fn shell_of_binary(s: Seq<char>) -> Option<Shell> {
    if s == "sh"@ || s == "bash"@ {
        Some(Shell::Bash)
    } else if s == "zsh"@ {
        Some(Shell::Zsh)
    } else if s == "fish"@ {
        Some(Shell::Fish)
    } else if s == "pwsh"@ {
        Some(Shell::PowerShell)
    } else if s == "cmd"@ {
        Some(Shell::WindowsCommand)
    } else {
        None
    }
}

/// The shell a name given on the command line stands for.
pub open spec fn shell_of_name(s: Seq<char>) -> Option<Shell> {
    if s == "cmd"@ {
        Some(Shell::WindowsCommand)
    } else if s == "zsh"@ {
        Some(Shell::Zsh)
    } else if s == "bash"@ {
        Some(Shell::Bash)
    } else if s == "fish"@ {
        Some(Shell::Fish)
    } else if s == "powershell"@ {
        Some(Shell::PowerShell)
    } else {
        None
    }
}

/// The shell that runs as the process named `shell`, where it is one this
/// manager supports.
pub fn shell_from_string(shell: &str) -> (r: Option<Shell>)
    ensures
        r == shell_of_binary(shell@),
{
    if str_eq(shell, "sh") || str_eq(shell, "bash") {
        Some(Shell::Bash)
    } else if str_eq(shell, "zsh") {
        Some(Shell::Zsh)
    } else if str_eq(shell, "fish") {
        Some(Shell::Fish)
    } else if str_eq(shell, "pwsh") {
        Some(Shell::PowerShell)
    } else if str_eq(shell, "cmd") {
        Some(Shell::WindowsCommand)
    } else {
        None
    }
}

impl Shell {
    /// Whether the shell has a rehash command.
    pub open spec fn rehash_spec(&self) -> bool {
        *self == Shell::Bash || *self == Shell::Zsh || *self == Shell::Fish
    }

    /// The shell a name given on the command line stands for.
    pub fn from_str(s: &str) -> (r: Option<Shell>)
        ensures
            r == shell_of_name(s@),
    {
        if str_eq(s, "cmd") {
            Some(Shell::WindowsCommand)
        } else if str_eq(s, "zsh") {
            Some(Shell::Zsh)
        } else if str_eq(s, "bash") {
            Some(Shell::Bash)
        } else if str_eq(s, "fish") {
            Some(Shell::Fish)
        } else if str_eq(s, "powershell") {
            Some(Shell::PowerShell)
        } else {
            None
        }
    }

    /// The statement that puts `path` first on `PATH`; `joined_path` is the
    /// whole new value, which the shells of Windows assign at once.
    pub fn path(&self, path: &str, joined_path: &str) -> (r: String)
        ensures
            r@ == path_text(*self, path@, joined_path@),
    {
        match self {
            Shell::Bash => Bash.path(path),
            Shell::Zsh => Zsh.path(path),
            Shell::Fish => Fish.path(path),
            Shell::PowerShell => PowerShell.path(joined_path),
            Shell::WindowsCommand => WindowsCommand.path(joined_path),
        }
    }

    /// The statement that sets an environment variable.
    pub fn set_env_var(&self, name: &str, value: &str) -> (r: String)
        ensures
            r@ == env_text(*self, name@, value@),
    {
        match self {
            Shell::Bash => Bash.set_env_var(name, value),
            Shell::Zsh => Zsh.set_env_var(name, value),
            Shell::Fish => Fish.set_env_var(name, value),
            Shell::PowerShell => PowerShell.set_env_var(name, value),
            Shell::WindowsCommand => WindowsCommand.set_env_var(name, value),
        }
    }

    /// The hook that re-selects the version on directory change.
    pub fn use_on_cd(&self, config: &MamimiConfig) -> (r: String)
        ensures
            r@ == use_on_cd_text(*self, config.base_dir@),
    {
        match self {
            Shell::Bash => Bash.use_on_cd(),
            Shell::Zsh => Zsh.use_on_cd(),
            Shell::Fish => Fish.use_on_cd(),
            Shell::PowerShell => PowerShell.use_on_cd(),
            Shell::WindowsCommand => WindowsCommand.use_on_cd(config),
        }
    }

    /// The command that makes the shell forget remembered program locations,
    /// where it has one.
    pub fn rehash(&self) -> (r: Option<String>)
        ensures
            match *self {
                Shell::Bash | Shell::Zsh | Shell::Fish => r matches Some(s) && s@ == "rehash"@,
                _ => r is None,
            },
    {
        match self {
            Shell::Bash => Bash.rehash(),
            Shell::Zsh => Zsh.rehash(),
            Shell::Fish => Fish.rehash(),
            _ => None,
        }
    }
}

} // verus!
