//! The ways of obtaining a package's source.

use crate::text::same_text;
use vstd::prelude::*;

verus! {

/// How a package's source is to be obtained.
#[derive(Debug, Clone, Copy, PartialEq, Eq, Structural)]
pub enum CloneMethodKind {
    /// Downloads the `.crate` file from the registry and extracts it.
    Crate,
    /// Clones using `git`.
    Git,
    /// Clones using `hg`.
    Mercurial,
    /// Clones using `pijul`.
    Pijul,
    /// Clones using `fossil`.
    Fossil,
    /// Decides from the package's declared repository which of the others to use.
    Auto,
}

impl CloneMethodKind {
    /// The name of the method on the command line; for a repository method, the program to run.
    pub open spec fn command_text(self) -> Seq<char> {
        match self {
            CloneMethodKind::Crate => "crate"@,
            CloneMethodKind::Git => "git"@,
            CloneMethodKind::Mercurial => "hg"@,
            CloneMethodKind::Pijul => "pijul"@,
            CloneMethodKind::Fossil => "fossil"@,
            CloneMethodKind::Auto => "auto"@,
        }
    }

    /// The method that `name` stands for: one of `crate`, `git`, `hg`, `mercurial`, `pijul`,
    /// `fossil` and `auto`.
    pub open spec fn from_text(name: Seq<char>) -> Option<CloneMethodKind> {
        if name == "crate"@ {
            Some(CloneMethodKind::Crate)
        } else if name == "git"@ {
            Some(CloneMethodKind::Git)
        } else if name == "hg"@ {
            Some(CloneMethodKind::Mercurial)
        } else if name == "mercurial"@ {
            Some(CloneMethodKind::Mercurial)
        } else if name == "pijul"@ {
            Some(CloneMethodKind::Pijul)
        } else if name == "fossil"@ {
            Some(CloneMethodKind::Fossil)
        } else if name == "auto"@ {
            Some(CloneMethodKind::Auto)
        } else {
            None
        }
    }

    /// Whether the method clones a repository with a version-control program.
    pub open spec fn is_repository_method(self) -> bool {
        self != CloneMethodKind::Crate && self != CloneMethodKind::Auto
    }

    /// Returns the command line name of the method.
    pub fn command(&self) -> (r: &'static str)
        ensures
            r@ == self.command_text(),
    {
        match *self {
            CloneMethodKind::Crate => "crate",
            CloneMethodKind::Git => "git",
            CloneMethodKind::Mercurial => "hg",
            CloneMethodKind::Pijul => "pijul",
            CloneMethodKind::Fossil => "fossil",
            CloneMethodKind::Auto => "auto",
        }
    }

    /// Reads a method from its name. Returns `None` where no method has that name.
    pub fn from(method_name: &str) -> (r: Option<CloneMethodKind>)
        ensures
            r == Self::from_text(method_name@),
    {
        if same_text(method_name, "crate") {
            Some(CloneMethodKind::Crate)
        } else if same_text(method_name, "git") {
            Some(CloneMethodKind::Git)
        } else if same_text(method_name, "hg") {
            Some(CloneMethodKind::Mercurial)
        } else if same_text(method_name, "mercurial") {
            Some(CloneMethodKind::Mercurial)
        } else if same_text(method_name, "pijul") {
            Some(CloneMethodKind::Pijul)
        } else if same_text(method_name, "fossil") {
            Some(CloneMethodKind::Fossil)
        } else if same_text(method_name, "auto") {
            Some(CloneMethodKind::Auto)
        } else {
            None
        }
    }
}

/// How a package's source is obtained in the end: a method that defers to no other.
#[derive(Debug, Clone, Copy, PartialEq, Eq, Structural)]
pub enum TerminalMethod {
    /// Downloads the `.crate` file from the registry and extracts it.
    Crate,
    /// Clones using `git`.
    Git,
    /// Clones using `hg`.
    Mercurial,
    /// Clones using `pijul`.
    Pijul,
    /// Clones using `fossil`.
    Fossil,
}

impl TerminalMethod {
    /// The method as one that may be asked for.
    pub open spec fn kind(self) -> CloneMethodKind {
        match self {
            TerminalMethod::Crate => CloneMethodKind::Crate,
            TerminalMethod::Git => CloneMethodKind::Git,
            TerminalMethod::Mercurial => CloneMethodKind::Mercurial,
            TerminalMethod::Pijul => CloneMethodKind::Pijul,
            TerminalMethod::Fossil => CloneMethodKind::Fossil,
        }
    }

    /// The name of the method on the command line; for a repository method, the program to run.
    pub open spec fn command_text(self) -> Seq<char> {
        self.kind().command_text()
    }

    /// Returns the command line name of the method.
    pub fn command(&self) -> (r: &'static str)
        ensures
            r@ == self.command_text(),
    {
        match *self {
            TerminalMethod::Crate => "crate",
            TerminalMethod::Git => "git",
            TerminalMethod::Mercurial => "hg",
            TerminalMethod::Pijul => "pijul",
            TerminalMethod::Fossil => "fossil",
        }
    }
}

impl CloneMethodKind {
    /// The method itself, unless it defers the choice.
    pub open spec fn terminal_of(self) -> Option<TerminalMethod> {
        match self {
            CloneMethodKind::Crate => Some(TerminalMethod::Crate),
            CloneMethodKind::Git => Some(TerminalMethod::Git),
            CloneMethodKind::Mercurial => Some(TerminalMethod::Mercurial),
            CloneMethodKind::Pijul => Some(TerminalMethod::Pijul),
            CloneMethodKind::Fossil => Some(TerminalMethod::Fossil),
            CloneMethodKind::Auto => None,
        }
    }

    /// The method itself, unless it is `Auto`.
    pub fn terminal(&self) -> (r: Option<TerminalMethod>)
        ensures
            r == self.terminal_of(),
    {
        match *self {
            CloneMethodKind::Crate => Some(TerminalMethod::Crate),
            CloneMethodKind::Git => Some(TerminalMethod::Git),
            CloneMethodKind::Mercurial => Some(TerminalMethod::Mercurial),
            CloneMethodKind::Pijul => Some(TerminalMethod::Pijul),
            CloneMethodKind::Fossil => Some(TerminalMethod::Fossil),
            CloneMethodKind::Auto => None,
        }
    }
}

/// What is to be obtained, and how: the method, and for a repository method the location to
/// clone from. The location of an archive is empty.
#[derive(Debug, Clone, PartialEq, Eq)]
pub struct ResolvedTarget {
    pub method: TerminalMethod,
    pub location: String,
}

/// A target as a mathematical value.
pub ghost struct TargetView {
    pub method: TerminalMethod,
    pub location: Seq<char>,
}

impl View for ResolvedTarget {
    type V = TargetView;

    open spec fn view(&self) -> TargetView {
        TargetView { method: self.method, location: self.location@ }
    }
}

/// A name that `command` gives is read back by `from` as the method it came from.
pub proof fn lemma_command_round_trip(method: CloneMethodKind)
    ensures
        CloneMethodKind::from_text(method.command_text()) == Some(method),
{
    reveal_strlit("crate");
    reveal_strlit("git");
    reveal_strlit("hg");
    reveal_strlit("mercurial");
    reveal_strlit("pijul");
    reveal_strlit("fossil");
    reveal_strlit("auto");
    assert("crate"@[0] == 'c');
    assert("git"@[0] == 'g');
    assert("hg"@[0] == 'h');
    assert("mercurial"@[0] == 'm');
    assert("pijul"@[0] == 'p');
    assert("fossil"@[0] == 'f');
    assert("auto"@[0] == 'a');
}

} // verus!
