//! The metadata service process: where its virtual environment and script
//! live, and when it is ready.

use vstd::prelude::*;
use crate::text::{contains_seq, contains_str};

verus! {

broadcast use vstd::string::group_string_axioms;

/// std's owned path type, carried through unchanged.
#[verifier::external_type_specification]
#[verifier::external_body]
pub struct ExPathBuf(std::path::PathBuf);

/// The path that std's `Path::join` makes of `base` and `rel`.
pub uninterp spec fn joined_path(base: std::path::PathBuf, rel: Seq<char>) -> std::path::PathBuf;

/// std `Path::join` on `base` and a relative path. Claimed: the result is
/// `joined_path(*base, rel@)`.
#[verifier::external_body]
pub(crate) fn join_path(base: &std::path::PathBuf, rel: &str) -> (p: std::path::PathBuf)
    ensures
        p == joined_path(*base, rel@),
{
    base.join(rel)
}

/// The metadata service: a Python script run inside a virtual environment.
#[derive(Debug)]
pub struct PythonMicroservice {
    pub venv_path: std::path::PathBuf,
    pub script_path: std::path::PathBuf,
}

impl PythonMicroservice {
    /// The service whose virtual environment and script lie at the given
    /// paths below `root`.
    pub fn new(root: std::path::PathBuf, venv_relative: &str, script_relative: &str) -> (s: Self)
        ensures
            s.venv_path == joined_path(root, venv_relative@),
            s.script_path == joined_path(root, script_relative@),
    {
        PythonMicroservice {
            venv_path: join_path(&root, venv_relative),
            script_path: join_path(&root, script_relative),
        }
    }
}

/// The directory that std's `Path::parent` gives for `p`, if any.
pub uninterp spec fn parent_of(p: std::path::PathBuf) -> Option<std::path::PathBuf>;

/// std `Path::parent`. Claimed: the result is `parent_of(*p)`, taken as an
/// owned path.
#[verifier::external_body]
fn path_parent(p: &std::path::PathBuf) -> (r: Option<std::path::PathBuf>)
    ensures
        r == parent_of(*p),
{
    p.parent().map(|d| d.to_path_buf())
}

impl PythonMicroservice {
    /// The interpreter of the virtual environment, `bin/python` below it.
    pub fn python_path(&self) -> (p: std::path::PathBuf)
        ensures
            p == joined_path(joined_path(self.venv_path, "bin"@), "python"@),
    {
        proof {
            reveal_strlit("bin");
            reveal_strlit("python");
        }
        join_path(&join_path(&self.venv_path, "bin"), "python")
    }

    /// The package installer of the virtual environment, `bin/pip` below it.
    pub fn pip_path(&self) -> (p: std::path::PathBuf)
        ensures
            p == joined_path(joined_path(self.venv_path, "bin"@), "pip"@),
    {
        proof {
            reveal_strlit("bin");
            reveal_strlit("pip");
        }
        join_path(&join_path(&self.venv_path, "bin"), "pip")
    }

    /// The requirements file next to the script (beside the script path
    /// itself when it has no parent directory).
    pub fn requirements_path(&self) -> (p: std::path::PathBuf)
        ensures
            p == joined_path(
                match parent_of(self.script_path) {
                    Some(d) => d,
                    None => self.script_path,
                },
                "requirements.txt"@,
            ),
    {
        proof {
            reveal_strlit("requirements.txt");
        }
        match path_parent(&self.script_path) {
            Some(d) => join_path(&d, "requirements.txt"),
            None => join_path(&self.script_path, "requirements.txt"),
        }
    }
}

/// The line the service prints once it listens.
pub open spec fn ready_marker() -> Seq<char> {
    "Music Hub escuchando"@
}

/// Whether an output line of the service says that it listens.
pub fn is_ready_line(line: &str) -> (b: bool)
    ensures
        b == contains_seq(line@, ready_marker()),
{
    contains_str(line, "Music Hub escuchando")
}

} // verus!
