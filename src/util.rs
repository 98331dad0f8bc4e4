use vstd::prelude::*;
use crate::config::Config;

verus! {

/// The project being built: its root and its build output directory.
#[derive(Clone, Debug, PartialEq, Eq)]
pub struct Workspace {
    pub root: String,
    pub target_directory: String,
}

/// `name` placed under the directory `dir`, with one `/` between them.
pub open spec fn path_under(dir: Seq<char>, name: Seq<char>) -> Seq<char> {
    if dir.len() == 0 {
        name
    } else if dir.last() == '/' {
        dir + name
    } else {
        dir + "/"@ + name
    }
}

/// Where the error log goes: the configured path, or `build-errors.log` in
/// the workspace's output directory.
pub open spec fn log_path_for(configured: Option<Seq<char>>, target_directory: Seq<char>) -> Seq<char> {
    match configured {
        Some(p) => p,
        None => path_under(target_directory, "build-errors.log"@),
    }
}

/// Resolves where the error log goes.
pub fn resolve_log_path(config: &Config, workspace: &Workspace) -> (r: String)
    ensures
        r@ == log_path_for(
            match config.log_path {
                Some(p) => Some(p@),
                None => None,
            },
            workspace.target_directory@,
        ),
{
    match &config.log_path {
        Some(p) => p.clone(),
        None => {
            let dir = workspace.target_directory.as_str();
            let n = dir.unicode_len();
            let mut out = dir.to_owned();
            if n == 0 {
                return "build-errors.log".to_owned();
            }
            if dir.get_char(n - 1) != '/' {
                out.append("/");
            }
            out.append("build-errors.log");
            out
        },
    }
}

} // verus!
