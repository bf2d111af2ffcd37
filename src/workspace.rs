//! The workspace location typed at the workspace step, and the paths derived from it.
use vstd::prelude::*;

use crate::state::App;
use crate::text::trimmed;

verus! {

/// Whether `p` starts with a `~` that names the home directory: `~` alone, or followed by a
/// path separator.
pub open spec fn names_home(p: Seq<char>) -> bool {
    p.len() > 0 && p[0] == '~' && (p.len() == 1 || p[1] == '/' || p[1] == '\\')
}

/// `r` is what expanding a leading `~` of `p` can give: `p` itself, or where `p` names the
/// home directory, some directory followed by the rest of `p`.
pub open spec fn tilde_expansion(r: Seq<char>, p: Seq<char>) -> bool {
    r == p || (names_home(p) && exists|home: Seq<char>| r == home + p.drop_first())
}

/// `dir` joined with the file name `name`.
pub open spec fn join_path(dir: Seq<char>, name: Seq<char>) -> Seq<char> {
    if dir.len() == 0 {
        name
    } else if dir.last() == '/' {
        dir + name
    } else {
        dir + "/"@ + name
    }
}

/// Relies on `shellexpand::tilde`: a leading `~` alone or before a separator becomes the home
/// directory when one is known; any other text comes back unchanged.
#[verifier::external_body]
fn expand_tilde(path: &str) -> (r: String)
    ensures
        tilde_expansion(r@, path@),
        !names_home(path@) ==> r@ == path@,
{
    shellexpand::tilde(path).to_string()
}

fn join_file(dir: &str, name: &str) -> (r: String)
    ensures
        r@ == join_path(dir@, name@),
{
    let n = dir.unicode_len();
    if n == 0 {
        String::from_str(name)
    } else if dir.get_char(n - 1) == '/' {
        String::from_str(dir).concat(name)
    } else {
        String::from_str(dir).concat("/").concat(name)
    }
}

impl App {
    /// The custom workspace directory typed at the workspace step, with a leading `~`
    /// expanded; none where the default workspace is kept or nothing was typed.
    pub fn custom_workspace_path(&self) -> (r: Option<String>)
        ensures
            r is None <==> (self.use_default_workspace || trimmed(self.workspace_input@).len()
                == 0),
            r matches Some(p) ==> tilde_expansion(p@, trimmed(self.workspace_input@)),
    {
        if self.use_default_workspace {
            return None;
        }
        let input = Self::text_value(self.workspace_input.as_str());
        if input.unicode_len() == 0 {
            return None;
        }
        Some(expand_tilde(input.as_str()))
    }

    /// Takes the configuration and workspace directories resolved for a custom workspace; the
    /// configuration file is `config.toml` in the configuration directory.
    pub fn apply_workspace_dirs(&mut self, config_dir: String, workspace_dir: String)
        ensures
            final(self).config_path@ == join_path(config_dir@, "config.toml"@),
            *final(self) == (App {
                config_dir,
                workspace_dir,
                config_path: final(self).config_path,
                ..*old(self)
            }),
    {
        self.config_path = join_file(config_dir.as_str(), "config.toml");
        self.config_dir = config_dir;
        self.workspace_dir = workspace_dir;
    }
}

} // verus!
