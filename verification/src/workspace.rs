//! The checkout that the workflows work on, and environments for its commands.

use vstd::prelude::*;

verus! {

/// The checkout that the workflows work on.
#[derive(Debug, PartialEq, Eq)]
pub struct Workspace {
    /// The root of the checkout.
    pub root: String,
    /// Variables to set whenever packages are installed.
    pub pnpm_install_env: Vec<(String, String)>,
}

/// The mathematical counterpart of `Workspace`.
pub struct WorkspaceView {
    pub root: Seq<char>,
    pub pnpm_install_env: Seq<(Seq<char>, Seq<char>)>,
}

impl DeepView for Workspace {
    type V = WorkspaceView;

    open spec fn deep_view(&self) -> WorkspaceView {
        WorkspaceView {
            root: self.root@,
            pnpm_install_env: self.pnpm_install_env.deep_view(),
        }
    }
}

impl WorkspaceView {
    /// The environment in which packages are installed.
    pub open spec fn install_env_view(self) -> Seq<(Seq<char>, Option<Seq<char>>)> {
        self.pnpm_install_env.map_values(
            |pair: (Seq<char>, Seq<char>)| (pair.0, Some(pair.1)),
        )
    }
}

/// Appends a variable to `env`: to be set to `value`, or to be removed where there is none.
pub fn push_var(env: &mut Vec<(String, Option<String>)>, name: &str, value: Option<&str>)
    ensures
        final(env).deep_view() == old(env).deep_view().push((name@, value.deep_view())),
{
    let value: Option<String> = match value {
        Some(value) => Some(value.to_owned()),
        None => None,
    };
    env.push((name.to_owned(), value));
    assert(env.deep_view() =~= old(env).deep_view().push((name@, value.deep_view())));
}

impl Workspace {
    /// The environment in which packages are installed.
    pub fn install_env(&self) -> (res: Vec<(String, Option<String>)>)
        ensures
            res.deep_view() == self.deep_view().install_env_view(),
    {
        let mut res: Vec<(String, Option<String>)> = Vec::new();
        let mut i: usize = 0;
        let ghost all = self.deep_view().install_env_view();
        assert(res.deep_view() =~= all.take(0));
        while i < self.pnpm_install_env.len()
            invariant
                i <= self.pnpm_install_env.len(),
                all == self.deep_view().install_env_view(),
                res.deep_view() == all.take(i as int),
            decreases self.pnpm_install_env.len() - i,
        {
            let (name, value) = &self.pnpm_install_env[i];
            push_var(&mut res, name.as_str(), Some(value.as_str()));
            i = i + 1;
            assert(res.deep_view() =~= all.take(i as int));
        }
        assert(all.take(i as int) =~= all);
        res
    }
}

/// Packages are installed with exactly the workspace's variables, in order and all of them set.
pub proof fn law_install_env_sets_every_variable(workspace: WorkspaceView, i: int)
    ensures
        workspace.install_env_view().len() == workspace.pnpm_install_env.len(),
        0 <= i < workspace.pnpm_install_env.len() ==> workspace.install_env_view()[i] == (
            workspace.pnpm_install_env[i].0,
            Some(workspace.pnpm_install_env[i].1),
        ),
{
}

/// The view of a workspace keeps its root and every variable.
pub proof fn law_workspace_view(workspace: Workspace, i: int)
    ensures
        workspace.deep_view().root == workspace.root@,
        workspace.deep_view().pnpm_install_env.len() == workspace.pnpm_install_env@.len(),
        0 <= i < workspace.pnpm_install_env@.len() ==> workspace.deep_view().pnpm_install_env[i]
            == (workspace.pnpm_install_env@[i].0@, workspace.pnpm_install_env@[i].1@),
{
}

} // verus!
