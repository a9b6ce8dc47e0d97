use vstd::prelude::*;
use crate::domain::tofu::models::spec_binary_name;
use crate::outbound::project_config::strs;
use crate::outbound::tofu_cli::{
    clean_command, init_gitlab_command, spec_clean_args, spec_init_gitlab_args, CleanParams,
    CommandSpec, InitGitlabParams,
};

verus! {

/// Runs `rm` and the state tool's binary.
#[derive(Clone, Debug)]
pub struct CLI {}

impl Default for CLI {
    fn default() -> (r: Self)
        ensures
            r == (CLI {}),
    {
        CLI {}
    }
}

impl CLI {
    pub fn new() -> (r: Self)
        ensures
            r == (CLI {}),
    {
        CLI {}
    }

    /// The command that removes the backend files of a working directory.
    pub fn clean(&self, params: CleanParams) -> (r: CommandSpec)
        ensures
            r.program@ == "rm"@,
            r.dir@ == params.tf_root@,
            strs(r.args@) == spec_clean_args(),
    {
        clean_command(params)
    }

    /// The command that initialises a working directory against a
    /// GitLab-hosted state.
    pub fn init_gitlab(&self, params: InitGitlabParams) -> (r: CommandSpec)
        ensures
            r.program@ == spec_binary_name(params.state_type),
            r.dir@ == params.tf_root@,
            strs(r.args@) == spec_init_gitlab_args(
                params.url@.text,
                params.username@,
                params.access_token@,
            ),
            crate::outbound::tofu_cli::init_args_carry(
                r.args@,
                params.url@.text,
                params.username@,
                params.access_token@,
            ),
    {
        init_gitlab_command(params)
    }
}

} // verus!
