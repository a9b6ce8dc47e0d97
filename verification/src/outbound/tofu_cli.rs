use vstd::prelude::*;
use crate::domain::tofu::models::spec_binary_name;
use crate::outbound::project_config::strs;

pub use crate::domain::tofu::ports::{CleanParams, InitGitlabParams, TofuCliError};

verus! {

/// An external command: the program, the directory it runs in and its arguments.
#[derive(Debug)]
pub struct CommandSpec {
    pub program: String,
    pub dir: String,
    pub args: Vec<String>,
}

/// Removing the backend files of a working directory: `rm -rf .terraform`
/// run in that directory.
pub open spec fn spec_clean_args() -> Seq<Seq<char>> {
    seq!["-rf"@, ".terraform"@]
}

/// The arguments that initialise a working directory against a state kept
/// in GitLab's HTTP backend at `url`, locking through `<url>/lock`.
pub open spec fn spec_init_gitlab_args(url: Seq<char>, username: Seq<char>, token: Seq<char>) -> Seq<
    Seq<char>,
> {
    seq![
        "init"@,
        "-backend-config=address="@ + url,
        "-backend-config=lock_address="@ + url + "/lock"@,
        "-backend-config=unlock_address="@ + url + "/lock"@,
        "-backend-config=username="@ + username,
        "-backend-config=password="@ + token,
        "-backend-config=lock_method=POST"@,
        "-backend-config=unlock_method=DELETE"@,
        "-backend-config=retry_wait_min=5"@,
    ]
}

/// The init arguments `args` point the backend at `url` and authenticate
/// with `username` and `token`: the first is `init`, the second sets the
/// address to `url`, the fifth sets the user name to `username` and the
/// sixth sets the password to `token`, each exactly.
pub open spec fn init_args_carry(args: Seq<String>, url: Seq<char>, username: Seq<char>, token: Seq<char>) -> bool {
    &&& args.len() == 9
    &&& args[0]@ == "init"@
    &&& args[1]@ == "-backend-config=address="@ + url
    &&& args[4]@ == "-backend-config=username="@ + username
    &&& args[5]@ == "-backend-config=password="@ + token
}

/// The init arguments point the backend at the given address and carry the
/// given user name and token unchanged, for every address, user name and
/// token.
pub proof fn law_init_args_carry_credentials(url: Seq<char>, username: Seq<char>, token: Seq<char>)
    ensures
        spec_init_gitlab_args(url, username, token).len() == 9,
        spec_init_gitlab_args(url, username, token)[0] == "init"@,
        spec_init_gitlab_args(url, username, token)[1] == "-backend-config=address="@ + url,
        spec_init_gitlab_args(url, username, token)[4] == "-backend-config=username="@ + username,
        spec_init_gitlab_args(url, username, token)[5] == "-backend-config=password="@ + token,
{
}

pub fn concat(a: &str, b: &str) -> (r: String)
    ensures
        r@ == a@ + b@,
{
    let mut r = String::from_str(a);
    r.append(b);
    r
}

/// The command that removes the backend files of `params.tf_root`.
pub fn clean_command(params: CleanParams) -> (r: CommandSpec)
    ensures
        r.program@ == "rm"@,
        r.dir@ == params.tf_root@,
        strs(r.args@) == spec_clean_args(),
{
    proof {
        reveal_strlit("rm");
        reveal_strlit("-rf");
        reveal_strlit(".terraform");
    }
    let mut args: Vec<String> = Vec::new();
    args.push(String::from_str("-rf"));
    args.push(String::from_str(".terraform"));
    assert(strs(args@) =~= spec_clean_args());
    CommandSpec { program: String::from_str("rm"), dir: params.tf_root, args }
}

/// The command that initialises `params.tf_root` against a GitLab-hosted state.
pub fn init_gitlab_command(params: InitGitlabParams) -> (r: CommandSpec)
    ensures
        r.program@ == spec_binary_name(params.state_type),
        r.dir@ == params.tf_root@,
        strs(r.args@) == spec_init_gitlab_args(
            params.url@.text,
            params.username@,
            params.access_token@,
        ),
        init_args_carry(r.args@, params.url@.text, params.username@, params.access_token@),
{
    proof {
        reveal_strlit("init");
        reveal_strlit("-backend-config=address=");
        reveal_strlit("-backend-config=lock_address=");
        reveal_strlit("-backend-config=unlock_address=");
        reveal_strlit("/lock");
        reveal_strlit("-backend-config=username=");
        reveal_strlit("-backend-config=password=");
        reveal_strlit("-backend-config=lock_method=POST");
        reveal_strlit("-backend-config=unlock_method=DELETE");
        reveal_strlit("-backend-config=retry_wait_min=5");
    }
    let url = params.url.as_str();
    let mut args: Vec<String> = Vec::new();
    args.push(String::from_str("init"));
    args.push(concat("-backend-config=address=", url));
    let lock = concat("-backend-config=lock_address=", url);
    args.push(concat(lock.as_str(), "/lock"));
    let unlock = concat("-backend-config=unlock_address=", url);
    args.push(concat(unlock.as_str(), "/lock"));
    args.push(concat("-backend-config=username=", params.username.as_str()));
    args.push(concat("-backend-config=password=", params.access_token.as_str()));
    args.push(String::from_str("-backend-config=lock_method=POST"));
    args.push(String::from_str("-backend-config=unlock_method=DELETE"));
    args.push(String::from_str("-backend-config=retry_wait_min=5"));
    assert(strs(args@) =~= spec_init_gitlab_args(
        params.url@.text,
        params.username@,
        params.access_token@,
    ));
    proof {
        law_init_args_carry_credentials(params.url@.text, params.username@, params.access_token@);
    }
    CommandSpec { program: params.state_type.binary_name(), dir: params.tf_root, args }
}

/// Runs `rm` and the state tool's binary.
#[derive(Clone, Debug)]
pub struct TofuCli {}

impl Default for TofuCli {
    fn default() -> (r: Self)
        ensures
            r == (TofuCli {}),
    {
        TofuCli {}
    }
}

impl TofuCli {
    pub fn new() -> (r: Self)
        ensures
            r == (TofuCli {}),
    {
        TofuCli {}
    }

    /// The command that removes the backend files of a working directory.
    pub fn clean(&self, params: CleanParams) -> (r: CommandSpec)
        ensures
            r.program@ == "rm"@,
            r.dir@ == params.tf_root@,
            strs(r.args@) == spec_clean_args(),
    {
        clean_command(params)
    }

    /// The command that initialises a working directory against a
    /// GitLab-hosted state.
    pub fn init_gitlab(&self, params: InitGitlabParams) -> (r: CommandSpec)
        ensures
            r.program@ == spec_binary_name(params.state_type),
            r.dir@ == params.tf_root@,
            strs(r.args@) == spec_init_gitlab_args(
                params.url@.text,
                params.username@,
                params.access_token@,
            ),
            init_args_carry(r.args@, params.url@.text, params.username@, params.access_token@),
    {
        init_gitlab_command(params)
    }
}

} // verus!
