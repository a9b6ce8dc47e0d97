use vstd::prelude::*;
use crate::base::address::opt_str_view;
use crate::base::config::{first_serving, Config as BaseConfig, StateHost, StateHostType};
use crate::domain::tofu::models::{spec_binary_name, Group, GroupStatus, StateTarget};
use crate::domain::tofu::ports::{
    CleanParams, InitGitlabParams, PluginGetStatesError, ProjectGetTargetError, TFState,
    TofuCliError,
};
use crate::outbound::project_config::{
    first_group, needs_plugin, plugin_request_holds, spec_state_at, spec_states_source, strs,
    state_among, target_lookup_answer, target_with_states_answer, Lookup, ProjectConfig, SourceSpec,
    spec_target_for, TargetSpec, address_is, law_target_address_round_trip,
};
use crate::outbound::tfstate::TFStateAdapter;
use crate::outbound::tofu_cli::{
    init_args_carry, law_init_args_carry_credentials, spec_clean_args, spec_init_gitlab_args,
    CommandSpec, TofuCli,
};

verus! {

/// The state to initialise a working directory against.
#[derive(Debug)]
pub struct InitParams {
    pub group: String,
    pub state: String,
}

/// Listing groups cannot fail: no value of this type can be made.
#[derive(Debug)]
pub enum ServiceListError {
    Never(core::convert::Infallible),
}

#[derive(Debug)]
pub enum ServiceCleanError {
    CommandError(std::io::Error),
}

#[derive(Debug)]
pub enum ServiceInitError {
    AddressNotFound,
    HostNotFound,
    TofuCLIError(TofuCliError),
    ProjectConfigError(ProjectGetTargetError),
}

#[derive(Debug)]
pub enum ServiceStatusError {
    TFStateParseError(crate::domain::tofu::ports::TFStateParseError),
}

/// The commands that initialise a working directory, run in order: remove
/// its backend files, then initialise it.
#[derive(Debug)]
pub struct InitPlan {
    pub clean: CommandSpec,
    pub init: CommandSpec,
}

/// Initialising against `t`, whose host has the credentials `username` and
/// `token` (an absent one counts as empty).
pub open spec fn plan_holds(t: StateTarget, username: Seq<char>, token: Seq<char>, p: InitPlan) -> bool {
    &&& p.clean.program@ == "rm"@
    &&& p.clean.dir@ == t.dir@
    &&& strs(p.clean.args@) == spec_clean_args()
    &&& p.init.program@ == spec_binary_name(t.state_type)
    &&& p.init.dir@ == t.dir@
    &&& strs(p.init.args@) == spec_init_gitlab_args(t.url@.text, username, token)
}

pub open spec fn or_empty(o: Option<Seq<char>>) -> Seq<char> {
    match o {
        Some(s) => s,
        None => Seq::empty(),
    }
}

/// Initialising against the outcome of a target lookup: a failed lookup is
/// passed on, a missing target or a target on an unknown host is refused,
/// and otherwise the working directory is cleaned and initialised with the
/// host's credentials.
pub open spec fn init_holds(
    base: BaseConfig,
    target: Result<Option<StateTarget>, ProjectGetTargetError>,
    r: Result<InitPlan, ServiceInitError>,
) -> bool {
    match target {
        Err(e) => r matches Err(ServiceInitError::ProjectConfigError(x)) && x == e,
        Ok(None) => r matches Err(ServiceInitError::AddressNotFound),
        Ok(Some(t)) => match first_serving(base.hosts@, t.url@) {
            None => r matches Err(ServiceInitError::HostNotFound),
            Some(h) => r matches Ok(p) && plan_holds(
                t,
                or_empty(opt_str_view(h.gitlab_username)),
                or_empty(opt_str_view(h.gitlab_access_token)),
                p,
            ),
        },
    }
}

/// Initialising against a target whose URL is served by the host `h` runs
/// the init command in the target's directory, pointed at the target's
/// address, with the host's user name and access token (an absent one
/// counts as empty) as the backend's credentials.
pub proof fn law_init_authenticates_with_host_credentials(
    base: BaseConfig,
    target: StateTarget,
    h: StateHost,
    r: Result<InitPlan, ServiceInitError>,
)
    requires
        first_serving(base.hosts@, target.url@) == Some(h),
        init_holds(base, Ok(Some(target)), r),
    ensures
        r matches Ok(p) && p.init.dir@ == target.dir@ && init_args_carry(
            p.init.args@,
            target.url@.text,
            match h.gitlab_username {
                Some(u) => u@,
                None => Seq::empty(),
            },
            match h.gitlab_access_token {
                Some(t) => t@,
                None => Seq::empty(),
            },
        ),
{
    let p = r->Ok_0;
    let user = or_empty(opt_str_view(h.gitlab_username));
    let token = or_empty(opt_str_view(h.gitlab_access_token));
    law_init_args_carry_credentials(target.url@.text, user, token);
    assert(strs(p.init.args@) == spec_init_gitlab_args(target.url@.text, user, token));
    assert(p.init.args@[0]@ == strs(p.init.args@)[0]);
    assert(p.init.args@[1]@ == strs(p.init.args@)[1]);
    assert(p.init.args@[4]@ == strs(p.init.args@)[4]);
    assert(p.init.args@[5]@ == strs(p.init.args@)[5]);
}

/// The status of a group whose working directory records `tf_state`: no
/// state file means nothing is known; otherwise the recorded address is
/// reported together with `state`, the state found at that address.
pub open spec fn status_holds(
    name: Seq<char>,
    tf_state: Option<TFState>,
    state: Option<Seq<char>>,
    s: GroupStatus,
) -> bool {
    &&& s.name@ == name
    &&& match tf_state {
        None => s.address is None && s.state is None,
        Some(ts) => opt_str_view(s.address) == Some(ts.backend.config.address@) && opt_str_view(
            s.state,
        ) == state,
    }
}

/// The state found at `address` among the states of the group, where the
/// group and its states are known without a plugin; `None` where the group
/// is unknown or its states cannot be had.
pub open spec fn known_state_at(pc: ProjectConfig, group: Seq<char>, address: Seq<char>) -> Option<
    Seq<char>,
> {
    match first_group(pc.config.state_groups@, group) {
        None => None,
        Some(g) => match spec_states_source(pc.base_config, g) {
            SourceSpec::Listed(v) => spec_state_at(g.base_address@, address, v),
            _ => None,
        },
    }
}

/// A working directory initialised against a state of a group is reported
/// by `status` with a state of that group whose address is the very address
/// the directory was initialised against (the state itself, unless an
/// earlier state of the group shares its address).
pub proof fn law_status_reports_initialised_state(pc: ProjectConfig, group: Seq<char>, state: Seq<char>)
    requires
        first_group(pc.config.state_groups@, group) matches Some(g) && spec_states_source(
            pc.base_config,
            g,
        ) matches SourceSpec::Listed(v) && spec_target_for(g, state, v) is Found,
    ensures
        first_group(pc.config.state_groups@, group) matches Some(g) && spec_states_source(
            pc.base_config,
            g,
        ) matches SourceSpec::Listed(v) && spec_target_for(g, state, v) matches TargetSpec::Found(
            u,
            _,
        ) && known_state_at(pc, group, u.text) matches Some(x) && address_is(
            g.base_address@,
            x,
            u.text,
        ) && v.contains(x),
{
    let g = first_group(pc.config.state_groups@, group)->0;
    let v = spec_states_source(pc.base_config, g)->Listed_0;
    law_target_address_round_trip(g, state, v);
}

/// The decisions behind the `init` and `status` commands.
#[derive(Debug)]
pub struct Service {
    base_config: BaseConfig,
    project_config: ProjectConfig,
    tofu_cli: TofuCli,
    tf_state: TFStateAdapter,
}

impl Service {
    pub fn new(
        base_config: BaseConfig,
        project_config: ProjectConfig,
        tofu_cli: TofuCli,
        tf_state: TFStateAdapter,
    ) -> (r: Self)
        ensures
            r.base_config() == base_config,
            r.project_config() == project_config,
    {
        Service { base_config, project_config, tofu_cli, tf_state }
    }

    pub closed spec fn base_config(&self) -> BaseConfig {
        self.base_config
    }

    pub closed spec fn project_config(&self) -> ProjectConfig {
        self.project_config
    }

    /// The project configuration the service works from.
    pub fn project(&self) -> (r: &ProjectConfig)
        ensures
            *r == self.project_config(),
    {
        &self.project_config
    }

    /// The adapter that locates state files.
    pub fn state_files(&self) -> (r: &TFStateAdapter)
        ensures
            *r == (TFStateAdapter {}),
    {
        &self.tf_state
    }

    /// The commands that remove the backend files of every group's working
    /// directory, one for each group, in order.
    pub fn clean_plan(&self, groups: &Vec<Group>) -> (r: Vec<CommandSpec>)
        ensures
            r@.len() == groups@.len(),
            forall|i: int|
                0 <= i < groups@.len() ==> {
                    &&& (#[trigger] r@[i]).program@ == "rm"@
                    &&& r@[i].dir@ == groups@[i].dir@
                    &&& strs(r@[i].args@) == spec_clean_args()
                },
    {
        let mut commands: Vec<CommandSpec> = Vec::new();
        let mut i: usize = 0;
        while i < groups.len()
            invariant
                i <= groups@.len(),
                commands@.len() == i,
                forall|k: int|
                    0 <= k < i ==> {
                        &&& (#[trigger] commands@[k]).program@ == "rm"@
                        &&& commands@[k].dir@ == groups@[k].dir@
                        &&& strs(commands@[k].args@) == spec_clean_args()
                    },
            decreases groups@.len() - i,
        {
            commands.push(self.tofu_cli.clean(CleanParams { tf_root: groups[i].dir.clone() }));
            i += 1;
        }
        commands
    }

    /// The commands that initialise a working directory, given the outcome
    /// of looking up its target.
    pub fn init_plan(&self, target: Result<Option<StateTarget>, ProjectGetTargetError>) -> (r: Result<
        InitPlan,
        ServiceInitError,
    >)
        ensures
            init_holds(self.base_config(), target, r),
            r matches Ok(p) ==> target matches Ok(Some(t)) && first_serving(
                self.base_config().hosts@,
                t.url@,
            ) matches Some(h) && p.init.dir@ == t.dir@ && init_args_carry(
                p.init.args@,
                t.url@.text,
                or_empty(opt_str_view(h.gitlab_username)),
                or_empty(opt_str_view(h.gitlab_access_token)),
            ),
    {
        let target = match target {
            Err(e) => {
                return Err(ServiceInitError::ProjectConfigError(e));
            },
            Ok(None) => {
                return Err(ServiceInitError::AddressNotFound);
            },
            Ok(Some(t)) => t,
        };
        let state_host = match self.base_config.get_state_host(&target.url) {
            Some(h) => h,
            None => {
                return Err(ServiceInitError::HostNotFound);
            },
        };
        match state_host._type {
            StateHostType::Gitlab => {
                let username = match state_host.gitlab_username {
                    Some(u) => u,
                    None => String::new(),
                };
                let access_token = match state_host.gitlab_access_token {
                    Some(t) => t,
                    None => String::new(),
                };
                let clean = self.tofu_cli.clean(CleanParams { tf_root: target.dir.clone() });
                let init = self.tofu_cli.init_gitlab(
                    InitGitlabParams {
                        state_type: target.state_type,
                        tf_root: target.dir,
                        url: target.url,
                        username,
                        access_token,
                    },
                );
                Ok(InitPlan { clean, init })
            },
        }
    }

    /// Initialises against a state: the commands to run, or the plugin call
    /// whose states `init_with_states` then needs.
    pub fn init(&self, params: InitParams) -> (r: Lookup<InitPlan, ServiceInitError>)
        ensures
            match r {
                Lookup::NeedsPlugin(req) => needs_plugin(self.project_config(), params.group@)
                    && plugin_request_holds(self.project_config(), params.group@, req),
                Lookup::Answered(res) => !needs_plugin(self.project_config(), params.group@)
                    && exists|target: Result<Option<StateTarget>, ProjectGetTargetError>|
                    #[trigger] target_lookup_answer(
                        self.project_config(),
                        params.group@,
                        params.state@,
                        target,
                    ) && init_holds(self.base_config(), target, res),
            },
    {
        match self.project_config.get_target(&params.group, &params.state) {
            Lookup::Answered(target) => {
                let res = self.init_plan(target);
                assert(target_lookup_answer(
                    self.project_config(),
                    params.group@,
                    params.state@,
                    target,
                ));
                Lookup::Answered(res)
            },
            Lookup::NeedsPlugin(req) => Lookup::NeedsPlugin(req),
        }
    }

    /// Initialises against a state of a group whose states a plugin has listed.
    pub fn init_with_states(&self, params: InitParams, states: &Vec<String>) -> (r: Result<
        InitPlan,
        ServiceInitError,
    >)
        ensures
            exists|target: Result<Option<StateTarget>, ProjectGetTargetError>|
                #[trigger] target_with_states_answer(
                    self.project_config(),
                    params.group@,
                    params.state@,
                    strs(states@),
                    target,
                ) && init_holds(self.base_config(), target, r),
    {
        let target = self.project_config.get_target_with_states(
            &params.group,
            &params.state,
            states,
        );
        let ghost t = target;
        let r = self.init_plan(target);
        assert(target_with_states_answer(
            self.project_config(),
            params.group@,
            params.state@,
            strs(states@),
            t,
        ));
        r
    }

    /// The status of the group `name` whose working directory records
    /// `tf_state`, or the plugin call whose states `status_with_states` then
    /// needs.
    pub fn status_of(&self, name: &String, tf_state: Option<TFState>) -> (r: Lookup<
        GroupStatus,
        ServiceStatusError,
    >)
        ensures
            match r {
                Lookup::Answered(res) => res matches Ok(s) && !(tf_state is Some && needs_plugin(
                    self.project_config(),
                    name@,
                )) && status_holds(
                    name@,
                    tf_state,
                    match tf_state {
                        Some(ts) => known_state_at(
                            self.project_config(),
                            name@,
                            ts.backend.config.address@,
                        ),
                        None => None,
                    },
                    s,
                ),
                Lookup::NeedsPlugin(req) => tf_state is Some && needs_plugin(
                    self.project_config(),
                    name@,
                ) && plugin_request_holds(self.project_config(), name@, req),
            },
    {
        match tf_state {
            None => Lookup::Answered(Ok(GroupStatus { name: name.clone(), state: None, address: None })),
            Some(ts) => {
                let address = ts.backend.config.address;
                match self.project_config.state_from_address(name, &address) {
                    Lookup::Answered(found) => {
                        let state = match found {
                            Ok(s) => s,
                            Err(_) => None,
                        };
                        Lookup::Answered(
                            Ok(GroupStatus { name: name.clone(), address: Some(address), state }),
                        )
                    },
                    Lookup::NeedsPlugin(req) => Lookup::NeedsPlugin(req),
                }
            },
        }
    }

    /// The status of the group `name` whose working directory records
    /// `tf_state`, given what the plugin answered for the group's states;
    /// a failed plugin leaves the state unknown.
    pub fn status_with_states(
        &self,
        name: &String,
        tf_state: TFState,
        states: Result<Vec<String>, PluginGetStatesError>,
    ) -> (r: GroupStatus)
        ensures
            status_holds(
                name@,
                Some(tf_state),
                match states {
                    Ok(v) => state_among(
                        self.project_config(),
                        name@,
                        tf_state.backend.config.address@,
                        strs(v@),
                    ),
                    Err(_) => None,
                },
                r,
            ),
    {
        let address = tf_state.backend.config.address;
        let state = match &states {
            Ok(v) => self.project_config.state_from_address_with_states(name, &address, v),
            Err(_) => None,
        };
        GroupStatus { name: name.clone(), address: Some(address), state }
    }
}

} // verus!
