use vstd::prelude::*;
use crate::base::address::{
    opt_str_view, url_parse_clear_path, url_parse_join, ParsedUrl, UrlView,
};
use crate::base::config::{first_serving, Config as BaseConfig};
use crate::domain::tofu::models::{Group, GroupState, StateTarget, StateType};
use crate::domain::tofu::ports::{
    PluginGetStatesError, ProjectConfigError, ProjectGetStateFromAddressError, ProjectGetTargetError,
    StateAddressError,
};

verus! {

/// A group of states declared in the project configuration.
#[derive(Clone, Debug)]
pub struct StateGroup {
    pub name: String,
    /// The URL that a state's name is resolved against to give its address.
    pub base_address: String,
    /// The states of the group, when they are listed in the configuration.
    pub states: Option<Vec<String>>,
    /// A plugin that lists the states of the group in place of `states`.
    pub ext_wasm_file: Option<String>,
    /// The plugin's own configuration, as JSON text.
    pub wasm_config: Option<String>,
    pub state_type: StateType,
    pub dir: Option<String>,
}

/// The project configuration file.
#[derive(Clone, Debug)]
pub struct Config {
    pub state_groups: Vec<StateGroup>,
}

impl Default for Config {
    fn default() -> (r: Self)
        ensures
            r.state_groups@.len() == 0,
    {
        Config { state_groups: Vec::new() }
    }
}

/// The project configuration together with the user configuration that
/// supplies the credentials of state hosts.
#[derive(Clone, Debug)]
pub struct ProjectConfig {
    pub config: Config,
    pub base_config: BaseConfig,
}

impl Default for ProjectConfig {
    fn default() -> (r: Self)
        ensures
            r.config.state_groups@.len() == 0,
            r.base_config.hosts@.len() == 0,
    {
        ProjectConfig { config: Config::default(), base_config: BaseConfig::default() }
    }
}

/// A call of a states plugin: the plugin's file and the environment it is
/// given.
#[derive(Debug)]
pub struct PluginRequest {
    pub wasm_path: String,
    pub config: Vec<(String, String)>,
}

/// Where the states of a group come from.
#[derive(Debug)]
pub enum StatesSource {
    Listed(Vec<String>),
    Plugin(PluginRequest),
}

/// The outcome of a lookup that may need the states that a plugin lists.
#[derive(Debug)]
pub enum Lookup<T, E> {
    Answered(Result<T, E>),
    NeedsPlugin(PluginRequest),
}

pub open spec fn strs(v: Seq<String>) -> Seq<Seq<char>> {
    v.map_values(|s: String| s@)
}

pub open spec fn pairs(v: Seq<(String, String)>) -> Seq<(Seq<char>, Seq<char>)> {
    v.map_values(|p: (String, String)| (p.0@, p.1@))
}

/// The environment handed to a states plugin: the state host, its access
/// token when one is configured, and the plugin's own configuration when
/// there is one.
pub open spec fn spec_plugin_config(
    host: Seq<char>,
    token: Option<Seq<char>>,
    plugin_config: Option<Seq<char>>,
) -> Seq<(Seq<char>, Seq<char>)> {
    seq![("STATE_HOST"@, host)] + match token {
        Some(t) => seq![("GITLAB_ACCESS_TOKEN"@, t)],
        None => Seq::empty(),
    } + match plugin_config {
        Some(c) => seq![("TOFUYA_PLUGIN_CONFIG"@, c)],
        None => Seq::empty(),
    }
}

pub open spec fn is_first_group(groups: Seq<StateGroup>, name: Seq<char>, i: int) -> bool {
    &&& 0 <= i < groups.len()
    &&& groups[i].name@ == name
    &&& forall|j: int| 0 <= j < i ==> (#[trigger] groups[j]).name@ != name
}

/// The first group of that name.
pub open spec fn first_group(groups: Seq<StateGroup>, name: Seq<char>) -> Option<StateGroup> {
    if exists|i: int| is_first_group(groups, name, i) {
        Some(groups[choose|i: int| is_first_group(groups, name, i)])
    } else {
        None
    }
}

/// Where the states of a group come from, in the model.
pub enum SourceSpec {
    Listed(Seq<Seq<char>>),
    Plugin(Seq<char>, Seq<(Seq<char>, Seq<char>)>),
    BadAddress(url::ParseError),
    NoHost,
}

/// A group with a plugin has its states listed by the plugin, which is given
/// the group's base address without its path, the access token of the host
/// that serves that address, and the plugin configuration. Other groups have
/// the states they list, or none.
pub open spec fn spec_states_source(base: BaseConfig, g: StateGroup) -> SourceSpec {
    match g.ext_wasm_file {
        Some(w) => match url_parse_clear_path(g.base_address@) {
            Err(e) => SourceSpec::BadAddress(e),
            Ok(u) => match first_serving(base.hosts@, u) {
                None => SourceSpec::NoHost,
                Some(h) => SourceSpec::Plugin(
                    w@,
                    spec_plugin_config(
                        u.text,
                        opt_str_view(h.gitlab_access_token),
                        opt_str_view(g.wasm_config),
                    ),
                ),
            },
        },
        None => SourceSpec::Listed(
            match g.states {
                Some(v) => strs(v@),
                None => Seq::empty(),
            },
        ),
    }
}

pub open spec fn source_holds(s: SourceSpec, r: Result<StatesSource, ProjectConfigError>) -> bool {
    match s {
        SourceSpec::Listed(v) => r matches Ok(StatesSource::Listed(x)) && strs(x@) == v,
        SourceSpec::Plugin(w, c) => r matches Ok(StatesSource::Plugin(req)) && req.wasm_path@ == w
            && pairs(req.config@) == c,
        SourceSpec::BadAddress(e) => r matches Err(ProjectConfigError::ParseError(x)) && x == e,
        SourceSpec::NoHost => r matches Err(ProjectConfigError::HostNotFound),
    }
}

/// The address of `state` in the group whose base address is `base` is `address`.
pub open spec fn address_is(base: Seq<char>, state: Seq<char>, address: Seq<char>) -> bool {
    url_parse_join(base, state) matches Ok(u) && u.text == address
}

/// The first of `states` whose address is `address`.
pub open spec fn spec_state_at(base: Seq<char>, address: Seq<char>, states: Seq<Seq<char>>) -> Option<
    Seq<char>,
>
    decreases states.len(),
{
    if states.len() == 0 {
        None
    } else if address_is(base, states[0], address) {
        Some(states[0])
    } else {
        spec_state_at(base, address, states.drop_first())
    }
}

/// What looking up a state of a group gives, in the model.
pub enum TargetSpec {
    NotFound,
    BadAddress(url::ParseError),
    NoDirectory,
    Found(UrlView, Seq<char>),
}

/// A state that the group does not have is not found; one that it has is
/// found at its address, used from the group's directory.
pub open spec fn spec_target_for(g: StateGroup, state: Seq<char>, states: Seq<Seq<char>>) -> TargetSpec {
    if !states.contains(state) {
        TargetSpec::NotFound
    } else {
        match url_parse_join(g.base_address@, state) {
            Err(e) => TargetSpec::BadAddress(e),
            Ok(u) => match g.dir {
                None => TargetSpec::NoDirectory,
                Some(d) => TargetSpec::Found(u, d@),
            },
        }
    }
}

pub open spec fn target_holds(
    g: StateGroup,
    s: TargetSpec,
    r: Result<Option<StateTarget>, ProjectGetTargetError>,
) -> bool {
    match s {
        TargetSpec::NotFound => r matches Ok(None),
        TargetSpec::BadAddress(e) => r matches Err(
            ProjectGetTargetError::ParseError(StateAddressError::ParseError(x)),
        ) && x == e,
        TargetSpec::NoDirectory => r matches Err(ProjectGetTargetError::InvalidDirectory),
        TargetSpec::Found(u, d) => r matches Ok(Some(t)) && t.url@ == u && t.dir@ == d
            && t.state_type == g.state_type,
    }
}

pub open spec fn needs_plugin(pc: ProjectConfig, group: Seq<char>) -> bool {
    match first_group(pc.config.state_groups@, group) {
        None => false,
        Some(g) => spec_states_source(pc.base_config, g) is Plugin,
    }
}

pub open spec fn plugin_request_holds(pc: ProjectConfig, group: Seq<char>, req: PluginRequest) -> bool {
    match first_group(pc.config.state_groups@, group) {
        None => false,
        Some(g) => match spec_states_source(pc.base_config, g) {
            SourceSpec::Plugin(w, c) => req.wasm_path@ == w && pairs(req.config@) == c,
            _ => false,
        },
    }
}

/// What looking up a target answers when no plugin is needed.
pub open spec fn target_lookup_answer(
    pc: ProjectConfig,
    group: Seq<char>,
    state: Seq<char>,
    res: Result<Option<StateTarget>, ProjectGetTargetError>,
) -> bool {
    match first_group(pc.config.state_groups@, group) {
        None => res matches Ok(None),
        Some(g) => match spec_states_source(pc.base_config, g) {
            SourceSpec::Listed(v) => target_holds(g, spec_target_for(g, state, v), res),
            SourceSpec::Plugin(_, _) => false,
            SourceSpec::BadAddress(e) => res matches Err(
                ProjectGetTargetError::ProjectErrorError(ProjectConfigError::ParseError(x)),
            ) && x == e,
            SourceSpec::NoHost => res matches Err(
                ProjectGetTargetError::ProjectErrorError(ProjectConfigError::HostNotFound),
            ),
        },
    }
}

/// What looking up a target answers once the states of the group are known.
pub open spec fn target_with_states_answer(
    pc: ProjectConfig,
    group: Seq<char>,
    state: Seq<char>,
    states: Seq<Seq<char>>,
    res: Result<Option<StateTarget>, ProjectGetTargetError>,
) -> bool {
    match first_group(pc.config.state_groups@, group) {
        None => res matches Ok(None),
        Some(g) => target_holds(g, spec_target_for(g, state, states), res),
    }
}

/// The state of the group found at `address` among `states`.
pub open spec fn state_among(
    pc: ProjectConfig,
    group: Seq<char>,
    address: Seq<char>,
    states: Seq<Seq<char>>,
) -> Option<Seq<char>> {
    match first_group(pc.config.state_groups@, group) {
        None => None,
        Some(g) => spec_state_at(g.base_address@, address, states),
    }
}

/// A listed group, in the model: its name, the names of its states in
/// order, and its directory.
pub struct GroupModel {
    pub name: Seq<char>,
    pub states: Seq<Seq<char>>,
    pub dir: Seq<char>,
}

pub open spec fn group_model(g: Group) -> GroupModel {
    GroupModel {
        name: g.name@,
        states: g.states@.map_values(|s: GroupState| s.name@),
        dir: g.dir@,
    }
}

pub open spec fn group_models(v: Seq<Group>) -> Seq<GroupModel> {
    v.map_values(|g: Group| group_model(g))
}

/// How the group `g` is listed with the states `states`: from its own
/// directory, or from `cwd` when it names none.
pub open spec fn listed_model(g: StateGroup, cwd: Seq<char>, states: Seq<Seq<char>>) -> GroupModel {
    GroupModel {
        name: g.name@,
        states,
        dir: match g.dir {
            Some(d) => d@,
            None => cwd,
        },
    }
}

/// Where walking through the groups stops.
pub enum ListStop {
    /// Every group was listed.
    End,
    /// The group at this position has its states listed by this plugin call.
    Ask(int, Seq<char>, Seq<(Seq<char>, Seq<char>)>),
    /// Where the states of a group come from could not be told.
    Fail(ProjectConfigError),
}

/// Walking through the groups from position `i`: the groups that list their
/// states are listed in order, up to the first group that needs a plugin or
/// whose source cannot be told, or to the end.
pub open spec fn scan_groups(pc: ProjectConfig, cwd: Seq<char>, i: nat) -> (Seq<GroupModel>, ListStop)
    decreases pc.config.state_groups@.len() - i,
{
    let gs = pc.config.state_groups@;
    if i >= gs.len() {
        (Seq::empty(), ListStop::End)
    } else {
        match spec_states_source(pc.base_config, gs[i as int]) {
            SourceSpec::Listed(v) => {
                let rest = scan_groups(pc, cwd, i + 1);
                (seq![listed_model(gs[i as int], cwd, v)] + rest.0, rest.1)
            },
            SourceSpec::Plugin(w, c) => (Seq::empty(), ListStop::Ask(i as int, w, c)),
            SourceSpec::BadAddress(e) => (Seq::empty(), ListStop::Fail(ProjectConfigError::ParseError(e))),
            SourceSpec::NoHost => (Seq::empty(), ListStop::Fail(ProjectConfigError::HostNotFound)),
        }
    }
}

/// A listing that runs to its end from position `i` has one group for each
/// configured group from `i` on, in order and under the group's name: no
/// group is left out or added.
pub proof fn law_finished_listing_has_every_group(pc: ProjectConfig, cwd: Seq<char>, i: nat)
    requires
        i <= pc.config.state_groups@.len(),
    ensures
        scan_groups(pc, cwd, i).1 is End ==> {
            let listed = scan_groups(pc, cwd, i).0;
            &&& listed.len() == pc.config.state_groups@.len() - i
            &&& forall|k: int|
                0 <= k < listed.len() ==> (#[trigger] listed[k]).name == pc.config.state_groups@[i + k].name@
        },
    decreases pc.config.state_groups@.len() - i,
{
    let gs = pc.config.state_groups@;
    if i < gs.len() {
        law_finished_listing_has_every_group(pc, cwd, i + 1);
        let rest = scan_groups(pc, cwd, i + 1).0;
        let listed = scan_groups(pc, cwd, i).0;
        if scan_groups(pc, cwd, i).1 is End {
            assert forall|k: int| 0 <= k < listed.len() implies (#[trigger] listed[k]).name == gs[i + k].name@ by {
                if k > 0 {
                    assert(listed[k] == rest[k - 1]);
                }
            }
        }
    }
}

/// How far a listing of the groups has come: the position of the next group
/// and the groups listed so far.
#[derive(Debug)]
pub struct ListProgress {
    pub next: usize,
    pub groups: Vec<Group>,
}

/// What the outside world reports to a listing.
#[derive(Debug)]
pub enum ListEvent {
    /// The listing is asked for.
    Begin,
    /// The plugin that a listing asked answered for the group at `progress.next`.
    Answered(ListProgress, Result<Vec<String>, PluginGetStatesError>),
}

/// What a listing asks the outside world to do next.
#[derive(Debug)]
pub enum ListAction {
    /// Call this plugin for the states of the group at `progress.next`.
    AskPlugin(ListProgress, PluginRequest),
    /// The listing is over.
    Finished(Result<Vec<Group>, ProjectConfigError>),
}

/// `groups` are the first `next` configured groups, listed in order: one
/// for each, with the group's name, and its directory or `cwd` when it
/// names none.
pub open spec fn listed_in_order(pc: ProjectConfig, cwd: Seq<char>, groups: Seq<Group>, next: int) -> bool {
    let gs = pc.config.state_groups@;
    &&& 0 <= next <= gs.len()
    &&& groups.len() == next
    &&& forall|i: int|
        0 <= i < next ==> (#[trigger] groups[i]).name@ == gs[i].name@ && groups[i].dir@ == (match gs[i].dir {
            Some(d) => d@,
            None => cwd,
        })
}

/// What a listing that has listed the groups before it in order gives: a
/// finished listing has every configured group, one per group in order; a
/// plugin is asked only for a group that names one, with the groups before
/// it listed in order.
pub open spec fn listing_complete(pc: ProjectConfig, cwd: Seq<char>, r: ListAction) -> bool {
    let gs = pc.config.state_groups@;
    match r {
        ListAction::Finished(Ok(groups)) => listed_in_order(pc, cwd, groups@, gs.len() as int),
        ListAction::AskPlugin(p, _) => p.next < gs.len() && gs[p.next as int].ext_wasm_file is Some
            && listed_in_order(pc, cwd, p.groups@, p.next as int),
        ListAction::Finished(Err(_)) => true,
    }
}

/// Continuing a listing from position `start` with the groups `listed`
/// already listed.
pub open spec fn scan_holds(
    pc: ProjectConfig,
    cwd: Seq<char>,
    start: nat,
    listed: Seq<GroupModel>,
    r: ListAction,
) -> bool {
    let (more, stop) = scan_groups(pc, cwd, start);
    match stop {
        ListStop::End => r matches ListAction::Finished(Ok(gs)) && group_models(gs@) == listed + more,
        ListStop::Ask(j, w, c) => r matches ListAction::AskPlugin(p, req) && p.next == j
            && group_models(p.groups@) == listed + more && req.wasm_path@ == w && pairs(req.config@)
            == c,
        ListStop::Fail(e) => r matches ListAction::Finished(Err(x)) && x == e,
    }
}

/// One step of listing the groups. It begins at the first group; a plugin's
/// failure ends the listing with that failure; a plugin's states list the
/// group it was asked for (an answer past the last group adds nothing), and
/// the listing goes on from the next group.
pub open spec fn list_step_holds(pc: ProjectConfig, cwd: Seq<char>, event: ListEvent, r: ListAction) -> bool {
    let gs = pc.config.state_groups@;
    match event {
        ListEvent::Begin => scan_holds(pc, cwd, 0, Seq::empty(), r),
        ListEvent::Answered(_, Err(e)) => r matches ListAction::Finished(
            Err(ProjectConfigError::PluginError(x)),
        ) && x == e,
        ListEvent::Answered(p, Ok(states)) => if p.next < gs.len() {
            scan_holds(
                pc,
                cwd,
                (p.next + 1) as nat,
                group_models(p.groups@).push(listed_model(gs[p.next as int], cwd, strs(states@))),
                r,
            )
        } else {
            scan_holds(pc, cwd, p.next as nat, group_models(p.groups@), r)
        },
    }
}

pub fn clone_strings(v: &Vec<String>) -> (r: Vec<String>)
    ensures
        r@ == v@,
{
    let mut r: Vec<String> = Vec::new();
    let mut i: usize = 0;
    while i < v.len()
        invariant
            i <= v@.len(),
            r@ == v@.subrange(0, i as int),
        decreases v@.len() - i,
    {
        r.push(v[i].clone());
        i += 1;
        assert(r@ =~= v@.subrange(0, i as int));
    }
    assert(v@.subrange(0, v@.len() as int) =~= v@);
    r
}

fn contains_string(v: &Vec<String>, s: &String) -> (r: bool)
    ensures
        r == strs(v@).contains(s@),
{
    let mut i: usize = 0;
    while i < v.len()
        invariant
            i <= v@.len(),
            forall|j: int| 0 <= j < i ==> (#[trigger] v@[j])@ != s@,
        decreases v@.len() - i,
    {
        if v[i] == *s {
            assert(strs(v@)[i as int] == s@);
            return true;
        }
        i += 1;
    }
    assert forall|k: int| 0 <= k < strs(v@).len() implies strs(v@)[k] != s@ by {
        assert(strs(v@)[k] == v@[k]@);
    }
    false
}

impl StateGroup {
    /// The address of a state: the state's name resolved against the base address.
    pub fn state_address(&self, state: &String) -> (r: Result<Option<ParsedUrl>, StateAddressError>)
        ensures
            match url_parse_join(self.base_address@, state@) {
                Ok(v) => r matches Ok(Some(u)) && u@ == v,
                Err(e) => r matches Err(StateAddressError::ParseError(x)) && x == e,
            },
    {
        match ParsedUrl::parse_join(self.base_address.as_str(), state.as_str()) {
            Ok(u) => Ok(Some(u)),
            Err(e) => Err(StateAddressError::ParseError(e)),
        }
    }

    /// The target of `target_state`, given the states that the group has.
    pub fn target_for(&self, target_state: &String, states: &Vec<String>) -> (r: Result<
        Option<StateTarget>,
        ProjectGetTargetError,
    >)
        ensures
            target_holds(*self, spec_target_for(*self, target_state@, strs(states@)), r),
    {
        if !contains_string(states, target_state) {
            return Ok(None);
        }
        let url = match self.state_address(target_state) {
            Ok(Some(u)) => u,
            Ok(None) => {
                return Err(ProjectGetTargetError::AddressNotFound);
            },
            Err(e) => {
                return Err(ProjectGetTargetError::ParseError(e));
            },
        };
        match &self.dir {
            Some(d) => Ok(Some(StateTarget { dir: d.clone(), url, state_type: self.state_type })),
            None => Err(ProjectGetTargetError::InvalidDirectory),
        }
    }

    /// The first of `states` whose address is `address`.
    pub fn state_at_address(&self, address: &String, states: &Vec<String>) -> (r: Option<String>)
        ensures
            opt_str_view(r) == spec_state_at(self.base_address@, address@, strs(states@)),
            r matches Some(s) ==> exists|k: int|
                0 <= k < states@.len() && (#[trigger] states@[k])@ == s@ && (url_parse_join(
                    self.base_address@,
                    s@,
                ) matches Ok(u) && u.text == address@) && forall|j: int|
                    0 <= j < k ==> !(url_parse_join(self.base_address@, (#[trigger] states@[j])@) matches Ok(
                        u,
                    ) && u.text == address@),
            r is None ==> forall|j: int|
                0 <= j < states@.len() ==> !(url_parse_join(
                    self.base_address@,
                    (#[trigger] states@[j])@,
                ) matches Ok(u) && u.text == address@),
    {
        let ghost all = strs(states@);
        assert(all.subrange(0, all.len() as int) =~= all);
        let mut i: usize = 0;
        while i < states.len()
            invariant
                i <= states@.len(),
                all == strs(states@),
                spec_state_at(self.base_address@, address@, all) == spec_state_at(
                    self.base_address@,
                    address@,
                    all.subrange(i as int, all.len() as int),
                ),
                forall|j: int|
                    0 <= j < i ==> !(url_parse_join(self.base_address@, (#[trigger] states@[j])@) matches Ok(
                        u,
                    ) && u.text == address@),
            decreases states@.len() - i,
        {
            let ghost rest = all.subrange(i as int, all.len() as int);
            assert(rest[0] == states@[i as int]@);
            assert(rest.drop_first() =~= all.subrange(i + 1, all.len() as int));
            let state = &states[i];
            match self.state_address(state) {
                Ok(Some(u)) => {
                    if u.text_is(address) {
                        let found = state.clone();
                        assert(states@[i as int]@ == found@);
                        return Some(found);
                    }
                },
                _ => {},
            }
            i += 1;
        }
        assert(all.subrange(i as int, all.len() as int).len() == 0);
        None
    }

    /// The group as it is listed: its directory, or `cwd` when it names none,
    /// and the given states in order.
    pub fn listing(&self, cwd: &String, states: &Vec<String>) -> (r: Group)
        ensures
            r.name@ == self.name@,
            r.dir@ == (match self.dir {
                Some(d) => d@,
                None => cwd@,
            }),
            r.states@.len() == states@.len(),
            forall|i: int| 0 <= i < states@.len() ==> (#[trigger] r.states@[i]).name@ == states@[i]@,
            group_model(r) == listed_model(*self, cwd@, strs(states@)),
    {
        let mut listed: Vec<GroupState> = Vec::new();
        let mut i: usize = 0;
        while i < states.len()
            invariant
                i <= states@.len(),
                listed@.len() == i,
                forall|j: int| 0 <= j < i ==> (#[trigger] listed@[j]).name@ == states@[j]@,
            decreases states@.len() - i,
        {
            listed.push(GroupState { name: states[i].clone() });
            i += 1;
        }
        let dir = match &self.dir {
            Some(d) => d.clone(),
            None => cwd.clone(),
        };
        let r = Group { name: self.name.clone(), states: listed, dir };
        assert(group_model(r).states =~= strs(states@));
        r
    }
}

pub proof fn lemma_first_group_unique(groups: Seq<StateGroup>, name: Seq<char>, i: int, k: int)
    requires
        is_first_group(groups, name, i),
        is_first_group(groups, name, k),
    ensures
        i == k,
{
    if i < k {
        assert(groups[i].name@ != name);
    } else if k < i {
        assert(groups[k].name@ != name);
    }
}

/// When some state of `states` has the address `address`, looking the
/// address up finds a state, and that state has the address.
pub proof fn lemma_state_at_finds(base: Seq<char>, address: Seq<char>, states: Seq<Seq<char>>, k: int)
    requires
        0 <= k < states.len(),
        address_is(base, states[k], address),
    ensures
        spec_state_at(base, address, states) matches Some(x) && address_is(base, x, address),
    decreases states.len(),
{
    if !address_is(base, states[0], address) {
        assert(k > 0);
        assert(states.drop_first()[k - 1] == states[k]);
        lemma_state_at_finds(base, address, states.drop_first(), k - 1);
    }
}

/// A state found at an address has that address.
pub proof fn lemma_state_at_sound(base: Seq<char>, address: Seq<char>, states: Seq<Seq<char>>)
    ensures
        spec_state_at(base, address, states) matches Some(x) ==> address_is(base, x, address)
            && states.contains(x),
    decreases states.len(),
{
    if states.len() > 0 {
        if address_is(base, states[0], address) {
            assert(states[0] == states[0]);
            assert(states.contains(states[0]));
        } else {
            lemma_state_at_sound(base, address, states.drop_first());
            if let Some(x) = spec_state_at(base, address, states.drop_first()) {
                let j = choose|j: int| 0 <= j < states.drop_first().len() && states.drop_first()[j] == x;
                assert(states[j + 1] == x);
            }
        }
    }
}

/// Looking up the state at an address finds a state whose address is
/// exactly that address (the whole serialization, not a part of it), the
/// first such among `states`; it finds none exactly when no state of
/// `states` has that address.
pub proof fn law_state_at_has_exactly_the_address(base: Seq<char>, address: Seq<char>, states: Seq<Seq<char>>)
    ensures
        spec_state_at(base, address, states) matches Some(x) ==> exists|k: int|
            0 <= k < states.len() && #[trigger] states[k] == x && (url_parse_join(base, x) matches Ok(u)
                && u.text == address) && forall|j: int|
                0 <= j < k ==> !(url_parse_join(base, #[trigger] states[j]) matches Ok(u) && u.text
                    == address),
        spec_state_at(base, address, states) is None <==> forall|j: int|
            0 <= j < states.len() ==> !(url_parse_join(base, #[trigger] states[j]) matches Ok(u)
                && u.text == address),
    decreases states.len(),
{
    if states.len() > 0 {
        let tail = states.drop_first();
        law_state_at_has_exactly_the_address(base, address, tail);
        if url_parse_join(base, states[0]) matches Ok(u) && u.text == address {
            assert(states[0] == states[0]);
        } else {
            if let Some(x) = spec_state_at(base, address, tail) {
                let k = choose|k: int|
                    0 <= k < tail.len() && #[trigger] tail[k] == x && (url_parse_join(base, x) matches Ok(u)
                        && u.text == address) && forall|j: int|
                        0 <= j < k ==> !(url_parse_join(base, #[trigger] tail[j]) matches Ok(u) && u.text
                            == address);
                assert(states[k + 1] == x);
                assert forall|j: int| 0 <= j < k + 1 implies !(url_parse_join(base, #[trigger] states[j]) matches Ok(u)
                    && u.text == address) by {
                    if j > 0 {
                        assert(states[j] == tail[j - 1]);
                    }
                }
            } else {
                assert forall|j: int| 0 <= j < states.len() implies !(url_parse_join(base, #[trigger] states[j]) matches Ok(u)
                    && u.text == address) by {
                    if j > 0 {
                        assert(states[j] == tail[j - 1]);
                    }
                }
            }
        }
    }
}

/// Going from a state to its target and back: the address of the target of
/// a state leads back, among the same states, to a state with that very
/// address (the state itself, unless an earlier state shares its address).
pub proof fn law_target_address_round_trip(g: StateGroup, state: Seq<char>, states: Seq<Seq<char>>)
    requires
        spec_target_for(g, state, states) is Found,
    ensures
        spec_target_for(g, state, states) matches TargetSpec::Found(u, _) && spec_state_at(
            g.base_address@,
            u.text,
            states,
        ) matches Some(x) && address_is(g.base_address@, x, u.text) && states.contains(x),
{
    let u = url_parse_join(g.base_address@, state)->Ok_0;
    let k = choose|k: int| 0 <= k < states.len() && states[k] == state;
    lemma_state_at_finds(g.base_address@, u.text, states, k);
    lemma_state_at_sound(g.base_address@, u.text, states);
}

impl ProjectConfig {
    /// The position of the first group of that name.
    pub fn find_group(&self, name: &String) -> (r: Option<usize>)
        ensures
            r matches Some(i) ==> is_first_group(self.config.state_groups@, name@, i as int)
                && first_group(self.config.state_groups@, name@) == Some(
                self.config.state_groups@[i as int],
            ),
            r is None <==> first_group(self.config.state_groups@, name@) is None,
    {
        let groups = &self.config.state_groups;
        let mut i: usize = 0;
        while i < groups.len()
            invariant
                i <= groups@.len(),
                groups == &self.config.state_groups,
                forall|j: int| 0 <= j < i ==> (#[trigger] groups@[j]).name@ != name@,
            decreases groups@.len() - i,
        {
            if groups[i].name == *name {
                assert(is_first_group(groups@, name@, i as int));
                proof {
                    let k = choose|k: int| is_first_group(groups@, name@, k);
                    lemma_first_group_unique(groups@, name@, i as int, k);
                }
                return Some(i);
            }
            i += 1;
        }
        assert(!exists|k: int| is_first_group(groups@, name@, k));
        None
    }

    /// Where the states of `group` come from: its own list, or the plugin
    /// call that lists them.
    pub fn states_source(&self, group: &StateGroup) -> (r: Result<StatesSource, ProjectConfigError>)
        ensures
            source_holds(spec_states_source(self.base_config, *group), r),
    {
        match &group.ext_wasm_file {
            Some(w) => {
                let url = match ParsedUrl::parse_without_path(group.base_address.as_str()) {
                    Ok(u) => u,
                    Err(e) => {
                        return Err(ProjectConfigError::ParseError(e));
                    },
                };
                let host = match self.base_config.get_state_host(&url) {
                    Some(h) => h,
                    None => {
                        return Err(ProjectConfigError::HostNotFound);
                    },
                };
                proof {
                    reveal_strlit("STATE_HOST");
                    reveal_strlit("GITLAB_ACCESS_TOKEN");
                    reveal_strlit("TOFUYA_PLUGIN_CONFIG");
                }
                let mut config: Vec<(String, String)> = Vec::new();
                config.push((String::from_str("STATE_HOST"), String::from_str(url.as_str())));
                match host.gitlab_access_token {
                    Some(token) => {
                        config.push((String::from_str("GITLAB_ACCESS_TOKEN"), token));
                    },
                    None => {},
                }
                match &group.wasm_config {
                    Some(c) => {
                        config.push((String::from_str("TOFUYA_PLUGIN_CONFIG"), c.clone()));
                    },
                    None => {},
                }
                assert(pairs(config@) =~= spec_plugin_config(
                    url@.text,
                    opt_str_view(host.gitlab_access_token),
                    opt_str_view(group.wasm_config),
                ));
                Ok(StatesSource::Plugin(PluginRequest { wasm_path: w.clone(), config }))
            },
            None => {
                let listed = match &group.states {
                    Some(v) => clone_strings(v),
                    None => Vec::new(),
                };
                proof {
                    if group.states is None {
                        assert(strs(listed@) =~= Seq::<Seq<char>>::empty());
                    }
                }
                Ok(StatesSource::Listed(listed))
            },
        }
    }

    /// Looks up the target of a state of a group. A group that lists its
    /// states is answered at once; for a group whose states come from a
    /// plugin, the plugin call to make is returned, and the answer comes from
    /// `get_target_with_states` once the plugin has listed them.
    pub fn get_target(&self, target_group: &String, target_state: &String) -> (r: Lookup<
        Option<StateTarget>,
        ProjectGetTargetError,
    >)
        ensures
            match first_group(self.config.state_groups@, target_group@) {
                None => r matches Lookup::Answered(Ok(None)),
                Some(g) => match spec_states_source(self.base_config, g) {
                    SourceSpec::Listed(v) => r matches Lookup::Answered(res) && target_holds(
                        g,
                        spec_target_for(g, target_state@, v),
                        res,
                    ),
                    SourceSpec::Plugin(w, c) => r matches Lookup::NeedsPlugin(req)
                        && req.wasm_path@ == w && pairs(req.config@) == c,
                    SourceSpec::BadAddress(e) => r matches Lookup::Answered(
                        Err(ProjectGetTargetError::ProjectErrorError(ProjectConfigError::ParseError(x))),
                    ) && x == e,
                    SourceSpec::NoHost => r matches Lookup::Answered(
                        Err(ProjectGetTargetError::ProjectErrorError(ProjectConfigError::HostNotFound)),
                    ),
                },
            },
            match r {
                Lookup::NeedsPlugin(req) => needs_plugin(*self, target_group@)
                    && plugin_request_holds(*self, target_group@, req),
                Lookup::Answered(res) => !needs_plugin(*self, target_group@)
                    && target_lookup_answer(*self, target_group@, target_state@, res),
            },
    {
        let i = match self.find_group(target_group) {
            Some(i) => i,
            None => {
                return Lookup::Answered(Ok(None));
            },
        };
        let group = &self.config.state_groups[i];
        match self.states_source(group) {
            Ok(StatesSource::Listed(states)) => Lookup::Answered(group.target_for(target_state, &states)),
            Ok(StatesSource::Plugin(req)) => Lookup::NeedsPlugin(req),
            Err(e) => Lookup::Answered(Err(ProjectGetTargetError::ProjectErrorError(e))),
        }
    }

    /// The target of a state of a group, given the states that the group has.
    pub fn get_target_with_states(
        &self,
        target_group: &String,
        target_state: &String,
        states: &Vec<String>,
    ) -> (r: Result<Option<StateTarget>, ProjectGetTargetError>)
        ensures
            target_with_states_answer(*self, target_group@, target_state@, strs(states@), r),
    {
        match self.find_group(target_group) {
            Some(i) => self.config.state_groups[i].target_for(target_state, states),
            None => Ok(None),
        }
    }

    /// Looks up which state of a group has the address `address`. A group
    /// that lists its states is answered at once; otherwise the plugin call
    /// to make is returned, and the answer comes from
    /// `state_from_address_with_states`.
    pub fn state_from_address(&self, target_group: &String, address: &String) -> (r: Lookup<
        Option<String>,
        ProjectGetStateFromAddressError,
    >)
        ensures
            match first_group(self.config.state_groups@, target_group@) {
                None => r matches Lookup::Answered(Ok(None)),
                Some(g) => match spec_states_source(self.base_config, g) {
                    SourceSpec::Listed(v) => r matches Lookup::Answered(Ok(o)) && opt_str_view(o)
                        == spec_state_at(g.base_address@, address@, v),
                    SourceSpec::Plugin(w, c) => r matches Lookup::NeedsPlugin(req)
                        && req.wasm_path@ == w && pairs(req.config@) == c,
                    SourceSpec::BadAddress(e) => r matches Lookup::Answered(
                        Err(
                            ProjectGetStateFromAddressError::ProjectErrorError(
                                ProjectConfigError::ParseError(x),
                            ),
                        ),
                    ) && x == e,
                    SourceSpec::NoHost => r matches Lookup::Answered(
                        Err(
                            ProjectGetStateFromAddressError::ProjectErrorError(
                                ProjectConfigError::HostNotFound,
                            ),
                        ),
                    ),
                },
            },
    {
        let i = match self.find_group(target_group) {
            Some(i) => i,
            None => {
                return Lookup::Answered(Ok(None));
            },
        };
        let group = &self.config.state_groups[i];
        match self.states_source(group) {
            Ok(StatesSource::Listed(states)) => Lookup::Answered(
                Ok(group.state_at_address(address, &states)),
            ),
            Ok(StatesSource::Plugin(req)) => Lookup::NeedsPlugin(req),
            Err(e) => Lookup::Answered(Err(ProjectGetStateFromAddressError::ProjectErrorError(e))),
        }
    }

    /// Which state of a group has the address `address`, given the states
    /// that the group has.
    pub fn state_from_address_with_states(
        &self,
        target_group: &String,
        address: &String,
        states: &Vec<String>,
    ) -> (r: Option<String>)
        ensures
            opt_str_view(r) == state_among(*self, target_group@, address@, strs(states@)),
    {
        match self.find_group(target_group) {
            Some(i) => self.config.state_groups[i].state_at_address(address, states),
            None => None,
        }
    }
}

impl ProjectConfig {
    /// Lists the groups from position `start` on, after the groups `groups`.
    #[verifier::loop_isolation(false)]
    fn scan_from(&self, cwd: &String, start: usize, groups: Vec<Group>) -> (r: ListAction)
        ensures
            scan_holds(*self, cwd@, start as nat, group_models(groups@), r),
            listed_in_order(*self, cwd@, groups@, start as int) ==> listing_complete(*self, cwd@, r),
    {
        let ghost ordered = listed_in_order(*self, cwd@, groups@, start as int);
        let ghost listed = group_models(groups@);
        let ghost target = scan_groups(*self, cwd@, start as nat);
        let mut groups = groups;
        let mut i: usize = start;
        let n = self.config.state_groups.len();
        while i < n
            invariant
                n == self.config.state_groups@.len(),
                listed + target.0 == group_models(groups@) + scan_groups(*self, cwd@, i as nat).0,
                target.1 == scan_groups(*self, cwd@, i as nat).1,
                ordered ==> listed_in_order(*self, cwd@, groups@, i as int),
            decreases n - i,
        {
            let group = &self.config.state_groups[i];
            match self.states_source(group) {
                Ok(StatesSource::Listed(states)) => {
                    let g = group.listing(cwd, &states);
                    let ghost before = groups@;
                    let ghost rest = scan_groups(*self, cwd@, (i + 1) as nat);
                    groups.push(g);
                    assert(group_models(groups@) =~= group_models(before).push(group_model(g)));
                    assert(group_models(before) + (seq![group_model(g)] + rest.0) =~= group_models(
                        before,
                    ).push(group_model(g)) + rest.0);
                    i = i + 1;
                },
                Ok(StatesSource::Plugin(req)) => {
                    assert(group_models(groups@) + scan_groups(*self, cwd@, i as nat).0 =~= group_models(
                        groups@,
                    ));
                    return ListAction::AskPlugin(ListProgress { next: i, groups }, req);
                },
                Err(e) => {
                    return ListAction::Finished(Err(e));
                },
            }
        }
        assert(group_models(groups@) + scan_groups(*self, cwd@, i as nat).0 =~= group_models(groups@));
        ListAction::Finished(Ok(groups))
    }

    /// Takes one step of listing the groups with their states, asking a
    /// plugin for the states of each group whose states come from one, and
    /// stopping at the first failure.
    pub fn list_step(&self, cwd: &String, event: ListEvent) -> (r: ListAction)
        ensures
            list_step_holds(*self, cwd@, event, r),
            match event {
                ListEvent::Begin => listing_complete(*self, cwd@, r),
                ListEvent::Answered(p, Ok(_)) => p.next < self.config.state_groups@.len()
                    && listed_in_order(*self, cwd@, p.groups@, p.next as int) ==> listing_complete(
                    *self,
                    cwd@,
                    r,
                ),
                ListEvent::Answered(_, Err(_)) => r is Finished,
            },
    {
        match event {
            ListEvent::Begin => {
                let groups: Vec<Group> = Vec::new();
                assert(group_models(groups@) =~= Seq::<GroupModel>::empty());
                self.scan_from(cwd, 0, groups)
            },
            ListEvent::Answered(_, Err(e)) => ListAction::Finished(Err(ProjectConfigError::PluginError(e))),
            ListEvent::Answered(progress, Ok(states)) => {
                let mut groups = progress.groups;
                if progress.next < self.config.state_groups.len() {
                    let g = self.config.state_groups[progress.next].listing(cwd, &states);
                    let ghost before = groups@;
                    groups.push(g);
                    assert(group_models(groups@) =~= group_models(before).push(group_model(g)));
                    self.scan_from(cwd, progress.next + 1, groups)
                } else {
                    self.scan_from(cwd, progress.next, groups)
                }
            },
        }
    }
}

} // verus!