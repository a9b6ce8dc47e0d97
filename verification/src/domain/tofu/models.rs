use vstd::prelude::*;
use crate::base::address::ParsedUrl;

verus! {

/// Which tool manages a state: its backend is configured by that tool's binary.
#[derive(Clone, Copy, Debug, PartialEq, Eq, Structural)]
pub enum StateType {
    OpenTofu,
    Terraform,
}

impl Default for StateType {
    fn default() -> (r: Self)
        ensures
            r == StateType::OpenTofu,
    {
        StateType::OpenTofu
    }
}

pub open spec fn spec_binary_name(t: StateType) -> Seq<char> {
    match t {
        StateType::OpenTofu => seq!['t', 'o', 'f', 'u'],
        StateType::Terraform => seq!['t', 'e', 'r', 'r', 'a', 'f', 'o', 'r', 'm'],
    }
}

impl StateType {
    /// The name of the executable that manages states of this type.
    pub fn binary_name(&self) -> (r: String)
        ensures
            r@ == spec_binary_name(*self),
    {
        match self {
            StateType::OpenTofu => {
                proof {
                    reveal_strlit("tofu");
                }
                String::from_str("tofu")
            },
            StateType::Terraform => {
                proof {
                    reveal_strlit("terraform");
                }
                String::from_str("terraform")
            },
        }
    }
}

/// What is known of a group's working directory: the state it was
/// initialised against, if it can be told, and the backend address.
#[derive(Clone, Debug)]
pub struct GroupStatus {
    pub name: String,
    pub state: Option<String>,
    pub address: Option<String>,
}

/// Where a state lives and which working directory it is used from.
#[derive(Clone, Debug)]
pub struct StateTarget {
    pub url: ParsedUrl,
    pub state_type: StateType,
    pub dir: String,
}

/// One state of a group.
#[derive(Clone, Debug)]
pub struct GroupState {
    pub name: String,
}

/// A group of states that share a working directory.
#[derive(Clone, Debug)]
pub struct Group {
    pub name: String,
    pub states: Vec<GroupState>,
    pub dir: String,
}

#[derive(Clone, Copy, Debug, PartialEq, Eq, Structural)]
pub enum ConfigStateHostType {
    Gitlab,
}

/// A host that stores states, with the credentials used for it.
#[derive(Clone, Debug)]
pub struct ConfigStateHost {
    pub _type: ConfigStateHostType,
    pub host: String,
    pub gitlab_username: Option<String>,
    pub gitlab_access_token: Option<String>,
}

} // verus!
