use vstd::prelude::*;
use crate::domain::tofu::models::{Group, GroupState, GroupStatus};
use crate::outbound::project_config::strs;
use crate::base::component::{build_component, component_encode, wit_embed, EmbedError};
use crate::domain::tofu::service::{
    ServiceCleanError, ServiceInitError, ServiceListError, ServiceStatusError,
};

verus! {

/// The rows of the group listing: one row `[group, state]` for each state,
/// groups in order and each group's states in order.
pub open spec fn spec_list_rows(groups: Seq<Group>) -> Seq<Seq<Seq<char>>>
    decreases groups.len(),
{
    if groups.len() == 0 {
        Seq::empty()
    } else {
        spec_list_rows(groups.drop_last()) + group_rows(groups.last())
    }
}

pub open spec fn group_rows(g: Group) -> Seq<Seq<Seq<char>>> {
    g.states@.map_values(|s: GroupState| seq![g.name@, s.name@])
}

pub open spec fn rows_view(rows: Seq<Vec<String>>) -> Seq<Seq<Seq<char>>> {
    rows.map_values(|r: Vec<String>| strs(r@))
}

/// A cell of the status table; a highlighted one is shown in a warning colour.
#[derive(Debug)]
pub struct TableCell {
    pub text: String,
    pub highlighted: bool,
}

pub open spec fn cells_view(cells: Seq<TableCell>) -> Seq<(Seq<char>, bool)> {
    cells.map_values(|c: TableCell| (c.text@, c.highlighted))
}

/// The status row of a group: an uninitialised directory, a directory whose
/// state cannot be told, or the state and its address.
pub open spec fn spec_status_row(s: GroupStatus) -> Seq<(Seq<char>, bool)> {
    match s.address {
        None => seq![(s.name@, false), ("Uninitialized"@, true), ("Uninitialized"@, true)],
        Some(a) => match s.state {
            None => seq![(s.name@, false), ("Unknown"@, true), (a@, false)],
            Some(st) => seq![(s.name@, false), (st@, false), (a@, false)],
        },
    }
}

fn cell(text: String, highlighted: bool) -> (r: TableCell)
    ensures
        r.text == text,
        r.highlighted == highlighted,
{
    TableCell { text, highlighted }
}

/// The rows of the `list` table.
pub fn list_rows(groups: &Vec<Group>) -> (r: Vec<Vec<String>>)
    ensures
        rows_view(r@) == spec_list_rows(groups@),
{
    let mut rows: Vec<Vec<String>> = Vec::new();
    let mut i: usize = 0;
    assert(groups@.take(0) =~= Seq::<Group>::empty());
    while i < groups.len()
        invariant
            i <= groups@.len(),
            rows_view(rows@) == spec_list_rows(groups@.take(i as int)),
        decreases groups@.len() - i,
    {
        let group = &groups[i];
        let ghost before = rows_view(rows@);
        let mut j: usize = 0;
        while j < group.states.len()
            invariant
                j <= group.states@.len(),
                rows_view(rows@) == before + group_rows(*group).take(j as int),
            decreases group.states@.len() - j,
        {
            let mut row: Vec<String> = Vec::new();
            row.push(group.name.clone());
            row.push(group.states[j].name.clone());
            let ghost prev = rows@;
            rows.push(row);
            assert(strs(row@) =~= seq![group.name@, group.states@[j as int].name@]);
            assert(group_rows(*group).take(j + 1) =~= group_rows(*group).take(j as int).push(
                seq![group.name@, group.states@[j as int].name@],
            ));
            assert(rows_view(rows@) =~= rows_view(prev).push(strs(row@)));
            j += 1;
        }
        assert(group_rows(*group).take(j as int) =~= group_rows(*group));
        assert(groups@.take(i + 1).drop_last() =~= groups@.take(i as int));
        assert(groups@.take(i + 1).last() == groups@[i as int]);
        i += 1;
    }
    assert(groups@.take(groups@.len() as int) =~= groups@);
    rows
}

/// The rows of the `status` table.
pub fn status_rows(statuses: &Vec<GroupStatus>) -> (r: Vec<Vec<TableCell>>)
    ensures
        r@.len() == statuses@.len(),
        forall|i: int|
            0 <= i < statuses@.len() ==> cells_view((#[trigger] r@[i])@) == spec_status_row(
                statuses@[i],
            ),
{
    proof {
        reveal_strlit("Uninitialized");
        reveal_strlit("Unknown");
    }
    let mut rows: Vec<Vec<TableCell>> = Vec::new();
    let mut i: usize = 0;
    while i < statuses.len()
        invariant
            i <= statuses@.len(),
            rows@.len() == i,
            forall|k: int|
                0 <= k < i ==> cells_view((#[trigger] rows@[k])@) == spec_status_row(statuses@[k]),
        decreases statuses@.len() - i,
    {
        let status = &statuses[i];
        let mut row: Vec<TableCell> = Vec::new();
        row.push(cell(status.name.clone(), false));
        match &status.address {
            None => {
                row.push(cell(String::from_str("Uninitialized"), true));
                row.push(cell(String::from_str("Uninitialized"), true));
            },
            Some(address) => match &status.state {
                None => {
                    row.push(cell(String::from_str("Unknown"), true));
                    row.push(cell(address.clone(), false));
                },
                Some(state) => {
                    row.push(cell(state.clone(), false));
                    row.push(cell(address.clone(), false));
                },
            },
        }
        assert(cells_view(row@) =~= spec_status_row(statuses@[i as int]));
        rows.push(row);
        i += 1;
    }
    rows
}

/// Why a command of the command-line interface failed.
#[derive(Debug)]
pub enum CliError {
    InitError(ServiceInitError),
    CleanError(ServiceCleanError),
    ListError(ServiceListError),
    StatusError(ServiceStatusError),
    AnyhowError(anyhow::Error),
    IOError(std::io::Error),
    WITError,
}

/// The world that plugins implement.
pub open spec fn plugin_world() -> Seq<char> {
    "tofuya-world"@
}

/// The name under which the WASI adapter is linked.
pub open spec fn adapter_name() -> Seq<char> {
    "wasi_snapshot_preview1"@
}

/// Turning a plugin's core module into a component: the plugin world of
/// `interface` is embedded and the module is encoded with the WASI adapter;
/// an interface that is no WIT package is refused.
pub open spec fn embed_component_holds(
    core: Seq<u8>,
    interface: Seq<u8>,
    adapter: Seq<u8>,
    r: Result<Vec<u8>, CliError>,
) -> bool {
    match wit_embed(core, interface, plugin_world()) {
        None => r matches Err(CliError::AnyhowError(_)),
        Some(None) => r matches Err(CliError::WITError),
        Some(Some(m)) => match component_encode(m, adapter_name(), adapter) {
            None => r matches Err(CliError::AnyhowError(_)),
            Some(c) => r matches Ok(b) && b@ == c,
        },
    }
}

/// The component built from a plugin's core module.
pub fn embed_component(core_wasm: Vec<u8>, interface: &[u8], wasi_adapter: &[u8]) -> (r: Result<
    Vec<u8>,
    CliError,
>)
    ensures
        embed_component_holds(core_wasm@, interface@, wasi_adapter@, r),
{
    proof {
        reveal_strlit("tofuya-world");
        reveal_strlit("wasi_snapshot_preview1");
    }
    match build_component(core_wasm, interface, "tofuya-world", "wasi_snapshot_preview1", wasi_adapter) {
        Ok(component) => Ok(component),
        Err(EmbedError::NotAPackage) => Err(CliError::WITError),
        Err(EmbedError::Failed(e)) => Err(CliError::AnyhowError(e)),
    }
}

} // verus!
