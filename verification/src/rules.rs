//! The interception rule manager, and the model of the persistent OS
//! state the tool mutates.
//!
//! Every mutation the tool ever performs is described as an [`OsAction`].
//! The library only plans actions; carrying them out is an OS concern.
//! Planning and execution are kept apart so that the plans — their exact
//! contents, their order, and their idempotence over the state model —
//! can be verified.

use crate::arbitrate::{MSEDGE_DIR, MSEDGE_PATH, MSEDGE_PROXY_DIR};
use crate::text::to_owned_string;
use vstd::prelude::*;
use vstd::map_lib::*;
use vstd::seq_lib::*;

verus! {

/// Registry key of the per-executable substitution rule for the forced
/// browser.
pub const IFEO_KEY: &'static str =
    "SOFTWARE\\Microsoft\\Windows NT\\CurrentVersion\\Image File Execution Options\\msedge.exe";

/// Filter subkey of the substitution rule, scoping it to one full path.
pub const IFEO_FILTER_KEY: &'static str =
    "SOFTWARE\\Microsoft\\Windows NT\\CurrentVersion\\Image File Execution Options\\msedge.exe\\0";

/// A registry hive root.
#[derive(PartialEq, Eq, Structural, Clone, Copy, Debug)]
pub enum RegRoot {
    CurrentUser,
    LocalMachine,
}

/// A registry value.
#[derive(PartialEq, Eq, Debug)]
pub enum RegValue {
    Str(String),
    U32(u32),
}

/// Mathematical form of a registry value.
pub enum RegValueModel {
    Str(Seq<char>),
    U32(u32),
}

impl View for RegValue {
    type V = RegValueModel;

    open spec fn view(&self) -> RegValueModel {
        match self {
            RegValue::Str(s) => RegValueModel::Str(s@),
            RegValue::U32(v) => RegValueModel::U32(*v),
        }
    }
}

/// One mutation of persistent OS state.
#[derive(PartialEq, Eq, Debug)]
pub enum OsAction {
    /// Create a directory and any missing parents.
    CreateDirAll { path: String },
    /// Write an embedded resource to a file.
    UnpackResource { resource: u16, dest: String },
    /// Set one registry value; missing keys on the way are created.
    SetRegValue { root: RegRoot, key: String, name: String, value: RegValue },
    /// Delete a registry key with everything under it.
    DeleteRegTree { root: RegRoot, key: String },
    /// Write a shell shortcut.
    CreateShortcut { link: String, target: String, description: String },
    /// Turn `path` into a directory junction resolving to `target`.
    CreateJunction { path: String, target: String },
    /// Delete the junction at `path`.
    RemoveJunction { path: String },
    /// Delete one file.
    RemoveFile { path: String },
    /// Delete a directory tree.
    RemoveDirAll { path: String },
    /// Hand a command to the shell's generic open action; no persistent
    /// state changes.
    ShellOpen { command: String },
}

/// Mathematical form of an [`OsAction`].
pub enum OsActionModel {
    CreateDirAll { path: Seq<char> },
    UnpackResource { resource: u16, dest: Seq<char> },
    SetRegValue { root: RegRoot, key: Seq<char>, name: Seq<char>, value: RegValueModel },
    DeleteRegTree { root: RegRoot, key: Seq<char> },
    CreateShortcut { link: Seq<char>, target: Seq<char>, description: Seq<char> },
    CreateJunction { path: Seq<char>, target: Seq<char> },
    RemoveJunction { path: Seq<char> },
    RemoveFile { path: Seq<char> },
    RemoveDirAll { path: Seq<char> },
    ShellOpen { command: Seq<char> },
}

impl View for OsAction {
    type V = OsActionModel;

    open spec fn view(&self) -> OsActionModel {
        match self {
            OsAction::CreateDirAll { path } => OsActionModel::CreateDirAll { path: path@ },
            OsAction::UnpackResource { resource, dest } => OsActionModel::UnpackResource {
                resource: *resource,
                dest: dest@,
            },
            OsAction::SetRegValue { root, key, name, value } => OsActionModel::SetRegValue {
                root: *root,
                key: key@,
                name: name@,
                value: value@,
            },
            OsAction::DeleteRegTree { root, key } => OsActionModel::DeleteRegTree {
                root: *root,
                key: key@,
            },
            OsAction::CreateShortcut { link, target, description } => OsActionModel::CreateShortcut {
                link: link@,
                target: target@,
                description: description@,
            },
            OsAction::CreateJunction { path, target } => OsActionModel::CreateJunction {
                path: path@,
                target: target@,
            },
            OsAction::RemoveJunction { path } => OsActionModel::RemoveJunction { path: path@ },
            OsAction::RemoveFile { path } => OsActionModel::RemoveFile { path: path@ },
            OsAction::RemoveDirAll { path } => OsActionModel::RemoveDirAll { path: path@ },
            OsAction::ShellOpen { command } => OsActionModel::ShellOpen { command: command@ },
        }
    }
}

/// The models of a sequence of planned actions.
pub open spec fn actions_view(v: Seq<OsAction>) -> Seq<OsActionModel> {
    v.map_values(|a: OsAction| a@)
}

/// The contents of a file in the state model.
pub enum FileModel {
    Resource(u16),
    Shortcut(Seq<char>, Seq<char>),
}

/// Model of the persistent OS state this tool touches: registry values
/// keyed by hive, key path and value name; directories; files; and
/// directory junctions.
#[verifier::ext_equal]
pub struct OsModel {
    pub registry: Map<(RegRoot, Seq<char>, Seq<char>), RegValueModel>,
    pub dirs: Set<Seq<char>>,
    pub files: Map<Seq<char>, FileModel>,
    pub junctions: Map<Seq<char>, Seq<char>>,
}

/// Whether path `p` lies at or under `dir`.
pub open spec fn path_within(p: Seq<char>, dir: Seq<char>) -> bool {
    dir.is_prefix_of(p)
}

/// The state after one action.
pub open spec fn apply_action(s: OsModel, a: OsActionModel) -> OsModel {
    match a {
        OsActionModel::CreateDirAll { path } => OsModel { dirs: s.dirs.insert(path), ..s },
        OsActionModel::UnpackResource { resource, dest } => OsModel {
            files: s.files.insert(dest, FileModel::Resource(resource)),
            ..s
        },
        OsActionModel::SetRegValue { root, key, name, value } => OsModel {
            registry: s.registry.insert((root, key, name), value),
            ..s
        },
        OsActionModel::DeleteRegTree { root, key } => OsModel {
            registry: s.registry.remove_keys(
                Set::new(
                    |k: (RegRoot, Seq<char>, Seq<char>)| k.0 == root && path_within(k.1, key),
                ),
            ),
            ..s
        },
        OsActionModel::CreateShortcut { link, target, description } => OsModel {
            files: s.files.insert(link, FileModel::Shortcut(target, description)),
            ..s
        },
        OsActionModel::CreateJunction { path, target } => OsModel {
            junctions: s.junctions.insert(path, target),
            ..s
        },
        OsActionModel::RemoveJunction { path } => OsModel {
            junctions: s.junctions.remove(path),
            ..s
        },
        OsActionModel::RemoveFile { path } => OsModel { files: s.files.remove(path), ..s },
        OsActionModel::RemoveDirAll { path } => OsModel {
            dirs: s.dirs.difference(Set::new(|p: Seq<char>| path_within(p, path))),
            files: s.files.remove_keys(Set::new(|p: Seq<char>| path_within(p, path))),
            junctions: s.junctions.remove_keys(Set::new(|p: Seq<char>| path_within(p, path))),
            ..s
        },
        OsActionModel::ShellOpen { command: _ } => s,
    }
}

/// The state after a whole plan, applied front to back.
pub open spec fn apply_all(s: OsModel, actions: Seq<OsActionModel>) -> OsModel
    decreases actions.len(),
{
    if actions.len() == 0 {
        s
    } else {
        apply_action(apply_all(s, actions.drop_last()), actions.last())
    }
}

/// The actions that install the interception: the proxy link comes first,
/// so that at no instant does the substitution rule exist without a
/// working path to the real browser.
pub open spec fn interception_install_model(debugger_command: Seq<char>) -> Seq<OsActionModel> {
    seq![
        OsActionModel::CreateJunction { path: MSEDGE_PROXY_DIR@, target: MSEDGE_DIR@ },
        OsActionModel::SetRegValue {
            root: RegRoot::LocalMachine,
            key: IFEO_KEY@,
            name: "UseFilter"@,
            value: RegValueModel::U32(1),
        },
        OsActionModel::SetRegValue {
            root: RegRoot::LocalMachine,
            key: IFEO_FILTER_KEY@,
            name: "Debugger"@,
            value: RegValueModel::Str(debugger_command),
        },
        OsActionModel::SetRegValue {
            root: RegRoot::LocalMachine,
            key: IFEO_FILTER_KEY@,
            name: "FilterFullPath"@,
            value: RegValueModel::Str(MSEDGE_PATH@),
        },
    ]
}

/// The actions that remove the interception: the substitution rule goes
/// first, the proxy link second — the reverse of installation — so that a
/// crash between the two never leaves a rule pointing at nothing.
pub open spec fn interception_remove_model() -> Seq<OsActionModel> {
    seq![
        OsActionModel::DeleteRegTree { root: RegRoot::LocalMachine, key: IFEO_KEY@ },
        OsActionModel::RemoveJunction { path: MSEDGE_PROXY_DIR@ },
    ]
}

/// Plans the installation of the interception rule and its proxy link.
/// `debugger_command` is the quoted path of this tool's binary, the value
/// the substitution rule points at.
pub fn interception_install(debugger_command: &str) -> (plan: Vec<OsAction>)
    ensures
        actions_view(plan@) == interception_install_model(debugger_command@),
{
    let mut plan: Vec<OsAction> = Vec::new();
    plan.push(
        OsAction::CreateJunction {
            path: to_owned_string(MSEDGE_PROXY_DIR),
            target: to_owned_string(MSEDGE_DIR),
        },
    );
    plan.push(
        OsAction::SetRegValue {
            root: RegRoot::LocalMachine,
            key: to_owned_string(IFEO_KEY),
            name: to_owned_string("UseFilter"),
            value: RegValue::U32(1),
        },
    );
    plan.push(
        OsAction::SetRegValue {
            root: RegRoot::LocalMachine,
            key: to_owned_string(IFEO_FILTER_KEY),
            name: to_owned_string("Debugger"),
            value: RegValue::Str(to_owned_string(debugger_command)),
        },
    );
    plan.push(
        OsAction::SetRegValue {
            root: RegRoot::LocalMachine,
            key: to_owned_string(IFEO_FILTER_KEY),
            name: to_owned_string("FilterFullPath"),
            value: RegValue::Str(to_owned_string(MSEDGE_PATH)),
        },
    );
    proof {
        assert(actions_view(plan@) =~= interception_install_model(debugger_command@));
    }
    plan
}

/// Plans the removal of the interception rule and its proxy link.
pub fn interception_remove() -> (plan: Vec<OsAction>)
    ensures
        actions_view(plan@) == interception_remove_model(),
{
    let mut plan: Vec<OsAction> = Vec::new();
    plan.push(
        OsAction::DeleteRegTree { root: RegRoot::LocalMachine, key: to_owned_string(IFEO_KEY) },
    );
    plan.push(OsAction::RemoveJunction { path: to_owned_string(MSEDGE_PROXY_DIR) });
    proof {
        assert(actions_view(plan@) =~= interception_remove_model());
    }
    plan
}

/// Installing the interception twice in a row leaves the same OS state as
/// installing it once.
pub proof fn lemma_interception_install_idempotent(s: OsModel, debugger_command: Seq<char>)
    ensures
        apply_all(
            apply_all(s, interception_install_model(debugger_command)),
            interception_install_model(debugger_command),
        ) == apply_all(s, interception_install_model(debugger_command)),
{
    let m = interception_install_model(debugger_command);
    let once = apply_all(s, m);
    let twice = apply_all(once, m);
    lemma_apply_all_unfold4(s, m);
    lemma_apply_all_unfold4(once, m);
    assert(twice.registry =~= once.registry);
    assert(twice.junctions =~= once.junctions);
    assert(twice =~= once);
}

/// Removing the interception twice in a row leaves the same OS state as
/// removing it once.
pub proof fn lemma_interception_remove_idempotent(s: OsModel)
    ensures
        apply_all(apply_all(s, interception_remove_model()), interception_remove_model())
            == apply_all(s, interception_remove_model()),
{
    let m = interception_remove_model();
    let once = apply_all(s, m);
    let twice = apply_all(once, m);
    lemma_apply_all_unfold2(s, m);
    lemma_apply_all_unfold2(once, m);
    assert(twice.registry =~= once.registry);
    assert(twice.junctions =~= once.junctions);
    assert(twice =~= once);
}

/// After installation the substitution rule and its proxy link are both
/// present: the pair the arbitrator depends on exists together.
pub proof fn lemma_interception_pair_present(s: OsModel, debugger_command: Seq<char>)
    ensures
        ({
            let t = apply_all(s, interception_install_model(debugger_command));
            &&& t.registry.contains_pair(
                (RegRoot::LocalMachine, IFEO_FILTER_KEY@, "Debugger"@),
                RegValueModel::Str(debugger_command),
            )
            &&& t.junctions.contains_pair(MSEDGE_PROXY_DIR@, MSEDGE_DIR@)
        }),
{
    lemma_apply_all_unfold4(s, interception_install_model(debugger_command));
    reveal_strlit("Debugger");
    reveal_strlit("FilterFullPath");
    assert("Debugger"@.len() != "FilterFullPath"@.len());
}

/// Spells out the application of a two-action plan.
proof fn lemma_apply_all_unfold2(s: OsModel, m: Seq<OsActionModel>)
    requires
        m.len() == 2,
    ensures
        apply_all(s, m) == apply_action(apply_action(s, m[0]), m[1]),
{
    let m1 = m.drop_last();
    assert(m1.drop_last() =~= Seq::<OsActionModel>::empty());
    assert(apply_all(s, m1.drop_last()) == s);
    assert(m1.last() == m[0]);
    assert(apply_all(s, m1) == apply_action(s, m[0]));
    assert(m.last() == m[1]);
}

/// Spells out the application of a four-action plan.
proof fn lemma_apply_all_unfold4(s: OsModel, m: Seq<OsActionModel>)
    requires
        m.len() == 4,
    ensures
        apply_all(s, m) == apply_action(
            apply_action(apply_action(apply_action(s, m[0]), m[1]), m[2]),
            m[3],
        ),
{
    let m3 = m.drop_last();
    let m2 = m3.drop_last();
    lemma_apply_all_unfold2(s, m2);
    assert(m2[0] == m[0] && m2[1] == m[1]);
    assert(m3.last() == m[2]);
    assert(apply_all(s, m3) == apply_action(apply_all(s, m2), m[2]));
    assert(m.last() == m[3]);
    assert(apply_all(s, m) == apply_action(apply_all(s, m3), m[3]));
}

} // verus!
