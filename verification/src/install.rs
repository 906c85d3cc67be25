//! Install and uninstall planning, and the step sequencer.
//!
//! Installation is a fixed, ordered list of idempotent steps. Each step is
//! planned here as data — the OS mutations to perform and the
//! human-readable outcome to show — while performing them is an OS
//! concern. The sequencer tracks progress through the steps, in both the
//! unattended (straight-through) and attended (one step per tick) modes,
//! and halts at the first failure.

use crate::rules::{
    actions_view, interception_install, interception_install_model, interception_remove,
    interception_remove_model, OsAction, OsActionModel, RegRoot, RegValue, RegValueModel,
};
use crate::text::{concat2, concat3, to_owned_string};
use vstd::prelude::*;
use vstd::seq_lib::*;

verus! {

/// Name of the folder, application identity and shortcut.
pub const APP_ID: &'static str = "Wedge";

/// Display name of the application.
pub const APP_NAME: &'static str = "Wedge";

/// Folder under the local application-data directory that receives the
/// installed files.
pub const INSTALL_FOLDER: &'static str = "Wedge";

/// File name of the deflector binary.
pub const BINARY_NAME: &'static str = "wedge.exe";

/// File name of the uninstaller binary.
pub const UNINSTALLER_NAME: &'static str = "wedge uninstaller.exe";

/// File name of the license text.
pub const LICENSE_NAME: &'static str = "LICENSE";

/// Number of steps the installer drives; step indices below 1 and above
/// `STEP_COUNT - 1` plan nothing.
pub const STEP_COUNT: usize = 6;

/// Milliseconds between two steps of an attended install.
pub const STEP_INTERVAL: u32 = 100;

/// Embedded resource holding the deflector binary.
pub const BINARY_RESOURCE: u16 = 301;

/// Embedded resource holding the uninstaller binary.
pub const UNINSTALLER_RESOURCE: u16 = 302;

/// Embedded resource holding the license text.
pub const LICENSE_RESOURCE: u16 = 303;

/// The values an install or uninstall plan depends on: the two
/// user-specific folder locations read from the OS, and the total size of
/// the unpacked files as reported back by the unpack step.
pub struct InstallContext {
    /// The local application-data folder.
    pub local_appdata: String,
    /// The user's program-shortcuts folder.
    pub start_menu: String,
    /// Bytes unpacked so far; feeds the uninstall registration.
    pub install_size: u32,
}

/// The planned actions and outcome message of one step.
pub struct StepPlan {
    pub actions: Vec<OsAction>,
    pub message: String,
}

/// Directory that receives the installed files.
pub open spec fn spec_install_dir(appdata: Seq<char>) -> Seq<char> {
    appdata + "\\Wedge"@
}

/// Path of the installed deflector binary.
pub open spec fn spec_binary_path(appdata: Seq<char>) -> Seq<char> {
    spec_install_dir(appdata) + "\\wedge.exe"@
}

/// Path of the installed uninstaller binary.
pub open spec fn spec_uninstaller_path(appdata: Seq<char>) -> Seq<char> {
    spec_install_dir(appdata) + "\\wedge uninstaller.exe"@
}

/// Path of the installed license text.
pub open spec fn spec_license_path(appdata: Seq<char>) -> Seq<char> {
    spec_install_dir(appdata) + "\\LICENSE"@
}

/// `s` wrapped in double quotes, as command lines demand of paths with
/// spaces.
pub open spec fn spec_quoted(s: Seq<char>) -> Seq<char> {
    "\""@ + s + "\""@
}

/// Path of the start-menu shortcut.
pub open spec fn spec_shortcut_path(start_menu: Seq<char>) -> Seq<char> {
    start_menu + "\\Wedge.lnk"@
}

/// The directory that receives the installed files.
pub fn install_dir(ctx: &InstallContext) -> (r: String)
    ensures
        r@ == spec_install_dir(ctx.local_appdata@),
{
    concat2(ctx.local_appdata.as_str(), "\\Wedge")
}

/// `s` wrapped in double quotes.
pub fn quoted(s: &str) -> (r: String)
    ensures
        r@ == spec_quoted(s@),
{
    concat3("\"", s, "\"")
}

/// Step 1: create the install directory and unpack the three embedded
/// resources into it.
pub open spec fn step_unpack_model(appdata: Seq<char>) -> (Seq<OsActionModel>, Seq<char>) {
    (
        seq![
            OsActionModel::CreateDirAll { path: spec_install_dir(appdata) },
            OsActionModel::UnpackResource {
                resource: 301,
                dest: spec_binary_path(appdata),
            },
            OsActionModel::UnpackResource {
                resource: 302,
                dest: spec_uninstaller_path(appdata),
            },
            OsActionModel::UnpackResource {
                resource: 303,
                dest: spec_license_path(appdata),
            },
        ],
        "Created install location `"@ + spec_install_dir(appdata) + "`"@ + "\nUnpacked `"@
            + spec_binary_path(appdata) + "`"@ + "\nUnpacked `"@ + spec_uninstaller_path(appdata)
            + "`"@ + "\nUnpacked `"@ + spec_license_path(appdata) + "`"@,
    )
}

/// Step 2: register the application, its protocol class, and the
/// uninstall entry.
pub open spec fn step_register_model(appdata: Seq<char>, size: u32) -> (
    Seq<OsActionModel>,
    Seq<char>,
) {
    let quoted_install = spec_quoted(spec_install_dir(appdata));
    let quoted_binary = spec_quoted(spec_binary_path(appdata));
    let quoted_uninstaller = spec_quoted(spec_uninstaller_path(appdata));
    (
        seq![
            OsActionModel::SetRegValue {
                root: RegRoot::CurrentUser,
                key: "Software\\Microsoft\\Windows\\CurrentVersion\\App Paths\\wedge.exe"@,
                name: ""@,
                value: RegValueModel::Str(quoted_binary),
            },
            OsActionModel::SetRegValue {
                root: RegRoot::CurrentUser,
                key: "Software\\Microsoft\\Windows\\CurrentVersion\\App Paths\\wedge.exe"@,
                name: "Path"@,
                value: RegValueModel::Str(quoted_install),
            },
            OsActionModel::SetRegValue {
                root: RegRoot::CurrentUser,
                key: "Software\\Classes\\Wedge"@,
                name: ""@,
                value: RegValueModel::Str("URL: Microsoft Edge Protocol Deflector"@),
            },
            OsActionModel::SetRegValue {
                root: RegRoot::CurrentUser,
                key: "Software\\Classes\\Wedge"@,
                name: "URL Protocol"@,
                value: RegValueModel::Str(""@),
            },
            OsActionModel::SetRegValue {
                root: RegRoot::CurrentUser,
                key: "Software\\Classes\\Wedge\\DefaultIcon"@,
                name: ""@,
                value: RegValueModel::Str(quoted_binary),
            },
            OsActionModel::SetRegValue {
                root: RegRoot::CurrentUser,
                key: "Software\\Classes\\Wedge\\shell\\open\\command"@,
                name: ""@,
                value: RegValueModel::Str(quoted_binary + " \"%1\""@),
            },
            OsActionModel::SetRegValue {
                root: RegRoot::CurrentUser,
                key: "Software\\RegisteredApplications"@,
                name: "Wedge"@,
                value: RegValueModel::Str("Software\\Clients\\Wedge\\Capabilities"@),
            },
            OsActionModel::SetRegValue {
                root: RegRoot::CurrentUser,
                key: "Software\\Microsoft\\Windows\\CurrentVersion\\Uninstall\\Wedge"@,
                name: "DisplayIcon"@,
                value: RegValueModel::Str(quoted_binary),
            },
            OsActionModel::SetRegValue {
                root: RegRoot::CurrentUser,
                key: "Software\\Microsoft\\Windows\\CurrentVersion\\Uninstall\\Wedge"@,
                name: "DisplayName"@,
                value: RegValueModel::Str("Wedge"@),
            },
            OsActionModel::SetRegValue {
                root: RegRoot::CurrentUser,
                key: "Software\\Microsoft\\Windows\\CurrentVersion\\Uninstall\\Wedge"@,
                name: "DisplayVersion"@,
                value: RegValueModel::Str("0.1.0"@),
            },
            OsActionModel::SetRegValue {
                root: RegRoot::CurrentUser,
                key: "Software\\Microsoft\\Windows\\CurrentVersion\\Uninstall\\Wedge"@,
                name: "EstimatedSize"@,
                value: RegValueModel::U32(size / 1024),
            },
            OsActionModel::SetRegValue {
                root: RegRoot::CurrentUser,
                key: "Software\\Microsoft\\Windows\\CurrentVersion\\Uninstall\\Wedge"@,
                name: "InstallLocation"@,
                value: RegValueModel::Str(quoted_install),
            },
            OsActionModel::SetRegValue {
                root: RegRoot::CurrentUser,
                key: "Software\\Microsoft\\Windows\\CurrentVersion\\Uninstall\\Wedge"@,
                name: "NoModify"@,
                value: RegValueModel::U32(1),
            },
            OsActionModel::SetRegValue {
                root: RegRoot::CurrentUser,
                key: "Software\\Microsoft\\Windows\\CurrentVersion\\Uninstall\\Wedge"@,
                name: "NoRepair"@,
                value: RegValueModel::U32(1),
            },
            OsActionModel::SetRegValue {
                root: RegRoot::CurrentUser,
                key: "Software\\Microsoft\\Windows\\CurrentVersion\\Uninstall\\Wedge"@,
                name: "Publisher"@,
                value: RegValueModel::Str("Marc Guiselin"@),
            },
            OsActionModel::SetRegValue {
                root: RegRoot::CurrentUser,
                key: "Software\\Microsoft\\Windows\\CurrentVersion\\Uninstall\\Wedge"@,
                name: "UninstallString"@,
                value: RegValueModel::Str(quoted_uninstaller),
            },
        ],
        "Registered application"@,
    )
}

/// Step 3: write the start-menu shortcut.
pub open spec fn step_shortcut_model(appdata: Seq<char>, start_menu: Seq<char>) -> (
    Seq<OsActionModel>,
    Seq<char>,
) {
    (
        seq![
            OsActionModel::CreateShortcut {
                link: spec_shortcut_path(start_menu),
                target: spec_quoted(spec_binary_path(appdata)),
                description: "Wedge - The simple Open-Source Edge Deflector"@,
            },
        ],
        "Created start menu shortcut"@,
    )
}

/// Step 4: install the interception rule and its proxy link.
pub open spec fn step_interception_model(appdata: Seq<char>) -> (Seq<OsActionModel>, Seq<char>) {
    (interception_install_model(spec_quoted(spec_binary_path(appdata))), "Registered IFEO"@)
}

/// Step 5: open a forced-protocol link so the user sees the redirection
/// working.
pub open spec fn step_confirm_model() -> (Seq<OsActionModel>, Seq<char>) {
    (
        seq![
            OsActionModel::ShellOpen {
                command:
                    "microsoft-edge:https://www.bing.com/#notify-redirect-extension-successful-wedge-install"@,
            },
        ],
        "All steps completed successfully! You may now close this installer.\nWedge can be easily uninstalled in windows Apps & Features"@,
    )
}

/// What step `step` plans: its actions and its outcome message.
pub open spec fn install_model(
    step: int,
    appdata: Seq<char>,
    start_menu: Seq<char>,
    size: u32,
) -> (Seq<OsActionModel>, Seq<char>) {
    if step == 1 {
        step_unpack_model(appdata)
    } else if step == 2 {
        step_register_model(appdata, size)
    } else if step == 3 {
        step_shortcut_model(appdata, start_menu)
    } else if step == 4 {
        step_interception_model(appdata)
    } else if step == 5 {
        step_confirm_model()
    } else {
        (Seq::empty(), Seq::empty())
    }
}

/// Plans one install step. Steps outside 1 to 5 plan nothing, as the
/// host loop drives a fixed index range.
pub fn install(step: usize, ctx: &InstallContext) -> (plan: StepPlan)
    ensures
        actions_view(plan.actions@) == install_model(
            step as int,
            ctx.local_appdata@,
            ctx.start_menu@,
            ctx.install_size,
        ).0,
        plan.message@ == install_model(
            step as int,
            ctx.local_appdata@,
            ctx.start_menu@,
            ctx.install_size,
        ).1,
{
    if step == 1 {
        step_unpack(ctx)
    } else if step == 2 {
        step_register(ctx)
    } else if step == 3 {
        step_shortcut(ctx)
    } else if step == 4 {
        step_interception(ctx)
    } else if step == 5 {
        step_confirm()
    } else {
        let plan = StepPlan { actions: Vec::new(), message: String::new() };
        proof {
            assert(actions_view(plan.actions@) =~= Seq::<OsActionModel>::empty());
        }
        plan
    }
}

/// Plans the unpack step.
fn step_unpack(ctx: &InstallContext) -> (plan: StepPlan)
    ensures
        actions_view(plan.actions@) == step_unpack_model(ctx.local_appdata@).0,
        plan.message@ == step_unpack_model(ctx.local_appdata@).1,
{
    let dir = install_dir(ctx);
    let binary = concat2(dir.as_str(), "\\wedge.exe");
    let uninstaller = concat2(dir.as_str(), "\\wedge uninstaller.exe");
    let license = concat2(dir.as_str(), "\\LICENSE");
    let mut actions: Vec<OsAction> = Vec::new();
    actions.push(OsAction::CreateDirAll { path: dir.clone() });
    actions.push(OsAction::UnpackResource { resource: 301, dest: binary.clone() });
    actions.push(OsAction::UnpackResource { resource: 302, dest: uninstaller.clone() });
    actions.push(OsAction::UnpackResource { resource: 303, dest: license.clone() });
    let mut message = concat3("Created install location `", dir.as_str(), "`");
    message.append("\nUnpacked `");
    message.append(binary.as_str());
    message.append("`");
    message.append("\nUnpacked `");
    message.append(uninstaller.as_str());
    message.append("`");
    message.append("\nUnpacked `");
    message.append(license.as_str());
    message.append("`");
    proof {
        assert(actions_view(actions@) =~= step_unpack_model(ctx.local_appdata@).0);
    }
    StepPlan { actions, message }
}

/// Plans the registration step.
fn step_register(ctx: &InstallContext) -> (plan: StepPlan)
    ensures
        actions_view(plan.actions@) == step_register_model(ctx.local_appdata@, ctx.install_size).0,
        plan.message@ == step_register_model(ctx.local_appdata@, ctx.install_size).1,
{
    let dir = install_dir(ctx);
    let binary = concat2(dir.as_str(), "\\wedge.exe");
    let uninstaller = concat2(dir.as_str(), "\\wedge uninstaller.exe");
    let quoted_install = quoted(dir.as_str());
    let quoted_binary = quoted(binary.as_str());
    let quoted_uninstaller = quoted(uninstaller.as_str());
    let app_paths = "Software\\Microsoft\\Windows\\CurrentVersion\\App Paths\\wedge.exe";
    let uninstall_key = "Software\\Microsoft\\Windows\\CurrentVersion\\Uninstall\\Wedge";
    let mut actions: Vec<OsAction> = Vec::new();
    actions.push(
        OsAction::SetRegValue {
            root: RegRoot::CurrentUser,
            key: to_owned_string(app_paths),
            name: String::new(),
            value: RegValue::Str(quoted_binary.clone()),
        },
    );
    actions.push(
        OsAction::SetRegValue {
            root: RegRoot::CurrentUser,
            key: to_owned_string(app_paths),
            name: to_owned_string("Path"),
            value: RegValue::Str(quoted_install.clone()),
        },
    );
    actions.push(
        OsAction::SetRegValue {
            root: RegRoot::CurrentUser,
            key: to_owned_string("Software\\Classes\\Wedge"),
            name: String::new(),
            value: RegValue::Str(to_owned_string("URL: Microsoft Edge Protocol Deflector")),
        },
    );
    actions.push(
        OsAction::SetRegValue {
            root: RegRoot::CurrentUser,
            key: to_owned_string("Software\\Classes\\Wedge"),
            name: to_owned_string("URL Protocol"),
            value: RegValue::Str(String::new()),
        },
    );
    actions.push(
        OsAction::SetRegValue {
            root: RegRoot::CurrentUser,
            key: to_owned_string("Software\\Classes\\Wedge\\DefaultIcon"),
            name: String::new(),
            value: RegValue::Str(quoted_binary.clone()),
        },
    );
    actions.push(
        OsAction::SetRegValue {
            root: RegRoot::CurrentUser,
            key: to_owned_string("Software\\Classes\\Wedge\\shell\\open\\command"),
            name: String::new(),
            value: RegValue::Str(concat2(quoted_binary.as_str(), " \"%1\"")),
        },
    );
    actions.push(
        OsAction::SetRegValue {
            root: RegRoot::CurrentUser,
            key: to_owned_string("Software\\RegisteredApplications"),
            name: to_owned_string("Wedge"),
            value: RegValue::Str(to_owned_string("Software\\Clients\\Wedge\\Capabilities")),
        },
    );
    actions.push(
        OsAction::SetRegValue {
            root: RegRoot::CurrentUser,
            key: to_owned_string(uninstall_key),
            name: to_owned_string("DisplayIcon"),
            value: RegValue::Str(quoted_binary.clone()),
        },
    );
    actions.push(
        OsAction::SetRegValue {
            root: RegRoot::CurrentUser,
            key: to_owned_string(uninstall_key),
            name: to_owned_string("DisplayName"),
            value: RegValue::Str(to_owned_string("Wedge")),
        },
    );
    actions.push(
        OsAction::SetRegValue {
            root: RegRoot::CurrentUser,
            key: to_owned_string(uninstall_key),
            name: to_owned_string("DisplayVersion"),
            value: RegValue::Str(to_owned_string("0.1.0")),
        },
    );
    actions.push(
        OsAction::SetRegValue {
            root: RegRoot::CurrentUser,
            key: to_owned_string(uninstall_key),
            name: to_owned_string("EstimatedSize"),
            value: RegValue::U32(ctx.install_size / 1024),
        },
    );
    actions.push(
        OsAction::SetRegValue {
            root: RegRoot::CurrentUser,
            key: to_owned_string(uninstall_key),
            name: to_owned_string("InstallLocation"),
            value: RegValue::Str(quoted_install.clone()),
        },
    );
    actions.push(
        OsAction::SetRegValue {
            root: RegRoot::CurrentUser,
            key: to_owned_string(uninstall_key),
            name: to_owned_string("NoModify"),
            value: RegValue::U32(1),
        },
    );
    actions.push(
        OsAction::SetRegValue {
            root: RegRoot::CurrentUser,
            key: to_owned_string(uninstall_key),
            name: to_owned_string("NoRepair"),
            value: RegValue::U32(1),
        },
    );
    actions.push(
        OsAction::SetRegValue {
            root: RegRoot::CurrentUser,
            key: to_owned_string(uninstall_key),
            name: to_owned_string("Publisher"),
            value: RegValue::Str(to_owned_string("Marc Guiselin")),
        },
    );
    actions.push(
        OsAction::SetRegValue {
            root: RegRoot::CurrentUser,
            key: to_owned_string(uninstall_key),
            name: to_owned_string("UninstallString"),
            value: RegValue::Str(quoted_uninstaller.clone()),
        },
    );
    proof {
        reveal_strlit("");
        assert(""@ =~= Seq::<char>::empty());
        assert(actions_view(actions@) =~= step_register_model(
            ctx.local_appdata@,
            ctx.install_size,
        ).0);
    }
    StepPlan { actions, message: to_owned_string("Registered application") }
}

/// Plans the shortcut step.
fn step_shortcut(ctx: &InstallContext) -> (plan: StepPlan)
    ensures
        actions_view(plan.actions@) == step_shortcut_model(ctx.local_appdata@, ctx.start_menu@).0,
        plan.message@ == step_shortcut_model(ctx.local_appdata@, ctx.start_menu@).1,
{
    let dir = install_dir(ctx);
    let binary = concat2(dir.as_str(), "\\wedge.exe");
    let quoted_binary = quoted(binary.as_str());
    let link = concat2(ctx.start_menu.as_str(), "\\Wedge.lnk");
    let mut actions: Vec<OsAction> = Vec::new();
    actions.push(
        OsAction::CreateShortcut {
            link,
            target: quoted_binary,
            description: to_owned_string("Wedge - The simple Open-Source Edge Deflector"),
        },
    );
    proof {
        assert(actions_view(actions@) =~= step_shortcut_model(
            ctx.local_appdata@,
            ctx.start_menu@,
        ).0);
    }
    StepPlan { actions, message: to_owned_string("Created start menu shortcut") }
}

/// Plans the interception step.
fn step_interception(ctx: &InstallContext) -> (plan: StepPlan)
    ensures
        actions_view(plan.actions@) == step_interception_model(ctx.local_appdata@).0,
        plan.message@ == step_interception_model(ctx.local_appdata@).1,
{
    let dir = install_dir(ctx);
    let binary = concat2(dir.as_str(), "\\wedge.exe");
    let quoted_binary = quoted(binary.as_str());
    let actions = interception_install(quoted_binary.as_str());
    StepPlan { actions, message: to_owned_string("Registered IFEO") }
}

/// Plans the confirmation step.
fn step_confirm() -> (plan: StepPlan)
    ensures
        actions_view(plan.actions@) == step_confirm_model().0,
        plan.message@ == step_confirm_model().1,
{
    let mut actions: Vec<OsAction> = Vec::new();
    actions.push(
        OsAction::ShellOpen {
            command: to_owned_string(
                "microsoft-edge:https://www.bing.com/#notify-redirect-extension-successful-wedge-install",
            ),
        },
    );
    proof {
        assert(actions_view(actions@) =~= step_confirm_model().0);
    }
    StepPlan {
        actions,
        message: to_owned_string(
            "All steps completed successfully! You may now close this installer.\nWedge can be easily uninstalled in windows Apps & Features",
        ),
    }
}

/// The uninstall plan, in three stages: the interception is removed
/// first (rule, then proxy link), the install directory is removed under
/// a bounded retry — a sibling process may still hold it open — and the
/// shortcut and registrations go last.
pub struct UninstallPlan {
    pub first: Vec<OsAction>,
    pub retry_dir: String,
    pub rest: Vec<OsAction>,
}

/// The cleanup actions that follow the directory removal.
pub open spec fn uninstall_rest_model(start_menu: Seq<char>) -> Seq<OsActionModel> {
    seq![
        OsActionModel::RemoveFile { path: spec_shortcut_path(start_menu) },
        OsActionModel::DeleteRegTree {
            root: RegRoot::CurrentUser,
            key: "Software\\Microsoft\\Windows\\CurrentVersion\\App Paths\\wedge.exe"@,
        },
        OsActionModel::DeleteRegTree {
            root: RegRoot::CurrentUser,
            key: "Software\\Classes\\Wedge"@,
        },
        OsActionModel::DeleteRegTree {
            root: RegRoot::CurrentUser,
            key: "Software\\Microsoft\\Windows\\CurrentVersion\\Uninstall\\Wedge"@,
        },
    ]
}

/// Plans the uninstall: every registration reversed in the reverse of
/// install order, with the interception removed before anything else.
pub fn uninstall(ctx: &InstallContext) -> (plan: UninstallPlan)
    ensures
        actions_view(plan.first@) == interception_remove_model(),
        plan.retry_dir@ == spec_install_dir(ctx.local_appdata@),
        actions_view(plan.rest@) == uninstall_rest_model(ctx.start_menu@),
{
    let first = interception_remove();
    let retry_dir = install_dir(ctx);
    let mut rest: Vec<OsAction> = Vec::new();
    rest.push(OsAction::RemoveFile { path: concat2(ctx.start_menu.as_str(), "\\Wedge.lnk") });
    rest.push(
        OsAction::DeleteRegTree {
            root: RegRoot::CurrentUser,
            key: to_owned_string(
                "Software\\Microsoft\\Windows\\CurrentVersion\\App Paths\\wedge.exe",
            ),
        },
    );
    rest.push(
        OsAction::DeleteRegTree {
            root: RegRoot::CurrentUser,
            key: to_owned_string("Software\\Classes\\Wedge"),
        },
    );
    rest.push(
        OsAction::DeleteRegTree {
            root: RegRoot::CurrentUser,
            key: to_owned_string("Software\\Microsoft\\Windows\\CurrentVersion\\Uninstall\\Wedge"),
        },
    );
    proof {
        assert(actions_view(rest@) =~= uninstall_rest_model(ctx.start_menu@));
    }
    UninstallPlan { first, retry_dir, rest }
}

/// The bounded retry counter for the directory removal. Exceeding the
/// bound is fatal and visible, never a silent skip.
pub struct RemovalRetry {
    pub attempts: u32,
    pub limit: u32,
}

impl RemovalRetry {
    /// A fresh counter allowing `limit` failed attempts.
    pub fn new(limit: u32) -> (r: Self)
        ensures
            r.attempts == 0,
            r.limit == limit,
    {
        RemovalRetry { attempts: 0, limit }
    }

    /// Records one failed removal. Yields `true` — the fatal outcome —
    /// exactly when the bound is already spent.
    pub fn record_failure(&mut self) -> (fatal: bool)
        ensures
            final(self).limit == old(self).limit,
            fatal == (old(self).attempts >= old(self).limit),
            !fatal ==> final(self).attempts == old(self).attempts + 1,
            fatal ==> final(self).attempts == old(self).attempts,
    {
        if self.attempts >= self.limit {
            true
        } else {
            self.attempts = self.attempts + 1;
            false
        }
    }
}

} // verus!
