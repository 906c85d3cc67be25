use wedge::install::{
    install, uninstall, InstallContext, RemovalRetry, STEP_COUNT, STEP_INTERVAL,
};
use wedge::rules::{
    interception_install, interception_remove, OsAction, RegRoot, RegValue,
};
use wedge::sequencer::{run_sequence, Sequencer};

fn ctx() -> InstallContext {
    InstallContext {
        local_appdata: String::from("C:\\Users\\u\\AppData\\Local"),
        start_menu: String::from(
            "C:\\Users\\u\\AppData\\Roaming\\Microsoft\\Windows\\Start Menu\\Programs",
        ),
        install_size: 3 * 1024,
    }
}

#[test]
fn test_install_constants() {
    assert_eq!(6, STEP_COUNT);
    assert_eq!(100, STEP_INTERVAL);
}

#[test]
fn test_install_step_out_of_range_plans_nothing() {
    let c = ctx();
    for step in [0usize, 6, 7] {
        let plan = install(step, &c);
        assert!(plan.actions.is_empty());
        assert_eq!("", plan.message);
    }
}

#[test]
fn test_install_step_unpack() {
    let plan = install(1, &ctx());
    let dir = "C:\\Users\\u\\AppData\\Local\\Wedge";
    assert_eq!(
        vec![
            OsAction::CreateDirAll { path: dir.to_string() },
            OsAction::UnpackResource {
                resource: 301,
                dest: format!("{}\\wedge.exe", dir),
            },
            OsAction::UnpackResource {
                resource: 302,
                dest: format!("{}\\wedge uninstaller.exe", dir),
            },
            OsAction::UnpackResource {
                resource: 303,
                dest: format!("{}\\LICENSE", dir),
            },
        ],
        plan.actions
    );
    assert_eq!(
        "Created install location `C:\\Users\\u\\AppData\\Local\\Wedge`\n\
         Unpacked `C:\\Users\\u\\AppData\\Local\\Wedge\\wedge.exe`\n\
         Unpacked `C:\\Users\\u\\AppData\\Local\\Wedge\\wedge uninstaller.exe`\n\
         Unpacked `C:\\Users\\u\\AppData\\Local\\Wedge\\LICENSE`",
        plan.message
    );
}

#[test]
fn test_install_step_register() {
    let plan = install(2, &ctx());
    assert_eq!("Registered application", plan.message);
    assert_eq!(16, plan.actions.len());
    let quoted_binary = "\"C:\\Users\\u\\AppData\\Local\\Wedge\\wedge.exe\"".to_string();
    assert_eq!(
        OsAction::SetRegValue {
            root: RegRoot::CurrentUser,
            key: "Software\\Microsoft\\Windows\\CurrentVersion\\App Paths\\wedge.exe".to_string(),
            name: String::new(),
            value: RegValue::Str(quoted_binary.clone()),
        },
        plan.actions[0]
    );
    assert_eq!(
        OsAction::SetRegValue {
            root: RegRoot::CurrentUser,
            key: "Software\\Classes\\Wedge\\shell\\open\\command".to_string(),
            name: String::new(),
            value: RegValue::Str(format!("{} \"%1\"", quoted_binary)),
        },
        plan.actions[5]
    );
    assert_eq!(
        OsAction::SetRegValue {
            root: RegRoot::CurrentUser,
            key: "Software\\Microsoft\\Windows\\CurrentVersion\\Uninstall\\Wedge".to_string(),
            name: "EstimatedSize".to_string(),
            value: RegValue::U32(3),
        },
        plan.actions[10]
    );
    assert_eq!(
        OsAction::SetRegValue {
            root: RegRoot::CurrentUser,
            key: "Software\\Microsoft\\Windows\\CurrentVersion\\Uninstall\\Wedge".to_string(),
            name: "UninstallString".to_string(),
            value: RegValue::Str(
                "\"C:\\Users\\u\\AppData\\Local\\Wedge\\wedge uninstaller.exe\"".to_string()
            ),
        },
        plan.actions[15]
    );
}

#[test]
fn test_install_step_shortcut() {
    let plan = install(3, &ctx());
    assert_eq!("Created start menu shortcut", plan.message);
    assert_eq!(
        vec![OsAction::CreateShortcut {
            link: "C:\\Users\\u\\AppData\\Roaming\\Microsoft\\Windows\\Start Menu\\Programs\\Wedge.lnk"
                .to_string(),
            target: "\"C:\\Users\\u\\AppData\\Local\\Wedge\\wedge.exe\"".to_string(),
            description: "Wedge - The simple Open-Source Edge Deflector".to_string(),
        }],
        plan.actions
    );
}

#[test]
fn test_install_step_interception_order() {
    let plan = install(4, &ctx());
    assert_eq!("Registered IFEO", plan.message);
    assert_eq!(4, plan.actions.len());
    // The proxy link is created before the substitution rule is written.
    assert!(matches!(plan.actions[0], OsAction::CreateJunction { .. }));
    assert!(matches!(plan.actions[1], OsAction::SetRegValue { .. }));
    assert_eq!(
        OsAction::CreateJunction {
            path: "C:\\Program Files (x86)\\Microsoft\\EdgeProxy".to_string(),
            target: "C:\\Program Files (x86)\\Microsoft\\Edge".to_string(),
        },
        plan.actions[0]
    );
    let ifeo =
        "SOFTWARE\\Microsoft\\Windows NT\\CurrentVersion\\Image File Execution Options\\msedge.exe";
    assert_eq!(
        OsAction::SetRegValue {
            root: RegRoot::LocalMachine,
            key: ifeo.to_string(),
            name: "UseFilter".to_string(),
            value: RegValue::U32(1),
        },
        plan.actions[1]
    );
    assert_eq!(
        OsAction::SetRegValue {
            root: RegRoot::LocalMachine,
            key: format!("{}\\0", ifeo),
            name: "Debugger".to_string(),
            value: RegValue::Str(
                "\"C:\\Users\\u\\AppData\\Local\\Wedge\\wedge.exe\"".to_string()
            ),
        },
        plan.actions[2]
    );
    assert_eq!(
        OsAction::SetRegValue {
            root: RegRoot::LocalMachine,
            key: format!("{}\\0", ifeo),
            name: "FilterFullPath".to_string(),
            value: RegValue::Str(
                "C:\\Program Files (x86)\\Microsoft\\Edge\\Application\\msedge.exe".to_string()
            ),
        },
        plan.actions[3]
    );
}

#[test]
fn test_install_step_confirm() {
    let plan = install(5, &ctx());
    assert_eq!(
        vec![OsAction::ShellOpen {
            command:
                "microsoft-edge:https://www.bing.com/#notify-redirect-extension-successful-wedge-install"
                    .to_string(),
        }],
        plan.actions
    );
    assert_eq!(
        "All steps completed successfully! You may now close this installer.\n\
         Wedge can be easily uninstalled in windows Apps & Features",
        plan.message
    );
}

#[test]
fn test_interception_plans_are_mirror_ordered() {
    let installed = interception_install("\"C:\\some\\wedge.exe\"");
    let removed = interception_remove();
    // Install: link first, rule after. Remove: rule first, link after.
    assert!(matches!(installed[0], OsAction::CreateJunction { .. }));
    assert!(matches!(
        removed[0],
        OsAction::DeleteRegTree { root: RegRoot::LocalMachine, .. }
    ));
    assert!(matches!(removed[1], OsAction::RemoveJunction { .. }));
    assert_eq!(2, removed.len());
}

#[test]
fn test_uninstall_plan() {
    let plan = uninstall(&ctx());
    assert_eq!("C:\\Users\\u\\AppData\\Local\\Wedge", plan.retry_dir);
    assert!(matches!(plan.first[0], OsAction::DeleteRegTree { .. }));
    assert!(matches!(plan.first[1], OsAction::RemoveJunction { .. }));
    assert_eq!(
        vec![
            OsAction::RemoveFile {
                path:
                    "C:\\Users\\u\\AppData\\Roaming\\Microsoft\\Windows\\Start Menu\\Programs\\Wedge.lnk"
                        .to_string(),
            },
            OsAction::DeleteRegTree {
                root: RegRoot::CurrentUser,
                key: "Software\\Microsoft\\Windows\\CurrentVersion\\App Paths\\wedge.exe"
                    .to_string(),
            },
            OsAction::DeleteRegTree {
                root: RegRoot::CurrentUser,
                key: "Software\\Classes\\Wedge".to_string(),
            },
            OsAction::DeleteRegTree {
                root: RegRoot::CurrentUser,
                key: "Software\\Microsoft\\Windows\\CurrentVersion\\Uninstall\\Wedge".to_string(),
            },
        ],
        plan.rest
    );
}

#[test]
fn test_sequence_runs_every_step_in_order() {
    let outcomes: Vec<Result<String, String>> =
        (1..=5).map(|i| Ok(format!("step {}", i))).collect();
    let report = run_sequence(&outcomes);
    assert_eq!(vec![1, 2, 3, 4, 5], report.executed);
    assert!(report.failure.is_none());
}

#[test]
fn test_sequence_halts_at_forced_failure() {
    // A forced failure at step 3 halts the run before step 4 and reports
    // step 3 with its message.
    let outcomes: Vec<Result<String, String>> = vec![
        Ok(String::from("one")),
        Ok(String::from("two")),
        Err(String::from("three went wrong")),
        Ok(String::from("four")),
        Ok(String::from("five")),
    ];
    let report = run_sequence(&outcomes);
    assert_eq!(vec![1, 2, 3], report.executed);
    assert_eq!(
        Some((3, String::from("three went wrong"))),
        report.failure
    );
}

#[test]
fn test_sequencer_ticks() {
    let mut s = Sequencer::new();
    assert_eq!(Some(1), s.next_step());
    assert!(!s.record(&Ok(String::from("ok"))));
    assert_eq!(Some(2), s.next_step());
    assert!(s.record(&Err(String::from("bad"))));
    assert_eq!(None, s.next_step());
    match s {
        Sequencer::Failed { step, message } => {
            assert_eq!(2, step);
            assert_eq!("bad", message);
        }
        _ => panic!("expected a halted sequencer"),
    }
}

#[test]
fn test_removal_retry_is_bounded() {
    let mut retry = RemovalRetry::new(3);
    assert!(!retry.record_failure());
    assert!(!retry.record_failure());
    assert!(!retry.record_failure());
    assert!(retry.record_failure());
    assert!(retry.record_failure());
}
