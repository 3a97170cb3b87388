use uec::cli::{uat_arguments, ActionToDo, Cli, Commands};
use uec::config::Config;
use uec::editor::{Editor, Removal, UatError};
use uec::paths::{join, parent, with_extension};
use uec::platform::Platform;
use uec::uproject::{self, Module};

fn s(x: &str) -> String {
    x.to_string()
}

fn editor(platform: Platform) -> Editor {
    Editor {
        config: Config { editor_path: s("/ue") },
        logs: None,
        error_only: false,
        dry_run: false,
        platform,
    }
}

fn strs(v: &[&str]) -> Vec<String> {
    v.iter().map(|x| x.to_string()).collect()
}

#[test]
fn path_helpers() {
    assert_eq!(join("/ue", "Build", Platform::Linux), "/ue/Build");
    assert_eq!(join("/ue/", "Build", Platform::Linux), "/ue/Build");
    assert_eq!(join("", "Build", Platform::Linux), "Build");
    assert_eq!(join("C:\\UE", "Build", Platform::Windows), "C:\\UE\\Build");
    assert_eq!(parent("/a/b/c.uproject"), "/a/b");
    assert_eq!(parent("/c.uproject"), "/");
    assert_eq!(parent("c.uproject"), "");
    assert_eq!(with_extension("/a/b/Game.uproject", "sln"), "/a/b/Game.sln");
    assert_eq!(with_extension("/a.d/Game", "sln"), "/a.d/Game.sln");
    assert_eq!(with_extension("/a/.hidden", "sln"), "/a/.hidden.sln");
}

#[test]
fn create_prefers_engine_path_from_command_line() {
    let cli = Cli {
        command: Commands::PrintConfig,
        engine_path: Some(s("/other")),
        save_logs: Some(s("out.log")),
        error_only: true,
        dry_run: true,
    };
    let e = Editor::create(&cli, Config { editor_path: s("/ue") }, Platform::Linux);
    assert_eq!(e.config.editor_path, "/other");
    assert_eq!(e.logs, Some(s("out.log")));
    assert!(e.error_only && e.dry_run);
    let cfg = e.run_config();
    assert!(cfg.error_only && cfg.dry_run);
    assert_eq!(cfg.log_path, Some(s("out.log")));
    let cli2 = Cli { engine_path: None, ..cli };
    let e2 = Editor::create(&cli2, Config { editor_path: s("/ue") }, Platform::Linux);
    assert_eq!(e2.config.editor_path, "/ue");
    assert_eq!(ActionToDo::default(), ActionToDo::Print);
}

#[test]
fn editor_exec_by_platform() {
    assert_eq!(
        Editor::build_editor_exec("/ue", Platform::Linux, true),
        Some(s("/ue/Engine/Binaries/Linux/UnrealEditor"))
    );
    assert_eq!(Editor::build_editor_exec("/ue", Platform::Linux, false), None);
    assert_eq!(
        editor(Platform::Windows).get_editor_exec(true),
        Some(s("/ue\\Engine/Binaries/Win64/UnrealEditor.exe"))
    );
    assert_eq!(
        Editor::editor_exec_path("/ue", Platform::Mac),
        "/ue/Engine/Binaries/Mac/UnrealEditor.app/Contents/MacOS/UnrealEditor"
    );
}

#[test]
fn clean_targets() {
    let r = editor(Platform::Linux).clean_project("/p/Game.uproject");
    assert_eq!(
        r,
        strs(&[
            "/p/Game.sln",
            "/p/Build",
            "/p/Intermediate",
            "/p/Saved",
            "/p/DerivedDataCache",
            "/p/PackagedProject"
        ])
    );
}

#[test]
fn removal_decisions() {
    let mut e = editor(Platform::Linux);
    assert_eq!(e.remove_at_path(false, true), Removal::Absent);
    assert_eq!(e.remove_at_path(true, true), Removal::Delete { announce: true, directory: true });
    e.error_only = true;
    assert_eq!(e.remove_at_path(true, false), Removal::Delete { announce: false, directory: false });
    e.dry_run = true;
    assert_eq!(e.remove_at_path(true, false), Removal::Report);
}

#[test]
fn generate_project_files_command() {
    let inv = editor(Platform::Linux).generate_proj_files("\\\\?\\/p/Game.uproject");
    assert_eq!(inv.program, "cmd");
    assert_eq!(
        inv.args,
        strs(&[
            "/C",
            "/ue/Engine/Build/BatchFiles/Linux/Build.sh",
            "-projectfiles",
            "-project=/p/Game.uproject",
            "-game",
            "-rocket",
            "-progress"
        ])
    );
}

#[test]
fn build_project_command() {
    let inv = editor(Platform::Linux).build_project("/out");
    assert_eq!(
        inv.args,
        strs(&[
            "/C",
            "/ue/Engine/Build/BatchFiles/RunUAT.sh",
            "BuildCookRun",
            "-archivedirectory=/out",
            "-utf8output",
            "-platform=Win64",
            "-noP4",
            "-nodebuginfo",
            "-cook",
            "-build",
            "-stage",
            "-archive",
            "-pak"
        ])
    );
    assert_eq!(editor(Platform::Linux).cooked_build_dir("/p/Plug.uplugin"), "/p/CookedBuild");
}

#[test]
fn build_plugin_command() {
    let inv = editor(Platform::Windows).build_plugin("C:\\p\\P.uplugin", "C:\\out");
    assert_eq!(
        inv.args,
        strs(&[
            "/C",
            "/ue\\Engine/Build/BatchFiles/RunUAT.bat",
            "BuildPlugin",
            "-plugin=C:\\p\\P.uplugin",
            "-package=C:\\out",
            "-CreateSubfolder"
        ])
    );
}

#[test]
fn uat_passes_project_when_asked() {
    let e = editor(Platform::Linux);
    let args = uat_arguments("BuildCookRun -project= -cook");
    assert_eq!(args, strs(&["BuildCookRun", "-project=", "-cook"]));
    assert!(matches!(e.run_uat(&args, None), Err(UatError::ProjectNotFound)));
    let inv = e.run_uat(&args, Some("/p/G.uproject")).ok().unwrap();
    assert_eq!(
        inv.args,
        strs(&[
            "/C",
            "/ue/Engine/Build/BatchFiles/RunUAT.sh",
            "BuildCookRun",
            "-project=",
            "-cook",
            "-project=/p/G.uproject"
        ])
    );
    let plain = uat_arguments("BuildCookRun -help");
    let inv = e.run_uat(&plain, None).ok().unwrap();
    assert_eq!(
        inv.args,
        strs(&["/C", "/ue/Engine/Build/BatchFiles/RunUAT.sh", "BuildCookRun", "-help"])
    );
}

#[test]
fn uat_arguments_split_on_single_spaces() {
    assert_eq!(uat_arguments(""), strs(&[""]));
    assert_eq!(uat_arguments("a  b"), strs(&["a", "", "b"]));
    assert_eq!(uat_arguments("a "), strs(&["a", ""]));
}

fn module(name: &str, kind: &str) -> Module {
    Module { name: s(name), module_type: s(kind), loading_phase: s("Default") }
}

fn project(modules: Vec<Module>) -> uproject::Config {
    uproject::Config {
        file_version: 3,
        engine_association: s("5.3"),
        category: s(""),
        description: s(""),
        modules,
        plugins: vec![],
    }
}

#[test]
fn editor_module_and_build_command() {
    let p = project(vec![module("Game", "Runtime"), module("GameEd", "Editor"), module("X", "Editor")]);
    assert_eq!(p.find_editor_module().map(|m| m.name.clone()), Some(s("GameEd")));
    let e = editor(Platform::Linux);
    let inv = e.build_editor_project("/p/G.uproject", &p).unwrap();
    assert_eq!(
        inv.args,
        strs(&[
            "/C",
            "/ue/Engine/Build/BatchFiles/Linux/Build.sh",
            "GameEd",
            "Win64",
            "Development",
            "-Project=/p/G.uproject",
            "-UsePrecompiled",
            "-WaitMutex",
            "-FromMsBuild"
        ])
    );
    let none = project(vec![module("Game", "Runtime")]);
    assert!(none.find_editor_module().is_none());
    assert!(e.build_editor_project("/p/G.uproject", &none).is_none());
}

#[test]
fn launch_only_after_success() {
    let e = editor(Platform::Linux);
    assert!(e.launch_after_build("/p/G.uproject", uec::runner::ExitOutcome::from_code(Some(1))).is_none());
    let inv = e
        .launch_after_build("/p/G.uproject", uec::runner::ExitOutcome::from_code(Some(0)))
        .unwrap();
    assert_eq!(
        inv.args,
        strs(&["/C", "/ue/Engine/Binaries/Linux/UnrealEditor", "/p/G.uproject", "-skipcompile"])
    );
}

#[test]
fn engine_build_steps() {
    let steps = editor(Platform::Windows).build_engine_from_source("C:\\src");
    assert_eq!(steps.len(), 3);
    assert_eq!(steps[0].args, strs(&["/C", "C:\\src\\Setup.bat"]));
    assert_eq!(steps[1].args, strs(&["/C", "C:\\src\\GenerateProjectFiles.bat"]));
    assert_eq!(
        steps[2].args,
        strs(&[
            "/C",
            "msbuild",
            "C:\\src\\UE5.sln",
            "/p:Configuration=\"Development Editor\"",
            "/p:Platform=\"Win64\""
        ])
    );
}
