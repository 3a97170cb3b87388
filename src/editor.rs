//! The commands that the tool runs for each of its tasks, built from the
//! stored settings and the paths that it was given or found.
use vstd::prelude::*;
use crate::cli::Cli;
use crate::config::Config;
use crate::paths::{join, joined, parent, parent_of, with_extension, with_extension_of};
use crate::platform::{build_script_rel, editor_rel, separator_of, uat_script_rel, Platform};
use crate::runner::{views, ExitOutcome, RunConfig};
use crate::text::{has_prefix, remove_all, remove_text, starts_with_text};
use crate::uproject;

verus! {

/// The shell that runs the engine's scripts.
pub const SHELL: &'static str = "cmd";

/// The shell's option that runs the command that follows.
pub const SHELL_RUN: &'static str = "/C";

/// The prefix that Windows puts before a verbatim path; it is taken out of
/// the paths handed to the engine's tools.
pub const VERBATIM_PREFIX: &'static str = "\\\\?\\";

/// The automation tool's option that names the project.
pub const PROJECT_FLAG: &'static str = "-project=";

/// A command to run: a program and its arguments.
pub struct Invocation {
    pub program: String,
    pub args: Vec<String>,
}

impl View for Invocation {
    type V = (Seq<char>, Seq<Seq<char>>);

    open spec fn view(&self) -> (Seq<char>, Seq<Seq<char>>) {
        (self.program@, views(self.args@))
    }
}

/// A path with every verbatim prefix taken out.
pub open spec fn plain(p: Seq<char>) -> Seq<char> {
    remove_all(p, VERBATIM_PREFIX@)
}

/// A script run through the shell with the arguments `rest`.
pub open spec fn through_shell(script: Seq<char>, rest: Seq<Seq<char>>) -> (
    Seq<char>,
    Seq<Seq<char>>,
) {
    (SHELL@, seq![SHELL_RUN@, script] + rest)
}

/// Some argument asks for the project's path to be passed on.
pub open spec fn asks_for_project(args: Seq<Seq<char>>) -> bool {
    exists|i: int| 0 <= i < args.len() && has_prefix(#[trigger] args[i], PROJECT_FLAG@)
}

/// The directories that cleaning a project removes, beside the project file.
pub open spec fn clean_dir(k: int) -> Seq<char> {
    if k == 0 {
        "Build"@
    } else if k == 1 {
        "Intermediate"@
    } else if k == 2 {
        "Saved"@
    } else if k == 3 {
        "DerivedDataCache"@
    } else {
        "PackagedProject"@
    }
}

/// The arguments of the automation tool that build, cook, stage and package a
/// project into `archive_dir`.
pub open spec fn cook_args(archive_dir: Seq<char>) -> Seq<Seq<char>> {
    seq![
        "BuildCookRun"@,
        plain("-archivedirectory="@ + archive_dir),
        "-utf8output"@,
        "-platform=Win64"@,
        "-noP4"@,
        "-nodebuginfo"@,
        "-cook"@,
        "-build"@,
        "-stage"@,
        "-archive"@,
        "-pak"@,
    ]
}

/// What becomes of one path when a project is cleaned.
#[derive(Clone, Copy, Debug, PartialEq, Eq, Structural)]
pub enum Removal {
    /// The path does not exist: nothing to do.
    Absent,
    /// A dry run: the removal is reported, nothing is removed.
    Report,
    /// The path is removed, as a directory or a file, and announced unless
    /// only errors are wanted.
    Delete { announce: bool, directory: bool },
}

/// The automation tool was asked for the project's path, and no project was
/// found.
#[derive(Clone, Copy, Debug, PartialEq, Eq, Structural)]
pub enum UatError {
    ProjectNotFound,
}

/// The tool's state for one invocation: settings and output options.
pub struct Editor {
    pub config: Config,
    /// The file that the output of each command run is appended to.
    pub logs: Option<String>,
    /// Only error lines are shown and logged.
    pub error_only: bool,
    /// No command is run: what would run is printed instead.
    pub dry_run: bool,
    /// The platform whose engine layout is used.
    pub platform: Platform,
}

/// The same optional text.
pub open spec fn same_opt(a: Option<String>, b: Option<String>) -> bool {
    match (a, b) {
        (Some(x), Some(y)) => x@ == y@,
        (None, None) => true,
        _ => false,
    }
}

/// A string with the characters of `a` followed by those of `b`.
fn concat(a: &str, b: &str) -> (r: String)
    ensures
        r@ == a@ + b@,
{
    let mut r = String::from_str(a);
    r.append(b);
    r
}

/// `flag` followed by `path`, with every verbatim prefix taken out.
fn path_flag(flag: &str, path: &str) -> (r: String)
    ensures
        r@ == plain(flag@ + path@),
{
    let joined = concat(flag, path);
    remove_text(joined.as_str(), VERBATIM_PREFIX)
}

/// `script` run through the shell with the arguments `rest`.
fn shell_invocation(script: String, rest: Vec<String>) -> (r: Invocation)
    ensures
        r@ == through_shell(script@, views(rest@)),
{
    let mut args: Vec<String> = Vec::new();
    args.push(String::from_str(SHELL_RUN));
    args.push(script);
    let mut rest = rest;
    let ghost front = args@;
    let ghost tail = rest@;
    args.append(&mut rest);
    assert(views(args@) =~= seq![SHELL_RUN@, front[1]@] + views(tail));
    Invocation { program: String::from_str(SHELL), args }
}

/// Clones a list of strings.
fn clone_all(v: &Vec<String>) -> (r: Vec<String>)
    ensures
        views(r@) == views(v@),
{
    let mut r: Vec<String> = Vec::new();
    let mut i: usize = 0;
    while i < v.len()
        invariant
            i <= v@.len(),
            views(r@) == views(v@.subrange(0, i as int)),
        decreases v@.len() - i,
    {
        let ghost before = r@;
        let item = v[i].clone();
        r.push(item);
        assert(views(r@) =~= views(before).push(v@[i as int]@));
        assert(views(v@.subrange(0, i + 1)) =~= views(v@.subrange(0, i as int)).push(
            v@[i as int]@,
        ));
        i = i + 1;
    }
    assert(v@.subrange(0, i as int) =~= v@);
    r
}

/// Whether some argument asks for the project's path.
fn any_asks_for_project(args: &Vec<String>) -> (r: bool)
    ensures
        r == asks_for_project(views(args@)),
{
    let mut i: usize = 0;
    while i < args.len()
        invariant
            i <= args@.len(),
            forall|j: int| 0 <= j < i ==> !has_prefix(#[trigger] views(args@)[j], PROJECT_FLAG@),
        decreases args@.len() - i,
    {
        if starts_with_text(args[i].as_str(), PROJECT_FLAG) {
            assert(has_prefix(views(args@)[i as int], PROJECT_FLAG@));
            return true;
        }
        i = i + 1;
    }
    false
}

impl Editor {
    /// A path inside the engine's root.
    pub open spec fn engine_file(&self, rel: Seq<char>) -> Seq<char> {
        joined(self.config.editor_path@, rel, separator_of(self.platform))
    }

    /// The tool's state from the command line, the stored settings and the
    /// platform: an engine path given on the command line overrides the stored one.
    pub fn create(cli: &Cli, stored: Config, platform: Platform) -> (r: Editor)
        ensures
            r.config.editor_path@ == match cli.engine_path {
                Some(e) => e@,
                None => stored.editor_path@,
            },
            same_opt(r.logs, cli.save_logs),
            r.error_only == cli.error_only,
            r.dry_run == cli.dry_run,
            r.platform == platform,
    {
        let mut config = stored;
        match &cli.engine_path {
            Some(engine) => {
                config.editor_path = engine.clone();
            },
            None => {},
        }
        let logs = match &cli.save_logs {
            Some(l) => Some(l.clone()),
            None => None,
        };
        Editor { config, logs, error_only: cli.error_only, dry_run: cli.dry_run, platform }
    }

    /// How the commands of this invocation are run.
    pub fn run_config(&self) -> (r: RunConfig)
        ensures
            r.error_only == self.error_only,
            r.dry_run == self.dry_run,
            same_opt(r.log_path, self.logs),
    {
        let log_path = match &self.logs {
            Some(l) => Some(l.clone()),
            None => None,
        };
        RunConfig { error_only: self.error_only, dry_run: self.dry_run, log_path }
    }

    /// Where the editor's executable lies under the engine root `base_dir`.
    pub fn editor_exec_path(base_dir: &str, platform: Platform) -> (r: String)
        ensures
            r@ == joined(base_dir@, editor_rel(platform), separator_of(platform)),
    {
        join(base_dir, platform.editor(), platform)
    }

    /// The editor's executable under `base_dir`, when it exists there
    /// (`present` says whether the path of `editor_exec_path` exists).
    pub fn build_editor_exec(base_dir: &str, platform: Platform, present: bool) -> (r: Option<
        String,
    >)
        ensures
            match r {
                Some(p) => present && p@ == joined(
                    base_dir@,
                    editor_rel(platform),
                    separator_of(platform),
                ),
                None => !present,
            },
    {
        if present {
            Some(Self::editor_exec_path(base_dir, platform))
        } else {
            None
        }
    }

    /// The editor's executable under the engine root of the settings, when it
    /// exists there.
    pub fn get_editor_exec(&self, present: bool) -> (r: Option<String>)
        ensures
            match r {
                Some(p) => present && p@ == self.engine_file(editor_rel(self.platform)),
                None => !present,
            },
    {
        Self::build_editor_exec(self.config.editor_path.as_str(), self.platform, present)
    }

    /// The paths that cleaning the project of `project_file` removes, in
    /// order: its solution file, then the generated directories beside it.
    pub fn clean_project(&self, project_file: &str) -> (r: Vec<String>)
        ensures
            r@.len() == 6,
            r@[0]@ == with_extension_of(project_file@, "sln"@),
            forall|k: int|
                0 <= k < 5 ==> (#[trigger] r@[k + 1])@ == joined(
                    parent_of(project_file@),
                    clean_dir(k),
                    separator_of(self.platform),
                ),
    {
        let dir = parent(project_file);
        let mut r: Vec<String> = Vec::new();
        r.push(with_extension(project_file, "sln"));
        r.push(join(dir.as_str(), "Build", self.platform));
        r.push(join(dir.as_str(), "Intermediate", self.platform));
        r.push(join(dir.as_str(), "Saved", self.platform));
        r.push(join(dir.as_str(), "DerivedDataCache", self.platform));
        r.push(join(dir.as_str(), "PackagedProject", self.platform));
        r
    }

    /// What becomes of one path when a project is cleaned, given whether it
    /// exists and whether it is a directory.
    pub fn remove_at_path(&self, exists: bool, is_dir: bool) -> (r: Removal)
        ensures
            !exists ==> r == Removal::Absent,
            exists && self.dry_run ==> r == Removal::Report,
            exists && !self.dry_run ==> r == (Removal::Delete {
                announce: !self.error_only,
                directory: is_dir,
            }),
    {
        if !exists {
            Removal::Absent
        } else if self.dry_run {
            Removal::Report
        } else {
            Removal::Delete { announce: !self.error_only, directory: is_dir }
        }
    }

    /// The automation tool run with `args`. When an argument asks for the
    /// project, the path of `project_file` is passed on too, and without a
    /// project file that is an error. Every argument is passed on.
    pub fn run_uat(&self, args: &Vec<String>, project_file: Option<&str>) -> (r: Result<
        Invocation,
        UatError,
    >)
        ensures
            r is Err <==> (asks_for_project(views(args@)) && project_file is None),
            r matches Ok(inv) ==> inv@ == through_shell(
                self.engine_file(uat_script_rel(self.platform)),
                if asks_for_project(views(args@)) {
                    views(args@).push(plain(PROJECT_FLAG@ + project_file->0@))
                } else {
                    views(args@)
                },
            ),
    {
        let script = join(self.config.editor_path.as_str(), self.platform.uat_script(), self.platform);
        let mut rest = clone_all(args);
        if any_asks_for_project(args) {
            match project_file {
                None => {
                    return Err(UatError::ProjectNotFound);
                },
                Some(p) => {
                    let ghost before = rest@;
                    rest.push(path_flag(PROJECT_FLAG, p));
                    assert(views(rest@) =~= views(before).push(plain(PROJECT_FLAG@ + p@)));
                },
            }
        }
        Ok(shell_invocation(script, rest))
    }

    /// The automation tool run to build, cook, stage and package a project
    /// into `archive_dir`.
    pub fn build_project(&self, archive_dir: &str) -> (r: Invocation)
        ensures
            r@ == through_shell(
                self.engine_file(uat_script_rel(self.platform)),
                cook_args(archive_dir@),
            ),
    {
        let script = join(self.config.editor_path.as_str(), self.platform.uat_script(), self.platform);
        let mut rest: Vec<String> = Vec::new();
        rest.push(String::from_str("BuildCookRun"));
        rest.push(path_flag("-archivedirectory=", archive_dir));
        rest.push(String::from_str("-utf8output"));
        rest.push(String::from_str("-platform=Win64"));
        rest.push(String::from_str("-noP4"));
        rest.push(String::from_str("-nodebuginfo"));
        rest.push(String::from_str("-cook"));
        rest.push(String::from_str("-build"));
        rest.push(String::from_str("-stage"));
        rest.push(String::from_str("-archive"));
        rest.push(String::from_str("-pak"));
        assert(views(rest@) =~= cook_args(archive_dir@));
        shell_invocation(script, rest)
    }

    /// Where a project is packaged when no directory is given: `CookedBuild`
    /// beside the plugin file `plugin_file`.
    pub fn cooked_build_dir(&self, plugin_file: &str) -> (r: String)
        ensures
            r@ == joined(parent_of(plugin_file@), "CookedBuild"@, separator_of(self.platform)),
    {
        let dir = parent(plugin_file);
        join(dir.as_str(), "CookedBuild", self.platform)
    }

    /// The automation tool run to build the plugin `plugin_file` and package it
    /// into `output_dir`.
    pub fn build_plugin(&self, plugin_file: &str, output_dir: &str) -> (r: Invocation)
        ensures
            r@ == through_shell(
                self.engine_file(uat_script_rel(self.platform)),
                seq![
                    "BuildPlugin"@,
                    plain("-plugin="@ + plugin_file@),
                    plain("-package="@ + output_dir@),
                    "-CreateSubfolder"@,
                ],
            ),
    {
        let script = join(self.config.editor_path.as_str(), self.platform.uat_script(), self.platform);
        let mut rest: Vec<String> = Vec::new();
        rest.push(String::from_str("BuildPlugin"));
        rest.push(path_flag("-plugin=", plugin_file));
        rest.push(path_flag("-package=", output_dir));
        rest.push(String::from_str("-CreateSubfolder"));
        assert(views(rest@) =~= seq![
            "BuildPlugin"@,
            plain("-plugin="@ + plugin_file@),
            plain("-package="@ + output_dir@),
            "-CreateSubfolder"@,
        ]);
        shell_invocation(script, rest)
    }

    /// The build script run to generate the files of the project `project_file`.
    pub fn generate_proj_files(&self, project_file: &str) -> (r: Invocation)
        ensures
            r@ == through_shell(
                self.engine_file(build_script_rel(self.platform)),
                seq![
                    "-projectfiles"@,
                    plain(PROJECT_FLAG@ + project_file@),
                    "-game"@,
                    "-rocket"@,
                    "-progress"@,
                ],
            ),
    {
        let script = join(self.config.editor_path.as_str(), self.platform.build_script(), self.platform);
        let mut rest: Vec<String> = Vec::new();
        rest.push(String::from_str("-projectfiles"));
        rest.push(path_flag(PROJECT_FLAG, project_file));
        rest.push(String::from_str("-game"));
        rest.push(String::from_str("-rocket"));
        rest.push(String::from_str("-progress"));
        assert(views(rest@) =~= seq![
            "-projectfiles"@,
            plain(PROJECT_FLAG@ + project_file@),
            "-game"@,
            "-rocket"@,
            "-progress"@,
        ]);
        shell_invocation(script, rest)
    }

    /// The build script run to build the editor target of the project
    /// `project_file`, whose description is `project`; `None` when the
    /// description names no editor module.
    pub fn build_editor_project(&self, project_file: &str, project: &uproject::Config) -> (r:
        Option<Invocation>)
        ensures
            r is None <==> forall|j: int|
                0 <= j < project.modules@.len() ==> !uproject::is_editor_module(
                    #[trigger] project.modules@[j],
                ),
            r matches Some(inv) ==> exists|i: int|
                0 <= i < project.modules@.len() && uproject::is_editor_module(
                    project.modules@[i],
                ) && (forall|j: int|
                    0 <= j < i ==> !uproject::is_editor_module(#[trigger] project.modules@[j]))
                    && inv@ == through_shell(
                    self.engine_file(build_script_rel(self.platform)),
                    seq![
                        project.modules@[i].name@,
                        "Win64"@,
                        "Development"@,
                        "-Project="@ + plain(project_file@),
                        "-UsePrecompiled"@,
                        "-WaitMutex"@,
                        "-FromMsBuild"@,
                    ],
                ),
    {
        let module = match project.find_editor_module() {
            Some(m) => m,
            None => {
                return None;
            },
        };
        let path = remove_text(project_file, VERBATIM_PREFIX);
        let script = join(self.config.editor_path.as_str(), self.platform.build_script(), self.platform);
        let mut rest: Vec<String> = Vec::new();
        rest.push(module.name.clone());
        rest.push(String::from_str("Win64"));
        rest.push(String::from_str("Development"));
        rest.push(concat("-Project=", path.as_str()));
        rest.push(String::from_str("-UsePrecompiled"));
        rest.push(String::from_str("-WaitMutex"));
        rest.push(String::from_str("-FromMsBuild"));
        assert(views(rest@) =~= seq![
            module.name@,
            "Win64"@,
            "Development"@,
            "-Project="@ + plain(project_file@),
            "-UsePrecompiled"@,
            "-WaitMutex"@,
            "-FromMsBuild"@,
        ]);
        Some(shell_invocation(script, rest))
    }

    /// What runs after the editor target of `project_file` was built with
    /// `outcome`: the editor, opened on the project without compiling, and
    /// only when the build succeeded.
    pub fn launch_after_build(&self, project_file: &str, outcome: ExitOutcome) -> (r: Option<
        Invocation,
    >)
        ensures
            r is Some <==> outcome.success,
            r matches Some(inv) ==> inv@ == through_shell(
                self.engine_file(editor_rel(self.platform)),
                seq![plain(project_file@), "-skipcompile"@],
            ),
    {
        if !outcome.success {
            return None;
        }
        let exec = Self::editor_exec_path(self.config.editor_path.as_str(), self.platform);
        let mut rest: Vec<String> = Vec::new();
        rest.push(remove_text(project_file, VERBATIM_PREFIX));
        rest.push(String::from_str("-skipcompile"));
        assert(views(rest@) =~= seq![plain(project_file@), "-skipcompile"@]);
        Some(shell_invocation(exec, rest))
    }

    /// The three steps that build the engine from its source in `dir`: its
    /// setup script, its project generation script, and the build of its
    /// solution for the editor.
    pub fn build_engine_from_source(&self, dir: &str) -> (r: Vec<Invocation>)
        ensures
            r@.len() == 3,
            r@[0]@ == (SHELL@, seq![
                SHELL_RUN@,
                joined(dir@, "Setup.bat"@, separator_of(self.platform)),
            ]),
            r@[1]@ == (SHELL@, seq![
                SHELL_RUN@,
                joined(dir@, "GenerateProjectFiles.bat"@, separator_of(self.platform)),
            ]),
            r@[2]@ == through_shell(
                "msbuild"@,
                seq![
                    joined(dir@, "UE5.sln"@, separator_of(self.platform)),
                    "/p:Configuration=\"Development Editor\""@,
                    "/p:Platform=\"Win64\""@,
                ],
            ),
    {
        let mut r: Vec<Invocation> = Vec::new();
        let setup = shell_invocation(join(dir, "Setup.bat", self.platform), Vec::new());
        assert(setup@.1 =~= seq![SHELL_RUN@, joined(dir@, "Setup.bat"@, separator_of(self.platform))]);
        r.push(setup);
        let generate = shell_invocation(join(dir, "GenerateProjectFiles.bat", self.platform), Vec::new());
        assert(generate@.1 =~= seq![
            SHELL_RUN@,
            joined(dir@, "GenerateProjectFiles.bat"@, separator_of(self.platform)),
        ]);
        r.push(generate);
        let mut rest: Vec<String> = Vec::new();
        rest.push(join(dir, "UE5.sln", self.platform));
        rest.push(String::from_str("/p:Configuration=\"Development Editor\""));
        rest.push(String::from_str("/p:Platform=\"Win64\""));
        assert(views(rest@) =~= seq![
            joined(dir@, "UE5.sln"@, separator_of(self.platform)),
            "/p:Configuration=\"Development Editor\""@,
            "/p:Platform=\"Win64\""@,
        ]);
        r.push(shell_invocation(String::from_str("msbuild"), rest));
        r
    }
}

} // verus!
