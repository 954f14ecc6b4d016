//! The filesystem actions that lay a project down, in the order in which they
//! are to be carried out.

use crate::config::{Config, ConfigView};
use crate::error::ScaffoldError;
use crate::generator::{
    descriptor_directives, descriptor_text, generate_build_file, lemma_dependency_directives_iff_conan,
    lemma_install_step_iff_conan, lemma_lint_hook_iff_clang_tidy, setup_text, taken_root_names,
    uppercase_of, Directive, Generator, INSTALL_STEP,
};
use crate::registry::{resolve, Family, Registry};
use crate::templates::{CLANG_TIDY, GITIGNORE, MAIN_CPP};
use vstd::prelude::*;
use vstd::string::StringExecFns;

verus! {

/// What an action brings into being.
#[derive(Clone, Copy, Debug, PartialEq, Eq, Structural)]
pub enum Artifact {
    RootDir,
    SourceDir,
    IncludeDir,
    BuildDir,
    EntryPoint,
    BuildDescriptor,
    SetupScript,
    BuildScript,
    DependencyManifest,
    LintPolicy,
    IgnoreFile,
}

/// One filesystem action. A path is a list of segments below the working
/// directory; whoever carries the action out joins them as the platform asks.
#[derive(Debug, PartialEq, Eq)]
pub enum FsAction {
    /// Create one directory; its parent exists by then.
    CreateDir { artifact: Artifact, path: Vec<String> },
    /// Create one file with the given text.
    WriteFile { artifact: Artifact, path: Vec<String>, content: String },
}

/// An action as mathematical values. A directory has no content.
pub struct ActionView {
    pub artifact: Artifact,
    pub path: Seq<Seq<char>>,
    pub content: Option<Seq<char>>,
}

/// The segments of a path as texts.
pub open spec fn segments(path: Seq<String>) -> Seq<Seq<char>> {
    path.map_values(|segment: String| segment@)
}

impl View for FsAction {
    type V = ActionView;

    open spec fn view(&self) -> ActionView {
        match self {
            FsAction::CreateDir { artifact, path } => ActionView {
                artifact: *artifact,
                path: segments(path@),
                content: None,
            },
            FsAction::WriteFile { artifact, path, content } => ActionView {
                artifact: *artifact,
                path: segments(path@),
                content: Some(content@),
            },
        }
    }
}

impl FsAction {
    /// What this action brings into being.
    pub fn artifact(&self) -> (artifact: Artifact)
        ensures
            artifact == self@.artifact,
    {
        match self {
            FsAction::CreateDir { artifact, .. } => *artifact,
            FsAction::WriteFile { artifact, .. } => *artifact,
        }
    }
}

/// The actions of a plan as mathematical values.
pub open spec fn actions(plan: Seq<FsAction>) -> Seq<ActionView> {
    plan.map_values(|action: FsAction| action@)
}

/// The creation of a directory.
pub open spec fn dir(artifact: Artifact, path: Seq<Seq<char>>) -> ActionView {
    ActionView { artifact, path, content: None }
}

/// The writing of a file.
pub open spec fn file(artifact: Artifact, path: Seq<Seq<char>>, content: Seq<char>) -> ActionView {
    ActionView { artifact, path, content: Some(content) }
}

/// The directory skeleton and the starter source file.
pub open spec fn skeleton(name: Seq<char>) -> Seq<ActionView> {
    seq![
        dir(Artifact::RootDir, seq![name]),
        dir(Artifact::SourceDir, seq![name, "src"@]),
        dir(Artifact::IncludeDir, seq![name, "include"@]),
        dir(Artifact::BuildDir, seq![name, "build"@]),
        file(Artifact::EntryPoint, seq![name, "src"@, "main.cpp"@], MAIN_CPP@),
    ]
}

/// The two helper scripts.
pub open spec fn scripts(name: Seq<char>, build: Seq<char>, setup: Seq<char>) -> Seq<ActionView> {
    seq![
        file(Artifact::SetupScript, seq![name, "setup.bat"@], setup),
        file(Artifact::BuildScript, seq![name, "build.bat"@], build),
    ]
}

/// The dependency manifest: nothing required yet, and the generator that the
/// dependency manager is to write its fragment for.
pub open spec fn manifest_text(generator: Seq<char>) -> Seq<char> {
    "[requires]\n\n[generators]\n"@ + generator
}

/// `action` alone if `present`, else nothing.
pub open spec fn when(present: bool, action: ActionView) -> Seq<ActionView> {
    if present {
        seq![action]
    } else {
        Seq::empty()
    }
}

/// Every action of a synthesis, given the three texts that the generator
/// contributes and the name of its descriptor file.
pub open spec fn project_plan(
    config: ConfigView,
    descriptor_name: Seq<char>,
    descriptor: Seq<char>,
    setup: Seq<char>,
    build: Seq<char>,
) -> Seq<ActionView> {
    skeleton(config.name)
        + seq![file(Artifact::BuildDescriptor, seq![config.name, descriptor_name], descriptor)]
        + scripts(config.name, build, setup)
        + when(
            config.use_conan,
            file(
                Artifact::DependencyManifest,
                seq![config.name, "conanfile.txt"@],
                manifest_text(config.generator),
            ),
        )
        + when(
            config.use_clang_tidy,
            file(Artifact::LintPolicy, seq![config.name, ".clang-tidy"@], CLANG_TIDY@),
        )
        + seq![file(Artifact::IgnoreFile, seq![config.name, ".gitignore"@], GITIGNORE@)]
}

/// The plan that the generator `g` gives for `config`.
pub open spec fn plan_with<G: Generator>(g: &G, config: ConfigView) -> Seq<ActionView> {
    project_plan(
        config,
        g.descriptor_name(),
        descriptor_text(g, config, uppercase_of(config.name)),
        setup_text(config.use_conan, g.configure_command()),
        g.compile_command(),
    )
}

/// What `Config::create_project` owes: the plan of the registered generator,
/// or an error and no action at all where the generator is not registered.
pub open spec fn synthesis_of(config: ConfigView, table: Map<Seq<char>, Family>) -> Result<
    Seq<ActionView>,
    ScaffoldError,
> {
    match resolve(table, config.generator) {
        Ok(family) => Ok(plan_with(&family, config)),
        Err(error) => Err(error),
    }
}

/// The path made of `root` alone.
fn path_of_one(root: &str) -> (path: Vec<String>)
    ensures
        segments(path@) == seq![root@],
{
    let mut path: Vec<String> = Vec::new();
    path.push(String::from_str(root));
    path
}

/// The path of `leaf` directly below `root`.
fn path_of_two(root: &str, leaf: &str) -> (path: Vec<String>)
    ensures
        segments(path@) == seq![root@, leaf@],
{
    let mut path: Vec<String> = Vec::new();
    path.push(String::from_str(root));
    path.push(String::from_str(leaf));
    path
}

/// The path of `leaf` in the directory `middle` below `root`.
fn path_of_three(root: &str, middle: &str, leaf: &str) -> (path: Vec<String>)
    ensures
        segments(path@) == seq![root@, middle@, leaf@],
{
    let mut path: Vec<String> = Vec::new();
    path.push(String::from_str(root));
    path.push(String::from_str(middle));
    path.push(String::from_str(leaf));
    path
}

/// Moves the actions of `more` to the end of `plan`.
fn extend(plan: &mut Vec<FsAction>, more: Vec<FsAction>)
    ensures
        actions(final(plan)@) == actions(old(plan)@) + actions(more@),
{
    let mut more = more;
    plan.append(&mut more);
}

/// Adds one action to the end of `plan`.
fn push_action(plan: &mut Vec<FsAction>, action: FsAction)
    ensures
        actions(final(plan)@) == actions(old(plan)@) + seq![action@],
{
    plan.push(action);
}

/// Writes the dependency manifest for the generator registered as `generator`.
pub fn manifest_for(generator: &str) -> (text: String)
    ensures
        text@ == manifest_text(generator@),
{
    let mut text = String::from_str("[requires]\n\n[generators]\n");
    text.append(generator);
    text
}

impl Config {
    /// Plans the root directory, its three subdirectories and the starter
    /// source file.
    pub fn create_default_dirs(&self) -> (plan: Vec<FsAction>)
        ensures
            actions(plan@) == skeleton(self@.name),
    {
        let name = self.name();
        let mut plan: Vec<FsAction> = Vec::new();
        plan.push(FsAction::CreateDir { artifact: Artifact::RootDir, path: path_of_one(name) });
        plan.push(
            FsAction::CreateDir { artifact: Artifact::SourceDir, path: path_of_two(name, "src") },
        );
        plan.push(
            FsAction::CreateDir {
                artifact: Artifact::IncludeDir,
                path: path_of_two(name, "include"),
            },
        );
        plan.push(
            FsAction::CreateDir { artifact: Artifact::BuildDir, path: path_of_two(name, "build") },
        );
        plan.push(
            FsAction::WriteFile {
                artifact: Artifact::EntryPoint,
                path: path_of_three(name, "src", "main.cpp"),
                content: String::from_str(MAIN_CPP),
            },
        );
        plan
    }

    /// Plans the setup script and the build script with the given texts.
    pub fn create_cmd_shell_files(&self, build: String, setup: String) -> (plan: Vec<FsAction>)
        ensures
            actions(plan@) == scripts(self@.name, build@, setup@),
    {
        let name = self.name();
        let mut plan: Vec<FsAction> = Vec::new();
        plan.push(
            FsAction::WriteFile {
                artifact: Artifact::SetupScript,
                path: path_of_two(name, "setup.bat"),
                content: setup,
            },
        );
        plan.push(
            FsAction::WriteFile {
                artifact: Artifact::BuildScript,
                path: path_of_two(name, "build.bat"),
                content: build,
            },
        );
        plan
    }

    /// Plans the whole project with the generator `g`.
    pub fn plan_project<G: Generator>(&self, g: &G) -> (plan: Vec<FsAction>)
        ensures
            actions(plan@) == plan_with(g, self@),
    {
        let name = self.name();
        let mut plan = self.create_default_dirs();
        push_action(
            &mut plan,
            FsAction::WriteFile {
                artifact: Artifact::BuildDescriptor,
                path: path_of_two(name, g.descriptor_file_name()),
                content: generate_build_file(g, self),
            },
        );
        let shell = self.create_cmd_shell_files(g.build_cmd(self), g.setup_cmd(self));
        extend(&mut plan, shell);
        if self.use_conan() {
            push_action(
                &mut plan,
                FsAction::WriteFile {
                    artifact: Artifact::DependencyManifest,
                    path: path_of_two(name, "conanfile.txt"),
                    content: manifest_for(self.generator()),
                },
            );
        }
        if self.use_clang_tidy() {
            push_action(
                &mut plan,
                FsAction::WriteFile {
                    artifact: Artifact::LintPolicy,
                    path: path_of_two(name, ".clang-tidy"),
                    content: String::from_str(CLANG_TIDY),
                },
            );
        }
        push_action(
            &mut plan,
            FsAction::WriteFile {
                artifact: Artifact::IgnoreFile,
                path: path_of_two(name, ".gitignore"),
                content: String::from_str(GITIGNORE),
            },
        );
        plan
    }

    /// Looks the configured generator up in `registry` and plans the project
    /// with it. Where the generator is not registered there is no plan, so
    /// nothing is created.
    pub fn create_project(&self, registry: &Registry) -> (plan: Result<Vec<FsAction>, ScaffoldError>)
        ensures
            match plan {
                Ok(list) => synthesis_of(self@, registry@) == Ok::<Seq<ActionView>, ScaffoldError>(
                    actions(list@),
                ),
                Err(error) => synthesis_of(self@, registry@) == Err::<Seq<ActionView>, ScaffoldError>(
                    error,
                ),
            },
    {
        match registry.lookup(self.generator()) {
            Ok(family) => Ok(self.plan_project(&family)),
            Err(error) => Err(error),
        }
    }
}

/// Whether `plan` holds an action at `path`.
pub open spec fn reaches(plan: Seq<ActionView>, path: Seq<Seq<char>>) -> bool {
    exists|i: int| 0 <= i < plan.len() && (#[trigger] plan[i]).path == path
}

/// Whether `plan` holds an action that brings `artifact` into being.
pub open spec fn brings(plan: Seq<ActionView>, artifact: Artifact) -> bool {
    exists|i: int| 0 <= i < plan.len() && (#[trigger] plan[i]).artifact == artifact
}

/// Every plan begins with the root directory and its three subdirectories,
/// then the starter source, the descriptor and the two scripts, and ends with
/// the ignore file; whatever else it holds stands between the scripts and the
/// ignore file.
pub proof fn lemma_plan_shape<G: Generator>(g: &G, config: ConfigView)
    ensures
        ({
            let plan = plan_with(g, config);
            let name = config.name;
            &&& 9 <= plan.len() <= 11
            &&& plan[0] == dir(Artifact::RootDir, seq![name])
            &&& plan[1] == dir(Artifact::SourceDir, seq![name, "src"@])
            &&& plan[2] == dir(Artifact::IncludeDir, seq![name, "include"@])
            &&& plan[3] == dir(Artifact::BuildDir, seq![name, "build"@])
            &&& plan[4] == file(Artifact::EntryPoint, seq![name, "src"@, "main.cpp"@], MAIN_CPP@)
            &&& plan[5] == file(
                Artifact::BuildDescriptor,
                seq![name, g.descriptor_name()],
                descriptor_text(g, config, uppercase_of(name)),
            )
            &&& plan[6] == file(
                Artifact::SetupScript,
                seq![name, "setup.bat"@],
                setup_text(config.use_conan, g.configure_command()),
            )
            &&& plan[7] == file(
                Artifact::BuildScript,
                seq![name, "build.bat"@],
                g.compile_command(),
            )
            &&& plan.last() == file(Artifact::IgnoreFile, seq![name, ".gitignore"@], GITIGNORE@)
            &&& forall|i: int| 4 <= i < plan.len() ==> (#[trigger] plan[i]).content.is_some()
        }),
{
}

/// The lint tool is used if and only if the descriptor holds the lint hook,
/// and if and only if the plan writes the lint policy. Where it is written,
/// it is the fixed policy text in `.clang-tidy` at the project's root.
pub proof fn lemma_lint_iff_clang_tidy<G: Generator>(g: &G, config: ConfigView)
    ensures
        descriptor_directives(config.kind, config.use_clang_tidy, config.use_conan).contains(
            Directive::LintHook,
        ) <==> config.use_clang_tidy,
        brings(plan_with(g, config), Artifact::LintPolicy) <==> config.use_clang_tidy,
        reaches(plan_with(g, config), seq![config.name, ".clang-tidy"@]) <==> config.use_clang_tidy,
        config.use_clang_tidy ==> plan_with(g, config).contains(
            file(Artifact::LintPolicy, seq![config.name, ".clang-tidy"@], CLANG_TIDY@),
        ),
{
    lemma_lint_hook_iff_clang_tidy(config.kind, config.use_clang_tidy, config.use_conan);
    lemma_root_name_only_at_its_rank(g, config, 6);
    let plan = plan_with(g, config);
    if config.use_clang_tidy {
        let at = plan.len() - 2;
        assert(plan[at] == file(
            Artifact::LintPolicy,
            seq![config.name, ".clang-tidy"@],
            CLANG_TIDY@,
        ));
    }
}

/// The dependency manager is used if and only if the plan writes the
/// dependency manifest, if and only if the descriptor includes the dependency
/// manager's fragment and links against its libraries, and if and only if the
/// setup script begins with the install step. Where the manifest is written,
/// it is `conanfile.txt` at the project's root, it requires nothing, and it
/// names the configured generator.
pub proof fn lemma_dependencies_iff_conan<G: Generator>(g: &G, config: ConfigView)
    ensures
        brings(plan_with(g, config), Artifact::DependencyManifest) <==> config.use_conan,
        reaches(plan_with(g, config), seq![config.name, "conanfile.txt"@]) <==> config.use_conan,
        config.use_conan ==> plan_with(g, config).contains(
            file(
                Artifact::DependencyManifest,
                seq![config.name, "conanfile.txt"@],
                manifest_text(config.generator),
            ),
        ),
        descriptor_directives(config.kind, config.use_clang_tidy, config.use_conan).contains(
            Directive::DependencyInclude,
        ) <==> config.use_conan,
        descriptor_directives(config.kind, config.use_clang_tidy, config.use_conan).contains(
            Directive::LinkLibraries,
        ) <==> config.use_conan,
        plan_with(g, config)[6].artifact == Artifact::SetupScript,
        plan_with(g, config)[6].content matches Some(script) && (INSTALL_STEP@.is_prefix_of(script)
            <==> config.use_conan),
{
    lemma_dependency_directives_iff_conan(config.kind, config.use_clang_tidy, config.use_conan);
    lemma_install_step_iff_conan(g, config.use_conan);
    lemma_plan_shape(g, config);
    lemma_root_name_only_at_its_rank(g, config, 5);
    let plan = plan_with(g, config);
    if config.use_conan {
        assert(plan[8] == file(
            Artifact::DependencyManifest,
            seq![config.name, "conanfile.txt"@],
            manifest_text(config.generator),
        ));
    }
}

/// A generator that is not registered gives an error and no action at all;
/// a registered one always gives its plan.
pub proof fn lemma_unregistered_gives_nothing(config: ConfigView, table: Map<Seq<char>, Family>)
    ensures
        !table.contains_key(config.generator) <==> synthesis_of(config, table) == Err::<
            Seq<ActionView>,
            ScaffoldError,
        >(ScaffoldError::UnsupportedGenerator),
        table.contains_key(config.generator) <==> synthesis_of(config, table).is_ok(),
{
}

/// No two actions of a plan have the same path, so a run never writes over
/// what it has made.
pub proof fn lemma_paths_are_distinct<G: Generator>(g: &G, config: ConfigView)
    ensures
        forall|i: int, j: int|
            #![trigger plan_with(g, config)[i], plan_with(g, config)[j]]
            0 <= i < j < plan_with(g, config).len() ==> plan_with(g, config)[i].path
                != plan_with(g, config)[j].path,
{
    let plan = plan_with(g, config);
    g.descriptor_name_is_free();
    lemma_taken_root_names_differ();
    assert forall|i: int, j: int| 0 <= i < j < plan.len() implies plan[i].path != plan[j].path by {
        if plan[i].path.len() == plan[j].path.len() {
            lemma_leaves_differ(g, config, i, j);
        }
    }
}

/// The names that every root directory may hold differ from one another.
proof fn lemma_taken_root_names_differ()
    ensures
        forall|i: int, j: int|
            0 <= i < j < taken_root_names().len() ==> taken_root_names()[i]
                != taken_root_names()[j],
{
    reveal_strlit("src");
    reveal_strlit("include");
    reveal_strlit("build");
    reveal_strlit("setup.bat");
    reveal_strlit("build.bat");
    reveal_strlit("conanfile.txt");
    reveal_strlit(".clang-tidy");
    reveal_strlit(".gitignore");
    let taken = taken_root_names();
    assert forall|i: int, j: int| 0 <= i < j < taken.len() implies taken[i] != taken[j] by {
        if i == 3 && j == 4 {
            assert(taken[i][0] == 's' && taken[j][0] == 'b');
        } else {
            assert(taken[i].len() != taken[j].len());
        }
    }
}

/// Where the action at `at` has a path of two segments, where in the list of
/// root names its second segment stands, or -1 for the descriptor.
spec fn leaf_rank(config: ConfigView, at: int) -> int {
    if at == 1 {
        0
    } else if at == 2 {
        1
    } else if at == 3 {
        2
    } else if at == 5 {
        -1
    } else if at == 6 {
        3
    } else if at == 7 {
        4
    } else if at == 8 && config.use_conan {
        5
    } else if (at == 8 && !config.use_conan && config.use_clang_tidy) || (at == 9
        && config.use_conan && config.use_clang_tidy) {
        6
    } else {
        7
    }
}

/// The second segment of a path of two segments is the descriptor's name or
/// the root name of its rank.
proof fn lemma_leaf_is_known<G: Generator>(g: &G, config: ConfigView, at: int)
    requires
        0 <= at < plan_with(g, config).len(),
        plan_with(g, config)[at].path.len() == 2,
    ensures
        ({
            let leaf = plan_with(g, config)[at].path[1];
            let rank = leaf_rank(config, at);
            &&& -1 <= rank < taken_root_names().len()
            &&& rank == -1 ==> leaf == g.descriptor_name()
            &&& rank >= 0 ==> leaf == taken_root_names()[rank]
        }),
{
}

/// Two actions whose paths have two segments differ in the second.
proof fn lemma_leaves_differ<G: Generator>(g: &G, config: ConfigView, i: int, j: int)
    requires
        0 <= i < j < plan_with(g, config).len(),
        plan_with(g, config)[i].path.len() == 2,
        plan_with(g, config)[j].path.len() == 2,
        !taken_root_names().contains(g.descriptor_name()),
        forall|a: int, b: int|
            0 <= a < b < taken_root_names().len() ==> taken_root_names()[a]
                != taken_root_names()[b],
    ensures
        plan_with(g, config)[i].path != plan_with(g, config)[j].path,
{
    lemma_leaf_is_known(g, config, i);
    lemma_leaf_is_known(g, config, j);
}

/// A plan reaches the root name of rank `rank`, directly below the root
/// directory, only through an action of that rank.
proof fn lemma_root_name_only_at_its_rank<G: Generator>(g: &G, config: ConfigView, rank: int)
    requires
        0 <= rank < taken_root_names().len(),
    ensures
        reaches(plan_with(g, config), seq![config.name, taken_root_names()[rank]])
            <==> exists|i: int|
            0 <= i < plan_with(g, config).len() && plan_with(g, config)[i].path.len() == 2
                && #[trigger] leaf_rank(config, i) == rank,
{
    let plan = plan_with(g, config);
    let taken = taken_root_names();
    let path = seq![config.name, taken[rank]];
    g.descriptor_name_is_free();
    lemma_taken_root_names_differ();
    if reaches(plan, path) {
        let i = choose|i: int| 0 <= i < plan.len() && (#[trigger] plan[i]).path == path;
        lemma_leaf_is_known(g, config, i);
    }
    if exists|i: int|
        0 <= i < plan.len() && plan[i].path.len() == 2 && #[trigger] leaf_rank(config, i) == rank {
        let i = choose|i: int|
            0 <= i < plan.len() && plan[i].path.len() == 2 && #[trigger] leaf_rank(config, i)
                == rank;
        lemma_leaf_is_known(g, config, i);
    }
}

/// Whether an action before position `at` creates the directory in which
/// the action at `at` makes its entry.
pub open spec fn parent_is_made_before(plan: Seq<ActionView>, at: int) -> bool {
    exists|j: int|
        0 <= j < at && (#[trigger] plan[j]).content.is_none() && plan[j].path
            == plan[at].path.drop_last()
}

/// The root directory comes first, and whatever else a plan makes lies in a
/// directory that an earlier action of the plan creates.
pub proof fn lemma_parents_come_first<G: Generator>(g: &G, config: ConfigView)
    ensures
        plan_with(g, config)[0] == dir(Artifact::RootDir, seq![config.name]),
        forall|i: int|
            0 < i < plan_with(g, config).len() ==> #[trigger] parent_is_made_before(
                plan_with(g, config),
                i,
            ),
{
    let plan = plan_with(g, config);
    assert forall|i: int| 0 < i < plan.len() implies #[trigger] parent_is_made_before(plan, i) by {
        let j = if i == 4 {
            1int
        } else {
            0int
        };
        assert(plan[j].path =~= plan[i].path.drop_last());
    }
}

} // verus!
