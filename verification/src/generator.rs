//! What every build-system generator owes: the directives of a build
//! descriptor in their fixed order, and the commands that configure and build.

use crate::config::{ArtifactKind, Config, ConfigView};
use vstd::prelude::*;
use vstd::string::StringExecFns;

verus! {

/// One statement of a build descriptor, named by what it means. How it is
/// written is up to the generator.
#[derive(Clone, Copy, Debug, PartialEq, Eq, Structural)]
pub enum Directive {
    /// The oldest version of the build tool that may read the descriptor.
    MinimumVersion,
    /// The project's name and version.
    Project,
    /// Runs the lint tool alongside the compiler.
    LintHook,
    /// The variable that holds the source directory.
    SourceDirVar,
    /// The variable that holds the header directory.
    IncludeDirVar,
    /// Puts the header directory on the include path.
    IncludePath,
    /// Pulls in the fragment that the dependency manager generates.
    DependencyInclude,
    /// The one thing the project builds.
    Target(ArtifactKind),
    /// Links the target against what the dependency manager resolved.
    LinkLibraries,
    /// The warnings that count as errors.
    WarningFlags,
    /// The language standard and the warning flags, added to the compiler's flags.
    CompilerFlags,
}

/// `d` alone if `present`, else nothing.
pub open spec fn when(present: bool, d: Directive) -> Seq<Directive> {
    if present {
        seq![d]
    } else {
        Seq::empty()
    }
}

/// The directives of the descriptor for a project, in the order in which they
/// are written.
pub open spec fn descriptor_directives(
    kind: ArtifactKind,
    use_clang_tidy: bool,
    use_conan: bool,
) -> Seq<Directive> {
    seq![Directive::MinimumVersion, Directive::Project]
        + when(use_clang_tidy, Directive::LintHook)
        + seq![Directive::SourceDirVar, Directive::IncludeDirVar, Directive::IncludePath]
        + when(use_conan, Directive::DependencyInclude)
        + seq![Directive::Target(kind)]
        + when(use_conan, Directive::LinkLibraries)
        + seq![Directive::WarningFlags, Directive::CompilerFlags]
}

/// The commands that let the dependency manager install into the build
/// directory and then return to the project's root.
pub const INSTALL_STEP: &'static str = "cd build\nconan install .. --build missing\ncd ..\n";

/// The text of the setup script: the install step first where the dependency
/// manager is used, then the generator's own configure command.
pub open spec fn setup_text(use_conan: bool, configure: Seq<char>) -> Seq<char> {
    if use_conan {
        INSTALL_STEP@ + configure
    } else {
        configure
    }
}

/// The names that a project's root directory may hold whatever the generator:
/// the three subdirectories, the two scripts, the dependency manifest, the
/// lint policy and the ignore file.
pub open spec fn taken_root_names() -> Seq<Seq<char>> {
    seq![
        "src"@,
        "include"@,
        "build"@,
        "setup.bat"@,
        "build.bat"@,
        "conanfile.txt"@,
        ".clang-tidy"@,
        ".gitignore"@,
    ]
}

/// The uppercase form of a text as `str::to_uppercase` computes it.
pub uninterp spec fn uppercase_of(text: Seq<char>) -> Seq<char>;

/// Calls `str::to_uppercase`. The contract only names the result: the same
/// text always has the same uppercase form.
#[verifier::external_body]
fn to_uppercase(text: &str) -> (upper: String)
    ensures
        upper@ == uppercase_of(text@),
{
    text.to_uppercase()
}

/// A family of build tooling.
pub trait Generator {
    /// How this family writes one directive for a project called `name` whose
    /// variables begin with `prefix`.
    spec fn directive_text(&self, d: Directive, name: Seq<char>, prefix: Seq<char>) -> Seq<char>;

    /// The name of the descriptor file at the project's root.
    spec fn descriptor_name(&self) -> Seq<char>;

    /// The command that configures the build tree.
    spec fn configure_command(&self) -> Seq<char>;

    /// The command that compiles the configured tree.
    spec fn compile_command(&self) -> Seq<char>;

    /// No family's configure command begins with the install step, so a setup
    /// script shows whether the dependency manager is used.
    proof fn configure_is_not_install(&self)
        ensures
            !INSTALL_STEP@.is_prefix_of(self.configure_command()),
    ;

    /// The descriptor has a name of its own: none of those that the root
    /// directory of every project holds anyway.
    proof fn descriptor_name_is_free(&self)
        ensures
            !taken_root_names().contains(self.descriptor_name()),
    ;

    /// Writes one directive in this family's syntax.
    fn render_directive(&self, d: Directive, name: &str, prefix: &str) -> (line: String)
        ensures
            line@ == self.directive_text(d, name@, prefix@),
    ;

    /// The name of the file that holds the descriptor.
    fn descriptor_file_name(&self) -> (file: &'static str)
        ensures
            file@ == self.descriptor_name(),
    ;

    /// The text of the setup script for `config`.
    fn setup_cmd(&self, config: &Config) -> (script: String)
        ensures
            script@ == setup_text(config@.use_conan, self.configure_command()),
    ;

    /// The text of the build script for `config`.
    fn build_cmd(&self, config: &Config) -> (script: String)
        ensures
            script@ == self.compile_command(),
    ;
}

/// The full text of the build descriptor that `g` writes for `config`. The
/// names of the directory variables begin with the project's name in uppercase.
pub fn generate_build_file<G: Generator>(g: &G, config: &Config) -> (text: String)
    ensures
        text@ == descriptor_text(g, config@, uppercase_of(config@.name)),
{
    let prefix = to_uppercase(config.name());
    write_descriptor(g, config, prefix.as_str())
}

/// The texts of the directives `ds`, one after the other.
pub open spec fn render_all<G: Generator>(
    g: &G,
    ds: Seq<Directive>,
    name: Seq<char>,
    prefix: Seq<char>,
) -> Seq<char>
    decreases ds.len(),
{
    if ds.len() == 0 {
        Seq::empty()
    } else {
        render_all(g, ds.drop_last(), name, prefix) + g.directive_text(ds.last(), name, prefix)
    }
}

/// The descriptor that `g` writes for `config` when variables begin with `prefix`.
pub open spec fn descriptor_text<G: Generator>(g: &G, config: ConfigView, prefix: Seq<char>) -> Seq<
    char,
> {
    render_all(
        g,
        descriptor_directives(config.kind, config.use_clang_tidy, config.use_conan),
        config.name,
        prefix,
    )
}

/// Lists the directives of the descriptor for `config`.
pub fn directives_for(config: &Config) -> (list: Vec<Directive>)
    ensures
        list@ == descriptor_directives(config@.kind, config@.use_clang_tidy, config@.use_conan),
{
    let mut list: Vec<Directive> = Vec::new();
    list.push(Directive::MinimumVersion);
    list.push(Directive::Project);
    if config.use_clang_tidy() {
        list.push(Directive::LintHook);
    }
    list.push(Directive::SourceDirVar);
    list.push(Directive::IncludeDirVar);
    list.push(Directive::IncludePath);
    if config.use_conan() {
        list.push(Directive::DependencyInclude);
    }
    list.push(Directive::Target(config.kind()));
    if config.use_conan() {
        list.push(Directive::LinkLibraries);
    }
    list.push(Directive::WarningFlags);
    list.push(Directive::CompilerFlags);
    list
}

/// Writes the descriptor for `config` in the syntax of `g`, with `prefix` in
/// front of the names of the directory variables.
pub fn write_descriptor<G: Generator>(g: &G, config: &Config, prefix: &str) -> (text: String)
    ensures
        text@ == descriptor_text(g, config@, prefix@),
{
    let list = directives_for(config);
    let name = config.name();
    let mut text = String::new();
    let mut i: usize = 0;
    while i < list.len()
        invariant
            i <= list.len(),
            name@ == config@.name,
            text@ == render_all(g, list@.take(i as int), name@, prefix@),
        decreases list.len() - i,
    {
        let line = g.render_directive(list[i], name, prefix);
        proof {
            assert(list@.take(i + 1).drop_last() == list@.take(i as int));
        }
        text.append(line.as_str());
        i += 1;
    }
    proof {
        assert(list@.take(list.len() as int) == list@);
    }
    text
}

/// Puts the install step in front of `configure` where the dependency manager
/// is used.
pub fn with_install_step(use_conan: bool, configure: &str) -> (script: String)
    ensures
        script@ == setup_text(use_conan, configure@),
{
    if use_conan {
        let mut script = String::from_str(INSTALL_STEP);
        script.append(configure);
        script
    } else {
        String::from_str(configure)
    }
}

/// Where the target stands among the directives of a descriptor.
pub open spec fn target_position(use_clang_tidy: bool, use_conan: bool) -> int {
    5 + (if use_clang_tidy {
        1int
    } else {
        0int
    }) + (if use_conan {
        1int
    } else {
        0int
    })
}

/// Every descriptor declares exactly one target, and it is of the configured
/// kind: an executable for `Executable`, a library for `Library`.
pub proof fn lemma_exactly_one_target(kind: ArtifactKind, use_clang_tidy: bool, use_conan: bool)
    ensures
        ({
            let ds = descriptor_directives(kind, use_clang_tidy, use_conan);
            let at = target_position(use_clang_tidy, use_conan);
            &&& 0 <= at < ds.len()
            &&& ds[at] == Directive::Target(kind)
            &&& forall|i: int| 0 <= i < ds.len() && i != at ==> !(#[trigger] ds[i] is Target)
        }),
{
}

/// The lint hook is among the directives exactly where the lint tool is used.
pub proof fn lemma_lint_hook_iff_clang_tidy(
    kind: ArtifactKind,
    use_clang_tidy: bool,
    use_conan: bool,
)
    ensures
        descriptor_directives(kind, use_clang_tidy, use_conan).contains(Directive::LintHook)
            <==> use_clang_tidy,
{
    let ds = descriptor_directives(kind, use_clang_tidy, use_conan);
    if use_clang_tidy {
        assert(ds[2] == Directive::LintHook);
    }
}

/// The include of the dependency manager's fragment and the link directive
/// are among the directives exactly where the dependency manager is used; the
/// include then stands before the target and the link directive after it.
pub proof fn lemma_dependency_directives_iff_conan(
    kind: ArtifactKind,
    use_clang_tidy: bool,
    use_conan: bool,
)
    ensures
        ({
            let ds = descriptor_directives(kind, use_clang_tidy, use_conan);
            let at = target_position(use_clang_tidy, use_conan);
            &&& ds.contains(Directive::DependencyInclude) <==> use_conan
            &&& ds.contains(Directive::LinkLibraries) <==> use_conan
            &&& use_conan ==> ds[at - 1] == Directive::DependencyInclude && ds[at + 1]
                == Directive::LinkLibraries
        }),
{
}

/// Writing two lists of directives one after the other gives the two texts
/// one after the other.
pub proof fn lemma_render_concat<G: Generator>(
    g: &G,
    first: Seq<Directive>,
    second: Seq<Directive>,
    name: Seq<char>,
    prefix: Seq<char>,
)
    ensures
        render_all(g, first + second, name, prefix) == render_all(g, first, name, prefix)
            + render_all(g, second, name, prefix),
    decreases second.len(),
{
    if second.len() > 0 {
        assert((first + second).drop_last() == first + second.drop_last());
        lemma_render_concat(g, first, second.drop_last(), name, prefix);
    }
}

/// The text of a list of directives is the text of those before position
/// `at`, the text of the directive at `at`, and the text of those after it: a
/// descriptor holds the text of each of its directives, in their order.
pub proof fn lemma_render_split<G: Generator>(
    g: &G,
    ds: Seq<Directive>,
    at: int,
    name: Seq<char>,
    prefix: Seq<char>,
)
    requires
        0 <= at < ds.len(),
    ensures
        render_all(g, ds, name, prefix) == render_all(g, ds.take(at), name, prefix)
            + g.directive_text(ds[at], name, prefix) + render_all(
            g,
            ds.skip(at + 1),
            name,
            prefix,
        ),
{
    let head = ds.take(at);
    let one = seq![ds[at]];
    let tail = ds.skip(at + 1);
    assert(ds == head + one + tail);
    lemma_render_concat(g, head + one, tail, name, prefix);
    lemma_render_concat(g, head, one, name, prefix);
    assert(render_all(g, one, name, prefix) == g.directive_text(ds[at], name, prefix)) by {
        reveal_with_fuel(render_all, 2);
    }
}

/// Whether `part` stands somewhere in `text`, unbroken.
pub open spec fn occurs_in(part: Seq<char>, text: Seq<char>) -> bool {
    exists|from: int, to: int|
        0 <= from <= to <= text.len() && #[trigger] text.subrange(from, to) == part
}

/// The text of every directive of a descriptor stands in the descriptor.
pub proof fn lemma_directive_text_occurs<G: Generator>(
    g: &G,
    config: ConfigView,
    prefix: Seq<char>,
    d: Directive,
)
    requires
        descriptor_directives(config.kind, config.use_clang_tidy, config.use_conan).contains(d),
    ensures
        occurs_in(g.directive_text(d, config.name, prefix), descriptor_text(g, config, prefix)),
{
    let ds = descriptor_directives(config.kind, config.use_clang_tidy, config.use_conan);
    let at = choose|i: int| 0 <= i < ds.len() && ds[i] == d;
    lemma_render_split(g, ds, at, config.name, prefix);
    let before = render_all(g, ds.take(at), config.name, prefix);
    let line = g.directive_text(d, config.name, prefix);
    let text = descriptor_text(g, config, prefix);
    assert(text.subrange(before.len() as int, (before.len() + line.len()) as int) == line);
}

/// The setup script begins with the install step exactly where the
/// dependency manager is used; the generator's configure command follows it.
pub proof fn lemma_install_step_iff_conan<G: Generator>(g: &G, use_conan: bool)
    ensures
        INSTALL_STEP@.is_prefix_of(setup_text(use_conan, g.configure_command())) <==> use_conan,
        use_conan ==> setup_text(use_conan, g.configure_command()).skip(INSTALL_STEP@.len() as int)
            == g.configure_command(),
        !use_conan ==> setup_text(use_conan, g.configure_command()) == g.configure_command(),
{
    g.configure_is_not_install();
}

} // verus!
