//! The CMake family: descriptors in CMake's syntax, configured for Ninja.

use crate::config::{ArtifactKind, Config, ConfigView};
use crate::generator::{
    descriptor_directives, descriptor_text, lemma_exactly_one_target, lemma_render_split,
    render_all, taken_root_names, target_position, with_install_step, Directive, Generator,
    INSTALL_STEP,
};
use vstd::prelude::*;
use vstd::string::StringExecFns;

verus! {

/// The name of CMake's descriptor file.
pub const CMAKE_LISTS: &'static str = "CMakeLists.txt";

/// Configures the build tree under `build` for Ninja.
pub const CMAKE_CONFIGURE: &'static str =
    "cmake -G Ninja -S . -B build -DCMAKE_EXPORT_COMPILE_COMMANDS=1";

/// Compiles the configured tree.
pub const CMAKE_BUILD: &'static str = "cmake --build ./build";

/// One directive as CMake reads it, ended by a line break.
pub open spec fn cmake_text(d: Directive, name: Seq<char>, prefix: Seq<char>) -> Seq<char> {
    match d {
        Directive::MinimumVersion => "cmake_minimum_required(VERSION 3.20)\n"@,
        Directive::Project => "project("@ + name + " VERSION 0.1.0)\n"@,
        Directive::LintHook =>
            "set(CMAKE_CXX_CLANG_TIDY \"clang-tidy;-format-style=file;--use-color;-header-filter=.*\")\n"@,
        Directive::SourceDirVar => "set("@ + prefix + "_SRC_DIR \"src\")\n"@,
        Directive::IncludeDirVar => "set("@ + prefix + "_INCLUDE_DIR \"include\")\n"@,
        Directive::IncludePath => "include_directories("@ + name + " PUBLIC "@ + prefix
            + "_INCLUDE_DIR)\n"@,
        Directive::DependencyInclude => "include(${CMAKE_BINARY_DIR}/conanbuildinfo.cmake)\n"@,
        Directive::Target(kind) => cmake_target(kind, name),
        Directive::LinkLibraries => "target_link_libraries("@ + name + " ${CONAN_LIBS})\n"@,
        Directive::WarningFlags =>
            "set(ERROR_LIST \"-Werror=return-type -Werror=unused-result\")\n"@,
        Directive::CompilerFlags =>
            "set(CMAKE_CXX_FLAGS \"${CMAKE_CXX_FLAGS} -std=c++20 -Wall -Wextra ${ERROR_LIST}\")\n"@,
    }
}

/// The declaration of the target: an executable is built from the starter
/// source, a library from the source file that bears the project's name.
pub open spec fn cmake_target(kind: ArtifactKind, name: Seq<char>) -> Seq<char> {
    match kind {
        ArtifactKind::Executable => "add_executable("@ + name + " src/main.cpp)\n"@,
        ArtifactKind::Library => "add_library("@ + name + " src/"@ + name + ".cpp)\n"@,
    }
}

/// The generator for CMake.
#[derive(Clone, Copy, Debug, PartialEq, Eq, Structural)]
pub struct CMakeGen;

impl Generator for CMakeGen {
    open spec fn directive_text(&self, d: Directive, name: Seq<char>, prefix: Seq<char>) -> Seq<
        char,
    > {
        cmake_text(d, name, prefix)
    }

    open spec fn descriptor_name(&self) -> Seq<char> {
        CMAKE_LISTS@
    }

    open spec fn configure_command(&self) -> Seq<char> {
        CMAKE_CONFIGURE@
    }

    open spec fn compile_command(&self) -> Seq<char> {
        CMAKE_BUILD@
    }

    proof fn configure_is_not_install(&self) {
        reveal_strlit("cd build\nconan install .. --build missing\ncd ..\n");
        reveal_strlit("cmake -G Ninja -S . -B build -DCMAKE_EXPORT_COMPILE_COMMANDS=1");
        assert(INSTALL_STEP@[1] == 'd' && CMAKE_CONFIGURE@[1] == 'm');
    }

    proof fn descriptor_name_is_free(&self) {
        reveal_strlit("CMakeLists.txt");
        reveal_strlit("src");
        reveal_strlit("include");
        reveal_strlit("build");
        reveal_strlit("setup.bat");
        reveal_strlit("build.bat");
        reveal_strlit("conanfile.txt");
        reveal_strlit(".clang-tidy");
        reveal_strlit(".gitignore");
        let taken = taken_root_names();
        assert forall|i: int| 0 <= i < taken.len() implies taken[i] != CMAKE_LISTS@ by {
            assert(CMAKE_LISTS@[0] == 'C' && taken[i][0] != 'C');
        }
    }

    fn render_directive(&self, d: Directive, name: &str, prefix: &str) -> (line: String) {
        match d {
            Directive::MinimumVersion => String::from_str("cmake_minimum_required(VERSION 3.20)\n"),
            Directive::Project => {
                let mut line = String::from_str("project(");
                line.append(name);
                line.append(" VERSION 0.1.0)\n");
                line
            },
            Directive::LintHook => String::from_str(
                "set(CMAKE_CXX_CLANG_TIDY \"clang-tidy;-format-style=file;--use-color;-header-filter=.*\")\n",
            ),
            Directive::SourceDirVar => {
                let mut line = String::from_str("set(");
                line.append(prefix);
                line.append("_SRC_DIR \"src\")\n");
                line
            },
            Directive::IncludeDirVar => {
                let mut line = String::from_str("set(");
                line.append(prefix);
                line.append("_INCLUDE_DIR \"include\")\n");
                line
            },
            Directive::IncludePath => {
                let mut line = String::from_str("include_directories(");
                line.append(name);
                line.append(" PUBLIC ");
                line.append(prefix);
                line.append("_INCLUDE_DIR)\n");
                line
            },
            Directive::DependencyInclude => String::from_str(
                "include(${CMAKE_BINARY_DIR}/conanbuildinfo.cmake)\n",
            ),
            Directive::Target(kind) => match kind {
                ArtifactKind::Executable => {
                    let mut line = String::from_str("add_executable(");
                    line.append(name);
                    line.append(" src/main.cpp)\n");
                    line
                },
                ArtifactKind::Library => {
                    let mut line = String::from_str("add_library(");
                    line.append(name);
                    line.append(" src/");
                    line.append(name);
                    line.append(".cpp)\n");
                    line
                },
            },
            Directive::LinkLibraries => {
                let mut line = String::from_str("target_link_libraries(");
                line.append(name);
                line.append(" ${CONAN_LIBS})\n");
                line
            },
            Directive::WarningFlags => String::from_str(
                "set(ERROR_LIST \"-Werror=return-type -Werror=unused-result\")\n",
            ),
            Directive::CompilerFlags => String::from_str(
                "set(CMAKE_CXX_FLAGS \"${CMAKE_CXX_FLAGS} -std=c++20 -Wall -Wextra ${ERROR_LIST}\")\n",
            ),
        }
    }

    fn descriptor_file_name(&self) -> (file: &'static str) {
        CMAKE_LISTS
    }

    fn setup_cmd(&self, config: &Config) -> (script: String) {
        with_install_step(config.use_conan(), CMAKE_CONFIGURE)
    }

    fn build_cmd(&self, config: &Config) -> (script: String) {
        String::from_str(CMAKE_BUILD)
    }
}

/// A CMake descriptor holds exactly one declaration of a target. For an
/// executable it reads `add_executable(<name> src/main.cpp)`, for a library
/// `add_library(<name> src/<name>.cpp)`; the directives before it and after it
/// declare none.
pub proof fn lemma_cmake_declares_one_target(config: ConfigView, prefix: Seq<char>)
    ensures
        ({
            let ds = descriptor_directives(config.kind, config.use_clang_tidy, config.use_conan);
            let at = target_position(config.use_clang_tidy, config.use_conan);
            &&& forall|i: int| 0 <= i < ds.len() ==> (#[trigger] ds[i] is Target <==> i == at)
            &&& descriptor_text(&CMakeGen, config, prefix) == render_all(
                &CMakeGen,
                ds.take(at),
                config.name,
                prefix,
            ) + cmake_target(config.kind, config.name) + render_all(
                &CMakeGen,
                ds.skip(at + 1),
                config.name,
                prefix,
            )
        }),
{
    lemma_exactly_one_target(config.kind, config.use_clang_tidy, config.use_conan);
    lemma_render_split(
        &CMakeGen,
        descriptor_directives(config.kind, config.use_clang_tidy, config.use_conan),
        target_position(config.use_clang_tidy, config.use_conan),
        config.name,
        prefix,
    );
}

} // verus!
