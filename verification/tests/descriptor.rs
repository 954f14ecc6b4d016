use cpp_project_gen::cmake::{CMakeGen, CMAKE_BUILD, CMAKE_CONFIGURE, CMAKE_LISTS};
use cpp_project_gen::config::{ArtifactKind, Config};
use cpp_project_gen::generator::{
    directives_for, generate_build_file, with_install_step, write_descriptor, Directive, Generator,
    INSTALL_STEP,
};
use cpp_project_gen::registry::Family;

fn config(name: &str, kind: &str, tidy: bool, conan: bool) -> Config {
    Config::new(name.to_string(), kind, tidy, conan, "cmake".to_string()).unwrap()
}

#[test]
fn plain_executable_descriptor() {
    let text = generate_build_file(&CMakeGen, &config("demo", "exec", false, false));
    assert_eq!(
        text,
        "cmake_minimum_required(VERSION 3.20)\n\
         project(demo VERSION 0.1.0)\n\
         set(DEMO_SRC_DIR \"src\")\n\
         set(DEMO_INCLUDE_DIR \"include\")\n\
         include_directories(demo PUBLIC DEMO_INCLUDE_DIR)\n\
         add_executable(demo src/main.cpp)\n\
         set(ERROR_LIST \"-Werror=return-type -Werror=unused-result\")\n\
         set(CMAKE_CXX_FLAGS \"${CMAKE_CXX_FLAGS} -std=c++20 -Wall -Wextra ${ERROR_LIST}\")\n"
    );
}

#[test]
fn plain_library_descriptor() {
    let text = generate_build_file(&CMakeGen, &config("core", "lib", false, false));
    assert_eq!(
        text,
        "cmake_minimum_required(VERSION 3.20)\n\
         project(core VERSION 0.1.0)\n\
         set(CORE_SRC_DIR \"src\")\n\
         set(CORE_INCLUDE_DIR \"include\")\n\
         include_directories(core PUBLIC CORE_INCLUDE_DIR)\n\
         add_library(core src/core.cpp)\n\
         set(ERROR_LIST \"-Werror=return-type -Werror=unused-result\")\n\
         set(CMAKE_CXX_FLAGS \"${CMAKE_CXX_FLAGS} -std=c++20 -Wall -Wextra ${ERROR_LIST}\")\n"
    );
}

#[test]
fn descriptor_with_lint_and_dependencies() {
    let text = generate_build_file(&CMakeGen, &config("demo", "exec", true, true));
    assert_eq!(
        text,
        "cmake_minimum_required(VERSION 3.20)\n\
         project(demo VERSION 0.1.0)\n\
         set(CMAKE_CXX_CLANG_TIDY \"clang-tidy;-format-style=file;--use-color;-header-filter=.*\")\n\
         set(DEMO_SRC_DIR \"src\")\n\
         set(DEMO_INCLUDE_DIR \"include\")\n\
         include_directories(demo PUBLIC DEMO_INCLUDE_DIR)\n\
         include(${CMAKE_BINARY_DIR}/conanbuildinfo.cmake)\n\
         add_executable(demo src/main.cpp)\n\
         target_link_libraries(demo ${CONAN_LIBS})\n\
         set(ERROR_LIST \"-Werror=return-type -Werror=unused-result\")\n\
         set(CMAKE_CXX_FLAGS \"${CMAKE_CXX_FLAGS} -std=c++20 -Wall -Wextra ${ERROR_LIST}\")\n"
    );
}

#[test]
fn exactly_one_target_line() {
    for kind in ["exec", "lib"] {
        for tidy in [false, true] {
            for conan in [false, true] {
                let text = generate_build_file(&CMakeGen, &config("demo", kind, tidy, conan));
                let targets: Vec<&str> = text
                    .lines()
                    .filter(|l| l.starts_with("add_executable(") || l.starts_with("add_library("))
                    .collect();
                let expected = if kind == "exec" {
                    "add_executable(demo src/main.cpp)"
                } else {
                    "add_library(demo src/demo.cpp)"
                };
                assert_eq!(targets, vec![expected]);
            }
        }
    }
}

#[test]
fn lint_hook_follows_flag() {
    for conan in [false, true] {
        let with = generate_build_file(&CMakeGen, &config("demo", "exec", true, conan));
        let without = generate_build_file(&CMakeGen, &config("demo", "exec", false, conan));
        assert!(with.contains("set(CMAKE_CXX_CLANG_TIDY "));
        assert!(!without.contains("CLANG_TIDY"));
    }
}

#[test]
fn dependency_directives_follow_flag() {
    for tidy in [false, true] {
        let with = generate_build_file(&CMakeGen, &config("demo", "lib", tidy, true));
        let without = generate_build_file(&CMakeGen, &config("demo", "lib", tidy, false));
        let fragment = with.find("include(${CMAKE_BINARY_DIR}/conanbuildinfo.cmake)\n").unwrap();
        let target = with.find("add_library(").unwrap();
        let link = with.find("target_link_libraries(demo ${CONAN_LIBS})\n").unwrap();
        assert!(fragment < target && target < link);
        assert!(!without.contains("conanbuildinfo"));
        assert!(!without.contains("target_link_libraries"));
    }
}

#[test]
fn variable_prefix_is_uppercase_name() {
    let text = generate_build_file(&CMakeGen, &config("myProject2", "exec", false, false));
    assert!(text.contains("set(MYPROJECT2_SRC_DIR \"src\")\n"));
    assert!(text.contains("set(MYPROJECT2_INCLUDE_DIR \"include\")\n"));
    assert!(text.contains("include_directories(myProject2 PUBLIC MYPROJECT2_INCLUDE_DIR)\n"));
    assert!(text.contains("project(myProject2 VERSION 0.1.0)\n"));
    assert!(!text.contains("myProject2_SRC_DIR"));
}

#[test]
fn uppercase_may_lengthen_name() {
    let text = generate_build_file(&CMakeGen, &config("straße", "exec", false, false));
    assert!(text.contains("set(STRASSE_SRC_DIR \"src\")\n"));
    assert!(text.contains("add_executable(straße src/main.cpp)\n"));
}

#[test]
fn write_descriptor_takes_given_prefix() {
    let text = write_descriptor(&CMakeGen, &config("demo", "lib", false, false), "Pre");
    assert_eq!(
        text,
        "cmake_minimum_required(VERSION 3.20)\n\
         project(demo VERSION 0.1.0)\n\
         set(Pre_SRC_DIR \"src\")\n\
         set(Pre_INCLUDE_DIR \"include\")\n\
         include_directories(demo PUBLIC Pre_INCLUDE_DIR)\n\
         add_library(demo src/demo.cpp)\n\
         set(ERROR_LIST \"-Werror=return-type -Werror=unused-result\")\n\
         set(CMAKE_CXX_FLAGS \"${CMAKE_CXX_FLAGS} -std=c++20 -Wall -Wextra ${ERROR_LIST}\")\n"
    );
}

#[test]
fn directives_in_order() {
    assert_eq!(
        directives_for(&config("demo", "exec", false, false)),
        vec![
            Directive::MinimumVersion,
            Directive::Project,
            Directive::SourceDirVar,
            Directive::IncludeDirVar,
            Directive::IncludePath,
            Directive::Target(ArtifactKind::Executable),
            Directive::WarningFlags,
            Directive::CompilerFlags,
        ]
    );
    assert_eq!(
        directives_for(&config("demo", "lib", true, true)),
        vec![
            Directive::MinimumVersion,
            Directive::Project,
            Directive::LintHook,
            Directive::SourceDirVar,
            Directive::IncludeDirVar,
            Directive::IncludePath,
            Directive::DependencyInclude,
            Directive::Target(ArtifactKind::Library),
            Directive::LinkLibraries,
            Directive::WarningFlags,
            Directive::CompilerFlags,
        ]
    );
    assert_eq!(directives_for(&config("demo", "lib", true, false)).len(), 9);
    assert_eq!(directives_for(&config("demo", "lib", false, true)).len(), 10);
}

#[test]
fn each_directive_in_cmake() {
    let g = CMakeGen;
    assert_eq!(g.render_directive(Directive::MinimumVersion, "n", "P"), "cmake_minimum_required(VERSION 3.20)\n");
    assert_eq!(g.render_directive(Directive::Project, "n", "P"), "project(n VERSION 0.1.0)\n");
    assert_eq!(
        g.render_directive(Directive::LintHook, "n", "P"),
        "set(CMAKE_CXX_CLANG_TIDY \"clang-tidy;-format-style=file;--use-color;-header-filter=.*\")\n"
    );
    assert_eq!(g.render_directive(Directive::SourceDirVar, "n", "P"), "set(P_SRC_DIR \"src\")\n");
    assert_eq!(g.render_directive(Directive::IncludeDirVar, "n", "P"), "set(P_INCLUDE_DIR \"include\")\n");
    assert_eq!(g.render_directive(Directive::IncludePath, "n", "P"), "include_directories(n PUBLIC P_INCLUDE_DIR)\n");
    assert_eq!(
        g.render_directive(Directive::DependencyInclude, "n", "P"),
        "include(${CMAKE_BINARY_DIR}/conanbuildinfo.cmake)\n"
    );
    assert_eq!(
        g.render_directive(Directive::Target(ArtifactKind::Executable), "n", "P"),
        "add_executable(n src/main.cpp)\n"
    );
    assert_eq!(
        g.render_directive(Directive::Target(ArtifactKind::Library), "n", "P"),
        "add_library(n src/n.cpp)\n"
    );
    assert_eq!(g.render_directive(Directive::LinkLibraries, "n", "P"), "target_link_libraries(n ${CONAN_LIBS})\n");
    assert_eq!(
        g.render_directive(Directive::WarningFlags, "n", "P"),
        "set(ERROR_LIST \"-Werror=return-type -Werror=unused-result\")\n"
    );
    assert_eq!(
        g.render_directive(Directive::CompilerFlags, "n", "P"),
        "set(CMAKE_CXX_FLAGS \"${CMAKE_CXX_FLAGS} -std=c++20 -Wall -Wextra ${ERROR_LIST}\")\n"
    );
}

#[test]
fn cmake_commands() {
    let plain = config("demo", "exec", false, false);
    let conan = config("demo", "exec", false, true);
    assert_eq!(CMakeGen.setup_cmd(&plain), "cmake -G Ninja -S . -B build -DCMAKE_EXPORT_COMPILE_COMMANDS=1");
    assert_eq!(
        CMakeGen.setup_cmd(&conan),
        "cd build\nconan install .. --build missing\ncd ..\ncmake -G Ninja -S . -B build -DCMAKE_EXPORT_COMPILE_COMMANDS=1"
    );
    assert_eq!(CMakeGen.build_cmd(&plain), "cmake --build ./build");
    assert_eq!(CMakeGen.build_cmd(&conan), "cmake --build ./build");
    assert_eq!(CMakeGen.descriptor_file_name(), "CMakeLists.txt");
    assert_eq!(CMAKE_LISTS, "CMakeLists.txt");
    assert_eq!(CMAKE_CONFIGURE, "cmake -G Ninja -S . -B build -DCMAKE_EXPORT_COMPILE_COMMANDS=1");
    assert_eq!(CMAKE_BUILD, "cmake --build ./build");
}

#[test]
fn install_step_goes_first() {
    assert_eq!(INSTALL_STEP, "cd build\nconan install .. --build missing\ncd ..\n");
    assert_eq!(with_install_step(false, "configure"), "configure");
    assert_eq!(
        with_install_step(true, "configure"),
        "cd build\nconan install .. --build missing\ncd ..\nconfigure"
    );
    assert_eq!(with_install_step(true, ""), INSTALL_STEP);
    assert_eq!(with_install_step(false, ""), "");
}

#[test]
fn family_writes_as_its_generator() {
    for kind in ["exec", "lib"] {
        for tidy in [false, true] {
            for conan in [false, true] {
                let c = config("demo", kind, tidy, conan);
                assert_eq!(generate_build_file(&Family::CMake, &c), generate_build_file(&CMakeGen, &c));
                assert_eq!(Family::CMake.setup_cmd(&c), CMakeGen.setup_cmd(&c));
                assert_eq!(Family::CMake.build_cmd(&c), CMakeGen.build_cmd(&c));
            }
        }
    }
    assert_eq!(Family::CMake.descriptor_file_name(), "CMakeLists.txt");
    assert_eq!(
        Family::CMake.render_directive(Directive::Project, "n", "P"),
        "project(n VERSION 0.1.0)\n"
    );
}
