//! Fixed texts that every scaffolded project receives.

use vstd::prelude::*;

verus! {

/// The starter entry point: a program that prints a greeting.
pub const MAIN_CPP: &'static str =
    "#include <iostream>\n\nint main() {\n    std::cout << \"Hello World!\";\n\n    return 0;\n}";

/// The lint policy handed to clang-tidy.
pub const CLANG_TIDY: &'static str =
    "Checks: '*,-llvm*,-google*,-abseil*,-altera*,-android*,-boost*,-darwin*,-fuchsia*,-hicpp*,-linuxkernel*,-mpi*,-objc*,-openmp*,-zircon*,-modernize-use-trailing-return-type'\nWarningsAsErrors: 'bugprone-use-after-move'\n";

/// Build and editor artifacts kept out of version control.
pub const GITIGNORE: &'static str =
    "/.vs\n/Folder.DotSettings.user\n/build\n/proj_files\n/.vscode\n/.cache\n**/CMakeCache.txt";

} // verus!
