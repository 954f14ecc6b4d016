use cpp_project_gen::error::ScaffoldError;
use cpp_project_gen::registry::{Family, Registry, CMAKE_ID};

#[test]
fn cmake_is_registered() {
    assert_eq!(CMAKE_ID, "cmake");
    assert_eq!(Registry::standard().lookup("cmake"), Ok(Family::CMake));
}

#[test]
fn unknown_identifiers_are_unsupported() {
    let registry = Registry::standard();
    for id in ["", "premake", "CMake", "cmake ", " cmake", "cmak", "cmakee", "make", "ninja"] {
        assert_eq!(registry.lookup(id), Err(ScaffoldError::UnsupportedGenerator), "{:?}", id);
    }
}

#[test]
fn lookup_does_not_change_the_table() {
    let registry = Registry::standard();
    assert_eq!(registry.lookup("premake"), Err(ScaffoldError::UnsupportedGenerator));
    assert_eq!(registry.lookup("cmake"), Ok(Family::CMake));
    assert_eq!(registry.lookup("cmake"), Ok(Family::CMake));
}
