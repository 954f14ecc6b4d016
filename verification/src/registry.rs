//! The closed table of generators, looked up by identifier.

use crate::cmake::CMakeGen;
use crate::config::Config;
use crate::error::ScaffoldError;
use crate::generator::{Directive, Generator};
use vstd::prelude::*;

verus! {

/// The families of build tooling that can be registered.
#[derive(Clone, Copy, Debug, PartialEq, Eq, Structural)]
pub enum Family {
    CMake,
}

impl Generator for Family {
    open spec fn directive_text(&self, d: Directive, name: Seq<char>, prefix: Seq<char>) -> Seq<
        char,
    > {
        match self {
            Family::CMake => CMakeGen.directive_text(d, name, prefix),
        }
    }

    open spec fn descriptor_name(&self) -> Seq<char> {
        match self {
            Family::CMake => CMakeGen.descriptor_name(),
        }
    }

    open spec fn configure_command(&self) -> Seq<char> {
        match self {
            Family::CMake => CMakeGen.configure_command(),
        }
    }

    open spec fn compile_command(&self) -> Seq<char> {
        match self {
            Family::CMake => CMakeGen.compile_command(),
        }
    }

    proof fn configure_is_not_install(&self) {
        match self {
            Family::CMake => CMakeGen.configure_is_not_install(),
        }
    }

    proof fn descriptor_name_is_free(&self) {
        match self {
            Family::CMake => CMakeGen.descriptor_name_is_free(),
        }
    }

    fn render_directive(&self, d: Directive, name: &str, prefix: &str) -> (line: String) {
        match self {
            Family::CMake => CMakeGen.render_directive(d, name, prefix),
        }
    }

    fn descriptor_file_name(&self) -> (file: &'static str) {
        match self {
            Family::CMake => CMakeGen.descriptor_file_name(),
        }
    }

    fn setup_cmd(&self, config: &Config) -> (script: String) {
        match self {
            Family::CMake => CMakeGen.setup_cmd(config),
        }
    }

    fn build_cmd(&self, config: &Config) -> (script: String) {
        match self {
            Family::CMake => CMakeGen.build_cmd(config),
        }
    }
}

/// The identifier under which CMake is registered.
pub const CMAKE_ID: &'static str = "cmake";

/// One line of the table.
struct Entry {
    id: String,
    family: Family,
}

/// No identifier stands in two lines.
spec fn distinct_ids(entries: Seq<Entry>) -> bool {
    forall|i: int, j: int|
        0 <= i < entries.len() && 0 <= j < entries.len() && i != j ==> entries[i].id@
            != entries[j].id@
}

/// The table as a map from identifier to family.
spec fn table_of(entries: Seq<Entry>) -> Map<Seq<char>, Family> {
    Map::new(
        |id: Seq<char>| exists|i: int| 0 <= i < entries.len() && #[trigger] entries[i].id@ == id,
        |id: Seq<char>|
            entries[choose|i: int| 0 <= i < entries.len() && #[trigger] entries[i].id@ == id].family,
    )
}

/// What looking `id` up in `table` gives.
pub open spec fn resolve(table: Map<Seq<char>, Family>, id: Seq<char>) -> Result<
    Family,
    ScaffoldError,
> {
    if table.contains_key(id) {
        Ok(table[id])
    } else {
        Err(ScaffoldError::UnsupportedGenerator)
    }
}

/// The generators known to the program. The table is filled when it is made
/// and only read afterwards.
pub struct Registry {
    entries: Vec<Entry>,
}

impl View for Registry {
    type V = Map<Seq<char>, Family>;

    closed spec fn view(&self) -> Map<Seq<char>, Family> {
        table_of(self.entries@)
    }
}

impl Registry {
    #[verifier::type_invariant]
    spec fn well_formed(&self) -> bool {
        distinct_ids(self.entries@)
    }

    /// The table of every generator that ships with the library.
    pub fn standard() -> (registry: Registry)
        ensures
            registry@ == Map::<Seq<char>, Family>::empty().insert(CMAKE_ID@, Family::CMake),
    {
        let mut entries: Vec<Entry> = Vec::new();
        entries.push(Entry { id: CMAKE_ID.to_owned(), family: Family::CMake });
        let registry = Registry { entries };
        proof {
            assert(registry.entries@[0].id@ == CMAKE_ID@);
        }
        registry
    }

    /// Finds the generator registered under `id`. An identifier that is not
    /// registered is an error.
    pub fn lookup(&self, id: &str) -> (found: Result<Family, ScaffoldError>)
        ensures
            found == resolve(self@, id@),
    {
        proof {
            use_type_invariant(self);
        }
        let wanted: String = id.to_owned();
        let mut i: usize = 0;
        while i < self.entries.len()
            invariant
                i <= self.entries.len(),
                wanted@ == id@,
                distinct_ids(self.entries@),
                forall|k: int| 0 <= k < i ==> self.entries@[k].id@ != id@,
            decreases self.entries.len() - i,
        {
            if self.entries[i].id == wanted {
                return Ok(self.entries[i].family);
            }
            i += 1;
        }
        Err(ScaffoldError::UnsupportedGenerator)
    }
}

} // verus!
