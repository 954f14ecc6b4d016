//! The validated description of the project to scaffold.

use crate::error::ScaffoldError;
use vstd::prelude::*;

verus! {

/// What the scaffolded project builds.
#[derive(Clone, Copy, Debug, PartialEq, Eq, Structural)]
pub enum ArtifactKind {
    Executable,
    Library,
}

/// Why a configuration was turned down.
#[derive(Clone, Copy, Debug, PartialEq, Eq, Structural)]
pub enum ConfigFault {
    /// The name is empty or holds a character that no path segment may hold.
    MalformedName,
    /// The artifact kind is neither `exec` nor `lib`.
    UnknownArtifactKind,
}

/// A character that cannot stand in a path segment: a separator, a character
/// that filesystems reserve, or a control character.
pub open spec fn reserved_char(c: char) -> bool {
    ||| c == '/'
    ||| c == '\\'
    ||| c == '<'
    ||| c == '>'
    ||| c == ':'
    ||| c == '"'
    ||| c == '|'
    ||| c == '?'
    ||| c == '*'
    ||| (c as u32) < 32
}

/// A name that can serve as one path segment: not empty, no reserved character.
pub open spec fn valid_name(name: Seq<char>) -> bool {
    &&& name.len() > 0
    &&& forall|i: int| 0 <= i < name.len() ==> !reserved_char(#[trigger] name[i])
}

/// The artifact kind that a command-line word stands for.
pub open spec fn kind_of_word(word: Seq<char>) -> Option<ArtifactKind> {
    if word == "exec"@ {
        Some(ArtifactKind::Executable)
    } else if word == "lib"@ {
        Some(ArtifactKind::Library)
    } else {
        None
    }
}

/// What a configuration holds, as mathematical values.
pub struct ConfigView {
    pub name: Seq<char>,
    pub kind: ArtifactKind,
    pub use_clang_tidy: bool,
    pub use_conan: bool,
    pub generator: Seq<char>,
}

/// The result that `Config::new` owes for the given raw values.
pub open spec fn checked(
    name: Seq<char>,
    kind_word: Seq<char>,
    use_clang_tidy: bool,
    use_conan: bool,
    generator: Seq<char>,
) -> Result<ConfigView, ScaffoldError> {
    if !valid_name(name) {
        Err(ScaffoldError::InvalidConfiguration(ConfigFault::MalformedName))
    } else {
        match kind_of_word(kind_word) {
            None => Err(ScaffoldError::InvalidConfiguration(ConfigFault::UnknownArtifactKind)),
            Some(kind) => Ok(ConfigView { name, kind, use_clang_tidy, use_conan, generator }),
        }
    }
}

/// A configuration that passed validation. It is never changed afterwards.
#[derive(Debug)]
pub struct Config {
    name: String,
    kind: ArtifactKind,
    use_clang_tidy: bool,
    use_conan: bool,
    generator: String,
}

impl View for Config {
    type V = ConfigView;

    closed spec fn view(&self) -> ConfigView {
        ConfigView {
            name: self.name@,
            kind: self.kind,
            use_clang_tidy: self.use_clang_tidy,
            use_conan: self.use_conan,
            generator: self.generator@,
        }
    }
}

impl ArtifactKind {
    /// Reads an artifact kind from its command-line word.
    pub fn parse(word: &str) -> (kind: Option<ArtifactKind>)
        ensures
            kind == kind_of_word(word@),
    {
        let owned: String = word.to_owned();
        if owned == "exec".to_owned() {
            Some(ArtifactKind::Executable)
        } else if owned == "lib".to_owned() {
            Some(ArtifactKind::Library)
        } else {
            None
        }
    }
}

/// Tells whether `c` is reserved.
pub fn is_reserved_char(c: char) -> (reserved: bool)
    ensures
        reserved == reserved_char(c),
{
    c == '/' || c == '\\' || c == '<' || c == '>' || c == ':' || c == '"' || c == '|' || c == '?'
        || c == '*' || (c as u32) < 32
}

/// Tells whether `name` can serve as one path segment.
pub fn is_valid_name(name: &str) -> (valid: bool)
    ensures
        valid == valid_name(name@),
{
    if name.is_empty() {
        return false;
    }
    let mut clean = true;
    for c in it: name.chars()
        invariant
            it.seq() == name@,
            clean == (forall|i: int| 0 <= i < it.index() ==> !reserved_char(#[trigger] name@[i])),
    {
        if is_reserved_char(c) {
            clean = false;
        }
    }
    clean
}

impl Config {
    #[verifier::type_invariant]
    spec fn well_named(&self) -> bool {
        valid_name(self.name@)
    }

    /// Validates raw values; the name is examined before the artifact kind.
    pub fn new(
        name: String,
        kind_word: &str,
        use_clang_tidy: bool,
        use_conan: bool,
        generator: String,
    ) -> (made: Result<Config, ScaffoldError>)
        ensures
            match made {
                Ok(config) => checked(name@, kind_word@, use_clang_tidy, use_conan, generator@)
                    == Ok::<ConfigView, ScaffoldError>(config@),
                Err(error) => checked(name@, kind_word@, use_clang_tidy, use_conan, generator@)
                    == Err::<ConfigView, ScaffoldError>(error),
            },
    {
        if !is_valid_name(name.as_str()) {
            return Err(ScaffoldError::InvalidConfiguration(ConfigFault::MalformedName));
        }
        match ArtifactKind::parse(kind_word) {
            None => Err(ScaffoldError::InvalidConfiguration(ConfigFault::UnknownArtifactKind)),
            Some(kind) => Ok(Config { name, kind, use_clang_tidy, use_conan, generator }),
        }
    }

    /// The project's name, which is also the name of its root directory.
    pub fn name(&self) -> (name: &str)
        ensures
            name@ == self@.name,
            valid_name(name@),
    {
        proof {
            use_type_invariant(self);
        }
        self.name.as_str()
    }

    /// What the project builds.
    pub fn kind(&self) -> (kind: ArtifactKind)
        ensures
            kind == self@.kind,
    {
        self.kind
    }

    /// Whether the lint tool is set up.
    pub fn use_clang_tidy(&self) -> (flag: bool)
        ensures
            flag == self@.use_clang_tidy,
    {
        self.use_clang_tidy
    }

    /// Whether the dependency manager is set up.
    pub fn use_conan(&self) -> (flag: bool)
        ensures
            flag == self@.use_conan,
    {
        self.use_conan
    }

    /// The identifier under which the build-system generator is registered.
    pub fn generator(&self) -> (id: &str)
        ensures
            id@ == self@.generator,
    {
        self.generator.as_str()
    }
}

} // verus!
