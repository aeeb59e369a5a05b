//! The fixed mapping table from configuration entry names to destinations.
//!
//! Each entry name in the configuration root resolves, case-sensitively, to
//! one of: a file-symlink destination, a directory-symlink destination, the
//! ignore set, or nothing at all (which fails the run). Destinations are
//! paths relative to the user's home directory.

use vstd::prelude::*;
use vstd::string::StrSliceExecFns;
use crate::errors::Error;
use crate::errors::SpecError;

verus! {

/// Name of the entry linked as a file to [`alacritty_dest`].
pub open spec fn alacritty_name() -> Seq<char> {
    "alacritty.yml"@
}

/// Destination, relative to home, for the alacritty configuration file.
pub open spec fn alacritty_dest() -> Seq<char> {
    "AppData/Roaming/alacritty/alacritty.yml"@
}

/// Name of the entry linked as a directory to [`nvim_dest`].
pub open spec fn nvim_name() -> Seq<char> {
    "nvim"@
}

/// Destination, relative to home, for the nvim configuration directory.
pub open spec fn nvim_dest() -> Seq<char> {
    "AppData/Local/nvim"@
}

/// Name of the entry linked as a file to [`starship_dest`].
pub open spec fn starship_name() -> Seq<char> {
    "starship.toml"@
}

/// Destination, relative to home, for the starship configuration file.
pub open spec fn starship_dest() -> Seq<char> {
    ".config/starship.toml"@
}

/// Name of the entry linked as a file to [`topgrade_dest`].
pub open spec fn topgrade_name() -> Seq<char> {
    "topgrade.toml"@
}

/// Destination, relative to home, for the topgrade configuration file.
pub open spec fn topgrade_dest() -> Seq<char> {
    "AppData/Roaming/topgrade.toml"@
}

/// The ignore set: entry names that are skipped without any action.
pub open spec fn is_ignored_name(name: Seq<char>) -> bool {
    name == ".git"@ || name == "README.md"@
}

/// What the mapping table says about one entry name, in spec form.
pub enum SpecTarget {
    /// Link the entry to this destination with a file symlink.
    FileLink(Seq<char>),
    /// Link the entry to this destination with a directory symlink.
    DirLink(Seq<char>),
    /// Take no action for this entry.
    Ignore,
    /// The name is unknown: the run fails.
    Unknown,
}

/// The mapping table itself: the resolution of one entry name.
pub open spec fn spec_resolve(name: Seq<char>) -> SpecTarget {
    if name == alacritty_name() {
        SpecTarget::FileLink(alacritty_dest())
    } else if name == nvim_name() {
        SpecTarget::DirLink(nvim_dest())
    } else if name == starship_name() {
        SpecTarget::FileLink(starship_dest())
    } else if name == topgrade_name() {
        SpecTarget::FileLink(topgrade_dest())
    } else if is_ignored_name(name) {
        SpecTarget::Ignore
    } else {
        SpecTarget::Unknown
    }
}

/// A name is mapped when the table sends it to a destination (rather than
/// ignoring or rejecting it).
pub open spec fn is_mapped_name(name: Seq<char>) -> bool {
    spec_resolve(name) is FileLink || spec_resolve(name) is DirLink
}

/// The destination of a mapped name.
pub open spec fn spec_dest_of(name: Seq<char>) -> Seq<char>
    recommends
        is_mapped_name(name),
{
    match spec_resolve(name) {
        SpecTarget::FileLink(dest) => dest,
        SpecTarget::DirLink(dest) => dest,
        _ => Seq::empty(),
    }
}

/// An ignore-listed name never collides with a mapped name: the table
/// resolves it to `Ignore`.
pub proof fn lemma_ignored_resolves_to_ignore(name: Seq<char>)
    requires
        is_ignored_name(name),
    ensures
        spec_resolve(name) is Ignore,
{
    reveal_strlit(".git");
    reveal_strlit("README.md");
    reveal_strlit("alacritty.yml");
    reveal_strlit("nvim");
    reveal_strlit("starship.toml");
    reveal_strlit("topgrade.toml");
    assert(".git"@.len() == 4);
    assert("README.md"@.len() == 9);
    assert("alacritty.yml"@.len() == 13);
    assert("nvim"@.len() == 4);
    assert("starship.toml"@.len() == 13);
    assert("topgrade.toml"@.len() == 13);
    assert(".git"@[0] != "nvim"@[0]);
}

/// The directory-mapped entry name resolves to its directory destination.
pub proof fn lemma_nvim_resolves_to_dir()
    ensures
        spec_resolve(nvim_name()) == SpecTarget::DirLink(nvim_dest()),
        spec_dest_of(nvim_name()) == nvim_dest(),
{
    reveal_strlit("alacritty.yml");
    reveal_strlit("nvim");
    assert("nvim"@.len() == 4);
    assert("alacritty.yml"@.len() == 13);
    assert("nvim"@ != "alacritty.yml"@);
}

/// The resolution of an entry name that does not fail the run.
#[derive(Debug, PartialEq, Eq)]
pub enum Target {
    /// Link the entry to this destination (relative to home) with a file
    /// symlink.
    FileLink { dest: String },
    /// Link the entry to this destination (relative to home) with a
    /// directory symlink.
    DirLink { dest: String },
    /// Take no action for this entry.
    Ignore,
}

impl View for Target {
    type V = SpecTarget;

    open spec fn view(&self) -> SpecTarget {
        match self {
            Target::FileLink { dest } => SpecTarget::FileLink(dest@),
            Target::DirLink { dest } => SpecTarget::DirLink(dest@),
            Target::Ignore => SpecTarget::Ignore,
        }
    }
}

/// Character-for-character string equality, decided over the views.
pub(crate) fn str_eq(a: &str, b: &str) -> (r: bool)
    ensures
        r == (a@ == b@),
{
    let a_len = a.unicode_len();
    let b_len = b.unicode_len();
    if a_len != b_len {
        return false;
    }
    let mut i: usize = 0;
    while i < a_len
        invariant
            i <= a_len,
            a_len == a@.len(),
            a_len == b@.len(),
            forall|j: int| 0 <= j < i ==> a@[j] == b@[j],
        decreases a_len - i,
    {
        if a.get_char(i) != b.get_char(i) {
            return false;
        }
        i += 1;
    }
    proof {
        assert(a@ =~= b@);
    }
    true
}

/// Resolve one entry name against the mapping table. An unknown name yields
/// `InvalidConfig` carrying that name; every other name yields its target.
pub fn resolve(name: &str) -> (r: Result<Target, Error>)
    ensures
        match spec_resolve(name@) {
            SpecTarget::FileLink(dest) => (r matches Ok(Target::FileLink { dest: d })
                && d@ == dest),
            SpecTarget::DirLink(dest) => (r matches Ok(Target::DirLink { dest: d })
                && d@ == dest),
            SpecTarget::Ignore => r matches Ok(Target::Ignore),
            SpecTarget::Unknown => (r matches Err(e)
                && e@ == SpecError::InvalidConfig(name@)),
        },
{
    if str_eq(name, "alacritty.yml") {
        Ok(Target::FileLink { dest: "AppData/Roaming/alacritty/alacritty.yml".to_owned() })
    } else if str_eq(name, "nvim") {
        Ok(Target::DirLink { dest: "AppData/Local/nvim".to_owned() })
    } else if str_eq(name, "starship.toml") {
        Ok(Target::FileLink { dest: ".config/starship.toml".to_owned() })
    } else if str_eq(name, "topgrade.toml") {
        Ok(Target::FileLink { dest: "AppData/Roaming/topgrade.toml".to_owned() })
    } else if str_eq(name, ".git") || str_eq(name, "README.md") {
        Ok(Target::Ignore)
    } else {
        Err(Error::InvalidConfig(name.to_owned()))
    }
}

} // verus!
