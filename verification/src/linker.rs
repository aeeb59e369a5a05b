//! The linking logic: per-entry link decisions and the semantics of a whole
//! run.
//!
//! The functions here never touch the machine. The state a decision depends
//! on — whether a destination path exists and whether it is a symlink — is
//! handed in as a plain value, and the decided action is handed back for the
//! unverified shell to carry out. A whole run over a configuration root is
//! modelled by [`run_model`], which computes, for a given list of entry
//! names and a model of the four destinations, exactly which links the run
//! creates and how it ends.

use vstd::prelude::*;
use crate::errors::Error;
use crate::errors::SpecError;
use crate::table::Target;
use crate::table::SpecTarget;
use crate::table::spec_resolve;
use crate::table::resolve;
use crate::table::str_eq;
use crate::table::alacritty_dest;
use crate::table::nvim_dest;
use crate::table::starship_dest;
use crate::table::topgrade_dest;

verus! {

/// What a destination path currently holds, as far as the linker cares:
/// nothing, a symbolic link (of any target), or any other node.
#[derive(Clone, Copy, Debug, PartialEq, Eq, Structural)]
pub enum DestState {
    /// Nothing exists at the destination.
    Missing,
    /// The destination is itself a symbolic link; its target is never
    /// inspected.
    Symlink,
    /// The destination exists and is not a symbolic link: a regular file,
    /// a directory, or any other node.
    Present,
}

/// The action decided for one entry.
#[derive(Clone, Copy, Debug, PartialEq, Eq, Structural)]
pub enum Action {
    /// Create a symbolic link at the destination pointing to the entry.
    Create,
    /// Leave the filesystem untouched.
    Nothing,
}

/// The file-link decision: create when the destination is missing, accept
/// any existing symlink as already linked, refuse to touch anything else.
pub open spec fn spec_file_plan(state: DestState, dest: Seq<char>) -> Result<Action, SpecError> {
    match state {
        DestState::Missing => Ok(Action::Create),
        DestState::Symlink => Ok(Action::Nothing),
        DestState::Present => Err(SpecError::ExistingPath(dest)),
    }
}

/// The directory-link decision: create only when the destination is absent;
/// an existing destination — link or not — is left alone and never
/// validated.
pub open spec fn spec_dir_plan(state: DestState) -> Action {
    match state {
        DestState::Missing => Action::Create,
        _ => Action::Nothing,
    }
}

/// Decide the file-link operation for a destination (relative to home) in
/// the given state. A destination occupied by non-link content fails with
/// `ExistingPath` carrying that destination; an existing symlink is accepted
/// as already linked, whatever it points at.
pub fn plan_file_link(dest: &str, state: DestState) -> (r: Result<Action, Error>)
    ensures
        match spec_file_plan(state, dest@) {
            Ok(action) => r == Ok::<Action, Error>(action),
            Err(e) => (r matches Err(err) && err@ == e),
        },
{
    match state {
        DestState::Missing => Ok(Action::Create),
        DestState::Symlink => Ok(Action::Nothing),
        DestState::Present => Err(Error::ExistingPath(dest.to_owned())),
    }
}

/// Decide the directory-link operation for a destination in the given
/// state. This never fails: an existing destination is simply left alone.
pub fn plan_dir_link(state: DestState) -> (action: Action)
    ensures
        action == spec_dir_plan(state),
{
    match state {
        DestState::Missing => Action::Create,
        _ => Action::Nothing,
    }
}

/// The state of the four destination paths the mapping table can point at.
/// This is the whole filesystem as far as one run can observe or change it.
#[derive(Clone, Copy, Debug, PartialEq, Eq, Structural)]
#[verifier::ext_equal]
pub struct FsModel {
    /// State at `AppData/Roaming/alacritty/alacritty.yml`.
    pub alacritty: DestState,
    /// State at `AppData/Local/nvim`.
    pub nvim: DestState,
    /// State at `.config/starship.toml`.
    pub starship: DestState,
    /// State at `AppData/Roaming/topgrade.toml`.
    pub topgrade: DestState,
}

/// The state a destination path holds in the model. A path outside the
/// table is never probed, so it is reported as missing.
pub open spec fn spec_dest_state(fs: FsModel, dest: Seq<char>) -> DestState {
    if dest == alacritty_dest() {
        fs.alacritty
    } else if dest == nvim_dest() {
        fs.nvim
    } else if dest == starship_dest() {
        fs.starship
    } else if dest == topgrade_dest() {
        fs.topgrade
    } else {
        DestState::Missing
    }
}

/// The model after the state at one destination path changes.
pub open spec fn spec_with_dest(fs: FsModel, dest: Seq<char>, state: DestState) -> FsModel {
    if dest == alacritty_dest() {
        FsModel { alacritty: state, ..fs }
    } else if dest == nvim_dest() {
        FsModel { nvim: state, ..fs }
    } else if dest == starship_dest() {
        FsModel { starship: state, ..fs }
    } else if dest == topgrade_dest() {
        FsModel { topgrade: state, ..fs }
    } else {
        fs
    }
}

/// One created link, as the contracts speak of it: the entry name the link
/// points back at, and the destination path the link stands at.
pub type SpecLink = (Seq<char>, Seq<char>);

/// What processing one entry does to the model: on success, the model after
/// the entry and the links it created (none or one); on failure, the error
/// that aborts the run.
pub open spec fn spec_step(name: Seq<char>, fs: FsModel) -> Result<(FsModel, Seq<SpecLink>), SpecError> {
    match spec_resolve(name) {
        SpecTarget::FileLink(dest) => match spec_file_plan(spec_dest_state(fs, dest), dest) {
            Ok(Action::Create) => Ok(
                (spec_with_dest(fs, dest, DestState::Symlink), seq![(name, dest)]),
            ),
            Ok(Action::Nothing) => Ok((fs, Seq::empty())),
            Err(e) => Err(e),
        },
        SpecTarget::DirLink(dest) => match spec_dir_plan(spec_dest_state(fs, dest)) {
            Action::Create => Ok(
                (spec_with_dest(fs, dest, DestState::Symlink), seq![(name, dest)]),
            ),
            Action::Nothing => Ok((fs, Seq::empty())),
        },
        SpecTarget::Ignore => Ok((fs, Seq::empty())),
        SpecTarget::Unknown => Err(SpecError::InvalidConfig(name)),
    }
}

/// How a whole run ends, in spec form.
#[verifier::ext_equal]
pub struct RunOutcome {
    /// Success, or the first fatal error.
    pub result: Result<(), SpecError>,
    /// The model after the run; links created before a fatal error remain.
    pub fs: FsModel,
    /// The links the run created, in processing order: each an entry name
    /// and the destination linked to it.
    pub created: Seq<SpecLink>,
}

/// The semantics of a whole run: entries are processed in the order given,
/// and the first fatal error aborts the run with every earlier link kept.
pub open spec fn spec_run(entries: Seq<Seq<char>>, fs: FsModel) -> RunOutcome
    decreases entries.len(),
{
    if entries.len() == 0 {
        RunOutcome { result: Ok(()), fs, created: Seq::empty() }
    } else {
        match spec_step(entries[0], fs) {
            Ok(step) => {
                let rest = spec_run(entries.drop_first(), step.0);
                RunOutcome { result: rest.result, fs: rest.fs, created: step.1 + rest.created }
            },
            Err(e) => RunOutcome { result: Err(e), fs, created: Seq::empty() },
        }
    }
}

/// The state the model holds at a destination path.
fn model_state_at(fs: &FsModel, dest: &str) -> (state: DestState)
    ensures
        state == spec_dest_state(*fs, dest@),
{
    if str_eq(dest, "AppData/Roaming/alacritty/alacritty.yml") {
        fs.alacritty
    } else if str_eq(dest, "AppData/Local/nvim") {
        fs.nvim
    } else if str_eq(dest, ".config/starship.toml") {
        fs.starship
    } else if str_eq(dest, "AppData/Roaming/topgrade.toml") {
        fs.topgrade
    } else {
        DestState::Missing
    }
}

/// The model after the state at one destination path changes.
fn model_with_dest(fs: &FsModel, dest: &str, state: DestState) -> (updated: FsModel)
    ensures
        updated == spec_with_dest(*fs, dest@, state),
{
    if str_eq(dest, "AppData/Roaming/alacritty/alacritty.yml") {
        FsModel { alacritty: state, ..*fs }
    } else if str_eq(dest, "AppData/Local/nvim") {
        FsModel { nvim: state, ..*fs }
    } else if str_eq(dest, ".config/starship.toml") {
        FsModel { starship: state, ..*fs }
    } else if str_eq(dest, "AppData/Roaming/topgrade.toml") {
        FsModel { topgrade: state, ..*fs }
    } else {
        *fs
    }
}

/// How a run over a configuration root ended.
#[derive(Debug)]
pub struct LinkReport {
    /// Success, or the first fatal error.
    pub result: Result<(), Error>,
    /// The model after the run; links created before a fatal error remain.
    pub fs: FsModel,
    /// The links the run created, in processing order: each an entry name
    /// and the destination (relative to home) linked to it.
    pub created: Vec<(String, String)>,
}

impl View for LinkReport {
    type V = RunOutcome;

    open spec fn view(&self) -> RunOutcome {
        RunOutcome {
            result: match self.result {
                Ok(u) => Ok(u),
                Err(e) => Err(e@),
            },
            fs: self.fs,
            created: self.created.deep_view(),
        }
    }
}

/// Run the linker over the entries of a configuration root, against a model
/// of the destinations' state: resolve each entry in order, create the
/// links the decisions call for, and stop at the first fatal error. The
/// report is exactly what [`spec_run`] says for these inputs.
#[verifier::loop_isolation(false)]
pub fn run_model(entries: &Vec<String>, fs: FsModel) -> (report: LinkReport)
    ensures
        report@ == spec_run(entries.deep_view(), fs),
{
    let ghost all = entries.deep_view();
    let ghost goal = spec_run(all, fs);
    let mut cur = fs;
    let mut created: Vec<(String, String)> = Vec::new();
    let mut i: usize = 0;
    proof {
        assert(all.skip(0) =~= all);
        assert(created.deep_view() + spec_run(all, cur).created =~= spec_run(all, cur).created);
    }
    while i < entries.len()
        invariant
            i <= entries.len(),
            goal.result == spec_run(all.skip(i as int), cur).result,
            goal.fs == spec_run(all.skip(i as int), cur).fs,
            goal.created == created.deep_view() + spec_run(all.skip(i as int), cur).created,
        decreases entries.len() - i,
    {
        let ghost rem = all.skip(i as int);
        let ghost pre = cur;
        proof {
            assert(rem[0] == entries@[i as int].deep_view());
            assert(rem.drop_first() =~= all.skip(i as int + 1));
        }
        let name = &entries[i];
        match resolve(name.as_str()) {
            Err(e) => {
                proof {
                    assert(created.deep_view() + spec_run(rem, cur).created =~= created.deep_view());
                }
                let report = LinkReport { result: Err(e), fs: cur, created };
                proof {
                    assert(report@ =~= goal);
                }
                return report;
            },
            Ok(Target::FileLink { dest }) => {
                let state = model_state_at(&cur, dest.as_str());
                match plan_file_link(dest.as_str(), state) {
                    Err(e) => {
                        proof {
                            assert(created.deep_view() + spec_run(rem, cur).created
                                =~= created.deep_view());
                        }
                        let report = LinkReport { result: Err(e), fs: cur, created };
                        proof {
                            assert(report@ =~= goal);
                        }
                        return report;
                    },
                    Ok(Action::Create) => {
                        let ghost pre_created = created.deep_view();
                        let ghost link = (rem[0], dest@);
                        let entry_name = name.as_str().to_owned();
                        cur = model_with_dest(&cur, dest.as_str(), DestState::Symlink);
                        created.push((entry_name, dest));
                        proof {
                            assert(created.deep_view() =~= pre_created + seq![link]);
                            assert(spec_step(rem[0], pre)
                                == Ok::<_, SpecError>((cur, seq![link])));
                        }
                    },
                    Ok(Action::Nothing) => {
                        proof {
                            assert(spec_step(rem[0], pre)
                                == Ok::<_, SpecError>((cur, Seq::<SpecLink>::empty())));
                        }
                    },
                }
            },
            Ok(Target::DirLink { dest }) => {
                let state = model_state_at(&cur, dest.as_str());
                match plan_dir_link(state) {
                    Action::Create => {
                        let ghost pre_created = created.deep_view();
                        let ghost link = (rem[0], dest@);
                        let entry_name = name.as_str().to_owned();
                        cur = model_with_dest(&cur, dest.as_str(), DestState::Symlink);
                        created.push((entry_name, dest));
                        proof {
                            assert(created.deep_view() =~= pre_created + seq![link]);
                            assert(spec_step(rem[0], pre)
                                == Ok::<_, SpecError>((cur, seq![link])));
                        }
                    },
                    Action::Nothing => {
                        proof {
                            assert(spec_step(rem[0], pre)
                                == Ok::<_, SpecError>((cur, Seq::<SpecLink>::empty())));
                        }
                    },
                }
            },
            Ok(Target::Ignore) => {
                proof {
                    assert(spec_step(rem[0], pre)
                        == Ok::<_, SpecError>((cur, Seq::<SpecLink>::empty())));
                }
            },
        }
        proof {
            let step = spec_step(rem[0], pre)->Ok_0;
            assert(goal.created == created.deep_view() + spec_run(rem.drop_first(), cur).created)
                by {
                assert(spec_run(rem, pre).created == step.1 + spec_run(rem.drop_first(), cur).created);
            };
        }
        i += 1;
    }
    proof {
        assert(all.skip(i as int) =~= Seq::<Seq<char>>::empty());
        assert(created.deep_view() + spec_run(all.skip(i as int), cur).created
            =~= created.deep_view());
    }
    let report = LinkReport { result: Ok(()), fs: cur, created };
    proof {
        assert(report@ =~= goal);
    }
    report
}

/// A run over a root holding only an entry whose name is neither mapped
/// nor ignore-listed fails with `InvalidConfig` carrying that name, touches
/// nothing, and creates no link.
pub proof fn lemma_unknown_name_fails_run(name: Seq<char>, fs: FsModel)
    requires
        name != crate::table::alacritty_name(),
        name != crate::table::nvim_name(),
        name != crate::table::starship_name(),
        name != crate::table::topgrade_name(),
        !crate::table::is_ignored_name(name),
    ensures
        spec_run(seq![name], fs).result == Err::<(), SpecError>(SpecError::InvalidConfig(name)),
        spec_run(seq![name], fs).fs == fs,
        spec_run(seq![name], fs).created == Seq::<SpecLink>::empty(),
{
    assert(spec_resolve(name) is Unknown);
}

/// For every mapped entry name whose destination is missing, a run over a
/// root holding only that entry succeeds, creates exactly one link at the
/// mapped destination, and leaves that destination a symlink.
pub proof fn lemma_missing_dest_creates_link(name: Seq<char>, fs: FsModel)
    requires
        crate::table::is_mapped_name(name),
        spec_dest_state(fs, crate::table::spec_dest_of(name)) is Missing,
    ensures
        spec_run(seq![name], fs).result == Ok::<(), SpecError>(()),
        spec_run(seq![name], fs).created =~= seq![(name, crate::table::spec_dest_of(name))],
        spec_dest_state(spec_run(seq![name], fs).fs, crate::table::spec_dest_of(name))
            is Symlink,
{
    reveal_with_fuel(spec_run, 3);
    let dest = crate::table::spec_dest_of(name);
    let entries = seq![name];
    assert(entries.drop_first() =~= Seq::<Seq<char>>::empty());
    assert(spec_step(name, fs) == Ok::<_, SpecError>(
        (spec_with_dest(fs, dest, DestState::Symlink), seq![(name, dest)]),
    ));
    assert(seq![(name, dest)] + Seq::<SpecLink>::empty() =~= seq![(name, dest)]);
}

/// For every mapped entry name whose destination is already a symlink —
/// whatever it points at — a run over a root holding only that entry is a
/// no-op: it succeeds, changes nothing, and creates no link.
pub proof fn lemma_symlinked_dest_is_noop(name: Seq<char>, fs: FsModel)
    requires
        crate::table::is_mapped_name(name),
        spec_dest_state(fs, crate::table::spec_dest_of(name)) is Symlink,
    ensures
        spec_run(seq![name], fs).result == Ok::<(), SpecError>(()),
        spec_run(seq![name], fs).fs == fs,
        spec_run(seq![name], fs).created == Seq::<SpecLink>::empty(),
{
    reveal_with_fuel(spec_run, 3);
    let entries = seq![name];
    assert(entries.drop_first() =~= Seq::<Seq<char>>::empty());
    assert(spec_step(name, fs) == Ok::<_, SpecError>((fs, Seq::<SpecLink>::empty())));
    assert(Seq::<SpecLink>::empty() + Seq::<SpecLink>::empty()
        =~= Seq::<SpecLink>::empty());
}

/// For every file-mapped entry name whose destination is occupied by
/// non-link content, a run over a root holding only that entry fails with
/// `ExistingPath` carrying that destination, changes nothing, and creates
/// no link. (The directory-mapped name is different by design: an occupied
/// directory destination is left alone without failing.)
pub proof fn lemma_occupied_file_dest_fails(name: Seq<char>, fs: FsModel)
    requires
        spec_resolve(name) is FileLink,
        spec_dest_state(fs, crate::table::spec_dest_of(name)) is Present,
    ensures
        spec_run(seq![name], fs).result == Err::<(), SpecError>(
            SpecError::ExistingPath(crate::table::spec_dest_of(name)),
        ),
        spec_run(seq![name], fs).fs == fs,
        spec_run(seq![name], fs).created == Seq::<SpecLink>::empty(),
{
    reveal_with_fuel(spec_run, 3);
}

/// The directory-mapped entry never fails a run: when its destination is
/// absent the run creates the directory link there, and when the
/// destination exists in any form — symlink or not — the run leaves it
/// alone, without inspecting it.
pub proof fn lemma_dir_entry_never_fails(fs: FsModel)
    ensures
        spec_run(seq![crate::table::nvim_name()], fs).result == Ok::<(), SpecError>(()),
        spec_dest_state(fs, crate::table::nvim_dest()) is Missing ==> (
            spec_run(seq![crate::table::nvim_name()], fs).created
                =~= seq![(crate::table::nvim_name(), crate::table::nvim_dest())]
            && spec_dest_state(
                spec_run(seq![crate::table::nvim_name()], fs).fs,
                crate::table::nvim_dest(),
            ) is Symlink),
        !(spec_dest_state(fs, crate::table::nvim_dest()) is Missing) ==> (
            spec_run(seq![crate::table::nvim_name()], fs).fs == fs
            && spec_run(seq![crate::table::nvim_name()], fs).created
                == Seq::<SpecLink>::empty()),
{
    reveal_with_fuel(spec_run, 3);
    crate::table::lemma_nvim_resolves_to_dir();
    let name = crate::table::nvim_name();
    let dest = crate::table::nvim_dest();
    let entries = seq![name];
    assert(entries.drop_first() =~= Seq::<Seq<char>>::empty());
    if spec_dest_state(fs, dest) is Missing {
        assert(spec_step(name, fs) == Ok::<_, SpecError>(
            (spec_with_dest(fs, dest, DestState::Symlink), seq![(name, dest)]),
        ));
        assert(seq![(name, dest)] + Seq::<SpecLink>::empty() =~= seq![(name, dest)]);
    } else {
        assert(spec_step(name, fs) == Ok::<_, SpecError>((fs, Seq::<SpecLink>::empty())));
        assert(Seq::<SpecLink>::empty() + Seq::<SpecLink>::empty()
            =~= Seq::<SpecLink>::empty());
    }
}

/// An ignore-listed entry is inert wherever it appears: processing it
/// leaves every destination untouched, creates no link, and never fails —
/// whatever state the destinations are in.
pub proof fn lemma_ignored_name_is_inert(name: Seq<char>, fs: FsModel)
    requires
        crate::table::is_ignored_name(name),
    ensures
        spec_step(name, fs) == Ok::<(FsModel, Seq<SpecLink>), SpecError>(
            (fs, Seq::<SpecLink>::empty()),
        ),
        spec_run(seq![name], fs).result == Ok::<(), SpecError>(()),
        spec_run(seq![name], fs).fs == fs,
        spec_run(seq![name], fs).created == Seq::<SpecLink>::empty(),
{
    reveal_with_fuel(spec_run, 3);
    crate::table::lemma_ignored_resolves_to_ignore(name);
    let entries = seq![name];
    assert(entries.drop_first() =~= Seq::<Seq<char>>::empty());
    assert(Seq::<SpecLink>::empty() + Seq::<SpecLink>::empty()
        =~= Seq::<SpecLink>::empty());
}

} // verus!
