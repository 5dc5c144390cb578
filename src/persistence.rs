use crate::shipyard::Shipyard;
use vstd::prelude::*;

verus! {

/// One file of a save bundle.
#[derive(Clone, Copy, Debug, PartialEq, Eq, Structural)]
pub enum SaveFile {
    Galaxy,
    Player,
}

/// What a save writes: the whole bundle, or the player profile alone.
#[derive(Clone, Copy, Debug, PartialEq, Eq, Structural)]
pub enum SaveScope {
    All,
    PlayerOnly,
}

/// One fallible step of a save.
#[derive(Clone, Copy, Debug, PartialEq, Eq, Structural)]
pub enum SaveAction {
    /// Make sure the save directory exists.
    CreateDir,
    /// Open or create the file, emptying it.
    CreateFile(SaveFile),
    /// Serialize the file's subsystem into it, holding that subsystem's lock.
    Write(SaveFile),
}

/// The steps of a save, in the order they run.
pub open spec fn plan(scope: SaveScope) -> Seq<SaveAction> {
    match scope {
        SaveScope::All => seq![
            SaveAction::CreateDir,
            SaveAction::CreateFile(SaveFile::Galaxy),
            SaveAction::Write(SaveFile::Galaxy),
            SaveAction::CreateFile(SaveFile::Player),
            SaveAction::Write(SaveFile::Player),
        ],
        SaveScope::PlayerOnly => seq![
            SaveAction::CreateDir,
            SaveAction::CreateFile(SaveFile::Player),
            SaveAction::Write(SaveFile::Player),
        ],
    }
}

/// The file name under the save directory that holds `f`.
pub fn file_name(f: SaveFile) -> (r: &'static str)
    ensures
        r@ == (match f {
            SaveFile::Galaxy => "galaxy.cbor"@,
            SaveFile::Player => "player.cbor"@,
        }),
{
    match f {
        SaveFile::Galaxy => "galaxy.cbor",
        SaveFile::Player => "player.cbor",
    }
}

/// The step at position `i` of a save, if the plan is that long.
pub fn plan_step(scope: SaveScope, i: usize) -> (r: Option<SaveAction>)
    ensures
        r == (if i < plan(scope).len() { Some(plan(scope)[i as int]) } else { None }),
{
    match scope {
        SaveScope::All => match i {
            0 => Some(SaveAction::CreateDir),
            1 => Some(SaveAction::CreateFile(SaveFile::Galaxy)),
            2 => Some(SaveAction::Write(SaveFile::Galaxy)),
            3 => Some(SaveAction::CreateFile(SaveFile::Player)),
            4 => Some(SaveAction::Write(SaveFile::Player)),
            _ => None,
        },
        SaveScope::PlayerOnly => match i {
            0 => Some(SaveAction::CreateDir),
            1 => Some(SaveAction::CreateFile(SaveFile::Player)),
            2 => Some(SaveAction::Write(SaveFile::Player)),
            _ => None,
        },
    }
}

/// A save in progress: the steps done so far, and whether one failed.
/// A failed step ends the save; nothing done before it is undone.
#[derive(Clone, Copy, Debug, PartialEq, Eq, Structural)]
pub struct SaveRun {
    pub scope: SaveScope,
    pub done: usize,
    pub failed: bool,
}

impl SaveRun {
    pub open spec fn wf(self) -> bool {
        self.done <= plan(self.scope).len()
    }

    /// The step to run next, if the save has not ended.
    pub open spec fn spec_next(self) -> Option<SaveAction> {
        if self.failed || self.done >= plan(self.scope).len() {
            None
        } else {
            Some(plan(self.scope)[self.done as int])
        }
    }

    /// Whether the file has been written in full.
    pub open spec fn wrote(self, f: SaveFile) -> bool {
        exists|i: int| 0 <= i < self.done && plan(self.scope)[i] == SaveAction::Write(f)
    }

    pub fn start(scope: SaveScope) -> (r: SaveRun)
        ensures
            r.wf(),
            r.scope == scope,
            r.done == 0,
            !r.failed,
    {
        SaveRun { scope, done: 0, failed: false }
    }

    pub fn next_action(&self) -> (r: Option<SaveAction>)
        requires
            self.wf(),
        ensures
            r == self.spec_next(),
    {
        if self.failed {
            None
        } else {
            plan_step(self.scope, self.done)
        }
    }

    /// Records how the step that `next_action` gave went.
    pub fn report(&mut self, ok: bool)
        requires
            old(self).wf(),
            old(self).spec_next() is Some,
        ensures
            final(self).wf(),
            final(self).scope == old(self).scope,
            ok ==> final(self).done == old(self).done + 1 && !final(self).failed,
            !ok ==> final(self).done == old(self).done && final(self).failed,
    {
        if ok {
            self.done = self.done + 1;
        } else {
            self.failed = true;
        }
    }
}

/// A game rebuilt from a save bundle.
pub struct LoadedGame<G, P> {
    pub galaxy: G,
    pub shipyard: Shipyard,
    pub player: P,
}

/// The result of a load: a game only where both files were read back.
pub open spec fn load_outcome<G, P>(
    galaxy: Option<G>,
    player: Option<P>,
    shipyard: Shipyard,
) -> Option<LoadedGame<G, P>> {
    match (galaxy, player) {
        (Some(g), Some(p)) => Some(LoadedGame { galaxy: g, shipyard, player: p }),
        _ => None,
    }
}

/// Puts a loaded game together from what was read of each file and a
/// freshly rebuilt ship catalog. All or nothing: a game with only one of the
/// two files read back is never returned.
pub fn assemble_load<G, P>(
    galaxy: Option<G>,
    player: Option<P>,
    shipyard: Shipyard,
) -> (r: Option<LoadedGame<G, P>>)
    ensures
        r == load_outcome(galaxy, player, shipyard),
{
    match (galaxy, player) {
        (Some(g), Some(p)) => Some(LoadedGame { galaxy: g, shipyard, player: p }),
        _ => None,
    }
}

/// A save of the whole bundle whose every step succeeds ends having written
/// both files; loading what it wrote gives back that galaxy and player, with
/// the catalog that the load rebuilt, whatever catalog was in use when saving.
pub proof fn lemma_load_after_full_save<G, P>(run: SaveRun, g: G, p: P, rebuilt: Shipyard)
    requires
        run.wf(),
        run.scope == SaveScope::All,
        !run.failed,
        run.spec_next() is None,
    ensures
        run.wrote(SaveFile::Galaxy),
        run.wrote(SaveFile::Player),
        load_outcome(Some(g), Some(p), rebuilt) == Some(
            (LoadedGame { galaxy: g, shipyard: rebuilt, player: p }),
        ),
{
    assert(plan(run.scope)[2] == SaveAction::Write(SaveFile::Galaxy));
    assert(plan(run.scope)[4] == SaveAction::Write(SaveFile::Player));
}

/// Saving the player alone never writes the galaxy file.
pub proof fn lemma_player_save_leaves_galaxy(run: SaveRun)
    requires
        run.wf(),
        run.scope == SaveScope::PlayerOnly,
    ensures
        !run.wrote(SaveFile::Galaxy),
{
}

/// With no save bundle present, a load gives no game.
pub proof fn lemma_no_bundle<G, P>(rebuilt: Shipyard)
    ensures
        load_outcome::<G, P>(None, None, rebuilt) is None,
{
}

/// With the player file missing or unreadable, a load gives no game, even
/// where the galaxy file was read back.
pub proof fn lemma_no_partial_load<G, P>(galaxy: Option<G>, rebuilt: Shipyard)
    ensures
        load_outcome::<G, P>(galaxy, None, rebuilt) is None,
{
}

} // verus!
