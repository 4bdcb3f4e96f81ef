//! The datasets that a server can run.

use crate::text::{appended, same_text};
use vstd::prelude::*;

verus! {

/// The datasets a server can run. Each has a folder for its saves and one map file.
#[derive(Clone, Copy, Debug, PartialEq, Eq, Structural)]
pub enum GameMap {
    TheIsland,
    TheCenter,
    ScorchedEarth,
    Ragnarok,
    Aberration,
    Extinction,
    Valguero,
    Svartalfheim,
    Astraeos,
    Forglar,
    Amissa,
    LostColony,
}

/// What every map file's name ends in, after the map's base name.
pub const MAP_FILE_SUFFIX: &'static str = "_WP.ark";

impl GameMap {
    /// The identifier of the map, as job definitions write it.
    pub open spec fn spec_base_name(self) -> Seq<char> {
        match self {
            GameMap::TheIsland => "TheIsland"@,
            GameMap::TheCenter => "TheCenter"@,
            GameMap::ScorchedEarth => "ScorchedEarth"@,
            GameMap::Ragnarok => "Ragnarok"@,
            GameMap::Aberration => "Aberration"@,
            GameMap::Extinction => "Extinction"@,
            GameMap::Valguero => "Valguero"@,
            GameMap::Svartalfheim => "Svartalfheim"@,
            GameMap::Astraeos => "Astraeos"@,
            GameMap::Forglar => "Forglar"@,
            GameMap::Amissa => "Amissa"@,
            GameMap::LostColony => "LostColony"@,
        }
    }

    /// The name of the folder that holds the map's saves.
    pub open spec fn spec_folder_name(self) -> Seq<char> {
        match self {
            GameMap::TheIsland => "TheIsland_WP"@,
            GameMap::TheCenter => "TheCenter_WP"@,
            GameMap::ScorchedEarth => "ScorchedEarth_WP"@,
            GameMap::Ragnarok => "Ragnarok_WP"@,
            GameMap::Aberration => "Aberration_WP"@,
            GameMap::Extinction => "Extinction_WP"@,
            GameMap::Valguero => "Valguero_WP"@,
            GameMap::Svartalfheim => "Svartalfheim_WP"@,
            GameMap::Astraeos => "Astraeos_WP"@,
            GameMap::Forglar => "Forglar"@,
            GameMap::Amissa => "Amissa"@,
            GameMap::LostColony => "LostColony_WP"@,
        }
    }

    /// The name of the map as people read it.
    pub open spec fn spec_display_name(self) -> Seq<char> {
        match self {
            GameMap::TheIsland => "The Island"@,
            GameMap::TheCenter => "The Center"@,
            GameMap::ScorchedEarth => "Scorched Earth"@,
            GameMap::Ragnarok => "Ragnarok"@,
            GameMap::Aberration => "Aberration"@,
            GameMap::Extinction => "Extinction"@,
            GameMap::Valguero => "Valguero"@,
            GameMap::Svartalfheim => "Svartalfheim"@,
            GameMap::Astraeos => "Astraeos"@,
            GameMap::Forglar => "Forglar"@,
            GameMap::Amissa => "Amissa"@,
            GameMap::LostColony => "Lost Colony"@,
        }
    }

    /// The name of the one file that holds the map: the base name, then `_WP.ark`.
    pub open spec fn spec_map_file_name(self) -> Seq<char> {
        self.spec_base_name() + MAP_FILE_SUFFIX@
    }

    /// The map that an identifier names, if it names one.
    pub open spec fn spec_from_str(s: Seq<char>) -> Option<GameMap> {
        if s == "TheIsland"@ {
            Some(GameMap::TheIsland)
        } else if s == "TheCenter"@ {
            Some(GameMap::TheCenter)
        } else if s == "ScorchedEarth"@ {
            Some(GameMap::ScorchedEarth)
        } else if s == "Ragnarok"@ {
            Some(GameMap::Ragnarok)
        } else if s == "Aberration"@ {
            Some(GameMap::Aberration)
        } else if s == "Extinction"@ {
            Some(GameMap::Extinction)
        } else if s == "Valguero"@ {
            Some(GameMap::Valguero)
        } else if s == "Svartalfheim"@ {
            Some(GameMap::Svartalfheim)
        } else if s == "Astraeos"@ {
            Some(GameMap::Astraeos)
        } else if s == "Forglar"@ {
            Some(GameMap::Forglar)
        } else if s == "Amissa"@ {
            Some(GameMap::Amissa)
        } else if s == "LostColony"@ {
            Some(GameMap::LostColony)
        } else {
            None
        }
    }

    /// The name of the folder that holds the map's saves.
    pub fn folder_name(&self) -> (r: &'static str)
        ensures
            r@ == self.spec_folder_name(),
    {
        match self {
            GameMap::TheIsland => "TheIsland_WP",
            GameMap::TheCenter => "TheCenter_WP",
            GameMap::ScorchedEarth => "ScorchedEarth_WP",
            GameMap::Ragnarok => "Ragnarok_WP",
            GameMap::Aberration => "Aberration_WP",
            GameMap::Extinction => "Extinction_WP",
            GameMap::Valguero => "Valguero_WP",
            GameMap::Svartalfheim => "Svartalfheim_WP",
            GameMap::Astraeos => "Astraeos_WP",
            GameMap::Forglar => "Forglar",
            GameMap::Amissa => "Amissa",
            GameMap::LostColony => "LostColony_WP",
        }
    }

    /// The name of the map as people read it.
    pub fn display_name(&self) -> (r: &'static str)
        ensures
            r@ == self.spec_display_name(),
    {
        match self {
            GameMap::TheIsland => "The Island",
            GameMap::TheCenter => "The Center",
            GameMap::ScorchedEarth => "Scorched Earth",
            GameMap::Ragnarok => "Ragnarok",
            GameMap::Aberration => "Aberration",
            GameMap::Extinction => "Extinction",
            GameMap::Valguero => "Valguero",
            GameMap::Svartalfheim => "Svartalfheim",
            GameMap::Astraeos => "Astraeos",
            GameMap::Forglar => "Forglar",
            GameMap::Amissa => "Amissa",
            GameMap::LostColony => "Lost Colony",
        }
    }

    /// The identifier of the map, as job definitions write it.
    pub fn base_name(&self) -> (r: &'static str)
        ensures
            r@ == self.spec_base_name(),
    {
        match self {
            GameMap::TheIsland => "TheIsland",
            GameMap::TheCenter => "TheCenter",
            GameMap::ScorchedEarth => "ScorchedEarth",
            GameMap::Ragnarok => "Ragnarok",
            GameMap::Aberration => "Aberration",
            GameMap::Extinction => "Extinction",
            GameMap::Valguero => "Valguero",
            GameMap::Svartalfheim => "Svartalfheim",
            GameMap::Astraeos => "Astraeos",
            GameMap::Forglar => "Forglar",
            GameMap::Amissa => "Amissa",
            GameMap::LostColony => "LostColony",
        }
    }

    /// The name of the map's file among the saves.
    pub fn map_file_name(&self) -> (r: String)
        ensures
            r@ == self.spec_map_file_name(),
    {
        appended(self.base_name(), MAP_FILE_SUFFIX)
    }

    /// Resolves an identifier. Only the twelve base names resolve, letter for letter.
    pub fn from_str(s: &str) -> (r: Option<GameMap>)
        ensures
            r == GameMap::spec_from_str(s@),
    {
        if same_text(s, "TheIsland") {
            Some(GameMap::TheIsland)
        } else if same_text(s, "TheCenter") {
            Some(GameMap::TheCenter)
        } else if same_text(s, "ScorchedEarth") {
            Some(GameMap::ScorchedEarth)
        } else if same_text(s, "Ragnarok") {
            Some(GameMap::Ragnarok)
        } else if same_text(s, "Aberration") {
            Some(GameMap::Aberration)
        } else if same_text(s, "Extinction") {
            Some(GameMap::Extinction)
        } else if same_text(s, "Valguero") {
            Some(GameMap::Valguero)
        } else if same_text(s, "Svartalfheim") {
            Some(GameMap::Svartalfheim)
        } else if same_text(s, "Astraeos") {
            Some(GameMap::Astraeos)
        } else if same_text(s, "Forglar") {
            Some(GameMap::Forglar)
        } else if same_text(s, "Amissa") {
            Some(GameMap::Amissa)
        } else if same_text(s, "LostColony") {
            Some(GameMap::LostColony)
        } else {
            None
        }
    }
}

/// Facts on the twelve base names: their lengths and first letters, and the letter that tells
/// two names of one length and one first letter apart.
pub proof fn lemma_base_names_differ()
    ensures
        forall|a: GameMap, b: GameMap| a.spec_base_name() == b.spec_base_name() ==> a == b,
{
    reveal_strlit("TheIsland");
    reveal_strlit("TheCenter");
    reveal_strlit("ScorchedEarth");
    reveal_strlit("Ragnarok");
    reveal_strlit("Aberration");
    reveal_strlit("Extinction");
    reveal_strlit("Valguero");
    reveal_strlit("Svartalfheim");
    reveal_strlit("Astraeos");
    reveal_strlit("Forglar");
    reveal_strlit("Amissa");
    reveal_strlit("LostColony");
    assert forall|a: GameMap, b: GameMap| a.spec_base_name() == b.spec_base_name() implies a == b by {
        let x = a.spec_base_name();
        let y = b.spec_base_name();
        assert(x.len() == y.len());
        assert(x[0] == y[0]);
        assert(x[1] == y[1]);
        assert(x[3] == y[3]);
    }
}

/// Every map is found again by its base name.
pub proof fn lemma_from_str_finds_base_name(m: GameMap)
    ensures
        GameMap::spec_from_str(m.spec_base_name()) == Some(m),
{
    lemma_base_names_differ();
    let found = GameMap::spec_from_str(m.spec_base_name());
    assert(found is Some);
    assert(found->0.spec_base_name() == m.spec_base_name());
}

/// An identifier resolves to a map exactly when it is that map's base name.
pub proof fn lemma_from_str_is_base_name(s: Seq<char>, m: GameMap)
    ensures
        GameMap::spec_from_str(s) == Some(m) <==> s == m.spec_base_name(),
{
    lemma_from_str_finds_base_name(m);
}

} // verus!
