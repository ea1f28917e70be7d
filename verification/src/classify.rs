//! The game's mode and circuit, as read from memory.

use vstd::prelude::*;
use crate::pair::{DebouncedValue, Sample};

verus! {

/// How the game is being played.
#[derive(Clone, Copy, Debug, PartialEq, Eq, Structural)]
pub enum GameMode {
    WorldTour,
    GrandPrix,
    TimeAttack,
    SingleRace,
}

/// A circuit.
#[derive(Clone, Copy, Debug, PartialEq, Eq, Structural)]
pub enum Track {
    OceanView,
    SambaStudios,
    CarrierZone,
    DragonCanyon,
    TempleTrouble,
    GalacticParade,
    SeasonalShrines,
    RoguesLanding,
    DreamValley,
    ChillyCastle,
    GraffitiCity,
    SanctuaryFalls,
    GraveyardGig,
    AddersLair,
    BurningDepths,
    RaceOfAges,
    SunshineTour,
    ShibuyaDowntown,
    RouletteRoad,
    EggHangar,
    OutrunBay,
}

impl Sample for GameMode {
    fn same(&self, other: &GameMode) -> (r: bool) {
        *self == *other
    }
}

impl Sample for Track {
    fn same(&self, other: &Track) -> (r: bool) {
        *self == *other
    }
}

/// How many circuits there are.
pub const TRACK_COUNT: usize = 21;

impl GameMode {
    /// The mode that a byte of the mode selector stands for, if any.
    pub open spec fn spec_from_raw(raw: u8) -> Option<GameMode> {
        if raw == 0 {
            Some(GameMode::WorldTour)
        } else if raw == 1 {
            Some(GameMode::GrandPrix)
        } else if raw == 2 {
            Some(GameMode::TimeAttack)
        } else if raw == 3 {
            Some(GameMode::SingleRace)
        } else {
            None
        }
    }

    /// The mode that a byte of the mode selector stands for, if any.
    #[verifier::when_used_as_spec(spec_from_raw)]
    pub fn from_raw(raw: u8) -> (r: Option<GameMode>)
        ensures
            r == Self::spec_from_raw(raw),
    {
        match raw {
            0 => Some(GameMode::WorldTour),
            1 => Some(GameMode::GrandPrix),
            2 => Some(GameMode::TimeAttack),
            3 => Some(GameMode::SingleRace),
            _ => None,
        }
    }

    /// The mode to record for a sample of the mode selector: the one it
    /// stands for, else the one last recorded, else `WorldTour`.
    pub open spec fn spec_classify(raw: Option<u8>, known: DebouncedValue<GameMode>) -> GameMode {
        let kept = known.spec_current_or(GameMode::WorldTour);
        match raw {
            Some(byte) => match Self::spec_from_raw(byte) {
                Some(mode) => mode,
                None => kept,
            },
            None => kept,
        }
    }

    /// The mode to record for a sample of the mode selector.
    #[verifier::when_used_as_spec(spec_classify)]
    pub fn classify(raw: Option<u8>, known: DebouncedValue<GameMode>) -> (r: GameMode)
        ensures
            r == Self::spec_classify(raw, known),
    {
        let decoded = match raw {
            Some(byte) => GameMode::from_raw(byte),
            None => None,
        };
        match decoded {
            Some(mode) => mode,
            None => known.current_or(GameMode::WorldTour),
        }
    }
}

impl Track {
    /// The identifier under which the game knows the circuit.
    pub open spec fn spec_id(self) -> u32 {
        match self {
            Track::OceanView => 0xD4257EBD,
            Track::SambaStudios => 0x32D305A8,
            Track::CarrierZone => 0xC72B3B98,
            Track::DragonCanyon => 0x03EB7FFF,
            Track::TempleTrouble => 0xE3121777,
            Track::GalacticParade => 0x4E015AB6,
            Track::SeasonalShrines => 0x503C1CBC,
            Track::RoguesLanding => 0x7534B7CA,
            Track::DreamValley => 0x38A394ED,
            Track::ChillyCastle => 0xC5C9DEA1,
            Track::GraffitiCity => 0xD936550C,
            Track::SanctuaryFalls => 0x4A0FF7AE,
            Track::GraveyardGig => 0xCD8017BA,
            Track::AddersLair => 0xDC93F18B,
            Track::BurningDepths => 0x2DB91FC2,
            Track::RaceOfAges => 0x94610644,
            Track::SunshineTour => 0xE6CD97F0,
            Track::ShibuyaDowntown => 0xE87FDF22,
            Track::RouletteRoad => 0x17463C8D,
            Track::EggHangar => 0xFEBC639E,
            Track::OutrunBay => 0x1EF56CE1,
        }
    }

    /// The place of the circuit among all of them, from 0.
    pub open spec fn spec_index(self) -> int {
        match self {
            Track::OceanView => 0,
            Track::SambaStudios => 1,
            Track::CarrierZone => 2,
            Track::DragonCanyon => 3,
            Track::TempleTrouble => 4,
            Track::GalacticParade => 5,
            Track::SeasonalShrines => 6,
            Track::RoguesLanding => 7,
            Track::DreamValley => 8,
            Track::ChillyCastle => 9,
            Track::GraffitiCity => 10,
            Track::SanctuaryFalls => 11,
            Track::GraveyardGig => 12,
            Track::AddersLair => 13,
            Track::BurningDepths => 14,
            Track::RaceOfAges => 15,
            Track::SunshineTour => 16,
            Track::ShibuyaDowntown => 17,
            Track::RouletteRoad => 18,
            Track::EggHangar => 19,
            Track::OutrunBay => 20,
        }
    }

    /// The circuit that an identifier stands for, if any.
    pub open spec fn spec_from_id(id: u32) -> Option<Track> {
        if id == 0xD4257EBD {
            Some(Track::OceanView)
        } else if id == 0x32D305A8 {
            Some(Track::SambaStudios)
        } else if id == 0xC72B3B98 {
            Some(Track::CarrierZone)
        } else if id == 0x03EB7FFF {
            Some(Track::DragonCanyon)
        } else if id == 0xE3121777 {
            Some(Track::TempleTrouble)
        } else if id == 0x4E015AB6 {
            Some(Track::GalacticParade)
        } else if id == 0x503C1CBC {
            Some(Track::SeasonalShrines)
        } else if id == 0x7534B7CA {
            Some(Track::RoguesLanding)
        } else if id == 0x38A394ED {
            Some(Track::DreamValley)
        } else if id == 0xC5C9DEA1 {
            Some(Track::ChillyCastle)
        } else if id == 0xD936550C {
            Some(Track::GraffitiCity)
        } else if id == 0x4A0FF7AE {
            Some(Track::SanctuaryFalls)
        } else if id == 0xCD8017BA {
            Some(Track::GraveyardGig)
        } else if id == 0xDC93F18B {
            Some(Track::AddersLair)
        } else if id == 0x2DB91FC2 {
            Some(Track::BurningDepths)
        } else if id == 0x94610644 {
            Some(Track::RaceOfAges)
        } else if id == 0xE6CD97F0 {
            Some(Track::SunshineTour)
        } else if id == 0xE87FDF22 {
            Some(Track::ShibuyaDowntown)
        } else if id == 0x17463C8D {
            Some(Track::RouletteRoad)
        } else if id == 0xFEBC639E {
            Some(Track::EggHangar)
        } else if id == 0x1EF56CE1 {
            Some(Track::OutrunBay)
        } else {
            None
        }
    }

    /// The place of the circuit among all of them, from 0.
    pub fn index(self) -> (r: usize)
        ensures
            r == self.spec_index(),
            r < TRACK_COUNT,
    {
        match self {
            Track::OceanView => 0,
            Track::SambaStudios => 1,
            Track::CarrierZone => 2,
            Track::DragonCanyon => 3,
            Track::TempleTrouble => 4,
            Track::GalacticParade => 5,
            Track::SeasonalShrines => 6,
            Track::RoguesLanding => 7,
            Track::DreamValley => 8,
            Track::ChillyCastle => 9,
            Track::GraffitiCity => 10,
            Track::SanctuaryFalls => 11,
            Track::GraveyardGig => 12,
            Track::AddersLair => 13,
            Track::BurningDepths => 14,
            Track::RaceOfAges => 15,
            Track::SunshineTour => 16,
            Track::ShibuyaDowntown => 17,
            Track::RouletteRoad => 18,
            Track::EggHangar => 19,
            Track::OutrunBay => 20,
        }
    }

    /// The circuit that an identifier stands for, if any.
    #[verifier::when_used_as_spec(spec_from_id)]
    pub fn from_id(id: u32) -> (r: Option<Track>)
        ensures
            r == Self::spec_from_id(id),
    {
        match id {
            0xD4257EBD => Some(Track::OceanView),
            0x32D305A8 => Some(Track::SambaStudios),
            0xC72B3B98 => Some(Track::CarrierZone),
            0x03EB7FFF => Some(Track::DragonCanyon),
            0xE3121777 => Some(Track::TempleTrouble),
            0x4E015AB6 => Some(Track::GalacticParade),
            0x503C1CBC => Some(Track::SeasonalShrines),
            0x7534B7CA => Some(Track::RoguesLanding),
            0x38A394ED => Some(Track::DreamValley),
            0xC5C9DEA1 => Some(Track::ChillyCastle),
            0xD936550C => Some(Track::GraffitiCity),
            0x4A0FF7AE => Some(Track::SanctuaryFalls),
            0xCD8017BA => Some(Track::GraveyardGig),
            0xDC93F18B => Some(Track::AddersLair),
            0x2DB91FC2 => Some(Track::BurningDepths),
            0x94610644 => Some(Track::RaceOfAges),
            0xE6CD97F0 => Some(Track::SunshineTour),
            0xE87FDF22 => Some(Track::ShibuyaDowntown),
            0x17463C8D => Some(Track::RouletteRoad),
            0xFEBC639E => Some(Track::EggHangar),
            0x1EF56CE1 => Some(Track::OutrunBay),
            _ => None,
        }
    }

    /// The circuit to record for a sample of the identifier: the one it
    /// stands for, else the one last recorded, else `OceanView`.
    pub open spec fn spec_classify(raw: Option<u32>, known: DebouncedValue<Track>) -> Track {
        let kept = known.spec_current_or(Track::OceanView);
        match raw {
            Some(id) => match Self::spec_from_id(id) {
                Some(track) => track,
                None => kept,
            },
            None => kept,
        }
    }

    /// The circuit to record for a sample of the identifier.
    #[verifier::when_used_as_spec(spec_classify)]
    pub fn classify(raw: Option<u32>, known: DebouncedValue<Track>) -> (r: Track)
        ensures
            r == Self::spec_classify(raw, known),
    {
        let decoded = match raw {
            Some(id) => Track::from_id(id),
            None => None,
        };
        match decoded {
            Some(track) => track,
            None => known.current_or(Track::OceanView),
        }
    }
}

/// The identifiers tell the circuits apart: an identifier stands for the
/// circuit whose identifier it is, and for no other.
pub proof fn lemma_id_tells_track(track: Track, id: u32)
    ensures
        Track::spec_from_id(id) == Some(track) <==> track.spec_id() == id,
{
}

/// An identifier that stands for no circuit, or a failed read, leaves the
/// circuit where it was.
pub proof fn lemma_unknown_track_is_sticky(raw: Option<u32>, known: DebouncedValue<Track>)
    requires
        known.pair is Some,
        raw matches Some(id) ==> Track::spec_from_id(id) is None,
    ensures
        Track::spec_classify(raw, known) == known.pair->0.current,
        known.updated(Track::spec_classify(raw, known)).pair->0.current == known.pair->0.current,
{
}

/// A byte that stands for no mode, or a failed read, leaves the mode where
/// it was.
pub proof fn lemma_unknown_mode_is_sticky(raw: Option<u8>, known: DebouncedValue<GameMode>)
    requires
        known.pair is Some,
        raw matches Some(byte) ==> GameMode::spec_from_raw(byte) is None,
    ensures
        GameMode::spec_classify(raw, known) == known.pair->0.current,
        known.updated(GameMode::spec_classify(raw, known)).pair->0.current
            == known.pair->0.current,
{
}

} // verus!
