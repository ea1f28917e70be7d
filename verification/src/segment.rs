//! The events of the World Tour and where the game keeps their progress.
//!
//! The tour has six zones. The game holds one block of memory per zone, and
//! in it one progress counter per event, at a fixed stride.

use vstd::prelude::*;

verus! {

/// A zone of the World Tour.
#[derive(Clone, Copy, Debug, PartialEq, Eq, Structural)]
pub enum Zone {
    SunshineCoast,
    FrozenValley,
    ScorchingSkies,
    TwilightEngine,
    MoonlightPark,
    SuperstarShowdown,
}

/// An event of the World Tour, which the timer can split on.
#[derive(Clone, Copy, Debug, PartialEq, Eq, Structural)]
pub enum Segment {
    CoastalCruise,
    StudioScrapes,
    BattlezoneBlast,
    DowntownDrift,
    MonkeyMayhem,
    StarrySpeedway,
    RouletteRush,
    CanyonCarnage,
    SnowballShakedown,
    BananaBoost,
    ShinobiScramble,
    SeasideScrap,
    TrickyTraffic,
    StudioScurry,
    GraffitiGroove,
    ShakingSkies,
    NeonKnockout,
    PiratePlunder,
    AdderAssault,
    DreamyDrive,
    SanctuarySpeedway,
    KeilsCarnage,
    CarrierCrisis,
    SunshineSlide,
    RogueRings,
    SeasideSkirmish,
    ShrineTime,
    HangarHassle,
    BootyBoost,
    RacingRangers,
    ShinobiShowdown,
    RuinRun,
    MonkeyBrawl,
    CrumblingChaos,
    HatcherHustle,
    DeathEggDuel,
    UndertakerOvertaker,
    GoldenGauntlet,
    CarnivalClash,
    CurienCurves,
    MoltenMayhem,
    SpeedingSeasons,
    BurningBoost,
    OceanOutrun,
    BillyBackslide,
    CarrierCharge,
    JetSetJaunt,
    ArcadeAnnihilation,
    RapidRuins,
    ZombieZoom,
    MaracarMadness,
    NightmareMeander,
    MaracaMelee,
    CastleChaos,
    VolcanoVelocity,
    RangerRush,
    TokyoTakeover,
    FatalFinale,
}

/// How many zones there are.
pub const ZONE_COUNT: usize = 6;

/// How many events there are.
pub const SEGMENT_COUNT: usize = 58;

/// How many bytes of a zone's block are read.
pub const ZONE_BLOCK_LEN: usize = 0x719;

/// Where in a zone's block the counter of its first event lies.
pub const FIRST_COUNTER_OFFSET: usize = 0x7C;

/// How far apart the counters of two neighbouring events lie.
pub const COUNTER_STRIDE: usize = 0xBC;

/// The counter value that marks the last stage of an event as reached.
pub const FINAL_STAGE: u8 = 4;

/// The bytes read of one zone's block.
pub type ZoneBlock = [u8; ZONE_BLOCK_LEN];

impl Zone {
    /// The place of the zone among all of them, from 0.
    pub open spec fn spec_index(self) -> int {
        match self {
            Zone::SunshineCoast => 0,
            Zone::FrozenValley => 1,
            Zone::ScorchingSkies => 2,
            Zone::TwilightEngine => 3,
            Zone::MoonlightPark => 4,
            Zone::SuperstarShowdown => 5,
        }
    }

    /// How many events the zone has.
    pub open spec fn spec_len(self) -> int {
        match self {
            Zone::SunshineCoast => 8,
            _ => 10,
        }
    }

    /// The place of the zone among all of them, from 0.
    pub fn index(self) -> (r: usize)
        ensures
            r == self.spec_index(),
            r < ZONE_COUNT,
    {
        match self {
            Zone::SunshineCoast => 0,
            Zone::FrozenValley => 1,
            Zone::ScorchingSkies => 2,
            Zone::TwilightEngine => 3,
            Zone::MoonlightPark => 4,
            Zone::SuperstarShowdown => 5,
        }
    }

    /// The zone at a place, if there is one.
    pub fn from_index(index: usize) -> (r: Option<Zone>)
        ensures
            r is Some <==> index < ZONE_COUNT,
            r matches Some(zone) ==> zone.spec_index() == index,
    {
        match index {
            0 => Some(Zone::SunshineCoast),
            1 => Some(Zone::FrozenValley),
            2 => Some(Zone::ScorchingSkies),
            3 => Some(Zone::TwilightEngine),
            4 => Some(Zone::MoonlightPark),
            5 => Some(Zone::SuperstarShowdown),
            _ => None,
        }
    }
}

impl Segment {
    /// The place of the event among all of them, from 0, zone by zone.
    pub open spec fn spec_index(self) -> int {
        match self {
            Segment::CoastalCruise => 0,
            Segment::StudioScrapes => 1,
            Segment::BattlezoneBlast => 2,
            Segment::DowntownDrift => 3,
            Segment::MonkeyMayhem => 4,
            Segment::StarrySpeedway => 5,
            Segment::RouletteRush => 6,
            Segment::CanyonCarnage => 7,
            Segment::SnowballShakedown => 8,
            Segment::BananaBoost => 9,
            Segment::ShinobiScramble => 10,
            Segment::SeasideScrap => 11,
            Segment::TrickyTraffic => 12,
            Segment::StudioScurry => 13,
            Segment::GraffitiGroove => 14,
            Segment::ShakingSkies => 15,
            Segment::NeonKnockout => 16,
            Segment::PiratePlunder => 17,
            Segment::AdderAssault => 18,
            Segment::DreamyDrive => 19,
            Segment::SanctuarySpeedway => 20,
            Segment::KeilsCarnage => 21,
            Segment::CarrierCrisis => 22,
            Segment::SunshineSlide => 23,
            Segment::RogueRings => 24,
            Segment::SeasideSkirmish => 25,
            Segment::ShrineTime => 26,
            Segment::HangarHassle => 27,
            Segment::BootyBoost => 28,
            Segment::RacingRangers => 29,
            Segment::ShinobiShowdown => 30,
            Segment::RuinRun => 31,
            Segment::MonkeyBrawl => 32,
            Segment::CrumblingChaos => 33,
            Segment::HatcherHustle => 34,
            Segment::DeathEggDuel => 35,
            Segment::UndertakerOvertaker => 36,
            Segment::GoldenGauntlet => 37,
            Segment::CarnivalClash => 38,
            Segment::CurienCurves => 39,
            Segment::MoltenMayhem => 40,
            Segment::SpeedingSeasons => 41,
            Segment::BurningBoost => 42,
            Segment::OceanOutrun => 43,
            Segment::BillyBackslide => 44,
            Segment::CarrierCharge => 45,
            Segment::JetSetJaunt => 46,
            Segment::ArcadeAnnihilation => 47,
            Segment::RapidRuins => 48,
            Segment::ZombieZoom => 49,
            Segment::MaracarMadness => 50,
            Segment::NightmareMeander => 51,
            Segment::MaracaMelee => 52,
            Segment::CastleChaos => 53,
            Segment::VolcanoVelocity => 54,
            Segment::RangerRush => 55,
            Segment::TokyoTakeover => 56,
            Segment::FatalFinale => 57,
        }
    }

    /// The zone that the event belongs to.
    pub open spec fn spec_zone(self) -> Zone {
        match self {
            Segment::CoastalCruise => Zone::SunshineCoast,
            Segment::StudioScrapes => Zone::SunshineCoast,
            Segment::BattlezoneBlast => Zone::SunshineCoast,
            Segment::DowntownDrift => Zone::SunshineCoast,
            Segment::MonkeyMayhem => Zone::SunshineCoast,
            Segment::StarrySpeedway => Zone::SunshineCoast,
            Segment::RouletteRush => Zone::SunshineCoast,
            Segment::CanyonCarnage => Zone::SunshineCoast,
            Segment::SnowballShakedown => Zone::FrozenValley,
            Segment::BananaBoost => Zone::FrozenValley,
            Segment::ShinobiScramble => Zone::FrozenValley,
            Segment::SeasideScrap => Zone::FrozenValley,
            Segment::TrickyTraffic => Zone::FrozenValley,
            Segment::StudioScurry => Zone::FrozenValley,
            Segment::GraffitiGroove => Zone::FrozenValley,
            Segment::ShakingSkies => Zone::FrozenValley,
            Segment::NeonKnockout => Zone::FrozenValley,
            Segment::PiratePlunder => Zone::FrozenValley,
            Segment::AdderAssault => Zone::ScorchingSkies,
            Segment::DreamyDrive => Zone::ScorchingSkies,
            Segment::SanctuarySpeedway => Zone::ScorchingSkies,
            Segment::KeilsCarnage => Zone::ScorchingSkies,
            Segment::CarrierCrisis => Zone::ScorchingSkies,
            Segment::SunshineSlide => Zone::ScorchingSkies,
            Segment::RogueRings => Zone::ScorchingSkies,
            Segment::SeasideSkirmish => Zone::ScorchingSkies,
            Segment::ShrineTime => Zone::ScorchingSkies,
            Segment::HangarHassle => Zone::ScorchingSkies,
            Segment::BootyBoost => Zone::TwilightEngine,
            Segment::RacingRangers => Zone::TwilightEngine,
            Segment::ShinobiShowdown => Zone::TwilightEngine,
            Segment::RuinRun => Zone::TwilightEngine,
            Segment::MonkeyBrawl => Zone::TwilightEngine,
            Segment::CrumblingChaos => Zone::TwilightEngine,
            Segment::HatcherHustle => Zone::TwilightEngine,
            Segment::DeathEggDuel => Zone::TwilightEngine,
            Segment::UndertakerOvertaker => Zone::TwilightEngine,
            Segment::GoldenGauntlet => Zone::TwilightEngine,
            Segment::CarnivalClash => Zone::MoonlightPark,
            Segment::CurienCurves => Zone::MoonlightPark,
            Segment::MoltenMayhem => Zone::MoonlightPark,
            Segment::SpeedingSeasons => Zone::MoonlightPark,
            Segment::BurningBoost => Zone::MoonlightPark,
            Segment::OceanOutrun => Zone::MoonlightPark,
            Segment::BillyBackslide => Zone::MoonlightPark,
            Segment::CarrierCharge => Zone::MoonlightPark,
            Segment::JetSetJaunt => Zone::MoonlightPark,
            Segment::ArcadeAnnihilation => Zone::MoonlightPark,
            Segment::RapidRuins => Zone::SuperstarShowdown,
            Segment::ZombieZoom => Zone::SuperstarShowdown,
            Segment::MaracarMadness => Zone::SuperstarShowdown,
            Segment::NightmareMeander => Zone::SuperstarShowdown,
            Segment::MaracaMelee => Zone::SuperstarShowdown,
            Segment::CastleChaos => Zone::SuperstarShowdown,
            Segment::VolcanoVelocity => Zone::SuperstarShowdown,
            Segment::RangerRush => Zone::SuperstarShowdown,
            Segment::TokyoTakeover => Zone::SuperstarShowdown,
            Segment::FatalFinale => Zone::SuperstarShowdown,
        }
    }

    /// The place of the event within its zone, from 0.
    pub open spec fn spec_slot(self) -> int {
        if self.spec_index() < 8 {
            self.spec_index()
        } else {
            (self.spec_index() - 8) % 10
        }
    }

    /// Where in its zone's block the counter of the event lies.
    pub open spec fn spec_offset(self) -> int {
        FIRST_COUNTER_OFFSET + self.spec_slot() * COUNTER_STRIDE
    }

    /// The place of the event among all of them, from 0, zone by zone.
    pub fn index(self) -> (r: usize)
        ensures
            r == self.spec_index(),
            r < SEGMENT_COUNT,
    {
        match self {
            Segment::CoastalCruise => 0,
            Segment::StudioScrapes => 1,
            Segment::BattlezoneBlast => 2,
            Segment::DowntownDrift => 3,
            Segment::MonkeyMayhem => 4,
            Segment::StarrySpeedway => 5,
            Segment::RouletteRush => 6,
            Segment::CanyonCarnage => 7,
            Segment::SnowballShakedown => 8,
            Segment::BananaBoost => 9,
            Segment::ShinobiScramble => 10,
            Segment::SeasideScrap => 11,
            Segment::TrickyTraffic => 12,
            Segment::StudioScurry => 13,
            Segment::GraffitiGroove => 14,
            Segment::ShakingSkies => 15,
            Segment::NeonKnockout => 16,
            Segment::PiratePlunder => 17,
            Segment::AdderAssault => 18,
            Segment::DreamyDrive => 19,
            Segment::SanctuarySpeedway => 20,
            Segment::KeilsCarnage => 21,
            Segment::CarrierCrisis => 22,
            Segment::SunshineSlide => 23,
            Segment::RogueRings => 24,
            Segment::SeasideSkirmish => 25,
            Segment::ShrineTime => 26,
            Segment::HangarHassle => 27,
            Segment::BootyBoost => 28,
            Segment::RacingRangers => 29,
            Segment::ShinobiShowdown => 30,
            Segment::RuinRun => 31,
            Segment::MonkeyBrawl => 32,
            Segment::CrumblingChaos => 33,
            Segment::HatcherHustle => 34,
            Segment::DeathEggDuel => 35,
            Segment::UndertakerOvertaker => 36,
            Segment::GoldenGauntlet => 37,
            Segment::CarnivalClash => 38,
            Segment::CurienCurves => 39,
            Segment::MoltenMayhem => 40,
            Segment::SpeedingSeasons => 41,
            Segment::BurningBoost => 42,
            Segment::OceanOutrun => 43,
            Segment::BillyBackslide => 44,
            Segment::CarrierCharge => 45,
            Segment::JetSetJaunt => 46,
            Segment::ArcadeAnnihilation => 47,
            Segment::RapidRuins => 48,
            Segment::ZombieZoom => 49,
            Segment::MaracarMadness => 50,
            Segment::NightmareMeander => 51,
            Segment::MaracaMelee => 52,
            Segment::CastleChaos => 53,
            Segment::VolcanoVelocity => 54,
            Segment::RangerRush => 55,
            Segment::TokyoTakeover => 56,
            Segment::FatalFinale => 57,
        }
    }

    /// The event at a place, if there is one.
    pub fn from_index(index: usize) -> (r: Option<Segment>)
        ensures
            r is Some <==> index < SEGMENT_COUNT,
            r matches Some(segment) ==> segment.spec_index() == index,
    {
        match index {
            0 => Some(Segment::CoastalCruise),
            1 => Some(Segment::StudioScrapes),
            2 => Some(Segment::BattlezoneBlast),
            3 => Some(Segment::DowntownDrift),
            4 => Some(Segment::MonkeyMayhem),
            5 => Some(Segment::StarrySpeedway),
            6 => Some(Segment::RouletteRush),
            7 => Some(Segment::CanyonCarnage),
            8 => Some(Segment::SnowballShakedown),
            9 => Some(Segment::BananaBoost),
            10 => Some(Segment::ShinobiScramble),
            11 => Some(Segment::SeasideScrap),
            12 => Some(Segment::TrickyTraffic),
            13 => Some(Segment::StudioScurry),
            14 => Some(Segment::GraffitiGroove),
            15 => Some(Segment::ShakingSkies),
            16 => Some(Segment::NeonKnockout),
            17 => Some(Segment::PiratePlunder),
            18 => Some(Segment::AdderAssault),
            19 => Some(Segment::DreamyDrive),
            20 => Some(Segment::SanctuarySpeedway),
            21 => Some(Segment::KeilsCarnage),
            22 => Some(Segment::CarrierCrisis),
            23 => Some(Segment::SunshineSlide),
            24 => Some(Segment::RogueRings),
            25 => Some(Segment::SeasideSkirmish),
            26 => Some(Segment::ShrineTime),
            27 => Some(Segment::HangarHassle),
            28 => Some(Segment::BootyBoost),
            29 => Some(Segment::RacingRangers),
            30 => Some(Segment::ShinobiShowdown),
            31 => Some(Segment::RuinRun),
            32 => Some(Segment::MonkeyBrawl),
            33 => Some(Segment::CrumblingChaos),
            34 => Some(Segment::HatcherHustle),
            35 => Some(Segment::DeathEggDuel),
            36 => Some(Segment::UndertakerOvertaker),
            37 => Some(Segment::GoldenGauntlet),
            38 => Some(Segment::CarnivalClash),
            39 => Some(Segment::CurienCurves),
            40 => Some(Segment::MoltenMayhem),
            41 => Some(Segment::SpeedingSeasons),
            42 => Some(Segment::BurningBoost),
            43 => Some(Segment::OceanOutrun),
            44 => Some(Segment::BillyBackslide),
            45 => Some(Segment::CarrierCharge),
            46 => Some(Segment::JetSetJaunt),
            47 => Some(Segment::ArcadeAnnihilation),
            48 => Some(Segment::RapidRuins),
            49 => Some(Segment::ZombieZoom),
            50 => Some(Segment::MaracarMadness),
            51 => Some(Segment::NightmareMeander),
            52 => Some(Segment::MaracaMelee),
            53 => Some(Segment::CastleChaos),
            54 => Some(Segment::VolcanoVelocity),
            55 => Some(Segment::RangerRush),
            56 => Some(Segment::TokyoTakeover),
            57 => Some(Segment::FatalFinale),
            _ => None,
        }
    }

    /// The zone that the event belongs to.
    #[verifier::when_used_as_spec(spec_zone)]
    pub fn zone(self) -> (r: Zone)
        ensures
            r == self.spec_zone(),
    {
        let index = self.index();
        let zone = if index < 8 {
            Zone::SunshineCoast
        } else if index < 18 {
            Zone::FrozenValley
        } else if index < 28 {
            Zone::ScorchingSkies
        } else if index < 38 {
            Zone::TwilightEngine
        } else if index < 48 {
            Zone::MoonlightPark
        } else {
            Zone::SuperstarShowdown
        };
        zone
    }

    /// The place of the event within its zone, from 0.
    pub fn slot(self) -> (r: usize)
        ensures
            r == self.spec_slot(),
            r < self.spec_zone().spec_len(),
    {
        let index = self.index();
        if index < 8 {
            index
        } else {
            (index - 8) % 10
        }
    }

    /// Where in its zone's block the counter of the event lies.
    pub fn offset(self) -> (r: usize)
        ensures
            r == self.spec_offset(),
            r < ZONE_BLOCK_LEN,
    {
        FIRST_COUNTER_OFFSET + self.slot() * COUNTER_STRIDE
    }

    /// Whether the event ends with a last stage, which its counter marks by
    /// `FINAL_STAGE`, and with the credits.
    pub open spec fn spec_ends_with_final_stage(self) -> bool {
        self == Segment::ArcadeAnnihilation || self == Segment::FatalFinale
    }

    /// Whether the event ends with a last stage, which its counter marks by
    /// `FINAL_STAGE`, and with the credits.
    #[verifier::when_used_as_spec(spec_ends_with_final_stage)]
    pub fn ends_with_final_stage(self) -> (r: bool)
        ensures
            r == self.spec_ends_with_final_stage(),
    {
        match self {
            Segment::ArcadeAnnihilation | Segment::FatalFinale => true,
            _ => false,
        }
    }

    /// The counter of the event, cut out of its zone's block.
    pub open spec fn spec_counter_in(self, block: ZoneBlock) -> u8 {
        block[self.spec_offset()]
    }

    /// The counter of the event, cut out of its zone's block.
    pub fn counter_in(self, block: &ZoneBlock) -> (r: u8)
        ensures
            r == self.spec_counter_in(*block),
    {
        block[self.offset()]
    }
}

/// An event is known by its place: no two events share one.
pub proof fn lemma_index_is_injective(a: Segment, b: Segment)
    requires
        a.spec_index() == b.spec_index(),
    ensures
        a == b,
{
}

/// No two events keep their counter in the same byte of the same block.
pub proof fn lemma_counters_are_apart(a: Segment, b: Segment)
    requires
        a.spec_zone() == b.spec_zone(),
        a.spec_offset() == b.spec_offset(),
    ensures
        a == b,
{
}

} // verus!
