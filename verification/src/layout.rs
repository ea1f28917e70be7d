//! Where in the game's memory each sample is read.
//!
//! Some variables are read at their address. Others lie behind a chain of
//! 32-bit pointers, which is given as a path of offsets: each offset but
//! the last is added to the address at hand and a pointer is read there,
//! which becomes the address at hand; the value lies the last offset after
//! it.

use vstd::prelude::*;
use crate::locator::{offset_by, spec_offset_by, Addresses};
use crate::segment::Zone;

verus! {

/// The path from `Addresses::end_credits` to the credits flag.
pub const END_CREDITS_PATH: [u32; 2] = [0x0, 0x8C];

/// The path from `Addresses::event_type` to the event's type, and from
/// `Addresses::track_id` to the circuit's identifier.
pub const EVENT_PATH: [u32; 2] = [0x0, 0x0];

/// The path from `Addresses::player_base` to the address of the player's
/// race.
pub const PLAYER_PATH: [u32; 3] = [0x0, 0x0, 0xC1B8];

/// How many bytes after the address of the player's race the lap count lies.
pub const REQUIRED_LAPS_OFFSET: u32 = 0x4;

/// How many bytes after the address of the player's race its result lies.
pub const TOTAL_RACE_TIME_OFFSET: u32 = 0x28;

/// How many bytes after the root of the event's type the root of the circuit's
/// identifier lies.
pub const TRACK_ID_OFFSET: u32 = 0x4;

/// How many bytes a pointer of the game takes.
pub const POINTER_SIZE: u32 = 4;

impl Addresses {
    /// The root of the circuit's identifier.
    pub open spec fn spec_track_id(&self) -> u64 {
        spec_offset_by(self.event_type, TRACK_ID_OFFSET)
    }

    /// Where the pointer to a zone's block lies.
    pub open spec fn spec_zone_pointer(&self, zone: Zone) -> u64 {
        spec_offset_by(self.sunshine_coast, (POINTER_SIZE * zone.spec_index()) as u32)
    }

    /// The root of the circuit's identifier.
    #[verifier::when_used_as_spec(spec_track_id)]
    pub fn track_id(&self) -> (r: u64)
        ensures
            r == self.spec_track_id(),
    {
        offset_by(self.event_type, TRACK_ID_OFFSET)
    }

    /// Where the pointer to a zone's block lies: the pointers of the zones
    /// follow each other from `sunshine_coast` on.
    #[verifier::when_used_as_spec(spec_zone_pointer)]
    pub fn zone_pointer(&self, zone: Zone) -> (r: u64)
        ensures
            r == self.spec_zone_pointer(zone),
    {
        offset_by(self.sunshine_coast, POINTER_SIZE * (zone.index() as u32))
    }
}

/// The address to read a zone's block from, given what was read of the
/// pointer to it: address 0 where the pointer could not be read.
pub fn zone_block_address(pointer: Option<u32>) -> (r: u64)
    ensures
        r == match pointer {
            Some(address) => address as u64,
            None => 0,
        },
{
    match pointer {
        Some(address) => address as u64,
        None => 0,
    }
}

} // verus!
