//! Finding the game's variables in its executable image.
//!
//! Each variable is found by a signature: a run of bytes of the game's
//! code, with gaps that stand for any byte. Where the signature occurs, the
//! code holds the variable's address a fixed distance on.
//!
//! The search reads the process, which this library does not do. `Locator`
//! says what to ask of the process next, takes the answer, and ends with
//! all addresses or with a failure.

use vstd::prelude::*;

verus! {

/// The name of the game's process and of its main module.
pub const PROCESS_NAME: &'static str = "ASN_App_PcDx9_Final.exe";

/// How many variables are looked for.
pub const TARGET_COUNT: usize = 10;

/// A variable of the game that is looked for.
#[derive(Clone, Copy, Debug, PartialEq, Eq, Structural)]
pub enum Target {
    /// The first flag of a run's start.
    RunStart,
    /// The second flag of a run's start.
    RunStart2,
    /// The root of the credits flag.
    EndCredits,
    /// The mode selector.
    ModeSelect,
    /// The root of the player's state.
    PlayerBase,
    /// The flag of a completed race.
    RaceCompleted,
    /// The status of the race.
    RaceStatus,
    /// The game's timer of the race.
    Igt,
    /// The root of the event's type and circuit.
    EventType,
    /// The pointers to the blocks of the World Tour's zones.
    SunshineCoast,
}

/// The machine that an executable image is made for, as far as it matters
/// here.
#[derive(Clone, Copy, Debug, PartialEq, Eq, Structural)]
pub enum Architecture {
    /// 32-bit x86: the only one that the signatures are made for.
    X86,
    Other,
}

/// How a variable is found in the image.
#[derive(Clone, Copy, Debug, PartialEq, Eq)]
pub struct Signature {
    /// The bytes to look for, in hexadecimal and separated by spaces; `??`
    /// stands for any byte.
    pub pattern: &'static str,
    /// How many bytes the pattern stands for.
    pub length: usize,
    /// How many bytes after the start of a match the variable's address lies.
    pub offset: u32,
}

/// Where the game keeps what is watched. Found once per attachment.
#[derive(Clone, Copy, Debug, PartialEq, Eq)]
pub struct Addresses {
    pub run_start: u64,
    pub run_start_2: u64,
    pub end_credits: u64,
    pub mode_select: u64,
    pub player_base: u64,
    pub race_completed: u64,
    pub race_status: u64,
    pub igt: u64,
    pub event_type: u64,
    pub sunshine_coast: u64,
}

impl Target {
    /// The place of the variable in the order of the search, from 0.
    pub open spec fn spec_index(self) -> int {
        match self {
            Target::RunStart => 0,
            Target::RunStart2 => 1,
            Target::EndCredits => 2,
            Target::ModeSelect => 3,
            Target::PlayerBase => 4,
            Target::RaceCompleted => 5,
            Target::RaceStatus => 6,
            Target::Igt => 7,
            Target::EventType => 8,
            Target::SunshineCoast => 9,
        }
    }

    /// The variable that is looked for after this one, if any.
    pub open spec fn spec_next(self) -> Option<Target> {
        match self {
            Target::RunStart => Some(Target::RunStart2),
            Target::RunStart2 => Some(Target::EndCredits),
            Target::EndCredits => Some(Target::ModeSelect),
            Target::ModeSelect => Some(Target::PlayerBase),
            Target::PlayerBase => Some(Target::RaceCompleted),
            Target::RaceCompleted => Some(Target::RaceStatus),
            Target::RaceStatus => Some(Target::Igt),
            Target::Igt => Some(Target::EventType),
            Target::EventType => Some(Target::SunshineCoast),
            Target::SunshineCoast => None,
        }
    }

    /// The signature by which the variable is found.
    pub open spec fn spec_signature(self) -> Signature {
        match self {
            Target::RunStart => Signature {
                pattern: "80 3D ?? ?? ?? ?? 00 0F 85 ?? ?? ?? ?? 56",
                length: 14,
                offset: 2,
            },
            Target::RunStart2 => Signature {
                pattern: "74 0E 83 3D ?? ?? ?? ?? 00 74 0E",
                length: 11,
                offset: 4,
            },
            Target::EndCredits => Signature {
                pattern: "7E 5C A1",
                length: 3,
                offset: 3,
            },
            Target::ModeSelect => Signature {
                pattern: "A1 ?? ?? ?? ?? 83 F8 02 74 16",
                length: 10,
                offset: 1,
            },
            Target::PlayerBase => Signature {
                pattern: "A1 ?? ?? ?? ?? 85 C0 0F 84 8D 00 00 00",
                length: 13,
                offset: 1,
            },
            Target::RaceCompleted => Signature {
                pattern: "8B 04 24 A3 ?? ?? ?? ?? 83 C4 08",
                length: 11,
                offset: 4,
            },
            Target::RaceStatus => Signature {
                pattern: "7C 44 83 3D ?? ?? ?? ?? 00 74 3B",
                length: 11,
                offset: 4,
            },
            Target::Igt => Signature {
                pattern: "D8 05 ?? ?? ?? ?? 56",
                length: 7,
                offset: 2,
            },
            Target::EventType => Signature {
                pattern: "55 8B E9 8B 0D ?? ?? ?? ?? 57",
                length: 10,
                offset: 5,
            },
            Target::SunshineCoast => Signature {
                pattern: "8B 2C 85 ?? ?? ?? ?? 89 7C 24 20",
                length: 11,
                offset: 3,
            },
        }
    }

    /// The first variable that is looked for.
    pub fn first() -> (r: Target)
        ensures
            r.spec_index() == 0,
            r == Target::RunStart,
    {
        Target::RunStart
    }

    /// The variable that is looked for after this one, if any.
    #[verifier::when_used_as_spec(spec_next)]
    pub fn next(self) -> (r: Option<Target>)
        ensures
            r == self.spec_next(),
            r matches Some(t) ==> t.spec_index() == self.spec_index() + 1,
            r is None <==> self.spec_index() == TARGET_COUNT - 1,
    {
        match self {
            Target::RunStart => Some(Target::RunStart2),
            Target::RunStart2 => Some(Target::EndCredits),
            Target::EndCredits => Some(Target::ModeSelect),
            Target::ModeSelect => Some(Target::PlayerBase),
            Target::PlayerBase => Some(Target::RaceCompleted),
            Target::RaceCompleted => Some(Target::RaceStatus),
            Target::RaceStatus => Some(Target::Igt),
            Target::Igt => Some(Target::EventType),
            Target::EventType => Some(Target::SunshineCoast),
            Target::SunshineCoast => None,
        }
    }

    /// The signature by which the variable is found.
    #[verifier::when_used_as_spec(spec_signature)]
    pub fn signature(self) -> (r: Signature)
        ensures
            r == self.spec_signature(),
            r.pattern@.len() == 3 * r.length - 1,
    {
        proof {
            reveal_strlit("80 3D ?? ?? ?? ?? 00 0F 85 ?? ?? ?? ?? 56");
            reveal_strlit("74 0E 83 3D ?? ?? ?? ?? 00 74 0E");
            reveal_strlit("7E 5C A1");
            reveal_strlit("A1 ?? ?? ?? ?? 83 F8 02 74 16");
            reveal_strlit("A1 ?? ?? ?? ?? 85 C0 0F 84 8D 00 00 00");
            reveal_strlit("8B 04 24 A3 ?? ?? ?? ?? 83 C4 08");
            reveal_strlit("7C 44 83 3D ?? ?? ?? ?? 00 74 3B");
            reveal_strlit("D8 05 ?? ?? ?? ?? 56");
            reveal_strlit("55 8B E9 8B 0D ?? ?? ?? ?? 57");
            reveal_strlit("8B 2C 85 ?? ?? ?? ?? 89 7C 24 20");
        }
        match self {
            Target::RunStart => Signature {
                pattern: "80 3D ?? ?? ?? ?? 00 0F 85 ?? ?? ?? ?? 56",
                length: 14,
                offset: 2,
            },
            Target::RunStart2 => Signature {
                pattern: "74 0E 83 3D ?? ?? ?? ?? 00 74 0E",
                length: 11,
                offset: 4,
            },
            Target::EndCredits => Signature {
                pattern: "7E 5C A1",
                length: 3,
                offset: 3,
            },
            Target::ModeSelect => Signature {
                pattern: "A1 ?? ?? ?? ?? 83 F8 02 74 16",
                length: 10,
                offset: 1,
            },
            Target::PlayerBase => Signature {
                pattern: "A1 ?? ?? ?? ?? 85 C0 0F 84 8D 00 00 00",
                length: 13,
                offset: 1,
            },
            Target::RaceCompleted => Signature {
                pattern: "8B 04 24 A3 ?? ?? ?? ?? 83 C4 08",
                length: 11,
                offset: 4,
            },
            Target::RaceStatus => Signature {
                pattern: "7C 44 83 3D ?? ?? ?? ?? 00 74 3B",
                length: 11,
                offset: 4,
            },
            Target::Igt => Signature {
                pattern: "D8 05 ?? ?? ?? ?? 56",
                length: 7,
                offset: 2,
            },
            Target::EventType => Signature {
                pattern: "55 8B E9 8B 0D ?? ?? ?? ?? 57",
                length: 10,
                offset: 5,
            },
            Target::SunshineCoast => Signature {
                pattern: "8B 2C 85 ?? ?? ?? ?? 89 7C 24 20",
                length: 11,
                offset: 3,
            },
        }
    }
}

impl Addresses {
    /// The address of a variable.
    pub open spec fn spec_get(&self, target: Target) -> u64 {
        match target {
            Target::RunStart => self.run_start,
            Target::RunStart2 => self.run_start_2,
            Target::EndCredits => self.end_credits,
            Target::ModeSelect => self.mode_select,
            Target::PlayerBase => self.player_base,
            Target::RaceCompleted => self.race_completed,
            Target::RaceStatus => self.race_status,
            Target::Igt => self.igt,
            Target::EventType => self.event_type,
            Target::SunshineCoast => self.sunshine_coast,
        }
    }

    /// These addresses with that of one variable replaced.
    pub open spec fn spec_with(self, target: Target, address: u64) -> Addresses {
        match target {
            Target::RunStart => Addresses { run_start: address, ..self },
            Target::RunStart2 => Addresses { run_start_2: address, ..self },
            Target::EndCredits => Addresses { end_credits: address, ..self },
            Target::ModeSelect => Addresses { mode_select: address, ..self },
            Target::PlayerBase => Addresses { player_base: address, ..self },
            Target::RaceCompleted => Addresses { race_completed: address, ..self },
            Target::RaceStatus => Addresses { race_status: address, ..self },
            Target::Igt => Addresses { igt: address, ..self },
            Target::EventType => Addresses { event_type: address, ..self },
            Target::SunshineCoast => Addresses { sunshine_coast: address, ..self },
        }
    }

    /// Addresses that are all zero.
    pub open spec fn spec_zeroed() -> Addresses {
        Addresses {
            run_start: 0,
            run_start_2: 0,
            end_credits: 0,
            mode_select: 0,
            player_base: 0,
            race_completed: 0,
            race_status: 0,
            igt: 0,
            event_type: 0,
            sunshine_coast: 0,
        }
    }

    /// Addresses that are all zero, for the search to fill in.
    #[verifier::when_used_as_spec(spec_zeroed)]
    pub fn zeroed() -> (r: Addresses)
        ensures
            r == Self::spec_zeroed(),
            forall|t: Target| r.spec_get(t) == 0,
    {
        Addresses {
            run_start: 0,
            run_start_2: 0,
            end_credits: 0,
            mode_select: 0,
            player_base: 0,
            race_completed: 0,
            race_status: 0,
            igt: 0,
            event_type: 0,
            sunshine_coast: 0,
        }
    }

    /// The address of a variable.
    #[verifier::when_used_as_spec(spec_get)]
    pub fn get(&self, target: Target) -> (r: u64)
        ensures
            r == self.spec_get(target),
    {
        match target {
            Target::RunStart => self.run_start,
            Target::RunStart2 => self.run_start_2,
            Target::EndCredits => self.end_credits,
            Target::ModeSelect => self.mode_select,
            Target::PlayerBase => self.player_base,
            Target::RaceCompleted => self.race_completed,
            Target::RaceStatus => self.race_status,
            Target::Igt => self.igt,
            Target::EventType => self.event_type,
            Target::SunshineCoast => self.sunshine_coast,
        }
    }

    /// These addresses with that of one variable replaced.
    #[verifier::when_used_as_spec(spec_with)]
    pub fn with(self, target: Target, address: u64) -> (r: Addresses)
        ensures
            r == self.spec_with(target, address),
            forall|t: Target|
                r.spec_get(t) == if t == target {
                    address
                } else {
                    self.spec_get(t)
                },
    {
        let mut r = self;
        match target {
            Target::RunStart => {
                r.run_start = address;
            },
            Target::RunStart2 => {
                r.run_start_2 = address;
            },
            Target::EndCredits => {
                r.end_credits = address;
            },
            Target::ModeSelect => {
                r.mode_select = address;
            },
            Target::PlayerBase => {
                r.player_base = address;
            },
            Target::RaceCompleted => {
                r.race_completed = address;
            },
            Target::RaceStatus => {
                r.race_status = address;
            },
            Target::Igt => {
                r.igt = address;
            },
            Target::EventType => {
                r.event_type = address;
            },
            Target::SunshineCoast => {
                r.sunshine_coast = address;
            },
        }
        r
    }
}

/// What the locator asks of the process.
#[derive(Clone, Copy, Debug, PartialEq, Eq, Structural)]
pub enum Request {
    /// The address at which the module named `PROCESS_NAME` is loaded.
    Module,
    /// The size of the image that is loaded at `base`.
    ImageSize { base: u64 },
    /// The architecture of the image that is loaded at `base`.
    Architecture { base: u64 },
    /// The address of the first match of the target's signature among the
    /// `size` bytes from `base` on.
    Scan { target: Target, base: u64, size: u64 },
    /// The 32-bit value at `address`.
    Pointer { address: u64 },
}

/// What the process answers. `None` stands for what could not be found or
/// read.
#[derive(Clone, Copy, Debug, PartialEq, Eq, Structural)]
pub enum Response {
    Module(Option<u64>),
    ImageSize(Option<u32>),
    Architecture(Option<Architecture>),
    Scan(Option<u64>),
    Pointer(Option<u32>),
}

/// How far the search has come.
#[derive(Clone, Copy, Debug, PartialEq, Eq)]
pub enum Locator {
    /// The module is being looked up.
    Module,
    /// The size of the image is being read.
    ImageSize { base: u64 },
    /// The architecture of the image is being read.
    Architecture { base: u64, size: u64 },
    /// The signature of `target` is being looked for; `found` holds the
    /// addresses of the targets before it.
    Scan { base: u64, size: u64, target: Target, found: Addresses },
    /// The address of `target` is being read from `address`.
    Pointer { base: u64, size: u64, target: Target, address: u64, found: Addresses },
    /// Every address has been found.
    Resolved(Addresses),
    /// Something could not be found or read, or the image is not made for
    /// 32-bit x86.
    Failed,
}

/// The address `offset` bytes after `start`. Addresses wrap around.
pub open spec fn spec_offset_by(start: u64, offset: u32) -> u64 {
    ((start + offset) % 0x1_0000_0000_0000_0000) as u64
}

/// The address `offset` bytes after `start`. Addresses wrap around.
#[verifier::when_used_as_spec(spec_offset_by)]
pub fn offset_by(start: u64, offset: u32) -> (r: u64)
    ensures
        r == spec_offset_by(start, offset),
        start + offset <= u64::MAX ==> r == start + offset,
{
    start.wrapping_add(offset as u64)
}

impl Locator {
    /// What is asked of the process next: nothing once the search has
    /// ended.
    pub open spec fn spec_request(&self) -> Option<Request> {
        match *self {
            Locator::Module => Some(Request::Module),
            Locator::ImageSize { base } => Some(Request::ImageSize { base }),
            Locator::Architecture { base, .. } => Some(Request::Architecture { base }),
            Locator::Scan { base, size, target, .. } => Some(Request::Scan { target, base, size }),
            Locator::Pointer { address, .. } => Some(Request::Pointer { address }),
            Locator::Resolved(_) => None,
            Locator::Failed => None,
        }
    }

    /// The search after an answer.
    ///
    /// An answer of `None`, an answer to another question than the one
    /// asked, and an image of another architecture end the search in
    /// failure. After the architecture the targets are taken in their
    /// order: a match of a target's signature is followed by a read of the
    /// address that lies the signature's offset after it, and what is read
    /// there is the target's address. Once the search has ended, nothing
    /// changes it.
    pub open spec fn spec_advance(self, response: Response) -> Locator {
        match (self, response) {
            (Locator::Resolved(_), _) => self,
            (Locator::Failed, _) => self,
            (Locator::Module, Response::Module(Some(base))) => Locator::ImageSize { base },
            (Locator::ImageSize { base }, Response::ImageSize(Some(size))) => Locator::Architecture {
                base,
                size: size as u64,
            },
            (
                Locator::Architecture { base, size },
                Response::Architecture(Some(Architecture::X86)),
            ) => Locator::Scan {
                base,
                size,
                target: Target::RunStart,
                found: Addresses::spec_zeroed(),
            },
            (Locator::Scan { base, size, target, found }, Response::Scan(Some(start))) => {
                Locator::Pointer {
                    base,
                    size,
                    target,
                    address: spec_offset_by(start, target.spec_signature().offset),
                    found,
                }
            },
            (
                Locator::Pointer { base, size, target, address, found },
                Response::Pointer(Some(value)),
            ) => {
                let found = found.spec_with(target, value as u64);
                match target.spec_next() {
                    Some(target) => Locator::Scan { base, size, target, found },
                    None => Locator::Resolved(found),
                }
            },
            _ => Locator::Failed,
        }
    }

    /// The addresses, once every one has been found.
    pub open spec fn spec_addresses(&self) -> Option<Addresses> {
        match *self {
            Locator::Resolved(addresses) => Some(addresses),
            _ => None,
        }
    }

    /// A search at its start.
    pub fn new() -> (r: Locator)
        ensures
            r == Locator::Module,
    {
        Locator::Module
    }

    /// What is asked of the process next: nothing once the search has ended.
    #[verifier::when_used_as_spec(spec_request)]
    pub fn request(&self) -> (r: Option<Request>)
        ensures
            r == self.spec_request(),
    {
        match *self {
            Locator::Module => Some(Request::Module),
            Locator::ImageSize { base } => Some(Request::ImageSize { base }),
            Locator::Architecture { base, .. } => Some(Request::Architecture { base }),
            Locator::Scan { base, size, target, .. } => Some(Request::Scan { target, base, size }),
            Locator::Pointer { address, .. } => Some(Request::Pointer { address }),
            Locator::Resolved(_) => None,
            Locator::Failed => None,
        }
    }

    /// The search after an answer.
    #[verifier::when_used_as_spec(spec_advance)]
    pub fn advance(self, response: Response) -> (r: Locator)
        ensures
            r == self.spec_advance(response),
    {
        match self {
            Locator::Resolved(_) => self,
            Locator::Failed => self,
            Locator::Module => match response {
                Response::Module(Some(base)) => Locator::ImageSize { base },
                _ => Locator::Failed,
            },
            Locator::ImageSize { base } => match response {
                Response::ImageSize(Some(size)) => Locator::Architecture { base, size: size as u64 },
                _ => Locator::Failed,
            },
            Locator::Architecture { base, size } => match response {
                Response::Architecture(Some(Architecture::X86)) => Locator::Scan {
                    base,
                    size,
                    target: Target::first(),
                    found: Addresses::zeroed(),
                },
                _ => Locator::Failed,
            },
            Locator::Scan { base, size, target, found } => match response {
                Response::Scan(Some(start)) => Locator::Pointer {
                    base,
                    size,
                    target,
                    address: offset_by(start, target.signature().offset),
                    found,
                },
                _ => Locator::Failed,
            },
            Locator::Pointer { base, size, target, address, found } => match response {
                Response::Pointer(Some(value)) => {
                    let found = found.with(target, value as u64);
                    match target.next() {
                        Some(target) => Locator::Scan { base, size, target, found },
                        None => Locator::Resolved(found),
                    }
                },
                _ => Locator::Failed,
            },
        }
    }

    /// The addresses, once every one has been found.
    #[verifier::when_used_as_spec(spec_addresses)]
    pub fn addresses(&self) -> (r: Option<Addresses>)
        ensures
            r == self.spec_addresses(),
    {
        match *self {
            Locator::Resolved(addresses) => Some(addresses),
            _ => None,
        }
    }
}

/// A process as the search may meet it: what it answers to each request.
pub struct Answers {
    /// The address at which the module is loaded.
    pub module: Option<u64>,
    /// The size of the image at an address.
    pub image_size: spec_fn(u64) -> Option<u32>,
    /// The architecture of the image at an address.
    pub architecture: spec_fn(u64) -> Option<Architecture>,
    /// The first match of a target's signature in a range, given by its
    /// start and its size.
    pub scan: spec_fn(Target, u64, u64) -> Option<u64>,
    /// The 32-bit value at an address.
    pub pointer: spec_fn(u64) -> Option<u32>,
}

impl Answers {
    /// What the process answers to a request.
    pub open spec fn to(self, request: Request) -> Response {
        match request {
            Request::Module => Response::Module(self.module),
            Request::ImageSize { base } => Response::ImageSize((self.image_size)(base)),
            Request::Architecture { base } => Response::Architecture((self.architecture)(base)),
            Request::Scan { target, base, size } => Response::Scan((self.scan)(target, base, size)),
            Request::Pointer { address } => Response::Pointer((self.pointer)(address)),
        }
    }

    /// The address of a target in the image of `size` bytes at `base`: what
    /// is read the signature's offset after the first match of the
    /// signature, where there is a match and the read succeeds.
    pub open spec fn located(self, base: u64, size: u64, target: Target) -> Option<u64> {
        match (self.scan)(target, base, size) {
            Some(start) => match (self.pointer)(
                spec_offset_by(start, target.spec_signature().offset),
            ) {
                Some(value) => Some(value as u64),
                None => None,
            },
            None => None,
        }
    }

    /// Whether every target can be located in the image.
    pub open spec fn all_located(self, base: u64, size: u64) -> bool {
        forall|target: Target| #[trigger] self.located(base, size, target) is Some
    }

    /// What the search is to come to: the address of every target, where
    /// the module is found, its size can be read, it is made for 32-bit x86
    /// and every target can be located in it; else nothing.
    pub open spec fn resolution(self) -> Option<Addresses> {
        match self.module {
            Some(base) => match (self.image_size)(base) {
                Some(size) => if (self.architecture)(base) == Some(Architecture::X86)
                    && self.all_located(base, size as u64) {
                    Some(
                        Addresses {
                            run_start: self.located(base, size as u64, Target::RunStart)->0,
                            run_start_2: self.located(base, size as u64, Target::RunStart2)->0,
                            end_credits: self.located(base, size as u64, Target::EndCredits)->0,
                            mode_select: self.located(base, size as u64, Target::ModeSelect)->0,
                            player_base: self.located(base, size as u64, Target::PlayerBase)->0,
                            race_completed: self.located(
                                base,
                                size as u64,
                                Target::RaceCompleted,
                            )->0,
                            race_status: self.located(base, size as u64, Target::RaceStatus)->0,
                            igt: self.located(base, size as u64, Target::Igt)->0,
                            event_type: self.located(base, size as u64, Target::EventType)->0,
                            sunshine_coast: self.located(
                                base,
                                size as u64,
                                Target::SunshineCoast,
                            )->0,
                        },
                    )
                } else {
                    None
                },
                None => None,
            },
            None => None,
        }
    }
}

/// How many answers a search takes at most: three on the image, and two
/// for each target.
pub open spec fn exchanges() -> nat {
    (3 + 2 * TARGET_COUNT) as nat
}

/// The search after at most `exchanges` requests have been answered.
pub open spec fn spec_run(state: Locator, answers: Answers, exchanges: nat) -> Locator
    decreases exchanges,
{
    match state.spec_request() {
        Some(request) if exchanges > 0 => spec_run(
            state.spec_advance(answers.to(request)),
            answers,
            (exchanges - 1) as nat,
        ),
        _ => state,
    }
}

/// What a search that has come to `target` ends in.
proof fn lemma_scan_resolves(
    answers: Answers,
    base: u64,
    size: u64,
    target: Target,
    found: Addresses,
)
    requires
        forall|t: Target|
            t.spec_index() < target.spec_index() ==> #[trigger] answers.located(base, size, t)
                == Some(found.spec_get(t)),
    ensures
        ({
            let end = spec_run(
                Locator::Scan { base, size, target, found },
                answers,
                (2 * (TARGET_COUNT - target.spec_index())) as nat,
            );
            if answers.all_located(base, size) {
                &&& end matches Locator::Resolved(addresses)
                &&& forall|t: Target| #[trigger]
                    answers.located(base, size, t) == Some(addresses.spec_get(t))
            } else {
                end == Locator::Failed
            }
        }),
    decreases TARGET_COUNT - target.spec_index(),
{
    reveal_with_fuel(spec_run, 3);
    let steps = (2 * (TARGET_COUNT - target.spec_index())) as nat;
    let state = Locator::Scan { base, size, target, found };
    match (answers.scan)(target, base, size) {
        Some(start) => {
            let address = spec_offset_by(start, target.spec_signature().offset);
            match (answers.pointer)(address) {
                Some(value) => {
                    let found_next = found.spec_with(target, value as u64);
                    assert(answers.located(base, size, target) == Some(value as u64));
                    assert forall|t: Target|
                        t.spec_index() < target.spec_index() + 1 implies #[trigger] answers.located(
                        base,
                        size,
                        t,
                    ) == Some(found_next.spec_get(t)) by {
                        if t.spec_index() == target.spec_index() {
                            assert(t == target);
                        } else {
                            assert(found_next.spec_get(t) == found.spec_get(t));
                        }
                    }
                    match target.spec_next() {
                        Some(next) => {
                            lemma_scan_resolves(answers, base, size, next, found_next);
                        },
                        None => {
                            assert forall|t: Target| #[trigger]
                                answers.located(base, size, t) == Some(
                                    found_next.spec_get(t),
                                ) by {
                                assert(t.spec_index() < target.spec_index() + 1);
                            }
                        },
                    }
                },
                None => {
                    assert(answers.located(base, size, target) is None);
                },
            }
        },
        None => {
            assert(answers.located(base, size, target) is None);
        },
    }
}

/// A search that is carried out comes to what it is to come to: the
/// addresses of all targets, or failure where anything is missing.
pub proof fn lemma_search_resolves(answers: Answers)
    ensures
        spec_run(Locator::Module, answers, exchanges()) == match answers.resolution() {
            Some(addresses) => Locator::Resolved(addresses),
            None => Locator::Failed,
        },
{
    reveal_with_fuel(spec_run, 4);
    match answers.module {
        Some(base) => match (answers.image_size)(base) {
            Some(size) => {
                if (answers.architecture)(base) == Some(Architecture::X86) {
                    lemma_scan_resolves(
                        answers,
                        base,
                        size as u64,
                        Target::RunStart,
                        Addresses::spec_zeroed(),
                    );
                    if answers.all_located(base, size as u64) {
                        let end = spec_run(Locator::Module, answers, exchanges());
                        let addresses = end->Resolved_0;
                        assert(answers.located(base, size as u64, Target::RunStart) == Some(
                            addresses.spec_get(Target::RunStart),
                        ));
                        assert(answers.located(base, size as u64, Target::RunStart2) == Some(
                            addresses.spec_get(Target::RunStart2),
                        ));
                        assert(answers.located(base, size as u64, Target::EndCredits) == Some(
                            addresses.spec_get(Target::EndCredits),
                        ));
                        assert(answers.located(base, size as u64, Target::ModeSelect) == Some(
                            addresses.spec_get(Target::ModeSelect),
                        ));
                        assert(answers.located(base, size as u64, Target::PlayerBase) == Some(
                            addresses.spec_get(Target::PlayerBase),
                        ));
                        assert(answers.located(base, size as u64, Target::RaceCompleted) == Some(
                            addresses.spec_get(Target::RaceCompleted),
                        ));
                        assert(answers.located(base, size as u64, Target::RaceStatus) == Some(
                            addresses.spec_get(Target::RaceStatus),
                        ));
                        assert(answers.located(base, size as u64, Target::Igt) == Some(
                            addresses.spec_get(Target::Igt),
                        ));
                        assert(answers.located(base, size as u64, Target::EventType) == Some(
                            addresses.spec_get(Target::EventType),
                        ));
                        assert(answers.located(base, size as u64, Target::SunshineCoast) == Some(
                            addresses.spec_get(Target::SunshineCoast),
                        ));
                    }
                }
            },
            None => {},
        },
        None => {},
    }
}

} // verus!
