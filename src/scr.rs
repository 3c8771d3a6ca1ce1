//! The offset profile and the polling state machine around one target.

use vstd::prelude::*;
use vstd::string::StringSliceAdditionalSpecFns;
use vstd::utf8::encode_utf8;

use crate::mem_lib::{
    attach_result, encode_u32, is_process_pick, process_matches, ProcessEntry, image_read, image_write, le_bytes, le_u32, read_u32, Error, ModuleEntry,
    ProcessInfo, TargetMemory,
};
use crate::scan::{bytes_equal, is_scan_result, occurs_at};

verus! {


/// Module base addresses below this bound mean a 32-bit target.
pub const BITNESS_BOUNDARY: usize = 0x7FFF_FFFF;

/// The first offset that version discovery probes.
pub const DISCOVERY_START: usize = 0x80_0000;

/// The first offset past a 32-bit target's user address range.
pub const USER_LIMIT_32: usize = 0x8000_0000;

/// The first offset past a 64-bit target's user address range.
pub const USER_LIMIT_64: u64 = 0x8000_0000_0000;

/// The value that marks the drop timer while its offset is searched for.
pub const DROP_TIMER_SENTINEL: u32 = 0xEDAC_EDAC;

/// The value that confirms a sentinel match on the operator's recheck.
pub const DROP_TIMER_CONFIRMATION: u32 = 0xCADE_CADE;

/// Offsets and version string of one known build of the target.
pub struct SCData {
    pub version: String,
    pub version_offset_32: usize,
    pub version_offset_64: usize,
    pub drop_timer_offset_32: usize,
    pub drop_timer_offset_64: usize,
}

impl SCData {
    /// A profile from its five fields.
    pub fn new(
        version: String,
        version_offset_32: usize,
        version_offset_64: usize,
        drop_timer_offset_32: usize,
        drop_timer_offset_64: usize,
    ) -> (r: SCData)
        ensures
            r.version@ == version@,
            r.version_offset_32 == version_offset_32,
            r.version_offset_64 == version_offset_64,
            r.drop_timer_offset_32 == drop_timer_offset_32,
            r.drop_timer_offset_64 == drop_timer_offset_64,
    {
        SCData {
            version,
            version_offset_32,
            version_offset_64,
            drop_timer_offset_32,
            drop_timer_offset_64,
        }
    }
}

impl SCData {
    /// A profile from a version string and four offsets written as `0x` and
    /// hex digits; `None` where any of them is not such a text.
    pub fn from_hex_fields(
        version: String,
        version_offset_32: &str,
        version_offset_64: &str,
        drop_timer_offset_32: &str,
        drop_timer_offset_64: &str,
    ) -> (r: Option<SCData>)
        ensures
            r is Some <==> is_hex_offset(version_offset_32.spec_bytes()) && is_hex_offset(
                version_offset_64.spec_bytes(),
            ) && is_hex_offset(drop_timer_offset_32.spec_bytes()) && is_hex_offset(
                drop_timer_offset_64.spec_bytes(),
            ),
            r matches Some(d) ==> {
                &&& d.version@ == version@
                &&& d.version_offset_32 == hex_value(hex_digits(version_offset_32.spec_bytes()))
                &&& d.version_offset_64 == hex_value(hex_digits(version_offset_64.spec_bytes()))
                &&& d.drop_timer_offset_32 == hex_value(
                    hex_digits(drop_timer_offset_32.spec_bytes()),
                )
                &&& d.drop_timer_offset_64 == hex_value(
                    hex_digits(drop_timer_offset_64.spec_bytes()),
                )
            },
    {
        let v32 = from_hex(version_offset_32);
        let v64 = from_hex(version_offset_64);
        let d32 = from_hex(drop_timer_offset_32);
        let d64 = from_hex(drop_timer_offset_64);
        match (v32, v64, d32, d64) {
            (Some(a), Some(b), Some(c), Some(d)) => Some(SCData::new(version, a, b, c, d)),
            _ => None,
        }
    }
}

impl Default for SCData {
    /// The built-in profile, used until a fetched one replaces it.
    fn default() -> (r: SCData)
        ensures
            r.version@ == "1.23.9.10756"@,
            r.version_offset_32 == 0xB27208,
            r.version_offset_64 == 0xD7ACE8,
            r.drop_timer_offset_32 == 0xDA1188,
            r.drop_timer_offset_64 == 0x103B3DC,
    {
        SCData {
            version: "1.23.9.10756".to_string(),
            version_offset_32: 0xB27208,
            version_offset_64: 0xD7ACE8,
            drop_timer_offset_32: 0xDA1188,
            drop_timer_offset_64: 0x103B3DC,
        }
    }
}

/// Where the polling loop stands.
#[derive(Debug, Clone, Copy, PartialEq, Eq, Structural)]
pub enum State {
    WaitingForTarget,
    WaitingForActivation,
    Active,
}

/// What the last action produced, cleared by the transition that consumes it.
#[derive(Debug, Clone, Copy, PartialEq, Eq, Structural)]
pub enum Event {
    NotHappened,
    Found,
    Mismatched,
    Failed,
}

/// The next move of the operator's sentinel probe.
#[derive(Debug, Clone, Copy, PartialEq, Eq, Structural)]
pub enum ProbeStep {
    Confirmed(usize),
    Resume(usize),
    Exhausted,
}

/// The transition table: the next state, or `None` where the pair is not in it.
pub open spec fn transition(s: State, e: Event) -> Option<State> {
    match (s, e) {
        (State::WaitingForTarget, Event::Found) => Some(State::WaitingForActivation),
        (State::WaitingForActivation, Event::Found) => Some(State::Active),
        (State::WaitingForActivation, Event::Failed) => Some(State::WaitingForTarget),
        _ => None,
    }
}

/// The offset of the pair that the module base selects.
pub open spec fn select_offset(base_addr: usize, offset_32: usize, offset_64: usize) -> usize {
    if base_addr < BITNESS_BOUNDARY {
        offset_32
    } else {
        offset_64
    }
}

/// The event of a version read: `Found` on exactly the expected bytes,
/// `Mismatched` on any other bytes, `NotHappened` where the read failed.
pub open spec fn version_event_of(expected: Seq<u8>, read: Result<Seq<u8>, Error>) -> Event {
    match read {
        Ok(v) => if v == expected {
            Event::Found
        } else {
            Event::Mismatched
        },
        Err(_) => Event::NotHappened,
    }
}

/// Memory holding `b`, and the event, after one drop-timer tick at `address`:
/// a failed read is `Failed`; zero is left alone; any other value is
/// overwritten with zero, which is `Found`.
pub open spec fn drop_timer_tick(b: Seq<u8>, address: int) -> (Seq<u8>, Event) {
    match image_read(b, address, 4) {
        Err(_) => (b, Event::Failed),
        Ok(w) => if le_u32(w) == 0 {
            (b, Event::NotHappened)
        } else {
            (image_write(b, address, le_bytes(0)), Event::Found)
        },
    }
}

/// The value of a hexadecimal digit, or -1.
pub open spec fn hex_digit_value(c: u8) -> int {
    if 48 <= c <= 57 {
        c - 48
    } else if 97 <= c <= 102 {
        c - 87
    } else if 65 <= c <= 70 {
        c - 55
    } else {
        -1
    }
}

/// Every byte of `d` is a hexadecimal digit.
pub open spec fn all_hex_digits(d: Seq<u8>) -> bool {
    forall|i: int| 0 <= i < d.len() ==> hex_digit_value(#[trigger] d[i]) >= 0
}

/// The value of hexadecimal digits, most significant first.
pub open spec fn hex_value(d: Seq<u8>) -> int
    decreases d.len(),
{
    if d.len() == 0 {
        0
    } else {
        hex_value(d.drop_last()) * 16 + hex_digit_value(d.last())
    }
}

/// The digits of an offset text: what follows its two-character prefix,
/// without one leading `+`.
pub open spec fn hex_digits(s: Seq<u8>) -> Seq<u8> {
    let rest = s.subrange(2, s.len() as int);
    if rest.len() > 0 && rest[0] == 43 {
        rest.drop_first()
    } else {
        rest
    }
}

/// An offset text is a two-character prefix and at least one hex digit, and
/// its value fits a `usize`.
pub open spec fn is_hex_offset(s: Seq<u8>) -> bool {
    &&& s.len() >= 2
    &&& hex_digits(s).len() > 0
    &&& all_hex_digits(hex_digits(s))
    &&& hex_value(hex_digits(s)) <= usize::MAX
}

proof fn lemma_hex_value_grows(d: Seq<u8>, k: int, n: int)
    requires
        0 <= k <= n <= d.len(),
        all_hex_digits(d),
    ensures
        0 <= hex_value(d.subrange(0, k)) <= hex_value(d.subrange(0, n)),
    decreases n,
{
    if n > 0 {
        assert(d.subrange(0, n).drop_last() =~= d.subrange(0, n - 1));
        if k < n {
            lemma_hex_value_grows(d, k, n - 1);
        } else {
            lemma_hex_value_grows(d, n - 1, n - 1);
        }
        assert(d.subrange(0, n).last() == d[n - 1]);
        assert(hex_digit_value(d[n - 1]) >= 0);
    }
}

/// Parses an offset written as `0x` and hexadecimal digits; the two leading
/// characters are skipped whatever they are.
pub fn from_hex(s: &str) -> (r: Option<usize>)
    ensures
        match r {
            Some(v) => is_hex_offset(s.spec_bytes()) && v == hex_value(hex_digits(s.spec_bytes())),
            None => !is_hex_offset(s.spec_bytes()),
        },
{
    let b = s.as_bytes();
    if b.len() < 2 {
        return None;
    }
    let mut first: usize = 2;
    if b.len() > 2 && b[2] == 43 {
        first = 3;
    }
    let ghost d = hex_digits(b@);
    assert(d =~= b@.subrange(first as int, b@.len() as int));
    if first == b.len() {
        return None;
    }
    let mut i: usize = first;
    while i < b.len()
        invariant
            first <= i <= b@.len(),
            d =~= b@.subrange(first as int, b@.len() as int),
            d == hex_digits(b@),
            b@ == s.spec_bytes(),
            forall|j: int| 0 <= j < i - first ==> hex_digit_value(#[trigger] d[j]) >= 0,
        decreases b@.len() - i,
    {
        let c = b[i];
        assert(d[i - first] == c);
        if !((48 <= c && c <= 57) || (97 <= c && c <= 102) || (65 <= c && c <= 70)) {
            assert(hex_digit_value(d[i - first]) < 0);
            assert(!all_hex_digits(d));
            return None;
        }
        i = i + 1;
    }
    let mut acc: usize = 0;
    let mut i: usize = first;
    while i < b.len()
        invariant
            first <= i <= b@.len(),
            d =~= b@.subrange(first as int, b@.len() as int),
            d == hex_digits(b@),
            b@ == s.spec_bytes(),
            all_hex_digits(d),
            acc == hex_value(d.subrange(0, i - first)),
        decreases b@.len() - i,
    {
        let c = b[i];
        assert(d[i - first] == c);
        assert(hex_digit_value(c) >= 0);
        let v: usize = if c <= 57 {
            (c - 48) as usize
        } else if c >= 97 {
            (c - 87) as usize
        } else {
            (c - 55) as usize
        };
        assert(v == hex_digit_value(c));
        assert(d.subrange(0, i + 1 - first).drop_last() =~= d.subrange(0, i - first));
        assert(d.subrange(0, i + 1 - first).last() == c);
        assert(hex_value(d.subrange(0, i + 1 - first)) == acc * 16 + v);
        proof {
            lemma_hex_value_grows(d, i + 1 - first, d.len() as int);
            assert(d.subrange(0, d.len() as int) =~= d);
        }
        match acc.checked_mul(16) {
            None => return None,
            Some(m) => match m.checked_add(v) {
                None => return None,
                Some(a) => {
                    acc = a;
                },
            },
        }
        i = i + 1;
    }
    assert(d.subrange(0, d.len() as int) =~= d);
    Some(acc)
}

/// The event of reading the version field: see `version_event_of`.
pub fn version_event(expected: &[u8], read: &Result<Vec<u8>, Error>) -> (r: Event)
    ensures
        r == version_event_of(
            expected@,
            match read {
                Ok(v) => Ok(v@),
                Err(e) => Err(*e),
            },
        ),
{
    match read {
        Ok(v) => if bytes_equal(v.as_slice(), expected) {
            Event::Found
        } else {
            Event::Mismatched
        },
        Err(_) => Event::NotHappened,
    }
}

/// Reads `expected.len()` bytes of the version field at `address` and classifies them.
pub fn check_version<M: TargetMemory>(mem: &M, expected: &[u8], address: usize) -> (r: Event)
    ensures
        r == Event::Found || r == Event::Mismatched || r == Event::NotHappened,
        mem.known() matches Some(b) ==> r == version_event_of(
            expected@,
            image_read(b, address as int, expected@.len() as int),
        ),
{
    let read = mem.read_bytes(address, expected.len());
    version_event(expected, &read)
}

/// The event of a drop-timer tick from what its read returned and, where a
/// write was made, what the write returned: a failed read or write is
/// `Failed`, no write is `NotHappened`, a successful write is `Found`.
pub open spec fn drop_timer_event_of(read: Result<u32, Error>, write: Option<Result<(), Error>>) -> Event {
    match read {
        Err(_) => Event::Failed,
        Ok(_) => match write {
            None => Event::NotHappened,
            Some(Ok(())) => Event::Found,
            Some(Err(_)) => Event::Failed,
        },
    }
}

/// A tick writes zero only over a counter that was read and is not zero.
pub open spec fn needs_reset(read: Result<u32, Error>) -> bool {
    read matches Ok(v) && v >= 1
}

/// The event of a drop-timer tick: see `drop_timer_event_of`.
pub fn drop_timer_event(read: &Result<u32, Error>, write: &Option<Result<(), Error>>) -> (r: Event)
    ensures
        r == drop_timer_event_of(*read, *write),
{
    match read {
        Err(_) => Event::Failed,
        Ok(_) => match write {
            None => Event::NotHappened,
            Some(Ok(())) => Event::Found,
            Some(Err(_)) => Event::Failed,
        },
    }
}

/// One drop-timer tick at `address`: reads the counter and, where it is not
/// zero, writes zero over it. See `drop_timer_event_of` and `drop_timer_tick`.
pub fn reset_drop_timer<M: TargetMemory>(mem: &mut M, address: usize) -> (r: Event)
    ensures
        r == Event::Found || r == Event::NotHappened || r == Event::Failed,
        exists|read: Result<u32, Error>, write: Option<Result<(), Error>>|
            (write is Some <==> needs_reset(read)) && r == drop_timer_event_of(read, write)
                && (read matches Err(e) ==> e == Error::ReadFailed(address)),
        old(mem).out_of_space(address as int) ==> r == Event::Failed,
        old(mem).known() is None <==> final(mem).known() is None,
        old(mem).known() matches Some(b) ==> final(mem).known() == Some(
            drop_timer_tick(b, address as int).0,
        ) && r == drop_timer_tick(b, address as int).1,
{
    let read = read_u32(&*mem, address);
    let write = match read {
        Ok(v) => if v >= 1 {
            let zero = encode_u32(0);
            Some(mem.write_bytes(address, zero.as_slice()))
        } else {
            None
        },
        Err(_) => None,
    };
    let r = drop_timer_event(&read, &write);
    assert((write is Some <==> needs_reset(read)) && r == drop_timer_event_of(read, write));
    r
}

/// Probes the offsets `start..bound` one byte at a time for `pattern`; reads
/// only. The first offset where the read bytes equal `pattern`, else
/// `DiscoveryExhausted`.
pub fn scan_for_bytes<M: TargetMemory>(mem: &M, pattern: &[u8], start: usize, bound: usize) -> (r:
    Result<usize, Error>)
    ensures
        match r {
            Ok(o) => start <= o < bound,
            Err(e) => e == Error::DiscoveryExhausted,
        },
        mem.known() matches Some(b) ==> is_scan_result(b, pattern@, start as int, bound as int, r),
{
    let mut o: usize = start;
    while o < bound
        invariant
            start <= o,
            mem.known() matches Some(b) ==> forall|j: int|
                start <= j < o ==> !occurs_at(b, pattern@, j),
        decreases bound - o,
    {
        let read = mem.read_bytes(o, pattern.len());
        match read {
            Ok(v) => {
                if bytes_equal(v.as_slice(), pattern) {
                    return Ok(o);
                }
            },
            Err(_) => {},
        }
        o = o + 1;
    }
    Err(Error::DiscoveryExhausted)
}

/// The first offset past the user address range for the module base's
/// pointer width.
pub open spec fn user_limit(base_addr: usize) -> int {
    if base_addr < BITNESS_BOUNDARY {
        USER_LIMIT_32 as int
    } else if USER_LIMIT_64 <= usize::MAX {
        USER_LIMIT_64 as int
    } else {
        usize::MAX as int
    }
}

/// Offset selection: a base below the boundary selects the 32-bit offset, a
/// base at or above it, the boundary itself included, the 64-bit one.
pub proof fn lemma_offset_selection(base_addr: usize, offset_32: usize, offset_64: usize)
    ensures
        base_addr < BITNESS_BOUNDARY ==> select_offset(base_addr, offset_32, offset_64)
            == offset_32,
        base_addr >= BITNESS_BOUNDARY ==> select_offset(base_addr, offset_32, offset_64)
            == offset_64,
{
}

/// A read that matches the expected version in all but its last byte is a
/// mismatch, never a find.
pub proof fn lemma_version_last_byte(expected: Seq<u8>, read: Seq<u8>)
    requires
        expected.len() > 0,
        read.len() == expected.len(),
        read.drop_last() == expected.drop_last(),
        read.last() != expected.last(),
    ensures
        version_event_of(expected, Ok(read)) == Event::Mismatched,
{
    assert(read != expected);
}

/// Zeroing a counter that already reads zero leaves memory as it was, and a
/// tick on it changes nothing.
pub proof fn lemma_zeroing_zero_is_noop(b: Seq<u8>, address: int)
    requires
        0 <= address,
        address + 4 <= b.len(),
        le_u32(b.subrange(address, address + 4)) == 0,
    ensures
        image_write(b, address, le_bytes(0)) == b,
        drop_timer_tick(b, address) == (b, Event::NotHappened),
{
    let w = b.subrange(address, address + 4);
    assert(w[0] == 0 && w[1] == 0 && w[2] == 0 && w[3] == 0);
    assert(le_bytes(0) =~= w);
    assert(image_write(b, address, le_bytes(0)) =~= b);
}

/// A scan never returns an offset at or past its bound, ends in
/// `DiscoveryExhausted` where the range holds no match, and finds a pattern
/// planted at `n` where nothing earlier in the range matches.
pub proof fn lemma_scan_bounded_and_exact(
    image: Seq<u8>,
    pattern: Seq<u8>,
    start: int,
    bound: int,
    n: int,
    r: Result<usize, Error>,
)
    requires
        is_scan_result(image, pattern, start, bound, r),
    ensures
        r matches Ok(o) ==> o < bound,
        (forall|j: int| start <= j < bound ==> !occurs_at(image, pattern, j)) ==> r
            == Err::<usize, Error>(Error::DiscoveryExhausted),
        (start <= n < bound && occurs_at(image, pattern, n) && forall|j: int|
            start <= j < n ==> !occurs_at(image, pattern, j)) ==> r == Ok::<usize, Error>(
            n as usize,
        ),
{
    if start <= n < bound && occurs_at(image, pattern, n) && forall|j: int|
        start <= j < n ==> !occurs_at(image, pattern, j) {
        match r {
            Ok(o) => {
                if o < n {
                } else if o > n {
                    assert(!occurs_at(image, pattern, n));
                }
            },
            Err(_) => {
                assert(!occurs_at(image, pattern, n));
            },
        }
    }
}

/// The polling session: the attached target, the profile, and the machine's state.
pub struct SCInfo {
    pub process: ProcessInfo,
    pub scdata: SCData,
    pub state: State,
    pub event: Event,
}

impl Default for SCInfo {
    /// Nothing attached, the built-in profile, waiting for the target.
    fn default() -> (r: SCInfo)
        ensures
            r.process.pid == 0,
            r.process.base_addr == 0,
            r.scdata.version@ == "1.23.9.10756"@,
            r.scdata.version_offset_32 == 0xB27208,
            r.scdata.version_offset_64 == 0xD7ACE8,
            r.scdata.drop_timer_offset_32 == 0xDA1188,
            r.scdata.drop_timer_offset_64 == 0x103B3DC,
            r.state == State::WaitingForTarget,
            r.event == Event::NotHappened,
    {
        SCInfo {
            process: ProcessInfo::new(),
            scdata: SCData::default(),
            state: State::WaitingForTarget,
            event: Event::NotHappened,
        }
    }
}

impl SCInfo {
    /// Replaces the whole profile.
    pub fn update(&mut self, scdata: SCData)
        ensures
            final(self).scdata == scdata,
            final(self).process == old(self).process,
            final(self).state == old(self).state,
            final(self).event == old(self).event,
    {
        self.scdata = scdata;
    }

    /// Applies the transition table to the current state and event. A pair in
    /// the table moves the state and clears the event; any other pair changes
    /// nothing.
    pub fn next(&mut self)
        ensures
            match transition(old(self).state, old(self).event) {
                Some(s) => final(self).state == s && final(self).event == Event::NotHappened,
                None => final(self).state == old(self).state && final(self).event == old(
                    self,
                ).event,
            },
            final(self).process == old(self).process,
            final(self).scdata == old(self).scdata,
    {
        let s = match (self.state, self.event) {
            (State::WaitingForTarget, Event::Found) => State::WaitingForActivation,
            (State::WaitingForActivation, Event::Found) => State::Active,
            (State::WaitingForActivation, Event::Failed) => State::WaitingForTarget,
            _ => {
                return ;
            },
        };
        self.state = s;
        self.event = Event::NotHappened;
    }

    /// Attaches to the game among `processes`, through `snapshot`, which
    /// lists the modules of a pid.
    pub fn get_sc_pinfo<F: Fn(u32) -> Result<Vec<ModuleEntry>, Error>>(
        processes: &Vec<Option<ProcessEntry>>,
        snapshot: F,
    ) -> (r: Result<ProcessInfo, Error>)
        requires
            forall|pid: u32| snapshot.requires((pid,)),
        ensures
            (forall|i: int| 0 <= i < processes@.len() ==> !process_matches(
                #[trigger] processes@[i],
                "StarCraft.exe"@,
            )) ==> r == Err::<ProcessInfo, Error>(Error::NoProcessFound),
            (exists|i: int| 0 <= i < processes@.len() && #[trigger] process_matches(
                processes@[i],
                "StarCraft.exe"@,
            )) ==> exists|pid: u32, ms: Result<Vec<ModuleEntry>, Error>|
                is_process_pick(processes@, "StarCraft.exe"@, Ok(pid)) && snapshot.ensures(
                    (pid,),
                    ms,
                ) && attach_result(
                    pid,
                    match ms {
                        Ok(v) => Ok(v@),
                        Err(e) => Err(e),
                    },
                    "StarCraft.exe"@,
                    r,
                ),
    {
        ProcessInfo::get_pinfo_by_name(processes, "StarCraft.exe", snapshot)
    }

    /// The version offset for the attached module's pointer width.
    pub fn get_version_offset(&self) -> (r: usize)
        ensures
            r == select_offset(
                self.process.base_addr,
                self.scdata.version_offset_32,
                self.scdata.version_offset_64,
            ),
    {
        if self.process.base_addr < BITNESS_BOUNDARY {
            self.scdata.version_offset_32
        } else {
            self.scdata.version_offset_64
        }
    }

    /// How far past the module base a discovery scan may go by default: to
    /// the end of the user address range for the base's pointer width.
    pub fn default_scan_bound(&self) -> (r: usize)
        ensures
            r == if self.process.base_addr < user_limit(self.process.base_addr) {
                user_limit(self.process.base_addr) - self.process.base_addr
            } else {
                0
            },
    {
        let base = self.process.base_addr;
        let limit: usize = if base < BITNESS_BOUNDARY {
            USER_LIMIT_32
        } else if USER_LIMIT_64 <= usize::MAX as u64 {
            USER_LIMIT_64 as usize
        } else {
            usize::MAX
        };
        if base < limit {
            limit - base
        } else {
            0
        }
    }

    /// The version check of a tick: reads the version field at the selected
    /// offset of `mem` and records what it found as the event.
    pub fn tick_version<M: TargetMemory>(&mut self, mem: &M)
        ensures
            final(self).event == Event::Found || final(self).event == Event::Mismatched
                || final(self).event == Event::NotHappened,
            mem.known() matches Some(b) ==> final(self).event == version_event_of(
                encode_utf8(old(self).scdata.version@),
                image_read(
                    b,
                    select_offset(
                        old(self).process.base_addr,
                        old(self).scdata.version_offset_32,
                        old(self).scdata.version_offset_64,
                    ) as int,
                    encode_utf8(old(self).scdata.version@).len() as int,
                ),
            ),
            final(self).state == old(self).state,
            final(self).process == old(self).process,
            final(self).scdata == old(self).scdata,
    {
        let offset = self.get_version_offset();
        let e = check_version(mem, self.scdata.version.as_str().as_bytes(), offset);
        self.event = e;
    }

    /// The steady-state part of a tick: zeroes the drop timer at the selected
    /// offset of `mem` where it is not zero, and records the event.
    pub fn tick_drop_timer<M: TargetMemory>(&mut self, mem: &mut M)
        ensures
            final(self).event == Event::Found || final(self).event == Event::NotHappened
                || final(self).event == Event::Failed,
            old(mem).out_of_space(
                select_offset(
                    old(self).process.base_addr,
                    old(self).scdata.drop_timer_offset_32,
                    old(self).scdata.drop_timer_offset_64,
                ) as int,
            ) ==> final(self).event == Event::Failed,
            old(mem).known() is None <==> final(mem).known() is None,
            old(mem).known() matches Some(b) ==> {
                let t = drop_timer_tick(
                    b,
                    select_offset(
                        old(self).process.base_addr,
                        old(self).scdata.drop_timer_offset_32,
                        old(self).scdata.drop_timer_offset_64,
                    ) as int,
                );
                final(mem).known() == Some(t.0) && final(self).event == t.1
            },
            final(self).state == old(self).state,
            final(self).process == old(self).process,
            final(self).scdata == old(self).scdata,
    {
        let offset = self.get_droptimer_offset();
        let e = reset_drop_timer(mem, offset);
        self.event = e;
    }

    /// One tick against the live target. Waiting for the target, it attaches
    /// to the game among `processes` through `snapshot` and checks the
    /// version (`NotHappened`, keeping the old process, where attaching
    /// fails); otherwise it works the drop timer of the attached process.
    pub fn run<F: Fn(u32) -> Result<Vec<ModuleEntry>, Error>>(
        &mut self,
        processes: &Vec<Option<ProcessEntry>>,
        snapshot: F,
    )
        requires
            forall|pid: u32| snapshot.requires((pid,)),
        ensures
            final(self).state == old(self).state,
            final(self).scdata == old(self).scdata,
            old(self).state == State::WaitingForTarget ==> final(self).event != Event::Failed,
            old(self).state == State::WaitingForTarget && (forall|i: int|
                0 <= i < processes@.len() ==> !process_matches(
                    #[trigger] processes@[i],
                    "StarCraft.exe"@,
                )) ==> final(self).event == Event::NotHappened && final(self).process == old(
                self,
            ).process,
            old(self).state == State::WaitingForTarget ==> final(self).process == old(self).process
                || (is_process_pick(processes@, "StarCraft.exe"@, Ok(final(self).process.pid))
                && exists|ms: Result<Vec<ModuleEntry>, Error>|
                snapshot.ensures((final(self).process.pid,), ms) && attach_result(
                    final(self).process.pid,
                    match ms {
                        Ok(v) => Ok(v@),
                        Err(e) => Err(e),
                    },
                    "StarCraft.exe"@,
                    Ok::<ProcessInfo, Error>(final(self).process),
                )),
            old(self).state == State::WaitingForTarget && final(self).event != Event::NotHappened
                ==> is_process_pick(processes@, "StarCraft.exe"@, Ok(final(self).process.pid))
                && exists|ms: Result<Vec<ModuleEntry>, Error>|
                snapshot.ensures((final(self).process.pid,), ms) && attach_result(
                    final(self).process.pid,
                    match ms {
                        Ok(v) => Ok(v@),
                        Err(e) => Err(e),
                    },
                    "StarCraft.exe"@,
                    Ok::<ProcessInfo, Error>(final(self).process),
                ),
            old(self).state != State::WaitingForTarget ==> final(self).process == old(
                self,
            ).process && final(self).event != Event::Mismatched,
            old(self).state != State::WaitingForTarget && old(self).process.base_addr
                + select_offset(
                old(self).process.base_addr,
                old(self).scdata.drop_timer_offset_32,
                old(self).scdata.drop_timer_offset_64,
            ) > usize::MAX ==> final(self).event == Event::Failed,
    {
        match self.state {
            State::WaitingForTarget => {
                let r = SCInfo::get_sc_pinfo(processes, snapshot);
                match r {
                    Err(_) => {
                        self.event = Event::NotHappened;
                    },
                    Ok(p) => {
                        proof {
                            let (pid, ms) = choose|pid: u32, ms: Result<Vec<ModuleEntry>, Error>|
                                is_process_pick(processes@, "StarCraft.exe"@, Ok(pid))
                                    && snapshot.ensures((pid,), ms) && attach_result(
                                    pid,
                                    match ms {
                                        Ok(v) => Ok(v@),
                                        Err(e) => Err(e),
                                    },
                                    "StarCraft.exe"@,
                                    r,
                                );
                            assert(pid == p.pid);
                        }
                        self.process = p;
                        self.tick_version(&p);
                    },
                }
            },
            _ => {
                let mut p = self.process;
                self.tick_drop_timer(&mut p);
            },
        }
    }

    /// After a version mismatch: scans `mem` from `DISCOVERY_START` up to
    /// `bound` for the bytes of the version the operator reports, reading
    /// only. On a find the event is `Found` and the offset is returned; the
    /// profile is left as it is.
    pub fn rediscover_version<M: TargetMemory>(&mut self, mem: &M, latest_version: &str, bound: usize) -> (r:
        Result<usize, Error>)
        ensures
            match r {
                Ok(o) => DISCOVERY_START <= o < bound && final(self).event == Event::Found,
                Err(e) => e == Error::DiscoveryExhausted && final(self).event == Event::NotHappened,
            },
            mem.known() matches Some(b) ==> is_scan_result(
                b,
                latest_version.spec_bytes(),
                DISCOVERY_START as int,
                bound as int,
                r,
            ),
            final(self).state == old(self).state,
            final(self).process == old(self).process,
            final(self).scdata == old(self).scdata,
    {
        let r = scan_for_bytes(mem, latest_version.as_bytes(), DISCOVERY_START, bound);
        match r {
            Ok(_) => {
                self.event = Event::Found;
            },
            Err(_) => {
                self.event = Event::NotHappened;
            },
        }
        r
    }

    /// Operator tooling: scans `start..bound` of `mem` for the drop-timer
    /// sentinel, reading only.
    pub fn discover_drop_timer<M: TargetMemory>(mem: &M, start: usize, bound: usize) -> (r: Result<
        usize,
        Error,
    >)
        ensures
            match r {
                Ok(o) => start <= o < bound,
                Err(e) => e == Error::DiscoveryExhausted,
            },
            mem.known() matches Some(b) ==> is_scan_result(
                b,
                le_bytes(DROP_TIMER_SENTINEL),
                start as int,
                bound as int,
                r,
            ),
    {
        let pattern = encode_u32(DROP_TIMER_SENTINEL);
        scan_for_bytes(mem, pattern.as_slice(), start, bound)
    }

    /// Operator tooling: whether the value at `offset` of `mem` is now the
    /// confirmation value, which tells a real sentinel match from a chance one.
    pub fn confirm_drop_timer<M: TargetMemory>(mem: &M, offset: usize) -> (r: bool)
        ensures
            mem.known() matches Some(b) ==> r == (image_read(b, offset as int, 4) matches Ok(w)
                && le_u32(w) == DROP_TIMER_CONFIRMATION),
    {
        match read_u32(mem, offset) {
            Ok(v) => v == DROP_TIMER_CONFIRMATION,
            Err(_) => false,
        }
    }

    /// What the operator's sentinel probe does after a scan and, where it
    /// found a candidate, its recheck: stop on a confirmed offset, resume one
    /// byte past a rejected one, or give up when the scan found nothing.
    pub fn probe_step(found: Result<usize, Error>, confirmed: bool) -> (r: ProbeStep)
        ensures
            match found {
                Ok(o) => if confirmed {
                    r == ProbeStep::Confirmed(o)
                } else if o < usize::MAX {
                    r == ProbeStep::Resume((o + 1) as usize)
                } else {
                    r == ProbeStep::Exhausted
                },
                Err(_) => r == ProbeStep::Exhausted,
            },
    {
        match found {
            Ok(o) => if confirmed {
                ProbeStep::Confirmed(o)
            } else if o < usize::MAX {
                ProbeStep::Resume(o + 1)
            } else {
                ProbeStep::Exhausted
            },
            Err(_) => ProbeStep::Exhausted,
        }
    }

    /// The drop-timer offset for the attached module's pointer width.
    pub fn get_droptimer_offset(&self) -> (r: usize)
        ensures
            r == select_offset(
                self.process.base_addr,
                self.scdata.drop_timer_offset_32,
                self.scdata.drop_timer_offset_64,
            ),
    {
        if self.process.base_addr < BITNESS_BOUNDARY {
            self.scdata.drop_timer_offset_32
        } else {
            self.scdata.drop_timer_offset_64
        }
    }
}

} // verus!
