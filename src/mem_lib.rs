//! Attaching to a process and reading or writing its memory.

use vstd::prelude::*;
use vstd::utf8::encode_utf8;

use process_memory::{PutAddress, TryIntoProcessHandle};

use crate::scan::{contains, contains_bytes};

verus! {

/// What can go wrong while attaching to, reading, writing or scanning a target.
#[derive(Debug, Clone, Copy, PartialEq, Eq, Structural)]
pub enum Error {
    NoProcessFound,
    InvalidHandleValue,
    UnknownModule,
    ReadFailed(usize),
    WriteFailed(usize),
    DiscoveryExhausted,
}

/// One running process as the process list reports it.
pub struct ProcessEntry {
    pub pid: u32,
    pub name: String,
}

/// One module loaded in a process; `name` is `None` where it could not be decoded.
pub struct ModuleEntry {
    pub name: Option<String>,
    pub base_addr: usize,
}

/// An attached target: its process id and the base address of its main module.
#[derive(Debug, Clone, Copy, PartialEq, Eq, Structural)]
pub struct ProcessInfo {
    pub pid: u32,
    pub base_addr: usize,
}

/// Names match by containment: the UTF-8 bytes of `wanted` occur in those of `name`.
pub open spec fn name_matches(name: Seq<char>, wanted: Seq<char>) -> bool {
    contains_bytes(encode_utf8(name), encode_utf8(wanted))
}

/// A listed process, readable and named like `wanted`.
pub open spec fn process_matches(e: Option<ProcessEntry>, wanted: Seq<char>) -> bool {
    match e {
        Some(p) => name_matches(p.name@, wanted),
        None => false,
    }
}

/// A module whose name was decoded and matches `wanted`.
pub open spec fn module_matches(m: ModuleEntry, wanted: Seq<char>) -> bool {
    match m.name {
        Some(n) => name_matches(n@, wanted),
        None => false,
    }
}

/// `r` is the pid of the first listed process whose name matches, else `NoProcessFound`.
pub open spec fn is_process_pick(
    ps: Seq<Option<ProcessEntry>>,
    wanted: Seq<char>,
    r: Result<u32, Error>,
) -> bool {
    match r {
        Ok(pid) => exists|i: int|
            0 <= i < ps.len() && #[trigger] process_matches(ps[i], wanted) && ps[i]->Some_0.pid
                == pid && forall|j: int| 0 <= j < i ==> !process_matches(ps[j], wanted),
        Err(e) => e == Error::NoProcessFound && forall|i: int|
            0 <= i < ps.len() ==> !process_matches(#[trigger] ps[i], wanted),
    }
}

/// `r` is the base of the first module whose decoded name matches, else `UnknownModule`;
/// entries whose name could not be decoded are skipped.
pub open spec fn is_module_pick(ms: Seq<ModuleEntry>, wanted: Seq<char>, r: Result<usize, Error>) -> bool {
    match r {
        Ok(base) => exists|i: int|
            0 <= i < ms.len() && #[trigger] module_matches(ms[i], wanted) && ms[i].base_addr == base
                && forall|j: int| 0 <= j < i ==> !module_matches(ms[j], wanted),
        Err(e) => e == Error::UnknownModule && forall|i: int|
            0 <= i < ms.len() ==> !module_matches(#[trigger] ms[i], wanted),
    }
}

/// What attaching to `pid` yields from the result of its module snapshot.
pub open spec fn attach_result(
    pid: u32,
    snapshot: Result<Seq<ModuleEntry>, Error>,
    wanted: Seq<char>,
    r: Result<ProcessInfo, Error>,
) -> bool {
    match snapshot {
        Err(e) => r == Err::<ProcessInfo, Error>(e),
        Ok(ms) => match r {
            Ok(p) => p.pid == pid && is_module_pick(ms, wanted, Ok(p.base_addr)),
            Err(e) => is_module_pick(ms, wanted, Err(e)),
        },
    }
}

/// The little-endian value of four bytes.
pub open spec fn le_u32(b: Seq<u8>) -> int {
    b[0] + 256 * b[1] + 65536 * b[2] + 16777216 * b[3]
}

/// The four little-endian bytes of `v`.
pub open spec fn le_bytes(v: u32) -> Seq<u8> {
    seq![
        (v % 256) as u8,
        ((v / 256) % 256) as u8,
        ((v / 65536) % 256) as u8,
        (v / 16777216) as u8,
    ]
}

fn name_matches_exec(name: &String, wanted: &str) -> (r: bool)
    ensures
        r == name_matches(name@, wanted@),
{
    contains(name.as_str().as_bytes(), wanted.as_bytes())
}

/// What reading `size` bytes at `address` of memory holding `b` yields.
pub open spec fn image_read(b: Seq<u8>, address: int, size: int) -> Result<Seq<u8>, Error> {
    if address + size <= b.len() {
        Ok(b.subrange(address, address + size))
    } else {
        Err(Error::ReadFailed(address as usize))
    }
}

/// Memory holding `b` after `w` is written at `address`; unchanged where `w`
/// does not fit.
pub open spec fn image_write(b: Seq<u8>, address: int, w: Seq<u8>) -> Seq<u8> {
    if address + w.len() <= b.len() {
        b.subrange(0, address) + w + b.subrange(address + w.len(), b.len() as int)
    } else {
        b
    }
}

/// Memory of a target, addressed from its module base.
pub trait TargetMemory: Sized {
    /// The contents, where this memory is a known image; `None` for a live
    /// process, whose memory may change between any two reads.
    spec fn known(&self) -> Option<Seq<u8>>;

    /// Whether `address` lies past the end of the address space, so that no
    /// access there is attempted.
    spec fn out_of_space(&self, address: int) -> bool;

    /// Reads `size` bytes at `address`: all of them, or `ReadFailed(address)`.
    fn read_bytes(&self, address: usize, size: usize) -> (r: Result<Vec<u8>, Error>)
        ensures
            match r {
                Ok(v) => v@.len() == size,
                Err(e) => e == Error::ReadFailed(address),
            },
            self.out_of_space(address as int) ==> r == Err::<Vec<u8>, Error>(
                Error::ReadFailed(address),
            ),
            self.known() matches Some(b) ==> match r {
                Ok(v) => image_read(b, address as int, size as int) == Ok::<Seq<u8>, Error>(v@),
                Err(e) => image_read(b, address as int, size as int) == Err::<Seq<u8>, Error>(e),
            },
    ;

    /// Writes `bytes` at `address`, or fails with `WriteFailed(address)`.
    fn write_bytes(&mut self, address: usize, bytes: &[u8]) -> (r: Result<(), Error>)
        ensures
            r matches Err(e) ==> e == Error::WriteFailed(address),
            old(self).out_of_space(address as int) ==> r == Err::<(), Error>(
                Error::WriteFailed(address),
            ),
            old(self).known() is None <==> final(self).known() is None,
            old(self).known() matches Some(b) ==> {
                &&& final(self).known() == Some(image_write(b, address as int, bytes@))
                &&& (r is Ok <==> address + bytes@.len() <= b.len())
            },
    ;
}

/// Memory of a target held as a byte buffer from the module base on.
pub struct MemoryImage {
    pub bytes: Vec<u8>,
}

impl TargetMemory for MemoryImage {
    open spec fn known(&self) -> Option<Seq<u8>> {
        Some(self.bytes@)
    }

    open spec fn out_of_space(&self, address: int) -> bool {
        false
    }

    fn read_bytes(&self, address: usize, size: usize) -> (r: Result<Vec<u8>, Error>) {
        if address > self.bytes.len() || size > self.bytes.len() - address {
            return Err(Error::ReadFailed(address));
        }
        let mut v: Vec<u8> = Vec::new();
        let mut k: usize = 0;
        while k < size
            invariant
                address + size <= self.bytes@.len(),
                self.bytes@.len() <= usize::MAX,
                k <= size,
                v@ == self.bytes@.subrange(address as int, address + k),
            decreases size - k,
        {
            v.push(self.bytes[address + k]);
            k = k + 1;
            assert(v@ =~= self.bytes@.subrange(address as int, address + k));
        }
        Ok(v)
    }

    fn write_bytes(&mut self, address: usize, bytes: &[u8]) -> (r: Result<(), Error>) {
        if address > self.bytes.len() || bytes.len() > self.bytes.len() - address {
            return Err(Error::WriteFailed(address));
        }
        let ghost b = self.bytes@;
        let mut k: usize = 0;
        while k < bytes.len()
            invariant
                address + bytes@.len() <= b.len(),
                b.len() <= usize::MAX,
                k <= bytes@.len(),
                self.bytes@.len() == b.len(),
                forall|i: int|
                    0 <= i < b.len() ==> #[trigger] self.bytes@[i] == if address <= i < address + k {
                        bytes@[i - address]
                    } else {
                        b[i]
                    },
            decreases bytes@.len() - k,
        {
            self.bytes.set(address + k, bytes[k]);
            k = k + 1;
        }
        assert(self.bytes@ =~= image_write(b, address as int, bytes@));
        Ok(())
    }
}

/// Reads the little-endian `u32` at `address`.
pub fn read_u32<M: TargetMemory>(mem: &M, address: usize) -> (r: Result<u32, Error>)
    ensures
        r matches Err(e) ==> e == Error::ReadFailed(address),
        mem.out_of_space(address as int) ==> r == Err::<u32, Error>(Error::ReadFailed(address)),
        mem.known() matches Some(b) ==> match image_read(b, address as int, 4) {
            Ok(w) => r == Ok::<u32, Error>(le_u32(w) as u32),
            Err(e) => r == Err::<u32, Error>(e),
        },
{
    match mem.read_bytes(address, 4) {
        Ok(v) => Ok(decode_u32(v.as_slice())),
        Err(e) => Err(e),
    }
}

/// Decodes four little-endian bytes, the byte order of the target platform.
pub fn decode_u32(b: &[u8]) -> (r: u32)
    requires
        b@.len() == 4,
    ensures
        r == le_u32(b@),
{
    b[0] as u32 + 256 * (b[1] as u32) + 65536 * (b[2] as u32) + 16777216 * (b[3] as u32)
}

/// Encodes `v` as four little-endian bytes.
pub fn encode_u32(v: u32) -> (r: Vec<u8>)
    ensures
        r@ == le_bytes(v),
{
    let r = vec![(v % 256) as u8, ((v / 256) % 256) as u8, ((v / 65536) % 256) as u8, (v / 16777216) as u8];
    assert(r@ =~= le_bytes(v));
    r
}

/// Relies on process_memory: a handle from `TryIntoProcessHandle` for the pid,
/// then `copy_address`, which on success hands back exactly `length` bytes.
/// Where the system copies fewer bytes than asked, the rest of the buffer
/// stays zero and the call still succeeds.
#[verifier::external_body]
fn copy_memory(pid: u32, addr: usize, length: usize) -> (r: Option<Vec<u8>>)
    ensures
        r matches Some(v) ==> v@.len() == length,
{
    let handle = (pid as process_memory::Pid).try_into_process_handle().ok()?;
    process_memory::copy_address(addr, length, &handle).ok()
}

/// Relies on process_memory: a handle from `TryIntoProcessHandle` for the pid,
/// then `PutAddress::put_address`; `true` where both succeeded.
#[verifier::external_body]
fn put_memory(pid: u32, addr: usize, bytes: &[u8]) -> (r: bool) {
    match (pid as process_memory::Pid).try_into_process_handle() {
        Ok(handle) => handle.put_address(addr, bytes).is_ok(),
        Err(_) => false,
    }
}

impl Default for ProcessInfo {
    /// No target: pid 0 at base 0.
    fn default() -> (r: ProcessInfo)
        ensures
            r.pid == 0,
            r.base_addr == 0,
    {
        ProcessInfo::new()
    }
}

impl ProcessInfo {
    /// No target: pid 0 at base 0.
    pub fn new() -> (r: ProcessInfo)
        ensures
            r.pid == 0,
            r.base_addr == 0,
    {
        ProcessInfo { pid: 0, base_addr: 0 }
    }

    /// The first process in `processes` whose name contains `name`.
    pub fn find_pid(processes: &Vec<Option<ProcessEntry>>, name: &str) -> (r: Result<u32, Error>)
        ensures
            is_process_pick(processes@, name@, r),
    {
        let mut i: usize = 0;
        while i < processes.len()
            invariant
                i <= processes@.len(),
                forall|j: int| 0 <= j < i ==> !process_matches(#[trigger] processes@[j], name@),
            decreases processes@.len() - i,
        {
            match &processes[i] {
                Some(p) => {
                    if name_matches_exec(&p.name, name) {
                        assert(process_matches(processes@[i as int], name@));
                        return Ok(p.pid);
                    }
                },
                None => {},
            }
            i = i + 1;
        }
        Err(Error::NoProcessFound)
    }

    /// The base address of the first module whose decoded name contains
    /// `module_name`, skipping the entries whose name could not be decoded.
    pub fn select_module(modules: &Vec<ModuleEntry>, module_name: &str) -> (r: Result<usize, Error>)
        ensures
            is_module_pick(modules@, module_name@, r),
    {
        let mut i: usize = 0;
        while i < modules.len()
            invariant
                i <= modules@.len(),
                forall|j: int| 0 <= j < i ==> !module_matches(#[trigger] modules@[j], module_name@),
            decreases modules@.len() - i,
        {
            match &modules[i].name {
                Some(n) => {
                    if name_matches_exec(n, module_name) {
                        assert(module_matches(modules@[i as int], module_name@));
                        return Ok(modules[i].base_addr);
                    }
                },
                None => {},
            }
            i = i + 1;
        }
        Err(Error::UnknownModule)
    }

    /// Attaches to `pid` from the result of its module snapshot: a failed
    /// snapshot passes its error on, otherwise the named module gives the base.
    pub fn attach(pid: u32, snapshot: Result<Vec<ModuleEntry>, Error>, module_name: &str) -> (r: Result<
        ProcessInfo,
        Error,
    >)
        ensures
            attach_result(
                pid,
                match snapshot {
                    Ok(v) => Ok(v@),
                    Err(e) => Err(e),
                },
                module_name@,
                r,
            ),
    {
        match snapshot {
            Err(e) => Err(e),
            Ok(modules) => match ProcessInfo::select_module(&modules, module_name) {
                Ok(base) => Ok(ProcessInfo { pid, base_addr: base }),
                Err(e) => Err(e),
            },
        }
    }

    /// Finds the first process in `processes` whose name contains `name`,
    /// takes a snapshot of its modules with `snapshot`, and resolves the base
    /// address of the module of the same name.
    pub fn get_pinfo_by_name<F: Fn(u32) -> Result<Vec<ModuleEntry>, Error>>(
        processes: &Vec<Option<ProcessEntry>>,
        name: &str,
        snapshot: F,
    ) -> (r: Result<ProcessInfo, Error>)
        requires
            forall|pid: u32| snapshot.requires((pid,)),
        ensures
            (forall|i: int| 0 <= i < processes@.len() ==> !process_matches(
                #[trigger] processes@[i],
                name@,
            )) ==> r == Err::<ProcessInfo, Error>(Error::NoProcessFound),
            (exists|i: int| 0 <= i < processes@.len() && #[trigger] process_matches(
                processes@[i],
                name@,
            )) ==> exists|pid: u32, ms: Result<Vec<ModuleEntry>, Error>|
                is_process_pick(processes@, name@, Ok(pid)) && snapshot.ensures((pid,), ms)
                    && attach_result(
                    pid,
                    match ms {
                        Ok(v) => Ok(v@),
                        Err(e) => Err(e),
                    },
                    name@,
                    r,
                ),
    {
        let pid = match ProcessInfo::find_pid(processes, name) {
            Ok(pid) => pid,
            Err(e) => return Err(e),
        };
        let modules = snapshot(pid);
        let ghost gm = modules;
        let r = ProcessInfo::attach(pid, modules, name);
        assert(snapshot.ensures((pid,), gm));
        r
    }

    /// Reads `size` bytes at `address` past the module base. A failed read,
    /// or one whose address overflows, is `ReadFailed(address)`; a success
    /// always has `size` bytes.
    pub fn read_address(&self, address: usize, size: usize) -> (r: Result<Vec<u8>, Error>)
        ensures
            match r {
                Ok(v) => v@.len() == size,
                Err(e) => e == Error::ReadFailed(address),
            },
            self.base_addr + address > usize::MAX ==> r == Err::<Vec<u8>, Error>(
                Error::ReadFailed(address),
            ),
    {
        match self.base_addr.checked_add(address) {
            None => Err(Error::ReadFailed(address)),
            Some(at) => match copy_memory(self.pid, at, size) {
                Some(v) => Ok(v),
                None => Err(Error::ReadFailed(address)),
            },
        }
    }

    /// Writes `bytes` at `address` past the module base. A failed write, or
    /// one whose address overflows, is `WriteFailed(address)`.
    pub fn write_address(&self, address: usize, bytes: &[u8]) -> (r: Result<(), Error>)
        ensures
            r matches Err(e) ==> e == Error::WriteFailed(address),
            self.base_addr + address > usize::MAX ==> r == Err::<(), Error>(
                Error::WriteFailed(address),
            ),
    {
        match self.base_addr.checked_add(address) {
            None => Err(Error::WriteFailed(address)),
            Some(at) => if put_memory(self.pid, at, bytes) {
                Ok(())
            } else {
                Err(Error::WriteFailed(address))
            },
        }
    }
}

impl TargetMemory for ProcessInfo {
    open spec fn known(&self) -> Option<Seq<u8>> {
        None
    }

    open spec fn out_of_space(&self, address: int) -> bool {
        self.base_addr + address > usize::MAX
    }

    fn read_bytes(&self, address: usize, size: usize) -> (r: Result<Vec<u8>, Error>) {
        self.read_address(address, size)
    }

    fn write_bytes(&mut self, address: usize, bytes: &[u8]) -> (r: Result<(), Error>) {
        self.write_address(address, bytes)
    }
}

} // verus!
