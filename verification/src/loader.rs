//! The plan for a user image: what is checked of an executable before it is
//! mapped, and the entry point, auxiliary vector and stack that follow from
//! its header, its interpreter and the place it was mapped at.
//!
//! The caller reads the files and maps the segments; the library decides.

use vstd::prelude::*;
use xmas_elf::header::Machine as ElfMachine;

verus! {

/// How many bytes are read from the start of an executable: enough for the
/// headers of the largest dynamic linker in use.
pub const ELF_PREFIX_LEN: usize = 0x3c0;

/// The size of the header of a 64-bit ELF file, the larger of the two
/// kinds: no fewer bytes are handed to the parser.
pub const ELF_HEADER_LEN: usize = 64;

pub const PAGE_SIZE: u64 = 0x1000;

/// The size of a user stack.
pub const USER_STACK_SIZE: u64 = 0x80_0000;

/// Where a user stack begins: it ends where the user half of the address
/// space ends.
pub const USER_STACK_OFFSET: u64 = 0x7fff_ff80_0000;

/// How many pages at the top of the stack get their frames at once.
pub const EAGER_STACK_PAGES: u64 = 4;

/// The file type of an executable with fixed addresses.
pub const ET_EXEC: u16 = 2;

/// The file type of a shared object, which a position-independent executable
/// has too.
pub const ET_DYN: u16 = 3;

/// The machine number of RISC-V.
pub const EM_RISCV: u16 = 243;

/// The key that ends an auxiliary vector.
pub const AT_NULL: u64 = 0;

pub const AT_PHDR: u64 = 3;

pub const AT_PHENT: u64 = 4;

pub const AT_PHNUM: u64 = 5;

pub const AT_PAGESZ: u64 = 6;

pub const AT_BASE: u64 = 7;

pub const AT_ENTRY: u64 = 9;

/// The machine an ELF file is for.
#[derive(Clone, Copy, Debug, PartialEq, Eq, Structural)]
pub enum Machine {
    NoMachine,
    Sparc,
    X86,
    Mips,
    PowerPC,
    Arm,
    SuperH,
    Ia64,
    X86_64,
    AArch64,
    BPF,
    Other(u16),
}

/// The architecture the kernel is built for.
#[derive(Clone, Copy, Debug, PartialEq, Eq, Structural)]
pub enum Target {
    X86_64,
    AArch64,
    RiscV,
    Mips,
}

/// What the loader reads in the header of an ELF file.
#[derive(Clone, Copy, Debug, PartialEq, Eq, Structural)]
pub struct ElfHeader {
    /// The file type, as the number the file holds.
    pub kind: u16,
    pub machine: Machine,
    pub entry_point: u64,
    pub ph_entry_size: u16,
    pub ph_count: u16,
}

/// Why an image could not be loaded.
#[derive(Clone, Copy, Debug, PartialEq, Eq, Structural)]
pub enum LoadError {
    /// A file could not be read.
    ReadFailed,
    /// The bytes are no ELF file.
    InvalidElf,
    /// The file is neither an executable nor a shared object.
    NotExecutable,
    /// The file is for another machine.
    InvalidArch,
    /// The file names an interpreter that does not exist.
    InterpreterNotFound,
    /// The interpreter's entry point, moved by the load offset, is no address.
    EntryOutOfRange,
}

/// What came of reading the interpreter that an executable names.
#[derive(Clone, Debug, PartialEq, Eq)]
pub enum InterpRead {
    /// The executable names none.
    Absent,
    /// Its path leads nowhere.
    NotFound,
    /// It could not be read.
    ReadFailed,
    /// The start of it: `ELF_PREFIX_LEN` bytes.
    Data(Vec<u8>),
}

/// A range of user addresses.
#[derive(Clone, Copy, Debug, PartialEq, Eq, Structural)]
pub struct Region {
    pub start: u64,
    pub end: u64,
}

/// The auxiliary vector of a new program.
#[derive(Clone, Copy, Debug, PartialEq, Eq, Structural)]
pub struct AuxVector {
    pub phdr: Option<u64>,
    pub phent: u64,
    pub phnum: u64,
    pub pagesz: u64,
    pub base: Option<u64>,
    pub entry: Option<u64>,
}

/// What the caller is to do with a mapped image to make it runnable.
#[derive(Clone, Copy, Debug, PartialEq, Eq, Structural)]
pub struct LoadPlan {
    /// Where the program starts: in its interpreter, if it has one.
    pub entry: u64,
    pub auxv: AuxVector,
    /// Whether the interpreter is to be mapped, at the load offset.
    pub append_interpreter: bool,
    /// The part of the stack that gets its frames on demand.
    pub stack_delay: Region,
    /// The part of the stack that gets its frames at once.
    pub stack_eager: Region,
    /// Where the arguments, the environment and the auxiliary vector are
    /// written, downwards.
    pub stack_top: u64,
}

/// What is written onto the stack of a new program before it starts.
#[derive(Clone, Debug, PartialEq, Eq)]
pub struct ProcInitInfo {
    pub args: Vec<String>,
    pub envs: Vec<String>,
    /// The auxiliary vector, in the order of its keys.
    pub auxv: Vec<(u64, u64)>,
}

/// The entries of an auxiliary vector as words: each key, then its value.
pub open spec fn auxv_words(auxv: Seq<(u64, u64)>) -> Seq<u64>
    decreases auxv.len(),
{
    if auxv.len() == 0 {
        Seq::empty()
    } else {
        auxv_words(auxv.drop_last()).push(auxv.last().0).push(auxv.last().1)
    }
}

/// The words at the bottom of the initial stack frame, from the stack
/// pointer upwards: the number of arguments, a pointer to each argument, a
/// null word, a pointer to each environment string, a null word, and the
/// auxiliary vector with the entry that ends it. The strings stand above.
pub open spec fn frame_words(argv: Seq<u64>, envp: Seq<u64>, auxv: Seq<(u64, u64)>) -> Seq<u64> {
    seq![argv.len() as u64] + argv + seq![0u64] + envp + seq![0u64] + auxv_words(auxv)
        + seq![AT_NULL, 0u64]
}

/// Appends `more` to `words`.
fn append_words(words: &mut Vec<u64>, more: &Vec<u64>)
    ensures
        final(words)@ == old(words)@ + more@,
{
    let mut i: usize = 0;
    while i < more.len()
        invariant
            i <= more@.len(),
            words@ == old(words)@ + more@.take(i as int),
        decreases more@.len() - i,
    {
        words.push(more[i]);
        proof {
            assert(more@.take(i + 1) == more@.take(i as int).push(more@[i as int]));
            assert(words@ =~= old(words)@ + more@.take(i + 1));
        }
        i += 1;
    }
    proof {
        assert(more@.take(more@.len() as int) == more@);
    }
}

impl ProcInitInfo {
    /// The bottom of the initial stack frame, for arguments that were
    /// written at the addresses `argv` and environment strings that were
    /// written at the addresses `envp`.
    pub fn frame(&self, argv: &Vec<u64>, envp: &Vec<u64>) -> (words: Vec<u64>)
        ensures
            words@ == frame_words(argv@, envp@, self.auxv@),
    {
        let mut words: Vec<u64> = Vec::new();
        words.push(argv.len() as u64);
        append_words(&mut words, argv);
        words.push(0);
        append_words(&mut words, envp);
        words.push(0);
        let ghost head = words@;
        let mut i: usize = 0;
        while i < self.auxv.len()
            invariant
                i <= self.auxv@.len(),
                words@ == head + auxv_words(self.auxv@.take(i as int)),
            decreases self.auxv@.len() - i,
        {
            let entry = self.auxv[i];
            words.push(entry.0);
            words.push(entry.1);
            proof {
                let next = self.auxv@.take(i + 1);
                assert(next.drop_last() == self.auxv@.take(i as int));
                assert(next.last() == entry);
                assert(words@ =~= head + auxv_words(next));
            }
            i += 1;
        }
        proof {
            assert(self.auxv@.take(self.auxv@.len() as int) == self.auxv@);
        }
        words.push(AT_NULL);
        words.push(0);
        proof {
            assert(head =~= seq![argv@.len() as u64] + argv@ + seq![0u64] + envp@ + seq![0u64]);
            assert(words@ =~= frame_words(argv@, envp@, self.auxv@));
        }
        words
    }
}

/// The file type, entry point, size of a program header and number of
/// program headers that `xmas_elf` reads in the header of `data`, or `None`
/// where it takes `data` for no ELF file.
pub uninterp spec fn elf_fields_of(data: Seq<u8>) -> Option<(u16, u64, u16, u16)>;

/// The machine that `xmas_elf` reads in the header of `data`, or `None`
/// where it takes `data` for no ELF file.
pub uninterp spec fn elf_machine_of(data: Seq<u8>) -> Option<Machine>;

/// Whether `data` begins as the parser asks of an ELF file: sixteen bytes
/// of identification, of which the first four are the magic number and the
/// fifth says 1 for a 32-bit or 2 for a 64-bit file.
pub open spec fn has_elf_ident(data: Seq<u8>) -> bool {
    &&& data.len() >= 16
    &&& data[0] == 0x7f
    &&& data[1] == 0x45
    &&& data[2] == 0x4c
    &&& data[3] == 0x46
    &&& (data[4] == 1 || data[4] == 2)
}

/// The header of `data`, if it is an ELF file.
pub open spec fn elf_header_of(data: Seq<u8>) -> Option<ElfHeader> {
    match (elf_fields_of(data), elf_machine_of(data)) {
        (Some(fields), Some(machine)) => Some(
            ElfHeader {
                kind: fields.0,
                machine,
                entry_point: fields.1,
                ph_entry_size: fields.2,
                ph_count: fields.3,
            },
        ),
        _ => None,
    }
}

/// How many spare bytes a buffer for the parser has behind the bytes to
/// parse: enough to move them to an address that is a multiple of 8.
pub const ALIGN_SPARE: usize = 8;

/// A copy of `data` with `ALIGN_SPARE` zero bytes behind it.
fn padded_copy(data: &[u8]) -> (buf: Vec<u8>)
    ensures
        buf@.len() == data@.len() + ALIGN_SPARE,
        buf@.subrange(0, data@.len() as int) == data@,
{
    let mut buf: Vec<u8> = Vec::new();
    let mut i: usize = 0;
    while i < data.len()
        invariant
            i <= data@.len(),
            buf@ == data@.take(i as int),
        decreases data@.len() - i,
    {
        buf.push(data[i]);
        proof {
            assert(data@.take(i + 1) == data@.take(i as int).push(data@[i as int]));
        }
        i += 1;
    }
    proof {
        assert(data@.take(data@.len() as int) == data@);
    }
    let mut k: usize = 0;
    while k < ALIGN_SPARE
        invariant
            k <= ALIGN_SPARE,
            buf@.len() == data@.len() + k,
            buf@.subrange(0, data@.len() as int) == data@,
        decreases ALIGN_SPARE - k,
    {
        buf.push(0);
        proof {
            assert(buf@.subrange(0, data@.len() as int) =~= data@);
        }
        k += 1;
    }
    buf
}

/// Calls `xmas_elf::ElfFile::new` on the first `len` bytes of `buf` and
/// reads four fields of the second part of the header it finds: `type_`,
/// `entry_point`, `ph_entry_size` and `ph_count`. Not proved, but taken from
/// the parser: that the outcome depends on the bytes alone, and that it
/// accepts exactly the bytes with the identification above. The parser reads
/// the fields in the byte order of the machine it runs on, which is the
/// little-endian one on every target of this kernel. It gives up on fewer
/// than 16 bytes and slices up to byte 64 after that, hence the length asked
/// for. It also insists that the second part of the header, which starts at
/// byte 16, lies at a multiple of 4 or 8: the bytes are moved within `buf` to
/// the first address that is a multiple of 8 before they are parsed, and the
/// spare bytes of `buf` are the room for that.
#[verifier::external_body]
fn read_elf_fields(buf: Vec<u8>, len: usize) -> (fields: Option<(u16, u64, u16, u16)>)
    requires
        len >= ELF_HEADER_LEN,
        buf@.len() == len + ALIGN_SPARE,
    ensures
        fields == elf_fields_of(buf@.subrange(0, len as int)),
        fields is Some <==> has_elf_ident(buf@.subrange(0, len as int)),
{
    let mut buf = buf;
    let start = (buf.as_ptr() as usize).wrapping_neg() % 8;
    buf.copy_within(..len, start);
    let elf = xmas_elf::ElfFile::new(&buf[start..][..len]).ok()?;
    let pt2 = elf.header.pt2;
    Some((pt2.type_().0, pt2.entry_point(), pt2.ph_entry_size(), pt2.ph_count()))
}

/// Calls `xmas_elf::ElfFile::new` on the first `len` bytes of `buf`, moved
/// to a multiple of 8 as above, and `machine` and `as_machine` on the header
/// it finds. Not proved, but taken from the parser: that the outcome depends
/// on the bytes alone, and that there is a machine exactly where there is a
/// header, since both come of the same call.
#[verifier::external_body]
fn read_elf_machine(buf: Vec<u8>, len: usize) -> (machine: Option<Machine>)
    requires
        len >= ELF_HEADER_LEN,
        buf@.len() == len + ALIGN_SPARE,
    ensures
        machine == elf_machine_of(buf@.subrange(0, len as int)),
        machine is Some <==> elf_fields_of(buf@.subrange(0, len as int)) is Some,
{
    let mut buf = buf;
    let start = (buf.as_ptr() as usize).wrapping_neg() % 8;
    buf.copy_within(..len, start);
    Some(match xmas_elf::ElfFile::new(&buf[start..][..len]).ok()?.header.pt2.machine().as_machine() {
        ElfMachine::None => Machine::NoMachine, ElfMachine::Sparc => Machine::Sparc,
        ElfMachine::X86 => Machine::X86, ElfMachine::Mips => Machine::Mips,
        ElfMachine::PowerPC => Machine::PowerPC, ElfMachine::Arm => Machine::Arm,
        ElfMachine::SuperH => Machine::SuperH, ElfMachine::Ia64 => Machine::Ia64,
        ElfMachine::X86_64 => Machine::X86_64, ElfMachine::AArch64 => Machine::AArch64,
        ElfMachine::BPF => Machine::BPF, ElfMachine::Other(n) => Machine::Other(n),
    })
}

/// The header of `data`, or `InvalidElf` where `data` lacks the
/// identification of an ELF file.
pub fn read_elf_header(data: &[u8]) -> (header: Result<ElfHeader, LoadError>)
    requires
        data@.len() >= ELF_HEADER_LEN,
    ensures
        header == match elf_header_of(data@) {
            Some(h) => Ok::<ElfHeader, LoadError>(h),
            None => Err(LoadError::InvalidElf),
        },
        header is Ok <==> has_elf_ident(data@),
{
    let fields = read_elf_fields(padded_copy(data), data.len());
    let machine = read_elf_machine(padded_copy(data), data.len());
    match (fields, machine) {
        (Some(fields), Some(machine)) => Ok(
            ElfHeader {
                kind: fields.0,
                machine,
                entry_point: fields.1,
                ph_entry_size: fields.2,
                ph_count: fields.3,
            },
        ),
        _ => Err(LoadError::InvalidElf),
    }
}

/// Whether a file for `machine` runs on `host`.
pub open spec fn machine_fits(machine: Machine, host: Target) -> bool {
    match host {
        Target::X86_64 => machine == Machine::X86_64,
        Target::AArch64 => machine == Machine::AArch64,
        Target::RiscV => machine == Machine::Other(EM_RISCV),
        Target::Mips => machine == Machine::Mips,
    }
}

/// What stands against loading a file with this header on `host`, if
/// anything does: the file type is looked at first.
pub open spec fn image_fault(header: ElfHeader, host: Target) -> Option<LoadError> {
    if header.kind != ET_EXEC && header.kind != ET_DYN {
        Some(LoadError::NotExecutable)
    } else if !machine_fits(header.machine, host) {
        Some(LoadError::InvalidArch)
    } else {
        None
    }
}

/// Accepts an executable or a shared object for the machine `host`.
pub fn check_image(header: &ElfHeader, host: Target) -> (checked: Result<(), LoadError>)
    ensures
        checked == match image_fault(*header, host) {
            Some(e) => Err::<(), LoadError>(e),
            None => Ok(()),
        },
{
    if header.kind != ET_EXEC && header.kind != ET_DYN {
        return Err(LoadError::NotExecutable);
    }
    let fits = match host {
        Target::X86_64 => header.machine == Machine::X86_64,
        Target::AArch64 => header.machine == Machine::AArch64,
        Target::RiscV => header.machine == Machine::Other(EM_RISCV),
        Target::Mips => header.machine == Machine::Mips,
    };
    if !fits {
        return Err(LoadError::InvalidArch);
    }
    Ok(())
}

/// The part of the stack that gets its frames on demand.
pub open spec fn stack_delay_region() -> Region {
    Region {
        start: USER_STACK_OFFSET,
        end: (USER_STACK_OFFSET + USER_STACK_SIZE - PAGE_SIZE * EAGER_STACK_PAGES) as u64,
    }
}

/// The part of the stack that gets its frames at once: its top pages.
pub open spec fn stack_eager_region() -> Region {
    Region {
        start: (USER_STACK_OFFSET + USER_STACK_SIZE - PAGE_SIZE * EAGER_STACK_PAGES) as u64,
        end: (USER_STACK_OFFSET + USER_STACK_SIZE) as u64,
    }
}

/// The plan for an image with the header `header` that was mapped at the
/// load offset `bias`, with its program headers at `phdr_vaddr` if that is
/// known, and with an interpreter whose header is `interp` if it has one.
pub open spec fn plan_of(
    header: ElfHeader,
    phdr_vaddr: Option<u64>,
    bias: u64,
    interp: Option<ElfHeader>,
) -> LoadPlan {
    LoadPlan {
        entry: match interp {
            Some(i) => (i.entry_point + bias) as u64,
            None => header.entry_point,
        },
        auxv: AuxVector {
            phdr: phdr_vaddr,
            phent: header.ph_entry_size as u64,
            phnum: header.ph_count as u64,
            pagesz: PAGE_SIZE,
            base: if interp is Some {
                Some(bias)
            } else {
                None
            },
            entry: if interp is Some {
                Some(header.entry_point)
            } else {
                None
            },
        },
        append_interpreter: interp is Some,
        stack_delay: stack_delay_region(),
        stack_eager: stack_eager_region(),
        stack_top: (USER_STACK_OFFSET + USER_STACK_SIZE) as u64,
    }
}

/// Whether the interpreter's entry point, moved by `bias`, is an address.
pub open spec fn entry_fits(interp: Option<ElfHeader>, bias: u64) -> bool {
    match interp {
        Some(i) => i.entry_point + bias <= u64::MAX,
        None => true,
    }
}

/// Plans the entry point, the auxiliary vector and the stack of a mapped
/// image.
pub fn plan_image(
    header: &ElfHeader,
    phdr_vaddr: Option<u64>,
    bias: u64,
    interp: Option<ElfHeader>,
) -> (plan: LoadPlan)
    requires
        entry_fits(interp, bias),
    ensures
        plan == plan_of(*header, phdr_vaddr, bias, interp),
{
    let mut auxv = AuxVector {
        phdr: phdr_vaddr,
        phent: header.ph_entry_size as u64,
        phnum: header.ph_count as u64,
        pagesz: PAGE_SIZE,
        base: None,
        entry: None,
    };
    let mut entry: u64 = header.entry_point;
    let mut append_interpreter = false;
    match interp {
        Some(i) => {
            auxv.entry = Some(header.entry_point);
            auxv.base = Some(bias);
            entry = i.entry_point + bias;
            append_interpreter = true;
        },
        None => {},
    }
    let ustack_top: u64 = USER_STACK_OFFSET + USER_STACK_SIZE;
    LoadPlan {
        entry,
        auxv,
        append_interpreter,
        stack_delay: Region {
            start: USER_STACK_OFFSET,
            end: ustack_top - PAGE_SIZE * EAGER_STACK_PAGES,
        },
        stack_eager: Region { start: ustack_top - PAGE_SIZE * EAGER_STACK_PAGES, end: ustack_top },
        stack_top: ustack_top,
    }
}

impl AuxVector {
    /// The entries in the order of their keys.
    pub open spec fn entries(self) -> Seq<(u64, u64)> {
        (match self.phdr {
            Some(v) => seq![(AT_PHDR, v)],
            None => Seq::empty(),
        }) + seq![(AT_PHENT, self.phent), (AT_PHNUM, self.phnum), (AT_PAGESZ, self.pagesz)] + (
        match self.base {
            Some(v) => seq![(AT_BASE, v)],
            None => Seq::empty(),
        }) + (match self.entry {
            Some(v) => seq![(AT_ENTRY, v)],
            None => Seq::empty(),
        })
    }

    /// The entries as they are written to the stack, in the order of their
    /// keys.
    pub fn to_entries(&self) -> (list: Vec<(u64, u64)>)
        ensures
            list@ == self.entries(),
    {
        let mut list: Vec<(u64, u64)> = Vec::new();
        match self.phdr {
            Some(v) => { list.push((AT_PHDR, v)); },
            None => {},
        }
        list.push((AT_PHENT, self.phent));
        list.push((AT_PHNUM, self.phnum));
        list.push((AT_PAGESZ, self.pagesz));
        match self.base {
            Some(v) => { list.push((AT_BASE, v)); },
            None => {},
        }
        match self.entry {
            Some(v) => { list.push((AT_ENTRY, v)); },
            None => {},
        }
        proof {
            assert(list@ =~= self.entries());
        }
        list
    }
}

/// What loading comes to, given the header of the executable, or `None`
/// where its bytes are no ELF file, and the same of the interpreter's.
pub open spec fn load_outcome(
    exec: Option<Option<ElfHeader>>,
    host: Target,
    phdr_vaddr: Option<u64>,
    bias: u64,
    interp_fault: Option<LoadError>,
    interp: Option<Option<ElfHeader>>,
) -> Result<LoadPlan, LoadError> {
    match exec {
        None => Err(LoadError::ReadFailed),
        Some(None) => Err(LoadError::InvalidElf),
        Some(Some(header)) => match image_fault(header, host) {
            Some(e) => Err(e),
            None => match interp_fault {
                Some(e) => Err(e),
                None => match interp {
                    Some(None) => Err(LoadError::InvalidElf),
                    Some(Some(i)) => if entry_fits(Some(i), bias) {
                        Ok(plan_of(header, phdr_vaddr, bias, Some(i)))
                    } else {
                        Err(LoadError::EntryOutOfRange)
                    },
                    None => Ok(plan_of(header, phdr_vaddr, bias, None)),
                },
            },
        },
    }
}

/// The error that reading the interpreter ended in, if it did.
pub open spec fn interp_fault_of(interp: InterpRead) -> Option<LoadError> {
    match interp {
        InterpRead::NotFound => Some(LoadError::InterpreterNotFound),
        InterpRead::ReadFailed => Some(LoadError::ReadFailed),
        _ => None,
    }
}

/// The header of the interpreter that was read, or `None` within where its
/// bytes are no ELF file.
pub open spec fn interp_header_of(interp: InterpRead) -> Option<Option<ElfHeader>> {
    match interp {
        InterpRead::Data(data) => Some(elf_header_of(data@)),
        _ => None,
    }
}

/// How far the loading of an image has come.
#[derive(Clone, Copy, Debug, PartialEq, Eq, Structural)]
pub enum LoadStage {
    /// Nothing has been read yet.
    Start,
    /// The executable is accepted; its segments are to be mapped.
    Mapping { header: ElfHeader },
    /// The executable is mapped and names an interpreter, which is to be read.
    Resolving { header: ElfHeader, phdr_vaddr: Option<u64>, bias: u64 },
    /// The plan is made.
    Done,
    /// Loading has failed: the address space is to be discarded.
    Failed,
}

/// What the caller reports to the loader.
#[derive(Clone, Debug, PartialEq, Eq)]
pub enum LoadEvent {
    /// The start of the executable, or `None` where it could not be read.
    ExecutableRead(Option<Vec<u8>>),
    /// The address space was cleared and the segments were mapped at the
    /// load offset `bias`.
    Mapped { bias: u64, phdr_vaddr: Option<u64>, has_interpreter: bool },
    /// What came of reading the interpreter.
    InterpreterRead(InterpRead),
}

/// What the loader asks of its caller.
#[derive(Clone, Copy, Debug, PartialEq, Eq, Structural)]
pub enum LoadAction {
    /// Clear the address space, map the loadable segments, and report
    /// `Mapped`.
    MapSegments,
    /// Follow the interpreter's path, read its start, and report
    /// `InterpreterRead`.
    ReadInterpreter,
    /// Carry out the plan.
    Finish(LoadPlan),
    /// Give up with this error.
    Fail(LoadError),
    /// The event does not fit the stage: nothing has changed.
    Rejected,
}

/// The stage and the action that follow when an executable with this
/// header, or with none, has been read.
pub open spec fn after_executable(header: Option<ElfHeader>, host: Target) -> (
    LoadStage,
    LoadAction,
) {
    match header {
        None => (LoadStage::Failed, LoadAction::Fail(LoadError::InvalidElf)),
        Some(h) => match image_fault(h, host) {
            Some(e) => (LoadStage::Failed, LoadAction::Fail(e)),
            None => (LoadStage::Mapping { header: h }, LoadAction::MapSegments),
        },
    }
}

/// The stage and the action that follow when the interpreter of a mapped
/// executable has been read.
pub open spec fn after_interpreter(
    header: ElfHeader,
    phdr_vaddr: Option<u64>,
    bias: u64,
    interp: InterpRead,
) -> (LoadStage, LoadAction) {
    match interp_fault_of(interp) {
        Some(e) => (LoadStage::Failed, LoadAction::Fail(e)),
        None => match interp_header_of(interp) {
            None => (LoadStage::Done, LoadAction::Finish(plan_of(header, phdr_vaddr, bias, None))),
            Some(None) => (LoadStage::Failed, LoadAction::Fail(LoadError::InvalidElf)),
            Some(Some(i)) => if entry_fits(Some(i), bias) {
                (
                    LoadStage::Done,
                    LoadAction::Finish(plan_of(header, phdr_vaddr, bias, Some(i))),
                )
            } else {
                (LoadStage::Failed, LoadAction::Fail(LoadError::EntryOutOfRange))
            },
        },
    }
}

/// The stage after `event` at `stage`, and the action asked for.
pub open spec fn load_step(stage: LoadStage, host: Target, event: LoadEvent) -> (
    LoadStage,
    LoadAction,
) {
    match (stage, event) {
        (LoadStage::Start, LoadEvent::ExecutableRead(None)) => (
            LoadStage::Failed,
            LoadAction::Fail(LoadError::ReadFailed),
        ),
        (LoadStage::Start, LoadEvent::ExecutableRead(Some(data))) => after_executable(
            elf_header_of(data@),
            host,
        ),
        (
            LoadStage::Mapping { header },
            LoadEvent::Mapped { bias, phdr_vaddr, has_interpreter },
        ) => if has_interpreter {
            (LoadStage::Resolving { header, phdr_vaddr, bias }, LoadAction::ReadInterpreter)
        } else {
            (LoadStage::Done, LoadAction::Finish(plan_of(header, phdr_vaddr, bias, None)))
        },
        (
            LoadStage::Resolving { header, phdr_vaddr, bias },
            LoadEvent::InterpreterRead(interp),
        ) => after_interpreter(header, phdr_vaddr, bias, interp),
        _ => (stage, LoadAction::Rejected),
    }
}

/// Whether the bytes that `event` carries, if it carries any, are at least
/// a header long.
pub open spec fn event_is_whole(event: LoadEvent) -> bool {
    match event {
        LoadEvent::ExecutableRead(Some(data)) => data@.len() >= ELF_HEADER_LEN,
        LoadEvent::InterpreterRead(InterpRead::Data(data)) => data@.len() >= ELF_HEADER_LEN,
        _ => true,
    }
}

/// One step of loading: takes what the caller reports and says what to do
/// next. Nothing is mapped before the executable is accepted, and the
/// interpreter is read only after the segments are mapped.
pub fn load_next(stage: LoadStage, host: Target, event: &LoadEvent) -> (next: (
    LoadStage,
    LoadAction,
))
    requires
        event_is_whole(*event),
    ensures
        next == load_step(stage, host, *event),
{
    match (stage, event) {
        (LoadStage::Start, LoadEvent::ExecutableRead(None)) => (
            LoadStage::Failed,
            LoadAction::Fail(LoadError::ReadFailed),
        ),
        (LoadStage::Start, LoadEvent::ExecutableRead(Some(data))) => {
            match read_elf_header(data.as_slice()) {
                Err(e) => (LoadStage::Failed, LoadAction::Fail(e)),
                Ok(header) => match check_image(&header, host) {
                    Err(e) => (LoadStage::Failed, LoadAction::Fail(e)),
                    Ok(()) => (LoadStage::Mapping { header }, LoadAction::MapSegments),
                },
            }
        },
        (
            LoadStage::Mapping { header },
            LoadEvent::Mapped { bias, phdr_vaddr, has_interpreter },
        ) => {
            if *has_interpreter {
                (
                    LoadStage::Resolving { header, phdr_vaddr: *phdr_vaddr, bias: *bias },
                    LoadAction::ReadInterpreter,
                )
            } else {
                (
                    LoadStage::Done,
                    LoadAction::Finish(plan_image(&header, *phdr_vaddr, *bias, None)),
                )
            }
        },
        (
            LoadStage::Resolving { header, phdr_vaddr, bias },
            LoadEvent::InterpreterRead(interp),
        ) => {
            match interp {
                InterpRead::Absent => (
                    LoadStage::Done,
                    LoadAction::Finish(plan_image(&header, phdr_vaddr, bias, None)),
                ),
                InterpRead::NotFound => (
                    LoadStage::Failed,
                    LoadAction::Fail(LoadError::InterpreterNotFound),
                ),
                InterpRead::ReadFailed => (
                    LoadStage::Failed,
                    LoadAction::Fail(LoadError::ReadFailed),
                ),
                InterpRead::Data(bytes) => match read_elf_header(bytes.as_slice()) {
                    Err(e) => (LoadStage::Failed, LoadAction::Fail(e)),
                    Ok(interp_header) => {
                        if interp_header.entry_point > u64::MAX - bias {
                            (LoadStage::Failed, LoadAction::Fail(LoadError::EntryOutOfRange))
                        } else {
                            (
                                LoadStage::Done,
                                LoadAction::Finish(
                                    plan_image(&header, phdr_vaddr, bias, Some(interp_header)),
                                ),
                            )
                        }
                    },
                },
            }
        },
        _ => (stage, LoadAction::Rejected),
    }
}

/// The result that an action ends the loading with, if it ends it.
pub open spec fn ending_of(action: LoadAction) -> Option<Result<LoadPlan, LoadError>> {
    match action {
        LoadAction::Finish(plan) => Some(Ok(plan)),
        LoadAction::Fail(e) => Some(Err(e)),
        _ => None,
    }
}

/// Loading step by step ends as loading at one go does: an executable that
/// cannot be read or is not accepted ends it at the first step with the same
/// error; an accepted one is mapped, and then the plan or the error is the
/// same, whether it names an interpreter or not.
pub proof fn lemma_steps_agree_with_outcome(
    exec: Option<Vec<u8>>,
    host: Target,
    phdr_vaddr: Option<u64>,
    bias: u64,
    interp: InterpRead,
)
    ensures
        ({
            let whole = load_outcome(
                match exec {
                    Some(data) => Some(elf_header_of(data@)),
                    None => None,
                },
                host,
                phdr_vaddr,
                bias,
                interp_fault_of(interp),
                interp_header_of(interp),
            );
            let first = load_step(LoadStage::Start, host, LoadEvent::ExecutableRead(exec));
            let has_interpreter = !(interp is Absent);
            let second = load_step(
                first.0,
                host,
                LoadEvent::Mapped { bias, phdr_vaddr, has_interpreter },
            );
            let third = load_step(second.0, host, LoadEvent::InterpreterRead(interp));
            if first.1 != LoadAction::MapSegments {
                ending_of(first.1) == Some(whole)
            } else if second.1 != LoadAction::ReadInterpreter {
                ending_of(second.1) == Some(whole)
            } else {
                ending_of(third.1) == Some(whole)
            }
        }),
{
}

/// The words a load error is reported in.
pub fn message(error: LoadError) -> (text: &'static str)
    ensures
        text@ == (match error {
            LoadError::ReadFailed => "failed to read from INode"@,
            LoadError::InvalidElf => "invalid ELF"@,
            LoadError::NotExecutable => "ELF is not executable or shared object"@,
            LoadError::InvalidArch => "invalid ELF arch"@,
            LoadError::InterpreterNotFound => "interpreter not found"@,
            LoadError::EntryOutOfRange => "entry point out of range"@,
        }),
{
    match error {
        LoadError::ReadFailed => "failed to read from INode",
        LoadError::InvalidElf => "invalid ELF",
        LoadError::NotExecutable => "ELF is not executable or shared object",
        LoadError::InvalidArch => "invalid ELF arch",
        LoadError::InterpreterNotFound => "interpreter not found",
        LoadError::EntryOutOfRange => "entry point out of range",
    }
}

} // verus!
