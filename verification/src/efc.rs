//! Enhanced Embedded Flash Controller (EEFC) of the ATSAM4E16E: address translation,
//! command encoding and the flash operations built from commands.
//!
//! The controller itself is reached through a [`FlashCommandPort`]; every command the
//! driver hands to it, and every value it reads back, is recorded in the driver's
//! event log, so that the contracts can say exactly which commands each operation
//! issues and how their outcome decides the result.
use vstd::prelude::*;

verus! {

/// Size of a flash page in bytes.
pub const FLASH_PAGE_SIZE: u32 = 512;
/// Size of the user signature area in bytes.
pub const USER_SIG_FLASH_SIZE: u32 = 512;
/// Size of a lock region in bytes.
pub const FLASH_LOCK_REGION_SIZE: u32 = 8192;
/// Smallest read granularity in bytes.
pub const FLASH_READ_SIZE: u32 = 4;
/// Smallest write granularity in bytes.
pub const FLASH_WRITE_SIZE: u32 = 4;
/// Smallest erase granularity in bytes (8 pages).
pub const FLASH_ERASE_SIZE: u32 = 4096;
/// Number of general purpose NVM bits.
pub const GPNVM_NUM_MAX: u8 = 2;
/// Address of the flash.
pub const FLASH0_ADDR: u32 = 0x0040_0000;
/// Size of the flash in bytes.
pub const FLASH0_SIZE: u32 = 0x0010_0000;
/// Key that must accompany every command written to `EEFC_FCR`.
pub const FKEY_PASSWD: u32 = 0x5A;

/// Flash controller commands (`EEFC_FCR.FCMD`).
#[derive(Clone, Copy, Debug, PartialEq, Eq, Structural)]
pub enum FlashCommand {
    /// Get flash descriptor
    Getd,
    /// Write page
    Wp,
    /// Write page and lock
    Wpl,
    /// Erase page and write page
    Ewp,
    /// Erase page and write page then lock
    Ewpl,
    /// Erase all
    Ea,
    /// Erase pages
    Epa,
    /// Set lock bit
    Slb,
    /// Clear lock bit
    Clb,
    /// Get lock bit
    Glb,
    /// Set GPNVM bit
    Sgpb,
    /// Clear GPNVM bit
    Cgpb,
    /// Get GPNVM bit
    Ggpb,
    /// Start read unique identifier
    Stui,
    /// Stop read unique identifier
    Spui,
    /// Get CALIB bit
    Gcalb,
    /// Erase sector
    Es,
    /// Write user signature
    Wus,
    /// Erase user signature
    Eus,
    /// Start read user signature
    Stus,
    /// Stop read user signature
    Spus,
}

/// Errors of the flash controller driver.
#[derive(Clone, Copy, Debug, PartialEq, Eq, Structural)]
pub enum EfcError {
    /// An operation was attempted on an unaligned boundary
    Unaligned,
    /// Bad keyword has been written to the EEFC_FCR register
    CommandError,
    /// Attempted write to a locked page, must be unlocked first to succeed
    LockError,
    /// WriteVerify test of flash memory has failed (possibly EraseVerify)
    FlashError,
    /// Address outside of flash region bounds
    AddressBoundsError,
    /// Unsupported command FMD key for given function
    UnsupportedCommandError,
    /// Invalid GPNVM bit
    InvalidGpnvmBitError,
    /// Invalid buffer size
    InvalidBufferSizeError,
    /// Invalid UserSignature size
    InvalidUserSignatureSizeError,
    /// Not within page bounds
    NotWithinFlashPageBoundsError,
    /// Invalid flash bank
    InvalidFlashBank,
}

/// Kind of a flash error, as generic NOR-flash users classify it.
#[derive(Clone, Copy, Debug, PartialEq, Eq, Structural)]
pub enum FlashErrorKind {
    NotAligned,
    OutOfBounds,
    Other,
}

impl EfcError {
    /// Classifies the error for generic NOR-flash users.
    pub fn kind(&self) -> (r: FlashErrorKind)
        ensures
            r == (match *self {
                EfcError::AddressBoundsError => FlashErrorKind::OutOfBounds,
                EfcError::Unaligned => FlashErrorKind::NotAligned,
                _ => FlashErrorKind::Other,
            }),
    {
        match self {
            EfcError::AddressBoundsError => FlashErrorKind::OutOfBounds,
            EfcError::CommandError => FlashErrorKind::Other,
            EfcError::FlashError => FlashErrorKind::Other,
            EfcError::InvalidBufferSizeError => FlashErrorKind::Other,
            EfcError::InvalidFlashBank => FlashErrorKind::Other,
            EfcError::InvalidGpnvmBitError => FlashErrorKind::Other,
            EfcError::InvalidUserSignatureSizeError => FlashErrorKind::Other,
            EfcError::LockError => FlashErrorKind::Other,
            EfcError::NotWithinFlashPageBoundsError => FlashErrorKind::Other,
            EfcError::Unaligned => FlashErrorKind::NotAligned,
            EfcError::UnsupportedCommandError => FlashErrorKind::Other,
        }
    }
}

/// The `FCMD` code of a command.
pub open spec fn spec_command_code(c: FlashCommand) -> u32 {
    match c {
        FlashCommand::Getd => 0,
        FlashCommand::Wp => 1,
        FlashCommand::Wpl => 2,
        FlashCommand::Ewp => 3,
        FlashCommand::Ewpl => 4,
        FlashCommand::Ea => 5,
        FlashCommand::Epa => 7,
        FlashCommand::Slb => 8,
        FlashCommand::Clb => 9,
        FlashCommand::Glb => 10,
        FlashCommand::Sgpb => 11,
        FlashCommand::Cgpb => 12,
        FlashCommand::Ggpb => 13,
        FlashCommand::Stui => 14,
        FlashCommand::Spui => 15,
        FlashCommand::Gcalb => 16,
        FlashCommand::Es => 17,
        FlashCommand::Wus => 18,
        FlashCommand::Eus => 19,
        FlashCommand::Stus => 20,
        FlashCommand::Spus => 21,
    }
}

/// The `FCMD` code of a command.
pub fn command_code(c: FlashCommand) -> (r: u32)
    ensures r == spec_command_code(c),
{
    match c {
        FlashCommand::Getd => 0,
        FlashCommand::Wp => 1,
        FlashCommand::Wpl => 2,
        FlashCommand::Ewp => 3,
        FlashCommand::Ewpl => 4,
        FlashCommand::Ea => 5,
        FlashCommand::Epa => 7,
        FlashCommand::Slb => 8,
        FlashCommand::Clb => 9,
        FlashCommand::Glb => 10,
        FlashCommand::Sgpb => 11,
        FlashCommand::Cgpb => 12,
        FlashCommand::Ggpb => 13,
        FlashCommand::Stui => 14,
        FlashCommand::Spui => 15,
        FlashCommand::Gcalb => 16,
        FlashCommand::Es => 17,
        FlashCommand::Wus => 18,
        FlashCommand::Eus => 19,
        FlashCommand::Stus => 20,
        FlashCommand::Spus => 21,
    }
}

/// The `EEFC_FCR` value for a command with its argument: key in bits 24..=31,
/// argument in bits 8..=23, command in bits 0..=7.
pub open spec fn spec_fcr(c: FlashCommand, argument: u16) -> u32 {
    ((FKEY_PASSWD << 24u32) | ((argument as u32) << 8u32) | spec_command_code(c)) as u32
}

/// The outcome named by the status a command ended with: the command error
/// (bit 1), lock error (bit 2) and flash error (bit 3) are checked in this order.
pub open spec fn spec_status_result(status: u32) -> Result<(), EfcError> {
    if status & 2 != 0 {
        Err(EfcError::CommandError)
    } else if status & 4 != 0 {
        Err(EfcError::LockError)
    } else if status & 8 != 0 {
        Err(EfcError::FlashError)
    } else {
        Ok(())
    }
}

/// Page, offset in page and bank of a flash address; out of bounds below the flash
/// or above its end (the end itself is accepted).
pub open spec fn spec_translate_address(address: u32) -> Result<(u16, u16, u8), EfcError> {
    if address < FLASH0_ADDR || address > FLASH0_ADDR + FLASH0_SIZE {
        Err(EfcError::AddressBoundsError)
    } else {
        Ok(
            (
                ((address - FLASH0_ADDR) / (FLASH_PAGE_SIZE as int)) as u16,
                ((address - FLASH0_ADDR) % (FLASH_PAGE_SIZE as int)) as u16,
                0u8,
            ),
        )
    }
}

/// The lock regions covering `start..=end`: the start rounded down to a region
/// boundary and the end rounded up to the last byte of its region.
pub open spec fn spec_lock_range(start: u32, end: u32) -> (u32, u32) {
    (
        (start - start % FLASH_LOCK_REGION_SIZE) as u32,
        (end - end % FLASH_LOCK_REGION_SIZE + FLASH_LOCK_REGION_SIZE - 1) as u32,
    )
}

/// What happened at the flash controller during one call of the port.
pub enum EfcEvent {
    /// `fcr` was written and the command ended with status `status`.
    Command { fcr: u32, status: u32 },
    /// The result register read `value`.
    Result { value: u32 },
    /// A read sequence from `start_cmd` to `stop_cmd` of `len` words ended with
    /// `seq_status`, leaving `words` in the buffer it read into.
    ReadSequence { start_cmd: u32, stop_cmd: u32, len: usize, seq_status: u32, words: Ghost<Seq<u32>> },
}

/// Access to the flash controller hardware. Nothing is assumed of what it returns.
pub trait FlashCommandPort {
    /// Writes `fcr` to `EEFC_FCR`, waits for the command to end and returns `EEFC_FSR`.
    fn perform_fcr(&mut self, fcr: u32) -> u32;

    /// Reads `EEFC_FRR`, the next word of the last command's result.
    fn read_result(&mut self) -> u32;

    /// Waits until `EEFC_FSR.FRDY` is set.
    fn wait_ready(&mut self);

    /// Runs a read sequence (unique identifier or user signature) of `len` words into
    /// `buf`; returns 0 on success.
    fn perform_read_sequence(&mut self, start_cmd: u32, stop_cmd: u32, buf: &mut [u32], len: usize) -> u32;
}

/// Interface to the flash controller and the flash it maps into memory.
pub struct Efc<P> {
    port: P,
    storage: &'static mut [u32],
    events: Ghost<Seq<EfcEvent>>,
}

/// The pages of a lock operation: from `start` in steps of one region (16 pages)
/// while below `end`.
pub open spec fn spec_region_pages(start: int, end: int) -> Seq<u16>
    decreases if start < end { end - start } else { 0 },
{
    if start < end {
        seq![start as u16] + spec_region_pages(start + 16, end)
    } else {
        Seq::empty()
    }
}

/// Whether `events` is the record of issuing `cmd` with `args` in order, stopping
/// after the first command that fails: every recorded command is the expected one,
/// all but the last succeeded, and the batch is short only if its last command failed.
pub open spec fn is_command_batch(events: Seq<EfcEvent>, cmd: FlashCommand, args: Seq<u16>) -> bool {
    &&& events.len() <= args.len()
    &&& forall|i: int| 0 <= i < events.len() ==> (#[trigger] events[i] is Command
        && events[i]->fcr == spec_fcr(cmd, args[i]))
    &&& forall|i: int| 0 <= i < events.len() - 1 ==> spec_status_result(#[trigger] events[i]->status) is Ok
    &&& events.len() < args.len() ==> events.len() > 0 && spec_status_result(events.last()->status) is Err
}

/// The outcome of a batch of commands: that of its last command, success if empty.
pub open spec fn batch_result(events: Seq<EfcEvent>) -> Result<(), EfcError> {
    if events.len() == 0 { Ok(()) } else { spec_status_result(events.last()->status) }
}

/// Whether `new_ev` extends `old_ev` by a command batch issuing `cmd` region by
/// region, and `r` is what that batch decides: the rounded range on success, the
/// first failing command's error otherwise. The batch starts at the page of the
/// rounded start and goes on region by region while below the page of the rounded
/// end (the last page of the last region), so it covers exactly the regions from the
/// start's to the end's. An address outside the flash issues nothing and is an
/// address bounds error.
pub open spec fn spec_lock_outcome(
    old_ev: Seq<EfcEvent>,
    new_ev: Seq<EfcEvent>,
    cmd: FlashCommand,
    start: u32,
    end: u32,
    r: Result<(u32, u32), EfcError>,
) -> bool {
    let (s, e) = spec_lock_range(start, end);
    match (spec_translate_address(s), spec_translate_address(e)) {
        (Ok((start_page, _, _)), Ok((end_page, _, _))) => {
            let batch = new_ev.skip(old_ev.len() as int);
            &&& new_ev.len() >= old_ev.len()
            &&& new_ev.take(old_ev.len() as int) == old_ev
            &&& is_command_batch(batch, cmd, spec_region_pages(start_page as int, end_page as int))
            &&& r == match batch_result(batch) {
                Ok(_) => Ok((s, e)),
                Err(x) => Err(x),
            }
        },
        _ => new_ev == old_ev && r == Err::<(u32, u32), EfcError>(EfcError::AddressBoundsError),
    }
}

/// Whether `ev[n..]` is the record of asking the controller for the GPNVM bits:
/// a `GGPB` command for `gpnvm`, then, if it succeeded, one read of the result.
pub open spec fn is_gpnvm_query(ev: Seq<EfcEvent>, n: int, gpnvm: u8) -> bool {
    &&& ev.len() > n
    &&& ev[n] is Command
    &&& ev[n]->fcr == spec_fcr(FlashCommand::Ggpb, gpnvm as u16)
    &&& spec_status_result(ev[n]->status) is Ok ==> ev.len() > n + 1 && ev[n + 1] is Result
}

/// Number of events of a GPNVM query starting at `n`.
pub open spec fn gpnvm_query_len(ev: Seq<EfcEvent>, n: int) -> int {
    if spec_status_result(ev[n]->status) is Ok { 2 } else { 1 }
}

/// What a GPNVM query starting at `n` answers: the command's error, or whether bit
/// `gpnvm` of the result read is set.
pub open spec fn gpnvm_query_result(ev: Seq<EfcEvent>, n: int, gpnvm: u8) -> Result<bool, EfcError> {
    match spec_status_result(ev[n]->status) {
        Ok(_) => Ok(ev[n + 1]->value & (1u32 << gpnvm) != 0),
        Err(e) => Err(e),
    }
}

/// The outcome of setting (`set`) or clearing a GPNVM bit: an invalid bit number
/// issues nothing; otherwise the bit is queried, and only if it differs from the
/// wanted value is the `SGPB`/`CGPB` command issued, whose status is the result.
pub open spec fn spec_gpnvm_change_outcome(
    old_ev: Seq<EfcEvent>,
    new_ev: Seq<EfcEvent>,
    gpnvm: u8,
    set: bool,
    r: Result<(), EfcError>,
) -> bool {
    let n = old_ev.len() as int;
    if gpnvm >= GPNVM_NUM_MAX {
        new_ev == old_ev && r == Err::<(), EfcError>(EfcError::InvalidGpnvmBitError)
    } else {
        &&& new_ev.take(n) == old_ev
        &&& is_gpnvm_query(new_ev, n, gpnvm)
        &&& match gpnvm_query_result(new_ev, n, gpnvm) {
            Err(e) => new_ev.len() == n + 1 && r == Err::<(), EfcError>(e),
            Ok(is_set) => if is_set == set {
                new_ev.len() == n + 2 && r == Ok::<(), EfcError>(())
            } else {
                &&& new_ev.len() == n + 3
                &&& new_ev[n + 2] is Command
                &&& new_ev[n + 2]->fcr == spec_fcr(
                    if set { FlashCommand::Sgpb } else { FlashCommand::Cgpb },
                    gpnvm as u16,
                )
                &&& r == spec_status_result(new_ev[n + 2]->status)
            },
        }
    }
}

/// The outcome of asking whether GPNVM bit `gpnvm` is set: an invalid bit number
/// issues nothing; otherwise a GPNVM query is recorded and answers the result.
pub open spec fn spec_gpnvm_query_outcome(
    old_ev: Seq<EfcEvent>,
    new_ev: Seq<EfcEvent>,
    gpnvm: u8,
    r: Result<bool, EfcError>,
) -> bool {
    let n = old_ev.len() as int;
    if gpnvm >= GPNVM_NUM_MAX {
        new_ev == old_ev && r == Err::<bool, EfcError>(EfcError::InvalidGpnvmBitError)
    } else {
        &&& new_ev.take(n) == old_ev
        &&& is_gpnvm_query(new_ev, n, gpnvm)
        &&& new_ev.len() == n + gpnvm_query_len(new_ev, n)
        &&& r == gpnvm_query_result(new_ev, n, gpnvm)
    }
}

/// Setting or clearing a GPNVM bit that the controller reports already in the wanted
/// state only asks for the bit and succeeds: no `SGPB` or `CGPB` is sent. So clearing
/// a bit a second time, once the controller reports it clear, sends nothing more.
pub proof fn lemma_gpnvm_change_when_already_done(
    old_ev: Seq<EfcEvent>,
    new_ev: Seq<EfcEvent>,
    gpnvm: u8,
    set: bool,
    r: Result<(), EfcError>,
)
    requires
        gpnvm < GPNVM_NUM_MAX,
        spec_gpnvm_change_outcome(old_ev, new_ev, gpnvm, set, r),
        gpnvm_query_result(new_ev, old_ev.len() as int, gpnvm) == Ok::<bool, EfcError>(set),
    ensures
        new_ev.len() == old_ev.len() + 2,
        new_ev[old_ev.len() as int]->fcr == spec_fcr(FlashCommand::Ggpb, gpnvm as u16),
        new_ev[old_ev.len() as int + 1] is Result,
        r == Ok::<(), EfcError>(()),
{
}

/// Enabling the security bit succeeds only when the controller reports it set
/// already, or when the `SGPB` command for bit 0 that is then sent succeeds.
pub proof fn lemma_security_bit_after_enabling(old_ev: Seq<EfcEvent>, new_ev: Seq<EfcEvent>, r: Result<(), EfcError>)
    requires
        spec_gpnvm_change_outcome(old_ev, new_ev, 0, true, r),
        r is Ok,
    ensures
        gpnvm_query_result(new_ev, old_ev.len() as int, 0) == Ok::<bool, EfcError>(true) || {
            &&& new_ev.len() == old_ev.len() + 3
            &&& new_ev[old_ev.len() as int + 2]->fcr == spec_fcr(FlashCommand::Sgpb, 0)
            &&& spec_status_result(new_ev[old_ev.len() as int + 2]->status) is Ok
        },
{
}

/// Whether `new_ev` extends `old_ev` by exactly one command `fcr`, and `r` is its outcome.
pub open spec fn single_command(old_ev: Seq<EfcEvent>, new_ev: Seq<EfcEvent>, fcr: u32, r: Result<(), EfcError>) -> bool {
    &&& new_ev.len() == old_ev.len() + 1
    &&& new_ev.take(old_ev.len() as int) == old_ev
    &&& new_ev.last() is Command
    &&& new_ev.last()->fcr == fcr
    &&& r == spec_status_result(new_ev.last()->status)
}

/// Whether `new_ev` extends `old_ev` by exactly one read sequence from `start_cmd` to
/// `stop_cmd` of `len` words, and `r` is its outcome (success exactly on status 0).
pub open spec fn single_read_sequence(
    old_ev: Seq<EfcEvent>,
    new_ev: Seq<EfcEvent>,
    start_cmd: FlashCommand,
    stop_cmd: FlashCommand,
    len: usize,
    ok: bool,
) -> bool {
    &&& new_ev.len() == old_ev.len() + 1
    &&& new_ev.take(old_ev.len() as int) == old_ev
    &&& new_ev.last() is ReadSequence
    &&& new_ev.last()->start_cmd == spec_command_code(start_cmd)
    &&& new_ev.last()->stop_cmd == spec_command_code(stop_cmd)
    &&& new_ev.last()->len == len
    &&& ok == (new_ev.last()->seq_status == 0)
}

/// Byte `k` (0 = most significant) of a big-endian word.
pub open spec fn be_byte(w: u32, k: int) -> u8 {
    if k == 0 { (w >> 24u32) as u8 }
    else if k == 1 { (w >> 16u32) as u8 }
    else if k == 2 { (w >> 8u32) as u8 }
    else { w as u8 }
}

/// Word `j` of a byte sequence read big-endian.
pub open spec fn be_word(b: Seq<u8>, j: int) -> u32 {
    ((b[4 * j] as u32) << 24u32) | ((b[4 * j + 1] as u32) << 16u32)
        | ((b[4 * j + 2] as u32) << 8u32) | (b[4 * j + 3] as u32)
}

/// The pages written by `write` of `len` bytes at offset 0 once its first `j` words
/// are stored: a word commits its page when it is the last one of the page, and every
/// word commits when exactly one word is written.
pub open spec fn spec_commit_pages(len: int, j: int) -> Seq<u16>
    decreases j,
{
    if j <= 0 {
        Seq::empty()
    } else {
        let prev = spec_commit_pages(len, j - 1);
        let o = 4 * (j - 1);
        if (o + 4) % (FLASH_PAGE_SIZE as int) == 0 || len == 4 {
            prev.push((o / (FLASH_PAGE_SIZE as int)) as u16)
        } else {
            prev
        }
    }
}

/// What `erase(from, to)` decides before touching the controller: nothing to do on an
/// empty range; an unordered range or one that does not end within the flash is an
/// address bounds error, and one not aligned to the erase size is refused; `None` for
/// the ranges it erases.
pub open spec fn spec_erase_refusal(from: u32, to: u32) -> Option<Result<(), EfcError>> {
    if from == to {
        Some(Ok(()))
    } else if from > to || to >= FLASH0_SIZE {
        Some(Err(EfcError::AddressBoundsError))
    } else if from % FLASH_ERASE_SIZE != 0 || to % FLASH_ERASE_SIZE != 0 {
        Some(Err(EfcError::NotWithinFlashPageBoundsError))
    } else {
        None
    }
}

/// The arguments of the page erase commands for the flash offsets from `offset` up
/// to `to` in steps of the erase size: each block's first page with the count code 1
/// (eight pages) in its low bits.
pub open spec fn spec_erase_args(offset: int, to: int) -> Seq<u16>
    decreases if offset < to { to - offset } else { 0 },
{
    if offset < to {
        seq![1u16 | ((offset / (FLASH_PAGE_SIZE as int)) as u16)] + spec_erase_args(offset + FLASH_ERASE_SIZE, to)
    } else {
        Seq::empty()
    }
}

/// Whether `new` holds the first `m` big-endian words of `b` and otherwise `old`.
pub open spec fn storage_written(new: Seq<u32>, old: Seq<u32>, b: Seq<u8>, m: int) -> bool {
    &&& new.len() == old.len()
    &&& forall|j: int| 0 <= j < new.len() ==> #[trigger] new[j] == (if j < m { be_word(b, j) } else { old[j] })
}

/// The commit pages after `j` words are a prefix of those after `k >= j` words.
pub proof fn lemma_commit_pages_prefix(len: int, j: int, k: int)
    requires 0 <= j <= k,
    ensures
        spec_commit_pages(len, j).len() <= spec_commit_pages(len, k).len(),
        forall|i: int| 0 <= i < spec_commit_pages(len, j).len()
            ==> #[trigger] spec_commit_pages(len, j)[i] == spec_commit_pages(len, k)[i],
    decreases k - j,
{
    if j < k {
        lemma_commit_pages_prefix(len, j, k - 1);
    }
}

proof fn lemma_word_bytes(b0: u8, b1: u8, b2: u8, b3: u8)
    by (bit_vector)
    ensures
        (((((b0 as u32) << 24u32) | ((b1 as u32) << 16u32) | ((b2 as u32) << 8u32) | (b3 as u32)) >> 24u32) as u8) == b0,
        (((((b0 as u32) << 24u32) | ((b1 as u32) << 16u32) | ((b2 as u32) << 8u32) | (b3 as u32)) >> 16u32) as u8) == b1,
        (((((b0 as u32) << 24u32) | ((b1 as u32) << 16u32) | ((b2 as u32) << 8u32) | (b3 as u32)) >> 8u32) as u8) == b2,
        (((((b0 as u32) << 24u32) | ((b1 as u32) << 16u32) | ((b2 as u32) << 8u32) | (b3 as u32))) as u8) == b3,
{
}

/// A read gives back what a write wrote: once the words of `bytes` (a whole number
/// of words) are stored, byte `i` of the storage as `read` takes it apart is byte
/// `i` of `bytes`.
pub proof fn lemma_read_after_write(new: Seq<u32>, old: Seq<u32>, bytes: Seq<u8>, i: int)
    requires
        bytes.len() % 4 == 0,
        bytes.len() / 4 <= old.len(),
        storage_written(new, old, bytes, (bytes.len() / 4) as int),
        0 <= i < bytes.len(),
    ensures
        be_byte(new[i / 4], i % 4) == bytes[i],
{
    let j = i / 4;
    assert(0 <= j < bytes.len() / 4);
    assert(new[j] == be_word(bytes, j));
    lemma_word_bytes(bytes[4 * j], bytes[4 * j + 1], bytes[4 * j + 2], bytes[4 * j + 3]);
    assert(i == 4 * j + i % 4);
}

/// Writing the user signature `d` over storage `old` (the storage that `free` then
/// hands back is `d + old.skip(d.len())` by `write_user_signature`) leaves the
/// storage as long as before, `d` in its first `d.len()` words and the old words
/// after them.
pub proof fn lemma_user_signature_storage(new: Seq<u32>, old: Seq<u32>, d: Seq<u32>)
    requires
        d.len() <= old.len(),
        new == d + old.skip(d.len() as int),
    ensures
        new.len() == old.len(),
        new.take(d.len() as int) == d,
        new.skip(d.len() as int) == old.skip(d.len() as int),
{
    assert(new.take(d.len() as int) =~= d);
    assert(new.skip(d.len() as int) =~= old.skip(d.len() as int));
}

/// The range a lock or unlock reports covers the requested one and is made of whole
/// lock regions.
pub proof fn lemma_lock_range_covers(start: u32, end: u32)
    requires
        end - end % FLASH_LOCK_REGION_SIZE + FLASH_LOCK_REGION_SIZE - 1 <= u32::MAX,
    ensures
        spec_lock_range(start, end).0 <= start,
        end <= spec_lock_range(start, end).1,
        spec_lock_range(start, end).0 % FLASH_LOCK_REGION_SIZE == 0,
        (spec_lock_range(start, end).1 + 1) % (FLASH_LOCK_REGION_SIZE as int) == 0,
{
}

/// The pages a lock or unlock issues its command for are the first pages of exactly
/// the regions from the one holding the rounded start to the one holding the rounded
/// end: `16 * k` for each such region `k`, in order.
pub proof fn lemma_lock_pages_are_regions(start_page: int, end_page: int)
    requires
        0 <= start_page <= end_page + 1,
        end_page < 4096,
        start_page % 16 == 0,
        end_page % 16 == 15,
    ensures
        spec_region_pages(start_page, end_page) =~= Seq::new(
            ((end_page / 16) - (start_page / 16) + 1) as nat,
            |i: int| (16 * (start_page / 16 + i)) as u16,
        ),
    decreases end_page + 1 - start_page,
{
    if start_page < end_page {
        lemma_lock_pages_are_regions(start_page + 16, end_page);
    }
}

/// Whether `is_locked(start, end)` is refused for its range before touching the controller.
pub open spec fn is_locked_out_of_bounds(start: u32, end: u32) -> bool {
    end < start || start < FLASH0_ADDR || end > FLASH0_ADDR + FLASH0_SIZE
}

/// The lock region of a flash address: its page over the 16 pages of a region.
pub open spec fn spec_region_of(address: u32) -> int {
    ((address - FLASH0_ADDR) / (FLASH_PAGE_SIZE as int)) / 16
}

/// Whether region `r` is locked according to the lock bit words `words`: bit
/// `r % 32` of word `r / 32`.
pub open spec fn region_locked(words: Seq<u32>, r: int) -> bool {
    words[r / 32] & (1u32 << ((r % 32) as u32)) != 0
}

/// The number of locked regions among `from..to`.
pub open spec fn locked_count(words: Seq<u32>, from: int, to: int) -> nat
    decreases to - from,
{
    if to <= from {
        0
    } else {
        locked_count(words, from, to - 1) + (if region_locked(words, to - 1) { 1nat } else { 0nat })
    }
}

/// The values of the result reads recorded from event `from` on.
pub open spec fn result_values(ev: Seq<EfcEvent>, from: int) -> Seq<u32> {
    Seq::new((ev.len() - from) as nat, |i: int| ev[from + i]->value)
}

/// Counting regions below `to` does not look at words past the one of region `to - 1`.
proof fn lemma_locked_count_push(words: Seq<u32>, w: u32, from: int, to: int)
    requires
        0 <= from,
        to <= 32 * words.len(),
    ensures
        locked_count(words.push(w), from, to) == locked_count(words, from, to),
    decreases to - from,
{
    if to > from {
        lemma_locked_count_push(words, w, from, to - 1);
        assert((to - 1) / 32 < words.len());
        assert(words.push(w)[(to - 1) / 32] == words[(to - 1) / 32]);
    }
}

/// Offset past the last full word of a read of `len` bytes at `offset`.
pub open spec fn read_last_offset(offset: int, len: int) -> int {
    offset + len - len % 4
}

/// Whether `read(offset, ..)` of `len` bytes is accepted: word aligned, and the
/// rounded-up read (always at least one word longer than whole words) within the flash.
pub open spec fn read_accepted(offset: int, len: int) -> bool {
    offset % 4 == 0 && offset + len + (4 - len % 4) <= FLASH0_SIZE
}

/// Whether `write(offset, ..)` of `len` bytes is word aligned.
pub open spec fn write_aligned(offset: int, len: int) -> bool {
    offset % 4 == 0 && len % 4 == 0
}

impl<P: FlashCommandPort> Efc<P> {
    /// Everything the driver did at the flash controller so far, oldest first.
    pub closed spec fn events(&self) -> Seq<EfcEvent> {
        self.events@
    }

    /// The words of the memory-mapped flash area the driver reads and writes.
    pub closed spec fn storage(&self) -> Seq<u32> {
        self.storage@
    }

    /// The controller port the driver works through.
    pub closed spec fn port(&self) -> P {
        self.port
    }

    /// Takes ownership of the controller port and storage area
    pub fn new(port: P, storage: &'static mut [u32]) -> (r: Self)
        ensures
            r.port() == port,
            r.storage() == old(storage)@,
            r.events() == Seq::<EfcEvent>::empty(),
    {
        Efc { port, storage, events: Ghost(Seq::empty()) }
    }

    /// Consumes `self` and returns back the controller port and associated storage
    pub fn free(self) -> (r: (P, &'static mut [u32]))
        ensures
            r.0 == self.port(),
            r.1@ == self.storage(),
    {
        (self.port, self.storage)
    }

    /// Translate the given flash address to page and offset values
    /// Returns: (page, offset, bank)
    fn translate_address(&self, address: u32) -> (r: Result<(u16, u16, u8), EfcError>)
        ensures r == spec_translate_address(address),
    {
        if address < FLASH0_ADDR || address > FLASH0_ADDR + FLASH0_SIZE {
            return Err(EfcError::AddressBoundsError);
        }
        let page = (address - FLASH0_ADDR) / FLASH_PAGE_SIZE;
        let offset = (address - FLASH0_ADDR) % FLASH_PAGE_SIZE;
        Ok((page as u16, offset as u16, 0))
    }

    /// Compute the lock range associated with the given address range
    /// Returns: (actual_start, actual_end)
    fn compute_lock_range(&self, start: u32, end: u32) -> (r: (u32, u32))
        requires end - end % FLASH_LOCK_REGION_SIZE + FLASH_LOCK_REGION_SIZE - 1 <= u32::MAX,
        ensures r == spec_lock_range(start, end),
    {
        let actual_start = start - (start % FLASH_LOCK_REGION_SIZE);
        let actual_end = end - (end % FLASH_LOCK_REGION_SIZE) + (FLASH_LOCK_REGION_SIZE - 1);
        (actual_start, actual_end)
    }

    /// Convenience function to issue a command through the port.
    fn efc_fcr_command(&mut self, command: FlashCommand, argument: u16) -> (r: Result<(), EfcError>)
        ensures
            final(self).storage() == old(self).storage(),
            final(self).events().len() == old(self).events().len() + 1,
            final(self).events().take(old(self).events().len() as int) == old(self).events(),
            final(self).events().last() is Command,
            final(self).events().last()->fcr == spec_fcr(command, argument),
            r == spec_status_result(final(self).events().last()->status),
    {
        let fcr_cmd: u32 = (FKEY_PASSWD << 24u32) | ((argument as u32) << 8u32) | command_code(command);
        let status = self.port.perform_fcr(fcr_cmd);
        proof {
            self.events@ = self.events@.push(EfcEvent::Command { fcr: fcr_cmd, status });
            assert(self.events@.take(old(self).events@.len() as int) =~= old(self).events@);
        }
        if status & 2 != 0 {
            Err(EfcError::CommandError)
        } else if status & 4 != 0 {
            Err(EfcError::LockError)
        } else if status & 8 != 0 {
            Err(EfcError::FlashError)
        } else {
            Ok(())
        }
    }

    /// Perform the given command and wait until its completion (or an error).
    /// Unique ID commands are not supported here; they need a read sequence.
    fn efc_perform_command(&mut self, command: FlashCommand, argument: u16) -> (r: Result<(), EfcError>)
        ensures
            final(self).storage() == old(self).storage(),
            command == FlashCommand::Stui || command == FlashCommand::Spui ==> {
                &&& r == Err::<(), EfcError>(EfcError::UnsupportedCommandError)
                &&& final(self).events() == old(self).events()
            },
            !(command == FlashCommand::Stui || command == FlashCommand::Spui) ==> {
                &&& final(self).events().len() == old(self).events().len() + 1
                &&& final(self).events().take(old(self).events().len() as int) == old(self).events()
                &&& final(self).events().last() is Command
                &&& final(self).events().last()->fcr == spec_fcr(command, argument)
                &&& r == spec_status_result(final(self).events().last()->status)
            },
    {
        match command {
            FlashCommand::Stui | FlashCommand::Spui => {
                return Err(EfcError::UnsupportedCommandError);
            },
            _ => {},
        }
        self.efc_fcr_command(command, argument)
    }

    /// Issues `cmd` (set or clear lock bit) for each lock region in the given range.
    fn lock_regions(&mut self, cmd: FlashCommand, start: u32, end: u32) -> (r: Result<(u32, u32), EfcError>)
        requires
            cmd == FlashCommand::Slb || cmd == FlashCommand::Clb,
            end - end % FLASH_LOCK_REGION_SIZE + FLASH_LOCK_REGION_SIZE - 1 <= u32::MAX,
        ensures
            final(self).storage() == old(self).storage(),
            spec_lock_outcome(old(self).events(), final(self).events(), cmd, start, end, r),
    {
        let num_pages_in_region = (FLASH_LOCK_REGION_SIZE / FLASH_PAGE_SIZE) as u16;

        // Compute actual lock range
        let (actual_start, actual_end) = self.compute_lock_range(start, end);

        // Determine page numbers
        let (mut start_page, _, _bank) = self.translate_address(actual_start)?;
        let (end_page, _, _) = self.translate_address(actual_end)?;

        let ghost first_page = start_page;
        let ghost pages = spec_region_pages(first_page as int, end_page as int);
        let ghost old_len = old(self).events@.len();
        let ghost mut done: Seq<u16> = Seq::empty();
        proof {
            assert(done + spec_region_pages(start_page as int, end_page as int) =~= pages);
            assert(self.events@.take(old_len as int) =~= old(self).events@);
        }

        // Lock computed pages
        while start_page < end_page
            invariant
                cmd == FlashCommand::Slb || cmd == FlashCommand::Clb,
                spec_lock_range(start, end) == (actual_start, actual_end),
                spec_translate_address(actual_start) matches Ok((sp, _, _)) && sp == first_page,
                spec_translate_address(actual_end) matches Ok((ep, _, _)) && ep == end_page,
                num_pages_in_region == 16,
                end_page <= 2048,
                start_page <= 2048 + 16,
                pages == spec_region_pages(first_page as int, end_page as int),
                done + spec_region_pages(start_page as int, end_page as int) == pages,
                self.storage@ == old(self).storage@,
                old_len == old(self).events@.len(),
                self.events@.len() == old_len + done.len(),
                self.events@.take(old_len as int) == old(self).events@,
                forall|i: int| 0 <= i < done.len() ==> (#[trigger] self.events@[old_len + i] is Command
                    && self.events@[old_len + i]->fcr == spec_fcr(cmd, done[i])
                    && spec_status_result(self.events@[old_len + i]->status) is Ok),
            decreases 3000 - start_page,
        {
            let ghost prev = self.events@;
            proof {
                assert(spec_region_pages(start_page as int, end_page as int)
                    == seq![start_page] + spec_region_pages(start_page + 16, end_page as int));
            }
            let res = self.efc_perform_command(cmd, start_page);
            proof {
                assert(self.events@.take(prev.len() as int) == prev);
                assert forall|i: int| 0 <= i < done.len() implies #[trigger] self.events@[old_len + i] == prev[old_len + i] by {
                    assert(self.events@.take(prev.len() as int)[old_len + i] == prev[old_len + i]);
                }
                assert(self.events@.take(old_len as int) =~= old(self).events@) by {
                    assert forall|j: int| 0 <= j < old_len implies self.events@.take(old_len as int)[j] == old(self).events@[j] by {
                        assert(self.events@.take(prev.len() as int)[j] == prev[j]);
                        assert(prev.take(old_len as int)[j] == old(self).events@[j]);
                    }
                }
            }
            if let Err(e) = res {
                proof {
                    let batch = self.events@.skip(old_len as int);
                    assert(batch.len() == done.len() + 1);
                    assert(pages[done.len() as int] == start_page);
                    assert forall|i: int| 0 <= i < batch.len() implies (#[trigger] batch[i] is Command
                        && batch[i]->fcr == spec_fcr(cmd, pages[i])) by {
                        if i < done.len() {
                            assert(batch[i] == self.events@[old_len + i]);
                            assert(pages[i] == done[i]);
                        }
                    }
                    assert forall|i: int| 0 <= i < batch.len() - 1 implies spec_status_result(#[trigger] batch[i]->status) is Ok by {
                        assert(batch[i] == self.events@[old_len + i]);
                    }
                    assert(batch.last() == self.events@.last());
                    assert(batch_result(batch) == Err::<(), EfcError>(e));
                    assert(is_command_batch(batch, cmd, pages));
                    assert(self.events@.len() >= old_len);
                    assert(self.events@.take(old_len as int) == old(self).events@);
                    assert(spec_translate_address(actual_start) matches Ok((sp, _, _)) && sp == first_page);
                    assert(spec_translate_address(actual_end) matches Ok((ep, _, _)) && ep == end_page);
                }
                return Err(e);
            }
            proof {
                let new_done = done.push(start_page);
                assert(new_done + spec_region_pages(start_page + 16, end_page as int) =~= pages);
                assert forall|i: int| 0 <= i < new_done.len() implies (#[trigger] self.events@[old_len + i] is Command
                    && self.events@[old_len + i]->fcr == spec_fcr(cmd, new_done[i])
                    && spec_status_result(self.events@[old_len + i]->status) is Ok) by {
                    if i < done.len() {
                        assert(new_done[i] == done[i]);
                    }
                }
                done = new_done;
            }
            start_page += num_pages_in_region;
        }
        proof {
            assert(spec_region_pages(start_page as int, end_page as int) =~= Seq::<u16>::empty());
            assert(done =~= pages);
            let batch = self.events@.skip(old_len as int);
            assert forall|i: int| 0 <= i < batch.len() implies (#[trigger] batch[i] is Command
                && batch[i]->fcr == spec_fcr(cmd, pages[i])) by {
                assert(batch[i] == self.events@[old_len + i]);
            }
            assert forall|i: int| 0 <= i < batch.len() - 1 implies spec_status_result(#[trigger] batch[i]->status) is Ok by {
                assert(batch[i] == self.events@[old_len + i]);
            }
            if batch.len() > 0 {
                let k = batch.len() - 1;
                assert(batch.last() == self.events@[old_len + k]);
                assert(spec_status_result(self.events@[old_len + k]->status) is Ok);
            }
            assert(batch_result(batch) is Ok);
            assert(is_command_batch(batch, cmd, pages));
            assert(self.events@.len() >= old_len);
        }

        Ok((actual_start, actual_end))
    }

    /// Get result of last executed EFC command
    fn efc_get_result(&mut self) -> (r: u32)
        ensures
            final(self).storage() == old(self).storage(),
            final(self).events() == old(self).events().push(EfcEvent::Result { value: r }),
    {
        let value = self.port.read_result();
        proof {
            self.events@ = self.events@.push(EfcEvent::Result { value });
        }
        value
    }

    /// Check if the given GPNVM bit is set or not
    pub fn is_gpnvm_set(&mut self, gpnvm: u8) -> (r: Result<bool, EfcError>)
        ensures
            final(self).storage() == old(self).storage(),
            spec_gpnvm_query_outcome(old(self).events(), final(self).events(), gpnvm, r),
    {
        // Make sure this is a valid gpnvm bit
        if gpnvm >= GPNVM_NUM_MAX {
            return Err(EfcError::InvalidGpnvmBitError);
        }
        let ghost n = self.events@.len() as int;

        // Retrieve bit status
        let res = self.efc_perform_command(FlashCommand::Ggpb, gpnvm as u16);
        if let Err(e) = res {
            return Err(e);
        }
        let ghost mid = self.events@;
        let gpnvm_bits = self.efc_get_result();
        proof {
            assert(self.events@.take(n) =~= old(self).events@) by {
                assert(self.events@.take(n) =~= mid.take(n));
            }
            assert(self.events@[n] == mid[n]);
        }

        // Check bit
        Ok(gpnvm_bits & (1u32 << gpnvm) != 0)
    }

    /// Set the given GPNVM bit
    pub fn set_gpnvm(&mut self, gpnvm: u8) -> (r: Result<(), EfcError>)
        ensures
            final(self).storage() == old(self).storage(),
            spec_gpnvm_change_outcome(old(self).events(), final(self).events(), gpnvm, true, r),
    {
        // Make sure this is a valid gpnvm bit
        if gpnvm >= GPNVM_NUM_MAX {
            return Err(EfcError::InvalidGpnvmBitError);
        }
        let ghost n = self.events@.len() as int;

        // Check to see if the bit is already set
        let is_set = self.is_gpnvm_set(gpnvm);
        match is_set {
            Err(e) => return Err(e),
            Ok(true) => return Ok(()),
            Ok(false) => {},
        }
        let ghost mid = self.events@;

        // Attempt to set the bit
        let r = self.efc_perform_command(FlashCommand::Sgpb, gpnvm as u16);
        proof {
            assert(self.events@.take(n) =~= old(self).events@) by {
                assert(self.events@.take(n) =~= mid.take(n));
            }
            assert(self.events@[n] == mid[n]);
            assert(self.events@[n + 1] == mid[n + 1]);
        }
        r
    }

    /// Clear the given GPNVM bit
    pub fn clear_gpnvm(&mut self, gpnvm: u8) -> (r: Result<(), EfcError>)
        ensures
            final(self).storage() == old(self).storage(),
            spec_gpnvm_change_outcome(old(self).events(), final(self).events(), gpnvm, false, r),
    {
        // Make sure this is a valid gpnvm bit
        if gpnvm >= GPNVM_NUM_MAX {
            return Err(EfcError::InvalidGpnvmBitError);
        }
        let ghost n = self.events@.len() as int;

        // Check to see if the bit is already clear
        let is_set = self.is_gpnvm_set(gpnvm);
        match is_set {
            Err(e) => return Err(e),
            Ok(false) => return Ok(()),
            Ok(true) => {},
        }
        let ghost mid = self.events@;

        // Attempt to clear the bit
        let r = self.efc_perform_command(FlashCommand::Cgpb, gpnvm as u16);
        proof {
            assert(self.events@.take(n) =~= old(self).events@) by {
                assert(self.events@.take(n) =~= mid.take(n));
            }
            assert(self.events@[n] == mid[n]);
            assert(self.events@[n + 1] == mid[n + 1]);
        }
        r
    }

    /// Set security bit (GPNVM bit 0)
    pub fn enable_security_bit(&mut self) -> (r: Result<(), EfcError>)
        ensures
            final(self).storage() == old(self).storage(),
            spec_gpnvm_change_outcome(old(self).events(), final(self).events(), 0, true, r),
    {
        self.set_gpnvm(0)
    }

    /// Check if security bit (GPNVM bit 0) is enabled
    pub fn is_security_bit_enabled(&mut self) -> (r: Result<bool, EfcError>)
        ensures
            final(self).storage() == old(self).storage(),
            spec_gpnvm_query_outcome(old(self).events(), final(self).events(), 0, r),
    {
        self.is_gpnvm_set(0)
    }

    /// Perform a read sequence (read unique id or read user signature) of `len`
    /// words into `bytes`.
    fn efc_perform_read_sequence(
        &mut self,
        start_cmd: FlashCommand,
        stop_cmd: FlashCommand,
        bytes: &mut [u32],
        len: usize,
    ) -> (r: Result<(), EfcError>)
        ensures
            final(self).storage() == old(self).storage(),
            old(bytes)@.len() < len ==> final(self).events() == old(self).events()
                && r == Err::<(), EfcError>(EfcError::InvalidBufferSizeError),
            old(bytes)@.len() >= len ==> single_read_sequence(
                old(self).events(), final(self).events(), start_cmd, stop_cmd, len, r is Ok)
                && (r is Err ==> r == Err::<(), EfcError>(EfcError::InvalidBufferSizeError))
                && final(self).events().last()->words@ == final(bytes)@,
            old(bytes)@.len() < len ==> final(bytes)@ == old(bytes)@,
    {
        // Check incoming buffer size
        if bytes.len() < len {
            return Err(EfcError::InvalidBufferSizeError);
        }

        let start_code = command_code(start_cmd);
        let stop_code = command_code(stop_cmd);
        let status = self.port.perform_read_sequence(start_code, stop_code, bytes, len);
        proof {
            self.events@ = self.events@.push(EfcEvent::ReadSequence {
                start_cmd: start_code,
                stop_cmd: stop_code,
                len,
                seq_status: status,
                words: Ghost(bytes@),
            });
            assert(self.events@.take(old(self).events@.len() as int) =~= old(self).events@);
        }

        if status != 0 {
            // The only possible error is a null pointer check for bytes buffer
            Err(EfcError::InvalidBufferSizeError)
        } else {
            Ok(())
        }
    }

    /// Read the flash unique ID
    pub fn read_unique_id(&mut self) -> (r: Result<[u32; 4], EfcError>)
        ensures
            final(self).storage() == old(self).storage(),
            single_read_sequence(old(self).events(), final(self).events(),
                FlashCommand::Stui, FlashCommand::Spui, 4, r is Ok),
            r is Err ==> r == Err::<[u32; 4], EfcError>(EfcError::InvalidBufferSizeError),
            final(self).events().last()->words@.len() == 4,
            r matches Ok(uid) ==> uid@ == final(self).events().last()->words@,
    {
        // Read into uid
        let mut uid: [u32; 4] = [0; 4];
        let res = self.efc_perform_read_sequence(FlashCommand::Stui, FlashCommand::Spui, &mut uid, 4);
        match res {
            Ok(()) => Ok(uid),
            Err(e) => Err(e),
        }
    }

    /// Read the flash user signature (at most 128 words) into `data`.
    pub fn read_user_signature(&mut self, data: &mut [u32], len: usize) -> (r: Result<(), EfcError>)
        ensures
            final(self).storage() == old(self).storage(),
            len > USER_SIG_FLASH_SIZE / 4 ==> final(self).events() == old(self).events()
                && r == Err::<(), EfcError>(EfcError::InvalidUserSignatureSizeError),
            len <= USER_SIG_FLASH_SIZE / 4 && old(data)@.len() < len ==> final(self).events() == old(self).events()
                && r == Err::<(), EfcError>(EfcError::InvalidBufferSizeError),
            len <= USER_SIG_FLASH_SIZE / 4 && old(data)@.len() >= len ==> single_read_sequence(
                old(self).events(), final(self).events(), FlashCommand::Stus, FlashCommand::Spus, len, r is Ok)
                && (r is Err ==> r == Err::<(), EfcError>(EfcError::InvalidBufferSizeError))
                && final(self).events().last()->words@.len() == USER_SIG_FLASH_SIZE / 4,
            len <= USER_SIG_FLASH_SIZE / 4 && old(data)@.len() >= len && r is Ok ==> final(data)@
                == final(self).events().last()->words@.take(len as int) + old(data)@.skip(len as int),
            r is Err ==> final(data)@ == old(data)@,
    {
        // Make sure we're only reading at most 512 bytes
        if len > (USER_SIG_FLASH_SIZE / 4) as usize {
            return Err(EfcError::InvalidUserSignatureSizeError);
        }
        if data.len() < len {
            return Err(EfcError::InvalidBufferSizeError);
        }

        // Read user signature into a buffer of the signature's size, then hand over
        // the words read
        let mut signature: [u32; 128] = [0; 128];
        let res = self.efc_perform_read_sequence(FlashCommand::Stus, FlashCommand::Spus, &mut signature, len);
        if res.is_err() {
            return res;
        }
        let ghost words = signature@;
        let ghost d0 = data@;
        assert(words == self.events@.last()->words@);
        let mut i: usize = 0;
        while i < len
            invariant
                i <= len,
                len <= 128,
                len <= d0.len(),
                signature@ == words,
                words.len() == 128,
                data@.len() == d0.len(),
                forall|k: int| 0 <= k < d0.len() ==> #[trigger] data@[k] == (if k < i { words[k] } else { d0[k] }),
            decreases len - i,
        {
            data[i] = signature[i];
            i += 1;
        }
        assert(data@ =~= words.take(len as int) + d0.skip(len as int));
        Ok(())
    }

    /// Write the flash user signature (at most 128 words).
    pub fn write_user_signature(&mut self, data: &[u32]) -> (r: Result<(), EfcError>)
        requires
            data@.len() <= USER_SIG_FLASH_SIZE / 4 ==> data@.len() <= old(self).storage().len(),
        ensures
            data@.len() > USER_SIG_FLASH_SIZE / 4 ==> final(self).events() == old(self).events()
                && final(self).storage() == old(self).storage()
                && r == Err::<(), EfcError>(EfcError::InvalidUserSignatureSizeError),
            data@.len() <= USER_SIG_FLASH_SIZE / 4 ==> {
                &&& final(self).storage() == data@ + old(self).storage().skip(data@.len() as int)
                &&& single_command(old(self).events(), final(self).events(),
                    spec_fcr(FlashCommand::Wus, 0), r)
            },
    {
        // Make sure the signature does not exceed the max size
        if data.len() > (USER_SIG_FLASH_SIZE / 4) as usize {
            return Err(EfcError::InvalidUserSignatureSizeError);
        }

        // Must write signature in chunks of 32-bits (does not support 8 or 16-bit writes)
        let n = data.len();
        let mut i: usize = 0;
        while i < n
            invariant
                n == data@.len(),
                i <= n,
                n <= self.storage@.len(),
                self.storage@.len() == old(self).storage@.len(),
                self.events == old(self).events,
                forall|j: int| 0 <= j < i ==> self.storage@[j] == data@[j],
                forall|j: int| i <= j < self.storage@.len() ==> self.storage@[j] == old(self).storage@[j],
            decreases n - i,
        {
            self.storage[i] = data[i];
            i += 1;
        }
        proof {
            assert(self.storage@ =~= data@ + old(self).storage@.skip(n as int));
        }

        // Send the write signature command
        self.efc_perform_command(FlashCommand::Wus, 0)
    }

    /// Erase the flash user signature
    pub fn erase_user_signature(&mut self) -> (r: Result<(), EfcError>)
        ensures
            final(self).storage() == old(self).storage(),
            single_command(old(self).events(), final(self).events(), spec_fcr(FlashCommand::Eus, 0), r),
    {
        self.efc_perform_command(FlashCommand::Eus, 0)
    }

    /// Size of the flash in bytes.
    pub fn capacity(&self) -> (r: usize)
        ensures r == FLASH0_SIZE,
    {
        FLASH0_SIZE as usize
    }

    /// Get the number of locked regions inside the given address range: a range
    /// outside the flash (or with its end before its start) issues nothing and is an
    /// address bounds error; otherwise the lock bits are asked for with `GLB`, and on
    /// success the result words are read, from the first up to the one holding the
    /// end's region, and the regions from the start's to the end's whose bits are set
    /// are counted.
    pub fn is_locked(&mut self, start: u32, end: u32) -> (r: Result<u32, EfcError>)
        ensures
            final(self).storage() == old(self).storage(),
            is_locked_out_of_bounds(start, end) ==> final(self).events() == old(self).events()
                && r == Err::<u32, EfcError>(EfcError::AddressBoundsError),
            !is_locked_out_of_bounds(start, end) ==> {
                let n = old(self).events().len() as int;
                let ev = final(self).events();
                let er = spec_region_of(end);
                &&& ev.len() > n
                &&& ev.take(n) == old(self).events()
                &&& ev[n] is Command
                &&& ev[n]->fcr == spec_fcr(FlashCommand::Glb, 0)
                &&& match spec_status_result(ev[n]->status) {
                    Err(e) => ev.len() == n + 1 && r == Err::<u32, EfcError>(e),
                    Ok(_) => {
                        &&& ev.len() == n + 1 + er / 32 + 1
                        &&& forall|i: int| n + 1 <= i < ev.len() ==> #[trigger] ev[i] is Result
                        &&& r == Ok::<u32, EfcError>(
                            locked_count(result_values(ev, n + 1), spec_region_of(start), er + 1) as u32)
                    },
                }
            },
    {
        if end < start || start < FLASH0_ADDR || end > FLASH0_ADDR + FLASH0_SIZE {
            return Err(EfcError::AddressBoundsError);
        }

        // Compute page numbers
        let (start_page, _, _bank) = match self.translate_address(start) {
            Ok(t) => t,
            Err(e) => return Err(e),
        };
        let (end_page, _, _) = match self.translate_address(end) {
            Ok(t) => t,
            Err(e) => return Err(e),
        };

        // Compute region numbers
        let num_pages_in_region = FLASH_LOCK_REGION_SIZE / FLASH_PAGE_SIZE;
        let start_region = start_page as u32 / num_pages_in_region;
        let end_region = end_page as u32 / num_pages_in_region;
        proof {
            assert(start_page <= 2048 && end_page <= 2048);
            assert(start_page <= end_page) by (nonlinear_arith)
                requires
                    start <= end,
                    start >= FLASH0_ADDR,
                    start_page == (start - FLASH0_ADDR) / 512,
                    end_page == (end - FLASH0_ADDR) / 512;
            assert(start_region <= end_region) by (nonlinear_arith)
                requires
                    start_page <= end_page,
                    start_region == start_page / 16,
                    end_region == end_page / 16;
        }
        let ghost n = self.events@.len() as int;

        // Retrieve lock status
        let res = self.efc_perform_command(FlashCommand::Glb, 0);
        if let Err(e) = res {
            return Err(e);
        }
        let ghost prefix = self.events@;

        // Skip the words before the one holding the start's region
        let mut status = self.efc_get_result();
        let mut word: u32 = 0;
        let ghost mut words: Seq<u32> = seq![status];
        proof {
            assert(self.events@ =~= prefix + words.map_values(|v: u32| EfcEvent::Result { value: v }));
        }
        while word < start_region / 32
            invariant
                word <= start_region / 32,
                start_region <= 128,
                words.len() == word + 1,
                status == words[word as int],
                prefix.len() == n + 1,
                self.events@ == prefix + words.map_values(|v: u32| EfcEvent::Result { value: v }),
                self.storage@ == old(self).storage@,
            decreases start_region / 32 - word,
        {
            status = self.efc_get_result();
            word += 1;
            proof {
                words = words.push(status);
                assert(self.events@ =~= prefix + words.map_values(|v: u32| EfcEvent::Result { value: v }));
            }
        }

        // Count the locked regions, reading the next word where a region starts one
        let mut region: u32 = start_region;
        let mut num_locked_regions: u32 = 0;
        while region <= end_region
            invariant
                start_region <= region <= end_region + 1,
                end_region <= 128,
                word == (if region == start_region { start_region / 32 } else { ((region - 1) / 32) as u32 }),
                words.len() == word + 1,
                status == words[word as int],
                num_locked_regions == locked_count(words, start_region as int, region as int),
                num_locked_regions <= region - start_region,
                prefix.len() == n + 1,
                self.events@ == prefix + words.map_values(|v: u32| EfcEvent::Result { value: v }),
                self.storage@ == old(self).storage@,
            decreases end_region + 1 - region,
        {
            if region % 32 == 0 && region != start_region {
                status = self.efc_get_result();
                word += 1;
                proof {
                    lemma_locked_count_push(words, status, start_region as int, region as int);
                    words = words.push(status);
                    assert(self.events@ =~= prefix + words.map_values(|v: u32| EfcEvent::Result { value: v }));
                }
            }
            assert(word == region / 32);
            if status & (1u32 << (region % 32)) != 0 {
                num_locked_regions += 1;
            }
            region += 1;
        }
        proof {
            let ev = self.events@;
            assert(ev.take(n) =~= old(self).events@) by {
                assert(prefix.take(n) =~= old(self).events@);
                assert forall|i: int| 0 <= i < n implies ev[i] == prefix[i] by {}
            }
            assert(ev[n] == prefix[n]);
            assert(result_values(ev, n + 1) =~= words);
            assert(spec_region_of(start) == start_region as int);
            assert(spec_region_of(end) == end_region as int);
        }
        Ok(num_locked_regions)
    }

    /// Reads `bytes.len()` bytes of flash starting at `offset` (relative to the flash
    /// start), most significant byte of each word first, after waiting for the
    /// controller to be ready. The read is rounded up to a whole word past the last
    /// full word and must fit within the flash.
    pub fn read(&mut self, offset: u32, bytes: &mut [u8]) -> (r: Result<(), EfcError>)
        requires
            offset + old(bytes)@.len() + 4 <= usize::MAX,
            read_accepted(offset as int, old(bytes)@.len() as int) ==> {
                let last = read_last_offset(offset as int, old(bytes)@.len() as int);
                &&& last / 4 < old(self).storage().len()
                &&& (old(bytes)@.len() < 4 || last <= old(bytes)@.len())
            },
        ensures
            final(self).storage() == old(self).storage(),
            final(self).events() == old(self).events(),
            r is Ok <==> read_accepted(offset as int, old(bytes)@.len() as int),
            r is Err ==> r == Err::<(), EfcError>(EfcError::Unaligned) && final(bytes)@ == old(bytes)@,
            final(bytes)@.len() == old(bytes)@.len(),
            r is Ok ==> forall|i: int| 0 <= i < old(bytes)@.len() ==> #[trigger] final(bytes)@[i] == (
                if offset <= i < read_last_offset(offset as int, old(bytes)@.len() as int) + 4 {
                    be_byte(old(self).storage()[i / 4], i % 4)
                } else {
                    old(bytes)@[i]
                }),
    {
        let offset = offset as usize;
        let bytes_len = bytes.len();
        let read_len = bytes_len + (4 - (bytes_len % 4));
        let target_offset = offset + read_len;
        if offset % 4 == 0 && target_offset <= self.capacity() {
            self.port.wait_ready();
            let last_offset = target_offset - 4;
            let ghost b0 = bytes@;
            let ghost st = self.storage@;
            let mut o = offset;
            while o < last_offset
                invariant
                    offset % 4 == 0,
                    o % 4 == 0,
                    offset <= o,
                    o <= last_offset || last_offset <= offset,
                    o == offset || o <= last_offset,
                    last_offset == read_last_offset(offset as int, bytes_len as int),
                    last_offset % 4 == 0,
                    last_offset / 4 < st.len(),
                    bytes_len < 4 || last_offset <= bytes_len,
                    bytes_len == b0.len(),
                    bytes@.len() == bytes_len,
                    st == self.storage@,
                    self.events == old(self).events,
                    forall|i: int| 0 <= i < bytes_len ==> #[trigger] bytes@[i] == (
                        if offset <= i < o { be_byte(st[i / 4], i % 4) } else { b0[i] }),
                decreases last_offset - o,
            {
                proof {
                    assert(o >> 2 == o / 4) by (bit_vector);
                    assert(o / 4 < last_offset / 4);
                }
                let word = self.storage[o >> 2];
                bytes[o] = (word >> 24u32) as u8;
                bytes[o + 1] = (word >> 16u32) as u8;
                bytes[o + 2] = (word >> 8u32) as u8;
                bytes[o + 3] = (word) as u8;
                proof {
                    assert forall|i: int| 0 <= i < bytes_len implies #[trigger] bytes@[i] == (
                        if offset <= i < o + 4 { be_byte(st[i / 4], i % 4) } else { b0[i] }) by {
                        if o <= i < o + 4 {
                            assert(i / 4 == o / 4);
                        }
                    }
                }
                o += 4;
            }
            let o = last_offset;
            proof {
                assert(o >> 2 == o / 4) by (bit_vector);
            }
            let word = self.storage[o >> 2];
            let mut bytes_offset = o;
            if bytes_offset < bytes_len {
                bytes[bytes_offset] = (word >> 24u32) as u8;
                bytes_offset += 1;
                if bytes_offset < bytes_len {
                    bytes[bytes_offset] = (word >> 16u32) as u8;
                    bytes_offset += 1;
                    if bytes_offset < bytes_len {
                        bytes[bytes_offset] = (word >> 8u32) as u8;
                        bytes_offset += 1;
                        if bytes_offset < bytes_len {
                            bytes[bytes_offset] = (word) as u8;
                        }
                    }
                }
            }
            proof {
                assert forall|i: int| 0 <= i < bytes_len implies #[trigger] bytes@[i] == (
                    if offset <= i < last_offset + 4 { be_byte(st[i / 4], i % 4) } else { b0[i] }) by {
                    if last_offset <= i < last_offset + 4 {
                        assert(i / 4 == last_offset / 4);
                    }
                }
            }
            Ok(())
        } else {
            Err(EfcError::Unaligned)
        }
    }

    /// Erases a range of flash offsets. Will not succeed if the erase bounds are not
    /// set to an allowed boundary; on an allowed range each block of the erase size is
    /// erased with one page erase command, in order, stopping at the first that fails.
    pub fn erase(&mut self, from: u32, to: u32) -> (r: Result<(), EfcError>)
        ensures
            final(self).storage() == old(self).storage(),
            spec_erase_refusal(from, to) matches Some(res) ==> final(self).events() == old(self).events()
                && r == res,
            spec_erase_refusal(from, to) is None ==> {
                let n = old(self).events().len() as int;
                let batch = final(self).events().skip(n);
                &&& final(self).events().len() >= n
                &&& final(self).events().take(n) == old(self).events()
                &&& is_command_batch(batch, FlashCommand::Epa, spec_erase_args(from as int, to as int))
                &&& r == batch_result(batch)
            },
    {
        // Nothing to do
        if from == to {
            return Ok(());
        }

        // From must be smaller than to
        if from > to {
            return Err(EfcError::AddressBoundsError);
        }

        // Make sure we're within the address bounds
        if to >= FLASH0_SIZE {
            return Err(EfcError::AddressBoundsError);
        }

        // Check if erasing entire flash
        if from == 0 && to == FLASH0_SIZE {
            return self.efc_perform_command(FlashCommand::Ea, 0);
        }

        // Flash must be a multiple of the erase size
        if from % FLASH_ERASE_SIZE != 0 || to % FLASH_ERASE_SIZE != 0 {
            return Err(EfcError::NotWithinFlashPageBoundsError);
        }

        let ghost args = spec_erase_args(from as int, to as int);
        let ghost old_len = old(self).events@.len();
        let ghost mut done: Seq<u16> = Seq::empty();
        proof {
            assert(done + spec_erase_args(from as int, to as int) =~= args);
            assert(self.events@.take(old_len as int) =~= old(self).events@);
        }

        let mut address = from;
        while address < to
            invariant
                from <= address <= to,
                from % FLASH_ERASE_SIZE == 0,
                address % FLASH_ERASE_SIZE == 0,
                to % FLASH_ERASE_SIZE == 0,
                to < FLASH0_SIZE,
                args == spec_erase_args(from as int, to as int),
                done + spec_erase_args(address as int, to as int) == args,
                self.storage@ == old(self).storage@,
                old_len == old(self).events@.len(),
                self.events@.len() == old_len + done.len(),
                self.events@.take(old_len as int) == old(self).events@,
                forall|i: int| 0 <= i < done.len() ==> (#[trigger] self.events@[old_len + i] is Command
                    && self.events@[old_len + i]->fcr == spec_fcr(FlashCommand::Epa, done[i])
                    && spec_status_result(self.events@[old_len + i]->status) is Ok),
            decreases to - address,
        {
            let ghost prev = self.events@;
            proof {
                assert(spec_erase_args(address as int, to as int)
                    == seq![1u16 | ((address / FLASH_PAGE_SIZE) as u16)] + spec_erase_args(address + FLASH_ERASE_SIZE, to as int));
            }
            // Determine page FARG[15:2] and bank of the block's flash address
            assert(spec_translate_address((FLASH0_ADDR + address) as u32) is Ok);
            let (page, _, _bank) = match self.translate_address(FLASH0_ADDR + address) {
                Ok(t) => t,
                Err(e) => return Err(e),
            };

            // Specifies number of pages to erase FARG[0:1] (1: 8 pages)
            let farg: u16 = 1;

            let res = self.efc_perform_command(FlashCommand::Epa, farg | page);
            proof {
                assert(page == (address / FLASH_PAGE_SIZE) as u16);
                assert(self.events@.take(prev.len() as int) == prev);
                assert forall|i: int| 0 <= i < done.len() implies #[trigger] self.events@[old_len + i] == prev[old_len + i] by {
                    assert(self.events@.take(prev.len() as int)[old_len + i] == prev[old_len + i]);
                }
                assert(self.events@.take(old_len as int) =~= old(self).events@) by {
                    assert forall|j: int| 0 <= j < old_len implies self.events@.take(old_len as int)[j] == old(self).events@[j] by {
                        assert(self.events@.take(prev.len() as int)[j] == prev[j]);
                        assert(prev.take(old_len as int)[j] == old(self).events@[j]);
                    }
                }
            }
            if let Err(e) = res {
                proof {
                    let batch = self.events@.skip(old_len as int);
                    assert(batch.len() == done.len() + 1);
                    assert(args[done.len() as int] == (farg | page));
                    assert forall|i: int| 0 <= i < batch.len() implies (#[trigger] batch[i] is Command
                        && batch[i]->fcr == spec_fcr(FlashCommand::Epa, args[i])) by {
                        if i < done.len() {
                            assert(batch[i] == self.events@[old_len + i]);
                            assert(args[i] == done[i]);
                        }
                    }
                    assert forall|i: int| 0 <= i < batch.len() - 1 implies spec_status_result(#[trigger] batch[i]->status) is Ok by {
                        assert(batch[i] == self.events@[old_len + i]);
                    }
                    assert(batch.last() == self.events@.last());
                    assert(batch_result(batch) == Err::<(), EfcError>(e));
                    assert(is_command_batch(batch, FlashCommand::Epa, args));
                }
                return Err(e);
            }
            proof {
                let new_done = done.push(farg | page);
                assert(new_done + spec_erase_args(address + FLASH_ERASE_SIZE, to as int) =~= args);
                assert forall|i: int| 0 <= i < new_done.len() implies (#[trigger] self.events@[old_len + i] is Command
                    && self.events@[old_len + i]->fcr == spec_fcr(FlashCommand::Epa, new_done[i])
                    && spec_status_result(self.events@[old_len + i]->status) is Ok) by {
                    if i < done.len() {
                        assert(new_done[i] == done[i]);
                    }
                }
                done = new_done;
            }
            address += FLASH_ERASE_SIZE;
        }
        proof {
            assert(spec_erase_args(address as int, to as int) =~= Seq::<u16>::empty());
            assert(done =~= args);
            let batch = self.events@.skip(old_len as int);
            assert forall|i: int| 0 <= i < batch.len() implies (#[trigger] batch[i] is Command
                && batch[i]->fcr == spec_fcr(FlashCommand::Epa, args[i])) by {
                assert(batch[i] == self.events@[old_len + i]);
            }
            assert forall|i: int| 0 <= i < batch.len() - 1 implies spec_status_result(#[trigger] batch[i]->status) is Ok by {
                assert(batch[i] == self.events@[old_len + i]);
            }
            if batch.len() > 0 {
                let k = batch.len() - 1;
                assert(batch.last() == self.events@[old_len + k]);
                assert(spec_status_result(self.events@[old_len + k]->status) is Ok);
            }
            assert(batch_result(batch) is Ok);
            assert(is_command_batch(batch, FlashCommand::Epa, args));
        }

        Ok(())
    }

    /// Writes a data buffer to flash at `offset` (relative to the flash start), one
    /// big-endian word at a time, committing pages through the controller. Writes
    /// must be word aligned and fit within the flash; the words are indexed from the
    /// start of `bytes` and of the storage by the flash offset, so only a write at
    /// offset 0 (or an empty one) stays within them.
    pub fn write(&mut self, offset: u32, bytes: &[u8]) -> (r: Result<(), EfcError>)
        requires
            bytes@.len() + offset <= usize::MAX,
            write_aligned(offset as int, bytes@.len() as int) && bytes@.len() + offset <= FLASH0_SIZE
                && bytes@.len() > 0 ==> offset == 0 && bytes@.len() / 4 <= old(self).storage().len(),
        ensures
            !write_aligned(offset as int, bytes@.len() as int) ==> r == Err::<(), EfcError>(EfcError::Unaligned)
                && final(self).events() == old(self).events() && final(self).storage() == old(self).storage(),
            write_aligned(offset as int, bytes@.len() as int) && bytes@.len() + offset > FLASH0_SIZE
                ==> r == Err::<(), EfcError>(EfcError::AddressBoundsError)
                && final(self).events() == old(self).events() && final(self).storage() == old(self).storage(),
            write_aligned(offset as int, bytes@.len() as int) && bytes@.len() + offset <= FLASH0_SIZE ==> {
                let n = old(self).events().len() as int;
                let batch = final(self).events().skip(n);
                let words = (bytes@.len() / 4) as int;
                &&& final(self).events().len() >= n
                &&& final(self).events().take(n) == old(self).events()
                &&& is_command_batch(batch, FlashCommand::Wp, spec_commit_pages(bytes@.len() as int, words))
                &&& r == batch_result(batch)
                &&& exists|m: int| 0 <= m <= words && (r is Ok ==> m == words)
                    && #[trigger] storage_written(final(self).storage(), old(self).storage(), bytes@, m)
            },
    {
        // Make sure write is aligned
        let start = offset as usize;
        if start % 4 == 0 && bytes.len() % 4 == 0 {
            // Check to make sure we're not trying to write over the size of one bank
            if bytes.len() + start > FLASH0_SIZE as usize {
                return Err(EfcError::AddressBoundsError);
            }
            let len = bytes.len();
            let end = start + len;
            let ghost n = old(self).events@.len() as int;
            let ghost words = (len / 4) as int;
            let ghost pages = spec_commit_pages(len as int, words);
            proof {
                assert(self.events@.take(n) =~= old(self).events@);
            }

            // Write 32-bits at a time into the latched write buffer
            let mut o = start;
            while o < end
                invariant
                    start == offset as usize,
                    len == bytes@.len(),
                    len % 4 == 0,
                    end == start + len,
                    len > 0 ==> start == 0,
                    len == 0 ==> o == start,
                    write_aligned(offset as int, len as int),
                    len + offset <= FLASH0_SIZE,
                    len / 4 <= self.storage@.len() || len == 0,
                    o % 4 == 0,
                    start <= o,
                    o <= end || len == 0,
                    words == len / 4,
                    pages == spec_commit_pages(len as int, words),
                    self.storage@.len() == old(self).storage@.len(),
                    storage_written(self.storage@, old(self).storage@, bytes@, ((o - start) / 4) as int),
                    self.events@.len() == n + spec_commit_pages(len as int, ((o - start) / 4) as int).len(),
                    self.events@.take(n) == old(self).events@,
                    n == old(self).events@.len(),
                    forall|i: int| 0 <= i < self.events@.len() - n ==> (#[trigger] self.events@[n + i] is Command
                        && self.events@[n + i]->fcr == spec_fcr(FlashCommand::Wp,
                            spec_commit_pages(len as int, ((o - start) / 4) as int)[i])
                        && spec_status_result(self.events@[n + i]->status) is Ok),
                decreases end - o,
            {
                let ghost c = (o / 4) as int;
                proof {
                    assert(o >> 2 == o / 4) by (bit_vector);
                    assert(o - start == o);
                    assert(4 * c == o);
                    assert(c + 1 <= words);
                    lemma_commit_pages_prefix(len as int, c + 1, words);
                }
                let word = ((bytes[o] as u32) << 24u32) | ((bytes[o + 1] as u32) << 16u32)
                    | ((bytes[o + 2] as u32) << 8u32) | (bytes[o + 3] as u32);

                // Write word to flash location
                self.storage[o >> 2] = word;
                let ghost prev_pages = spec_commit_pages(len as int, c);
                let ghost next_pages = spec_commit_pages(len as int, c + 1);
                proof {
                    assert(storage_written(self.storage@, old(self).storage@, bytes@, c + 1));
                }

                // Commit write to flash on page boundaries or on the last partial write
                if (o + 4) % (FLASH_PAGE_SIZE as usize) == 0 || o + 4 == o + len {
                    // Translate address to page and offset
                    let (page, _, _bank) = self.translate_address(FLASH0_ADDR + o as u32)?;
                    let ghost prev = self.events@;
                    proof {
                        assert(next_pages == prev_pages.push(page));
                    }

                    let res = self.efc_perform_command(FlashCommand::Wp, page);
                    proof {
                        assert(self.events@.take(prev.len() as int) == prev);
                        assert forall|i: int| 0 <= i < prev.len() implies #[trigger] self.events@[i] == prev[i] by {
                            assert(self.events@.take(prev.len() as int)[i] == prev[i]);
                        }
                        assert(self.events@.take(n) =~= old(self).events@);
                        assert forall|i: int| 0 <= i < self.events@.len() - n implies (#[trigger] self.events@[n + i] is Command
                            && self.events@[n + i]->fcr == spec_fcr(FlashCommand::Wp, next_pages[i])) by {
                            if i < prev_pages.len() {
                                assert(next_pages[i] == prev_pages[i]);
                                assert(self.events@[n + i] == prev[n + i]);
                            } else {
                                assert(n + i == self.events@.len() - 1);
                            }
                        }
                    }
                    if let Err(e) = res {
                        proof {
                            let batch = self.events@.skip(n);
                            assert(batch.len() == next_pages.len());
                            assert forall|i: int| 0 <= i < batch.len() implies (#[trigger] batch[i] is Command
                                && batch[i]->fcr == spec_fcr(FlashCommand::Wp, pages[i])) by {
                                assert(batch[i] == self.events@[n + i]);
                                assert(next_pages[i] == pages[i]);
                            }
                            assert forall|i: int| 0 <= i < batch.len() - 1 implies spec_status_result(#[trigger] batch[i]->status) is Ok by {
                                assert(batch[i] == self.events@[n + i]);
                                assert(self.events@[n + i] == prev[n + i]);
                            }
                            assert(batch.last() == self.events@.last());
                            assert(is_command_batch(batch, FlashCommand::Wp, pages));
                            assert(storage_written(self.storage(), old(self).storage(), bytes@, c + 1));
                        }
                        return Err(e);
                    }
                    proof {
                        assert forall|i: int| #![trigger self.events@[n + i]] 0 <= i < self.events@.len() - n implies spec_status_result(self.events@[n + i]->status) is Ok by {
                            if i < prev_pages.len() {
                                assert(self.events@[n + i] == prev[n + i]);
                            } else {
                                assert(n + i == self.events@.len() - 1);
                            }
                        }
                    }
                } else {
                    proof {
                        assert(next_pages == prev_pages);
                    }
                }
                o += 4;
                proof {
                    assert((o - start) / 4 == c + 1);
                }
            }
            proof {
                assert(((o - start) / 4) as int == words);
                let batch = self.events@.skip(n);
                assert forall|i: int| 0 <= i < batch.len() implies (#[trigger] batch[i] is Command
                    && batch[i]->fcr == spec_fcr(FlashCommand::Wp, pages[i])) by {
                    assert(batch[i] == self.events@[n + i]);
                }
                assert forall|i: int| 0 <= i < batch.len() - 1 implies spec_status_result(#[trigger] batch[i]->status) is Ok by {
                    assert(batch[i] == self.events@[n + i]);
                }
                if batch.len() > 0 {
                    let k = batch.len() - 1;
                    assert(batch.last() == self.events@[n + k]);
                }
                assert(storage_written(self.storage(), old(self).storage(), bytes@, words));
            }

            Ok(())
        } else {
            Err(EfcError::Unaligned)
        }
    }

    /// Lock all the regions in the given address range.
    /// The actual lock range is returned: (actual_start, actual_end).
    pub fn lock(&mut self, start: u32, end: u32) -> (r: Result<(u32, u32), EfcError>)
        requires end - end % FLASH_LOCK_REGION_SIZE + FLASH_LOCK_REGION_SIZE - 1 <= u32::MAX,
        ensures
            final(self).storage() == old(self).storage(),
            spec_lock_outcome(old(self).events(), final(self).events(), FlashCommand::Slb, start, end, r),
    {
        self.lock_regions(FlashCommand::Slb, start, end)
    }

    /// Unlock all the regions in the given address range.
    /// The actual unlock range is returned: (actual_start, actual_end).
    pub fn unlock(&mut self, start: u32, end: u32) -> (r: Result<(u32, u32), EfcError>)
        requires end - end % FLASH_LOCK_REGION_SIZE + FLASH_LOCK_REGION_SIZE - 1 <= u32::MAX,
        ensures
            final(self).storage() == old(self).storage(),
            spec_lock_outcome(old(self).events(), final(self).events(), FlashCommand::Clb, start, end, r),
    {
        self.lock_regions(FlashCommand::Clb, start, end)
    }
}

} // verus!
