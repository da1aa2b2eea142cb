//! Shared memory types: segment configuration, errors, statistics, typed regions and the
//! records exchanged with the HMI process. Real-valued fields are held as the bits of an
//! IEEE-754 `f32`.

use vstd::prelude::*;
use vstd::string::*;
use vstd::layout::size_of;

verus! {

/// Shared memory errors.
#[derive(Debug, PartialEq)]
pub enum SharedMemoryError {
    CreationFailed(String),
    AccessDenied,
    InvalidSize,
    MappingFailed(String),
    SyncError(String),
    AlreadyExists,
    NotFound,
}

/// The text of an error.
pub open spec fn shm_error_text(e: SharedMemoryError) -> Seq<char> {
    match e {
        SharedMemoryError::CreationFailed(m) => "Creation failed: "@ + m@,
        SharedMemoryError::AccessDenied => "Access denied"@,
        SharedMemoryError::InvalidSize => "Invalid size"@,
        SharedMemoryError::MappingFailed(m) => "Mapping failed: "@ + m@,
        SharedMemoryError::SyncError(m) => "Sync error: "@ + m@,
        SharedMemoryError::AlreadyExists => "Already exists"@,
        SharedMemoryError::NotFound => "Not found"@,
    }
}

impl SharedMemoryError {
    /// The text of the error.
    pub fn message(&self) -> (r: String)
        ensures
            r@ == shm_error_text(*self),
    {
        match self {
            SharedMemoryError::CreationFailed(m) => {
                let mut s = String::from_str("Creation failed: ");
                s.append(m.as_str());
                s
            },
            SharedMemoryError::AccessDenied => String::from_str("Access denied"),
            SharedMemoryError::InvalidSize => String::from_str("Invalid size"),
            SharedMemoryError::MappingFailed(m) => {
                let mut s = String::from_str("Mapping failed: ");
                s.append(m.as_str());
                s
            },
            SharedMemoryError::SyncError(m) => {
                let mut s = String::from_str("Sync error: ");
                s.append(m.as_str());
                s
            },
            SharedMemoryError::AlreadyExists => String::from_str("Already exists"),
            SharedMemoryError::NotFound => String::from_str("Not found"),
        }
    }
}

impl Clone for SharedMemoryError {
    fn clone(&self) -> (r: Self)
        ensures
            r == *self,
    {
        match self {
            SharedMemoryError::CreationFailed(m) => SharedMemoryError::CreationFailed(m.clone()),
            SharedMemoryError::AccessDenied => SharedMemoryError::AccessDenied,
            SharedMemoryError::InvalidSize => SharedMemoryError::InvalidSize,
            SharedMemoryError::MappingFailed(m) => SharedMemoryError::MappingFailed(m.clone()),
            SharedMemoryError::SyncError(m) => SharedMemoryError::SyncError(m.clone()),
            SharedMemoryError::AlreadyExists => SharedMemoryError::AlreadyExists,
            SharedMemoryError::NotFound => SharedMemoryError::NotFound,
        }
    }
}

/// Access permissions of a segment.
#[derive(Debug, Clone, Copy, PartialEq, Eq, Structural)]
pub enum SharedMemoryPermissions {
    ReadOnly,
    ReadWrite,
    ExecuteReadWrite,
}

/// Configuration of a segment.
#[derive(Debug)]
pub struct SharedMemoryConfig {
    /// Unique name of the segment.
    pub name: String,
    /// Size in bytes.
    pub size: usize,
    pub permissions: SharedMemoryPermissions,
    /// Alignment in bytes.
    pub alignment: usize,
    pub cache_optimized: bool,
}

impl Clone for SharedMemoryConfig {
    fn clone(&self) -> (r: Self)
        ensures
            r == *self,
    {
        SharedMemoryConfig {
            name: self.name.clone(),
            size: self.size,
            permissions: self.permissions,
            alignment: self.alignment,
            cache_optimized: self.cache_optimized,
        }
    }
}

impl Default for SharedMemoryConfig {
    /// A one-mebibyte read-write segment `default_shm`, 64-byte aligned, cache optimized.
    fn default() -> (r: Self)
        ensures
            r.name@ == "default_shm"@,
            r.size == 1024 * 1024,
            r.permissions == SharedMemoryPermissions::ReadWrite,
            r.alignment == 64,
            r.cache_optimized == true,
    {
        SharedMemoryConfig {
            name: String::from_str("default_shm"),
            size: 1024 * 1024,
            permissions: SharedMemoryPermissions::ReadWrite,
            alignment: 64,
            cache_optimized: true,
        }
    }
}

impl SharedMemoryConfig {
    /// A read-write, 64-byte aligned, cache optimized segment of the given name and size.
    pub fn new(name: &str, size: usize) -> (r: Self)
        ensures
            r.name@ == name@,
            r.size == size,
            r.permissions == SharedMemoryPermissions::ReadWrite,
            r.alignment == 64,
            r.cache_optimized == true,
    {
        SharedMemoryConfig {
            name: String::from_str(name),
            size,
            permissions: SharedMemoryPermissions::ReadWrite,
            alignment: 64,
            cache_optimized: true,
        }
    }

    /// The same configuration with other permissions.
    pub fn with_permissions(self, permissions: SharedMemoryPermissions) -> (r: Self)
        ensures
            r == (SharedMemoryConfig { permissions, ..self }),
    {
        let mut c = self;
        c.permissions = permissions;
        c
    }

    /// The same configuration with another alignment.
    pub fn with_alignment(self, alignment: usize) -> (r: Self)
        ensures
            r == (SharedMemoryConfig { alignment, ..self }),
    {
        let mut c = self;
        c.alignment = alignment;
        c
    }

    /// The same configuration with cache optimization switched on or off.
    pub fn with_cache_optimization(self, enabled: bool) -> (r: Self)
        ensures
            r == (SharedMemoryConfig { cache_optimized: enabled, ..self }),
    {
        let mut c = self;
        c.cache_optimized = enabled;
        c
    }
}

/// Statistics of a shared memory manager.
#[derive(Debug, Clone, Copy, PartialEq, Eq, Structural)]
pub struct SharedMemoryStats {
    pub process_id: u32,
    pub total_segments: usize,
    pub total_memory_bytes: usize,
    /// Seconds since the manager was made.
    pub uptime: u64,
}

/// A typed region of memory.
#[derive(Debug)]
pub struct MemoryRegion<T> {
    pub id: String,
    pub data: Vec<T>,
    /// Size of the data in bytes.
    pub data_size: usize,
    pub read_only: bool,
}

impl<T> MemoryRegion<T> {
    /// A writable region holding `data`, whose size is the element count times the element
    /// size.
    pub fn new(id: String, data: Vec<T>) -> (r: Self)
        requires
            data@.len() * size_of::<T>() <= usize::MAX,
        ensures
            r.id == id,
            r.data@ == data@,
            r.data_size == data@.len() * size_of::<T>(),
            r.read_only == false,
    {
        let n = data.len();
        let sz = core::mem::size_of::<T>();
        proof {
            vstd::arithmetic::mul::lemma_mul_is_commutative(n as int, sz as int);
        }
        assert(n * sz <= usize::MAX) by (nonlinear_arith)
            requires
                n * sz == data@.len() * size_of::<T>(),
                data@.len() * size_of::<T>() <= usize::MAX,
        ;
        let data_size = n * sz;
        MemoryRegion { id, data_size, read_only: false, data }
    }

    /// The elements.
    pub fn as_slice(&self) -> (r: &[T])
        ensures
            r@ == self.data@,
    {
        self.data.as_slice()
    }

    /// The element at `index`.
    pub fn get(&self, index: usize) -> (r: &T)
        requires
            index < self.data@.len(),
        ensures
            *r == self.data@[index as int],
    {
        &self.data[index]
    }

    /// The elements, to change in place.
    pub fn as_mut_slice(&mut self) -> (r: &mut [T])
        ensures
            r@ == old(self).data@,
            final(self).data@ == final(r)@,
            final(self).id == old(self).id,
            final(self).data_size == old(self).data_size,
            final(self).read_only == old(self).read_only,
    {
        self.data.as_mut_slice()
    }

    /// The element at `index`, to change in place.
    pub fn get_mut(&mut self, index: usize) -> (r: &mut T)
        requires
            index < old(self).data@.len(),
        ensures
            *r == old(self).data@[index as int],
            final(self).data@ == old(self).data@.update(index as int, *final(r)),
            final(self).id == old(self).id,
            final(self).data_size == old(self).data_size,
            final(self).read_only == old(self).read_only,
    {
        &mut self.data[index]
    }

    /// The size of the data in bytes.
    pub fn size(&self) -> (r: usize)
        ensures
            r == self.data_size,
    {
        self.data_size
    }

    /// The identifier read as a UUID, or the nil UUID where it is not one.
    pub fn region_id(&self) -> (r: uuid::Uuid)
        ensures
            parsed_uuid(self.id@) matches Some(u) ==> r == u,
    {
        match parse_uuid(self.id.as_str()) {
            Some(u) => u,
            None => nil_uuid(),
        }
    }
}

/// The UUID a text spells, where it spells one.
pub uninterp spec fn parsed_uuid(s: Seq<char>) -> Option<uuid::Uuid>;

/// `Uuid::parse_str`, its error dropped.
#[verifier::external_body]
fn parse_uuid(s: &str) -> (r: Option<uuid::Uuid>)
    ensures
        r == parsed_uuid(s@),
{
    match uuid::Uuid::parse_str(s) {
        Ok(u) => Some(u),
        Err(_) => None,
    }
}

/// `Uuid::nil`, the all-zero identifier (what `Uuid::default` gives).
#[verifier::external_body]
fn nil_uuid() -> (r: uuid::Uuid) {
    uuid::Uuid::nil()
}

/// The text of a byte string, each invalid UTF-8 sequence replaced by U+FFFD, as
/// `String::from_utf8_lossy` reads it.
pub uninterp spec fn utf8_lossy(bytes: Seq<u8>) -> Seq<char>;

/// `String::from_utf8_lossy`, made an owned string.
#[verifier::external_body]
fn string_from_utf8_lossy(bytes: &[u8]) -> (r: String)
    ensures
        r@ == utf8_lossy(bytes@),
{
    String::from_utf8_lossy(bytes).to_string()
}

/// Name of the HMI shared memory segment.
pub const SHM_NAME: &'static str = "3d_printer_shm";

/// Size of the HMI shared memory segment.
pub const SHM_SIZE: usize = 32768;

/// Marker at the start of a valid status record.
pub const SHM_MAGIC: u32 = 0xDEADBEEF;

/// Commands the HMI sends.
#[derive(Debug, Clone, Copy, PartialEq, Eq, Structural)]
pub enum PrinterCmd {
    NoCommand,
    StartPrint,
    PausePrint,
    ResumePrint,
    StopPrint,
    SetHotendTemp,
    SetBedTemp,
    Home,
    EmergencyStop,
}

/// The wire code of a command.
pub open spec fn printer_cmd_code(c: PrinterCmd) -> u32 {
    match c {
        PrinterCmd::NoCommand => 0,
        PrinterCmd::StartPrint => 1,
        PrinterCmd::PausePrint => 2,
        PrinterCmd::ResumePrint => 3,
        PrinterCmd::StopPrint => 4,
        PrinterCmd::SetHotendTemp => 5,
        PrinterCmd::SetBedTemp => 6,
        PrinterCmd::Home => 7,
        PrinterCmd::EmergencyStop => 8,
    }
}

impl PrinterCmd {
    /// The wire code of the command.
    pub fn code(&self) -> (r: u32)
        ensures
            r == printer_cmd_code(*self),
    {
        match self {
            PrinterCmd::NoCommand => 0,
            PrinterCmd::StartPrint => 1,
            PrinterCmd::PausePrint => 2,
            PrinterCmd::ResumePrint => 3,
            PrinterCmd::StopPrint => 4,
            PrinterCmd::SetHotendTemp => 5,
            PrinterCmd::SetBedTemp => 6,
            PrinterCmd::Home => 7,
            PrinterCmd::EmergencyStop => 8,
        }
    }
}

impl Default for PrinterCmd {
    fn default() -> (r: Self)
        ensures
            r == PrinterCmd::NoCommand,
    {
        PrinterCmd::NoCommand
    }
}

/// Printer states as the HMI sees them.
#[derive(Debug, Clone, Copy, PartialEq, Eq, Structural)]
pub enum PrinterState {
    Idle,
    Starting,
    Printing,
    Paused,
    Resuming,
    Stopping,
    Completed,
    Failed,
}

/// The wire code of a state.
pub open spec fn printer_state_code(s: PrinterState) -> u32 {
    match s {
        PrinterState::Idle => 0,
        PrinterState::Starting => 1,
        PrinterState::Printing => 2,
        PrinterState::Paused => 3,
        PrinterState::Resuming => 4,
        PrinterState::Stopping => 5,
        PrinterState::Completed => 6,
        PrinterState::Failed => 7,
    }
}

impl PrinterState {
    /// The wire code of the state.
    pub fn code(&self) -> (r: u32)
        ensures
            r == printer_state_code(*self),
    {
        match self {
            PrinterState::Idle => 0,
            PrinterState::Starting => 1,
            PrinterState::Printing => 2,
            PrinterState::Paused => 3,
            PrinterState::Resuming => 4,
            PrinterState::Stopping => 5,
            PrinterState::Completed => 6,
            PrinterState::Failed => 7,
        }
    }
}

impl Default for PrinterState {
    fn default() -> (r: Self)
        ensures
            r == PrinterState::Idle,
    {
        PrinterState::Idle
    }
}

/// The status record the HMI reads.
#[derive(Debug, Clone, Copy, PartialEq, Eq, Structural)]
pub struct PrinterStatus {
    pub magic: u32,
    pub version: u32,
    pub timestamp: u32,
    pub state: PrinterState,
    pub hotend_temp_bits: u32,
    pub hotend_target_bits: u32,
    pub bed_temp_bits: u32,
    pub bed_target_bits: u32,
    pub position_x_bits: u32,
    pub position_y_bits: u32,
    pub position_z_bits: u32,
    pub progress_bits: u32,
    pub current_layer: i32,
    pub total_layers: i32,
    pub remaining_time_sec: i32,
    pub flags: u32,
}

/// A fresh status record: marked valid, version 1, idle, every reading zero.
pub open spec fn initial_printer_status() -> PrinterStatus {
    PrinterStatus {
        magic: SHM_MAGIC,
        version: 1,
        timestamp: 0,
        state: PrinterState::Idle,
        hotend_temp_bits: 0,
        hotend_target_bits: 0,
        bed_temp_bits: 0,
        bed_target_bits: 0,
        position_x_bits: 0,
        position_y_bits: 0,
        position_z_bits: 0,
        progress_bits: 0,
        current_layer: 0,
        total_layers: 0,
        remaining_time_sec: 0,
        flags: 0,
    }
}

impl Default for PrinterStatus {
    fn default() -> (r: Self)
        ensures
            r == initial_printer_status(),
    {
        PrinterStatus {
            magic: SHM_MAGIC,
            version: 1,
            timestamp: 0,
            state: PrinterState::Idle,
            hotend_temp_bits: 0,
            hotend_target_bits: 0,
            bed_temp_bits: 0,
            bed_target_bits: 0,
            position_x_bits: 0,
            position_y_bits: 0,
            position_z_bits: 0,
            progress_bits: 0,
            current_layer: 0,
            total_layers: 0,
            remaining_time_sec: 0,
            flags: 0,
        }
    }
}

impl PrinterStatus {
    pub fn new() -> (r: Self)
        ensures
            r == initial_printer_status(),
    {
        PrinterStatus::default()
    }
}

/// A command record with its parameters and a NUL-terminated file name.
#[derive(Debug, Clone, Copy)]
pub struct PrinterCommand {
    pub cmd: PrinterCmd,
    pub param1: u32,
    pub param2: u32,
    pub param_float_bits: u32,
    pub filename: [u8; 256],
    pub timestamp: u32,
}

impl Default for PrinterCommand {
    fn default() -> (r: Self)
        ensures
            r.cmd == PrinterCmd::NoCommand,
            r.param1 == 0,
            r.param2 == 0,
            r.param_float_bits == 0,
            forall|i: int| 0 <= i < 256 ==> #[trigger] r.filename@[i] == 0,
            r.timestamp == 0,
    {
        PrinterCommand {
            cmd: PrinterCmd::NoCommand,
            param1: 0,
            param2: 0,
            param_float_bits: 0,
            filename: [0u8; 256],
            timestamp: 0,
        }
    }
}

/// The name bytes kept in the file name field: at most 255.
pub open spec fn kept_name_len(n: nat) -> nat {
    if n < 255 {
        n
    } else {
        255
    }
}

impl PrinterCommand {
    pub fn new() -> (r: Self)
        ensures
            r.cmd == PrinterCmd::NoCommand,
            r.param1 == 0,
            r.param2 == 0,
            r.param_float_bits == 0,
            forall|i: int| 0 <= i < 256 ==> #[trigger] r.filename@[i] == 0,
            r.timestamp == 0,
    {
        PrinterCommand::default()
    }

    /// Stores the first 255 bytes of the UTF-8 name, followed by a NUL; later bytes of the
    /// field are left as they were.
    pub fn set_filename(&mut self, name: &str)
        ensures
            forall|i: int| 0 <= i < kept_name_len(name.spec_bytes().len()) ==> #[trigger] final(self).filename@[i] == name.spec_bytes()[i],
            final(self).filename@[kept_name_len(name.spec_bytes().len()) as int] == 0,
            forall|i: int| kept_name_len(name.spec_bytes().len()) < i < 256 ==> #[trigger] final(self).filename@[i]
                == old(self).filename@[i],
            final(self).cmd == old(self).cmd,
            final(self).param1 == old(self).param1,
            final(self).param2 == old(self).param2,
            final(self).param_float_bits == old(self).param_float_bits,
            final(self).timestamp == old(self).timestamp,
    {
        let name = name.as_bytes();
        let len: usize = if name.len() < 255 {
            name.len()
        } else {
            255
        };
        let mut i: usize = 0;
        while i < len
            invariant
                len == kept_name_len(name@.len()),
                i <= len,
                len <= 255,
                forall|j: int| 0 <= j < i ==> #[trigger] self.filename@[j] == name@[j],
                forall|j: int| i <= j < 256 ==> #[trigger] self.filename@[j] == old(self).filename@[j],
                self.cmd == old(self).cmd,
                self.param1 == old(self).param1,
                self.param2 == old(self).param2,
                self.param_float_bits == old(self).param_float_bits,
                self.timestamp == old(self).timestamp,
            decreases len - i,
        {
            self.filename.set(i, name[i]);
            i = i + 1;
        }
        self.filename.set(len, 0);
    }

    /// The length of the stored name: the bytes before the first NUL, or the whole field.
    pub fn filename_len(&self) -> (r: usize)
        ensures
            r <= 256,
            forall|i: int| 0 <= i < r ==> #[trigger] self.filename@[i] != 0,
            r < 256 ==> self.filename@[r as int] == 0,
    {
        let mut i: usize = 0;
        while i < 256
            invariant
                i <= 256,
                forall|j: int| 0 <= j < i ==> #[trigger] self.filename@[j] != 0,
            decreases 256 - i,
        {
            if self.filename[i] == 0 {
                return i;
            }
            i = i + 1;
        }
        256
    }

    /// The stored name as text: the bytes before the first NUL (the whole field where there
    /// is none), read as UTF-8 with invalid sequences replaced.
    pub fn get_filename(&self) -> (r: String)
        ensures
            exists|n: int|
                #![trigger self.filename@.subrange(0, n)]
                0 <= n <= 256 && (forall|i: int| 0 <= i < n ==> #[trigger] self.filename@[i] != 0) && (n < 256
                    ==> self.filename@[n] == 0) && r@ == utf8_lossy(self.filename@.subrange(0, n)),
    {
        let n = self.filename_len();
        let name = &self.filename.as_slice()[0..n];
        let r = string_from_utf8_lossy(name);
        proof {
            assert(name@ =~= self.filename@.subrange(0, n as int));
            assert(r@ == utf8_lossy(self.filename@.subrange(0, n as int)));
        }
        r
    }
}

/// Slots of a command ring.
pub const RING_SLOTS: u32 = 32;

/// A ring of command records shared with the HMI: the oldest record sits at `tail`, the
/// next free slot at `head`, and `count` records are queued.
#[derive(Debug, Clone, Copy)]
pub struct CommandQueue {
    pub head: u32,
    pub tail: u32,
    pub count: u32,
    pub commands: [PrinterCommand; 32],
}

impl CommandQueue {
    /// The ring is consistent: positions inside it, fewer records than slots, and the head
    /// `count` slots past the tail.
    pub open spec fn wf(&self) -> bool {
        &&& self.head < 32
        &&& self.tail < 32
        &&& self.count < 32
        &&& (self.tail + self.count) % 32 == self.head
    }

    /// The queued records, oldest first.
    pub open spec fn items(&self) -> Seq<PrinterCommand> {
        Seq::new(self.count as nat, |i: int| self.commands@[(self.tail + i) % 32])
    }

    /// An empty ring of blank records.
    pub fn new() -> (r: Self)
        ensures
            r.wf(),
            r.items().len() == 0,
            r.head == 0 && r.tail == 0 && r.count == 0,
    {
        CommandQueue::default()
    }
}

impl Default for CommandQueue {
    fn default() -> (r: Self)
        ensures
            r.wf(),
            r.items().len() == 0,
            r.head == 0 && r.tail == 0 && r.count == 0,
    {
        CommandQueue { head: 0, tail: 0, count: 0, commands: [PrinterCommand::new(); 32] }
    }
}

/// The memory shared with the HMI: the status record, the command ring it fills and the
/// acknowledgement ring it drains.
#[derive(Debug, Clone, Copy)]
pub struct SharedMemory {
    pub status: PrinterStatus,
    pub cmd_queue: CommandQueue,
    pub ack_queue: CommandQueue,
}

impl SharedMemory {
    pub fn new() -> (r: Self)
        ensures
            r.status == initial_printer_status(),
            r.cmd_queue.wf() && r.cmd_queue.items().len() == 0,
            r.ack_queue.wf() && r.ack_queue.items().len() == 0,
    {
        SharedMemory::default()
    }
}

impl Default for SharedMemory {
    fn default() -> (r: Self)
        ensures
            r.status == initial_printer_status(),
            r.cmd_queue.wf() && r.cmd_queue.items().len() == 0,
            r.ack_queue.wf() && r.ack_queue.items().len() == 0,
    {
        SharedMemory {
            status: PrinterStatus::default(),
            cmd_queue: CommandQueue::default(),
            ack_queue: CommandQueue::default(),
        }
    }
}

} // verus!
