//! Types common to the snapshot and the streaming protocol.
use vstd::prelude::*;
use crate::text::{lowercase_of, to_lowercase, trim, trimmed_from_raw, trimmed_of, trimmed_text};

verus! {

/// The two recorder formats.
#[derive(Copy, Clone, Debug, PartialEq, Eq, Structural)]
pub enum Protocol {
    Snapshot,
    Streaming,
}

/// Byte order of the recorded data.
#[derive(Copy, Clone, Debug, PartialEq, Eq, Structural)]
pub enum Endianness {
    Little,
    Big,
}

/// The RTOS port that produced a trace.
#[derive(Copy, Clone, Debug, PartialEq, Eq, Structural)]
pub enum KernelPortIdentity {
    FreeRtos,
    Zephyr,
    ThreadX,
    Unknown,
}

/// The value that marks which nibble pair of a kernel version carries the byte order.
pub const KERNEL_VERSION_CONSTANT: u8 = 0xAA;

/// Two-byte kernel version word, encoding both the port and the byte order.
#[derive(Copy, Clone, Debug, PartialEq, Eq)]
pub struct KernelVersion(pub [u8; 2]);

/// A kernel version word that matches no known port or byte order.
#[derive(Copy, Clone, Debug, PartialEq, Eq)]
pub struct InvalidKernelVersion(pub [u8; 2]);

/// Low nibble of the first byte and high nibble of the second byte.
pub open spec fn outer_nibbles(b: [u8; 2]) -> u8 {
    (b[0] as int % 16 + (b[1] as int / 16) * 16) as u8
}

/// High nibble of the first byte and low nibble of the second byte.
pub open spec fn inner_nibbles(b: [u8; 2]) -> u8 {
    (b[0] as int / 16 + (b[1] as int % 16) * 16) as u8
}

/// The port that an identity byte names, if any.
pub open spec fn port_of_identity(id: u8) -> Option<KernelPortIdentity> {
    if id == 0x11 {
        Some(KernelPortIdentity::FreeRtos)
    } else if id == 0x99 {
        Some(KernelPortIdentity::Zephyr)
    } else if id == 0xEE {
        Some(KernelPortIdentity::ThreadX)
    } else {
        None
    }
}

/// The port named by a kernel version word: the nibble pair that does not hold the
/// byte-order marker names it.
pub open spec fn spec_port_identity(b: [u8; 2]) -> Result<KernelPortIdentity, InvalidKernelVersion> {
    let id = if inner_nibbles(b) == KERNEL_VERSION_CONSTANT {
        Some(outer_nibbles(b))
    } else if outer_nibbles(b) == KERNEL_VERSION_CONSTANT {
        Some(inner_nibbles(b))
    } else {
        None
    };
    match id {
        Some(i) => match port_of_identity(i) {
            Some(p) => Ok(p),
            None => Err(InvalidKernelVersion(b)),
        },
        None => Err(InvalidKernelVersion(b)),
    }
}

/// The byte order named by a kernel version word: little when the inner nibbles hold the
/// marker, big when the outer ones do. A word that names no port is refused here too.
pub open spec fn spec_endianness(b: [u8; 2]) -> Result<Endianness, InvalidKernelVersion> {
    if spec_port_identity(b) is Err {
        Err(InvalidKernelVersion(b))
    } else if inner_nibbles(b) == KERNEL_VERSION_CONSTANT {
        Ok(Endianness::Little)
    } else if outer_nibbles(b) == KERNEL_VERSION_CONSTANT {
        Ok(Endianness::Big)
    } else {
        Err(InvalidKernelVersion(b))
    }
}

impl KernelVersion {
    pub fn port_identity(&self) -> (r: Result<KernelPortIdentity, InvalidKernelVersion>)
        ensures
            r == spec_port_identity(self.0),
    {
        let inner = self.join_inner_nibbles();
        let outer = self.join_outer_nibbles();
        let identity = if inner == KERNEL_VERSION_CONSTANT {
            outer
        } else if outer == KERNEL_VERSION_CONSTANT {
            inner
        } else {
            return Err(InvalidKernelVersion(self.0));
        };
        if identity == 0x11 {
            Ok(KernelPortIdentity::FreeRtos)
        } else if identity == 0x99 {
            Ok(KernelPortIdentity::Zephyr)
        } else if identity == 0xEE {
            Ok(KernelPortIdentity::ThreadX)
        } else {
            Err(InvalidKernelVersion(self.0))
        }
    }

    pub fn endianness(&self) -> (r: Result<Endianness, InvalidKernelVersion>)
        ensures
            r == spec_endianness(self.0),
    {
        if let Err(x) = self.port_identity() {
            return Err(x);
        }
        let inner = self.join_inner_nibbles();
        let outer = self.join_outer_nibbles();
        if inner == KERNEL_VERSION_CONSTANT {
            Ok(Endianness::Little)
        } else if outer == KERNEL_VERSION_CONSTANT {
            Ok(Endianness::Big)
        } else {
            Err(InvalidKernelVersion(self.0))
        }
    }

    /// Low nibble of the first byte joined with the high nibble of the second.
    fn join_outer_nibbles(&self) -> (r: u8)
        ensures
            r == outer_nibbles(self.0),
    {
        self.0[0] % 16 + (self.0[1] / 16) * 16
    }

    /// High nibble of the first byte joined with the low nibble of the second.
    fn join_inner_nibbles(&self) -> (r: u8)
        ensures
            r == inner_nibbles(self.0),
    {
        self.0[0] / 16 + (self.0[1] % 16) * 16
    }
}

/// Version of the platform configuration, `major.minor.patch`.
#[derive(Copy, Clone, Debug, PartialEq, Eq, Structural)]
pub struct PlatformCfgVersion {
    pub major: u8,
    pub minor: u8,
    pub patch: u16,
}

/// How the target encodes floating-point arguments.
#[derive(Copy, Clone, Debug, PartialEq, Eq, Structural)]
pub enum FloatEncoding {
    Unsupported,
    LittleEndian,
    BigEndian,
}

/// Bit pattern of the single-precision value 1.0.
pub const FLOAT_ONE_BITS: u32 = 0x3F80_0000;

/// Bit pattern of the single-precision value 1.0 with its bytes reversed.
pub const FLOAT_ONE_BITS_SWAPPED: u32 = 0x0000_803F;

/// The encoding that a probe word reveals.
pub open spec fn spec_float_encoding(bits: u32) -> FloatEncoding {
    if bits == FLOAT_ONE_BITS {
        FloatEncoding::LittleEndian
    } else if bits == FLOAT_ONE_BITS_SWAPPED {
        FloatEncoding::BigEndian
    } else {
        FloatEncoding::Unsupported
    }
}

impl FloatEncoding {
    /// Decodes the probe word that holds 1.0 as the target wrote it (0 when the target
    /// has no float support).
    pub fn from_bits(bits: u32) -> (r: Self)
        ensures
            r == spec_float_encoding(bits),
            bits == 0 ==> r == FloatEncoding::Unsupported,
    {
        if bits == FLOAT_ONE_BITS {
            FloatEncoding::LittleEndian
        } else if bits == FLOAT_ONE_BITS_SWAPPED {
            FloatEncoding::BigEndian
        } else {
            FloatEncoding::Unsupported
        }
    }
}

/// A non-zero object identifier; zero stands for "no object".
#[derive(Copy, Clone, Debug, PartialEq, Eq, Hash, PartialOrd, Ord)]
pub struct ObjectHandle(u32);

/// The handle value that stands for the startup task in the streaming protocol.
pub const NO_TASK_HANDLE: u32 = 2;

impl ObjectHandle {
    #[verifier::type_invariant]
    spec fn inv(self) -> bool {
        self.0 != 0
    }

    /// The raw identifier.
    pub closed spec fn id(self) -> u32 {
        self.0
    }

    /// The handle for a raw identifier, `None` for zero.
    pub fn new(handle: u32) -> (r: Option<Self>)
        ensures
            handle == 0 <==> r.is_none(),
            r matches Some(h) ==> h.id() == handle,
    {
        if handle == 0 {
            None
        } else {
            Some(ObjectHandle(handle))
        }
    }

    /// The handle of the synthetic startup task.
    pub fn no_task() -> (r: Self)
        ensures
            r.id() == NO_TASK_HANDLE,
    {
        ObjectHandle(NO_TASK_HANDLE)
    }

    /// The raw identifier, never zero.
    pub fn get(&self) -> (r: u32)
        ensures
            r == self.id(),
            r != 0,
    {
        proof {
            use_type_invariant(self);
        }
        self.0
    }
}

/// Kind of a kernel object.
#[derive(Copy, Clone, Debug, PartialEq, Eq, Structural, Hash)]
pub enum ObjectClass {
    Queue,
    Semaphore,
    Mutex,
    Task,
    Isr,
    Timer,
    EventGroup,
    StreamBuffer,
    MessageBuffer,
    StateMachine,
}

/// Position of a class in the fixed order of classes.
pub open spec fn class_index(c: ObjectClass) -> nat {
    match c {
        ObjectClass::Queue => 0,
        ObjectClass::Semaphore => 1,
        ObjectClass::Mutex => 2,
        ObjectClass::Task => 3,
        ObjectClass::Isr => 4,
        ObjectClass::Timer => 5,
        ObjectClass::EventGroup => 6,
        ObjectClass::StreamBuffer => 7,
        ObjectClass::MessageBuffer => 8,
        ObjectClass::StateMachine => 9,
    }
}

/// Width in bytes of a class's property record in the snapshot object table.
pub open spec fn class_properties_size(c: ObjectClass) -> nat {
    match c {
        ObjectClass::Queue => 1,
        ObjectClass::Semaphore => 1,
        ObjectClass::Mutex => 1,
        ObjectClass::Task => 4,
        ObjectClass::Isr => 2,
        ObjectClass::Timer => 1,
        ObjectClass::EventGroup => 4,
        ObjectClass::StreamBuffer => 4,
        ObjectClass::MessageBuffer => 4,
        ObjectClass::StateMachine => 0,
    }
}

/// The classes that a snapshot object table holds, in table order.
pub open spec fn snapshot_classes() -> Seq<ObjectClass> {
    seq![
        ObjectClass::Queue,
        ObjectClass::Semaphore,
        ObjectClass::Mutex,
        ObjectClass::Task,
        ObjectClass::Isr,
        ObjectClass::Timer,
        ObjectClass::EventGroup,
        ObjectClass::StreamBuffer,
        ObjectClass::MessageBuffer,
    ]
}

impl ObjectClass {
    pub fn into_usize(self) -> (r: usize)
        ensures
            r == class_index(self),
    {
        match self {
            ObjectClass::Queue => 0,
            ObjectClass::Semaphore => 1,
            ObjectClass::Mutex => 2,
            ObjectClass::Task => 3,
            ObjectClass::Isr => 4,
            ObjectClass::Timer => 5,
            ObjectClass::EventGroup => 6,
            ObjectClass::StreamBuffer => 7,
            ObjectClass::MessageBuffer => 8,
            ObjectClass::StateMachine => 9,
        }
    }

    /// The classes of a snapshot object table, in the order their blocks appear.
    pub fn enumerate() -> (r: Vec<ObjectClass>)
        ensures
            r@ == snapshot_classes(),
    {
        let r = vec![
            ObjectClass::Queue,
            ObjectClass::Semaphore,
            ObjectClass::Mutex,
            ObjectClass::Task,
            ObjectClass::Isr,
            ObjectClass::Timer,
            ObjectClass::EventGroup,
            ObjectClass::StreamBuffer,
            ObjectClass::MessageBuffer,
        ];
        assert(r@ =~= snapshot_classes());
        r
    }

    /// Width of the class's property record in a snapshot; state machines have no
    /// snapshot table and get zero.
    pub fn properties_size(self) -> (r: usize)
        ensures
            r == class_properties_size(self),
    {
        match self {
            ObjectClass::Queue => 1,
            ObjectClass::Semaphore => 1,
            ObjectClass::Mutex => 1,
            ObjectClass::Task => 4,
            ObjectClass::Isr => 2,
            ObjectClass::Timer => 1,
            ObjectClass::EventGroup => 4,
            ObjectClass::StreamBuffer => 4,
            ObjectClass::MessageBuffer => 4,
            ObjectClass::StateMachine => 0,
        }
    }
}

/// A name that is not an object class.
#[derive(Copy, Clone, Debug, PartialEq, Eq)]
pub struct ParseObjectClassError;

/// What `KernelVersion` decodes to for the six valid words, `None` for any other.
pub open spec fn kernel_version_table(b: [u8; 2]) -> Option<(KernelPortIdentity, Endianness)> {
    if b[0] == 0xA1 && b[1] == 0x1A {
        Some((KernelPortIdentity::FreeRtos, Endianness::Little))
    } else if b[0] == 0x1A && b[1] == 0xA1 {
        Some((KernelPortIdentity::FreeRtos, Endianness::Big))
    } else if b[0] == 0xA9 && b[1] == 0x9A {
        Some((KernelPortIdentity::Zephyr, Endianness::Little))
    } else if b[0] == 0x9A && b[1] == 0xA9 {
        Some((KernelPortIdentity::Zephyr, Endianness::Big))
    } else if b[0] == 0xAE && b[1] == 0xEA {
        Some((KernelPortIdentity::ThreadX, Endianness::Little))
    } else if b[0] == 0xEA && b[1] == 0xAE {
        Some((KernelPortIdentity::ThreadX, Endianness::Big))
    } else {
        None
    }
}

/// The six valid kernel version words decode to their port and byte order; every other
/// word is refused both as a port and as a byte order, with the same error.
pub proof fn lemma_kernel_version_identity(b: [u8; 2])
    ensures
        match kernel_version_table(b) {
            Some((p, e)) => spec_port_identity(b) == Ok::<KernelPortIdentity, InvalidKernelVersion>(p)
                && spec_endianness(b) == Ok::<Endianness, InvalidKernelVersion>(e),
            None => spec_port_identity(b) == Err::<KernelPortIdentity, InvalidKernelVersion>(
                InvalidKernelVersion(b),
            ) && spec_endianness(b) == Err::<Endianness, InvalidKernelVersion>(InvalidKernelVersion(b)),
        },
{
}

/// A symbol from a symbol or entry table (lossy UTF-8).
#[derive(Clone, Debug, PartialEq, Eq)]
pub struct SymbolString(pub String);

/// The text of a zero-terminated byte field, cut at its first zero byte.
#[derive(Clone, Debug, PartialEq, Eq)]
pub struct TrimmedString(pub String);

impl TrimmedString {
    pub fn from_raw(s: &[u8]) -> (r: Self)
        ensures
            r.0@ == trimmed_text(s@),
    {
        TrimmedString(trimmed_from_raw(s))
    }

    pub fn into_symbol(self) -> (r: SymbolString)
        ensures
            r.0@ == self.0@,
    {
        SymbolString(self.0)
    }
}

/// Name of the synthetic task that runs before the scheduler starts.
pub const STARTUP_TASK_NAME: &'static str = "(startup)";

/// Name of the recorder's own control task.
pub const TZ_CTRL_TASK_NAME: &'static str = "TzCtrl";

/// Name shown for objects that have none.
pub const UNNAMED_OBJECT: &'static str = "<unnamed>";

/// The name of a kernel object.
#[derive(Clone, Debug, PartialEq, Eq)]
pub struct ObjectName(pub String);

impl ObjectName {
    pub fn from_symbol(s: SymbolString) -> (r: Self)
        ensures
            r.0@ == s.0@,
    {
        ObjectName(s.0)
    }
}

/// The name of a task.
pub type TaskName = ObjectName;

/// The name of an interrupt service routine.
pub type IsrName = ObjectName;

/// Priority of a task or an ISR.
#[derive(Copy, Clone, Debug, PartialEq, Eq, Structural)]
pub struct Priority(pub u32);

/// The channel a user event was logged on.
#[derive(Clone, Debug, PartialEq, Eq)]
pub enum UserEventChannel {
    Default,
    Custom(String),
}

/// Name of the default user event channel.
pub const DEFAULT_CHANNEL: &'static str = "default";

impl UserEventChannel {
    pub fn as_str(&self) -> (r: &str)
        ensures
            match self {
                UserEventChannel::Default => r@ == DEFAULT_CHANNEL@,
                UserEventChannel::Custom(s) => r@ == s@,
            },
    {
        match self {
            UserEventChannel::Default => DEFAULT_CHANNEL,
            UserEventChannel::Custom(s) => s.as_str(),
        }
    }
}

/// Number of argument records (snapshot) or words (streaming) of a user event.
#[derive(Copy, Clone, Debug, PartialEq, Eq, Structural)]
pub struct UserEventArgRecordCount(pub u8);

/// The largest argument record count a user event code can carry.
pub const MAX_USER_EVENT_ARG_RECORDS: u8 = 15;

/// A decoded user event argument. Floating-point values are kept as their bit patterns.
#[derive(Clone, Debug, PartialEq, Eq)]
pub enum Argument {
    I8(i8),
    U8(u8),
    I16(i16),
    U16(u16),
    I32(i32),
    U32(u32),
    F32(u32),
    F64(u64),
    String(String),
}

/// A user event format string.
#[derive(Clone, Debug, PartialEq, Eq)]
pub struct FormatString(pub String);

/// Why the arguments of a user event could not be decoded.
#[derive(Clone, Debug, PartialEq, Eq)]
pub enum FormattedStringError {
    /// A `%s` argument held the zero handle.
    InvalidSymbolTableIndex,
    /// A `%s` argument named a handle that the symbol table lacks.
    SymbolLookup(ObjectHandle),
    /// The argument data ended before the format string's arguments did.
    Io,
}

/// Kind of the hardware timer counter used as time base.
#[derive(Copy, Clone, Debug, PartialEq, Eq, Structural)]
pub enum TimerCounter {
    FreeRunning32Incr,
    FreeRunning32Decr,
    OsIncr,
    OsDecr,
    CustomIncr,
    CustomDecr,
}

/// The timer counter kind of a `TRC_HWTC_TYPE` value, if it is one (1 to 6).
pub open spec fn spec_timer_counter(tc: u32) -> Option<TimerCounter> {
    if tc == 1 {
        Some(TimerCounter::FreeRunning32Incr)
    } else if tc == 2 {
        Some(TimerCounter::FreeRunning32Decr)
    } else if tc == 3 {
        Some(TimerCounter::OsIncr)
    } else if tc == 4 {
        Some(TimerCounter::OsDecr)
    } else if tc == 5 {
        Some(TimerCounter::CustomIncr)
    } else if tc == 6 {
        Some(TimerCounter::CustomDecr)
    } else {
        None
    }
}

impl TimerCounter {
    pub fn is_increment(&self) -> (r: bool)
        ensures
            r <==> (*self == TimerCounter::FreeRunning32Incr || *self == TimerCounter::OsIncr
                || *self == TimerCounter::CustomIncr),
    {
        match self {
            TimerCounter::FreeRunning32Incr | TimerCounter::OsIncr | TimerCounter::CustomIncr => true,
            _ => false,
        }
    }

    pub fn from_hwtc_type(tc: u32) -> (r: Option<Self>)
        ensures
            r == spec_timer_counter(tc),
    {
        if tc == 1 {
            Some(TimerCounter::FreeRunning32Incr)
        } else if tc == 2 {
            Some(TimerCounter::FreeRunning32Decr)
        } else if tc == 3 {
            Some(TimerCounter::OsIncr)
        } else if tc == 4 {
            Some(TimerCounter::OsDecr)
        } else if tc == 5 {
            Some(TimerCounter::CustomIncr)
        } else if tc == 6 {
            Some(TimerCounter::CustomDecr)
        } else {
            None
        }
    }
}

/// Heap usage as tracked from allocation and free events.
#[derive(Copy, Clone, Debug, PartialEq, Eq, Structural)]
pub struct Heap {
    pub current: u32,
    pub high_water_mark: u32,
    pub max: u32,
}

/// `a + b`, saturated at the largest `u32`.
pub open spec fn saturating_add_u32(a: u32, b: u32) -> u32 {
    if a as int + b as int > u32::MAX as int {
        u32::MAX
    } else {
        (a + b) as u32
    }
}

/// `a - b`, saturated at zero.
pub open spec fn saturating_sub_u32(a: u32, b: u32) -> u32 {
    if a < b {
        0
    } else {
        (a - b) as u32
    }
}

/// One heap operation: an allocation (`true`) or a free of the given size.
pub type HeapOp = (bool, u32);

impl Heap {
    /// The heap after an allocation of `size` bytes.
    pub open spec fn after_alloc(self, size: u32) -> Heap {
        let current = saturating_add_u32(self.current, size);
        Heap {
            current,
            high_water_mark: if current > self.high_water_mark {
                current
            } else {
                self.high_water_mark
            },
            max: self.max,
        }
    }

    /// The heap after a free of `size` bytes.
    pub open spec fn after_free(self, size: u32) -> Heap {
        Heap { current: saturating_sub_u32(self.current, size), ..self }
    }

    /// The heap after a sequence of operations, applied in order.
    pub open spec fn after_ops(self, ops: Seq<HeapOp>) -> Heap
        decreases ops.len(),
    {
        if ops.len() == 0 {
            self
        } else {
            let h = self.after_ops(ops.drop_last());
            let op = ops.last();
            if op.0 {
                h.after_alloc(op.1)
            } else {
                h.after_free(op.1)
            }
        }
    }

    pub fn handle_alloc(&mut self, size: u32)
        ensures
            *final(self) == old(self).after_alloc(size),
    {
        self.current = self.current.saturating_add(size);
        if self.current > self.high_water_mark {
            self.high_water_mark = self.current;
        }
    }

    pub fn handle_free(&mut self, size: u32)
        ensures
            *final(self) == old(self).after_free(size),
    {
        self.current = self.current.saturating_sub(size);
    }
}

/// Net bytes allocated by a sequence of operations: allocations minus frees.
pub open spec fn heap_net(ops: Seq<HeapOp>) -> int
    decreases ops.len(),
{
    if ops.len() == 0 {
        0
    } else {
        heap_net(ops.drop_last()) + if ops.last().0 {
            ops.last().1 as int
        } else {
            -(ops.last().1 as int)
        }
    }
}

/// The largest running total `start + heap_net(prefix)` over the non-empty prefixes of
/// `ops` that end in an allocation, and `mark` when there is none.
pub open spec fn heap_peak(start: int, mark: int, ops: Seq<HeapOp>) -> int
    decreases ops.len(),
{
    if ops.len() == 0 {
        mark
    } else {
        let prev = heap_peak(start, mark, ops.drop_last());
        let now = start + heap_net(ops);
        if ops.last().0 && now > prev {
            now
        } else {
            prev
        }
    }
}

/// No prefix of `ops` takes the running total out of the range of a `u32`.
pub open spec fn heap_stays_in_range(start: int, ops: Seq<HeapOp>) -> bool {
    forall|k: int| 0 <= k <= ops.len() ==> 0 <= #[trigger] (start + heap_net(ops.take(k)))
        <= u32::MAX as int
}

/// After allocations and frees that never take the running total out of range, the
/// current usage is the start plus allocations minus frees, and the high-water mark is
/// the largest usage reached by an allocation (or the previous mark).
pub proof fn lemma_heap_accounting(h: Heap, ops: Seq<HeapOp>)
    requires
        heap_stays_in_range(h.current as int, ops),
    ensures
        h.after_ops(ops).current as int == h.current as int + heap_net(ops),
        h.after_ops(ops).high_water_mark as int == heap_peak(
            h.current as int,
            h.high_water_mark as int,
            ops,
        ),
        h.after_ops(ops).max == h.max,
    decreases ops.len(),
{
    if ops.len() > 0 {
        let prev = ops.drop_last();
        assert forall|k: int| 0 <= k <= prev.len() implies 0 <= #[trigger] (h.current as int
            + heap_net(prev.take(k))) <= u32::MAX as int by {
            assert(prev.take(k) =~= ops.take(k));
        }
        lemma_heap_accounting(h, prev);
        assert(ops.take(ops.len() as int) =~= ops);
        assert(0 <= h.current as int + heap_net(ops.take(ops.len() as int)) <= u32::MAX as int);
    }
}

/// The class a lower-case, trimmed name stands for.
pub open spec fn spec_class_of_name(name: Seq<char>) -> Result<ObjectClass, ParseObjectClassError> {
    if name == "queue"@ {
        Ok(ObjectClass::Queue)
    } else if name == "semaphore"@ {
        Ok(ObjectClass::Semaphore)
    } else if name == "mutex"@ {
        Ok(ObjectClass::Mutex)
    } else if name == "task"@ {
        Ok(ObjectClass::Task)
    } else if name == "isr"@ {
        Ok(ObjectClass::Isr)
    } else if name == "timer"@ {
        Ok(ObjectClass::Timer)
    } else if name == "eventgroup"@ {
        Ok(ObjectClass::EventGroup)
    } else if name == "streambuffer"@ {
        Ok(ObjectClass::StreamBuffer)
    } else if name == "messagebuffer"@ {
        Ok(ObjectClass::MessageBuffer)
    } else {
        Err(ParseObjectClassError)
    }
}

/// The class that a name (already lower-cased and trimmed) stands for.
pub fn class_from_name(name: &str) -> (r: Result<ObjectClass, ParseObjectClassError>)
    ensures
        r == spec_class_of_name(name@),
{
    let n = name.to_owned();
    if n == "queue".to_owned() {
        Ok(ObjectClass::Queue)
    } else if n == "semaphore".to_owned() {
        Ok(ObjectClass::Semaphore)
    } else if n == "mutex".to_owned() {
        Ok(ObjectClass::Mutex)
    } else if n == "task".to_owned() {
        Ok(ObjectClass::Task)
    } else if n == "isr".to_owned() {
        Ok(ObjectClass::Isr)
    } else if n == "timer".to_owned() {
        Ok(ObjectClass::Timer)
    } else if n == "eventgroup".to_owned() {
        Ok(ObjectClass::EventGroup)
    } else if n == "streambuffer".to_owned() {
        Ok(ObjectClass::StreamBuffer)
    } else if n == "messagebuffer".to_owned() {
        Ok(ObjectClass::MessageBuffer)
    } else {
        Err(ParseObjectClassError)
    }
}

impl ObjectClass {
    /// Parses a class name, ignoring case and surrounding white space.
    pub fn parse_name(s: &str) -> (r: Result<ObjectClass, ParseObjectClassError>)
        ensures
            r == spec_class_of_name(trimmed_of(lowercase_of(s@))),
    {
        let lower = to_lowercase(s);
        let trimmed = trim(lower.as_str());
        class_from_name(trimmed.as_str())
    }
}

impl core::str::FromStr for ObjectClass {
    type Err = ParseObjectClassError;

    fn from_str(s: &str) -> Result<ObjectClass, ParseObjectClassError> {
        ObjectClass::parse_name(s)
    }
}

} // verus!
