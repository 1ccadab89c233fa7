//! Layout of the shared region: interned strings, event records, the
//! fixed-capacity channels that carry them, and the opening handshake.

use crate::spinlock::SpinLock;
use shared_memory::ShmemError;
use vstd::prelude::*;
use vstd::string::StringSliceAdditionalSpecFns;
use vstd::utf8::valid_utf8;

verus! {

/// Marks a region as one of ours.
pub const MAGIC: u32 = 0x1DC45EF1;

/// Major, minor and patch level of the layout, packed into one word.
pub const PROTOCOL_VERSION: u32 = 0x00_01_0004;

/// Slots in every channel.
pub const NUM_ENTRIES: usize = 256;

/// Bytes in the log buffer.
pub const LOG_DATA_SIZE: usize = 8192;

/// Longest string, in bytes, that an interned string can carry.
pub const SHARED_STRING_MAX_SIZE: usize = 128;

/// A point in time: nanoseconds since the process's start instant.
pub type Time = u64;

/// A span of time in nanoseconds.
pub type Duration = u64;

/// 24 bits of colour, `0x00RRGGBB`.
pub type Color = u32;

/// What a reader learns from an interned string: the key always, the bytes
/// only when the sender included them.
pub struct SharedStringView {
    pub key: usize,
    pub contents: Option<Seq<u8>>,
}

/// A string sent across the process boundary under an integer key. The bytes
/// travel only when `has_contents` is set; a reader that has seen the key
/// before needs no more than the key.
#[derive(Clone, Copy)]
pub struct SharedString {
    key: usize,
    size: u8,
    has_contents: bool,
    contents: [u8; SHARED_STRING_MAX_SIZE],
}

impl View for SharedString {
    type V = SharedStringView;

    closed spec fn view(&self) -> SharedStringView {
        SharedStringView {
            key: self.key,
            contents: if self.has_contents {
                Some(self.contents@.subrange(0, self.size as int))
            } else {
                None
            },
        }
    }
}

/// The address at which a string's bytes start. It identifies a static string
/// within one process and differs from run to run, so nothing is promised of
/// its value.
#[verifier::external_body]
pub(crate) fn address_of(string: &str) -> (key: usize) {
    string.as_ptr() as usize
}

/// Checked reinterpretation of bytes as text, by `std::str::from_utf8`: the
/// result is `Some` exactly for well-formed UTF-8, and then spells the same
/// bytes.
#[verifier::external_body]
fn text_of(bytes: &[u8]) -> (text: Option<&str>)
    ensures
        text is Some <==> valid_utf8(bytes@),
        text matches Some(s) ==> s.spec_bytes() == bytes@,
{
    std::str::from_utf8(bytes).ok()
}

impl SharedString {
    #[verifier::type_invariant]
    spec fn well_formed(self) -> bool {
        self.has_contents ==> {
            &&& self.size as int <= SHARED_STRING_MAX_SIZE
            &&& valid_utf8(self.contents@.subrange(0, self.size as int))
        }
    }

    /// A string with key 0 and no contents.
    pub fn new() -> (s: SharedString)
        ensures
            s@.key == 0,
            s@.contents is None,
    {
        SharedString { key: 0, size: 0, has_contents: false, contents: [0u8; SHARED_STRING_MAX_SIZE] }
    }

    /// Sets the key; with `Some(text)` also stores the text's bytes, with
    /// `None` marks the contents as absent. A text must fit: it has
    /// `SHARED_STRING_MAX_SIZE` bytes at most.
    pub fn set_special(&mut self, key: usize, contents: Option<&str>)
        requires
            contents matches Some(text) ==> text.spec_bytes().len() <= SHARED_STRING_MAX_SIZE,
        ensures
            final(self)@.key == key,
            final(self)@.contents == match contents {
                Some(text) => Some(text.spec_bytes()),
                None => None,
            },
    {
        proof {
            use_type_invariant(&*self);
        }
        self.key = key;
        self.has_contents = false;
        if let Some(text) = contents {
            let raw = text.as_bytes();
            let n: usize = raw.len();
            let mut i: usize = 0;
            while i < n
                invariant
                    n == raw@.len(),
                    n <= SHARED_STRING_MAX_SIZE,
                    i <= n,
                    !self.has_contents,
                    self.key == key,
                    forall|j: int| 0 <= j < i ==> self.contents@[j] == raw@[j],
                decreases n - i,
            {
                self.contents[i] = raw[i];
                i += 1;
            }
            self.size = n as u8;
            proof {
                vstd::utf8::encode_utf8_valid_utf8(text@);
                assert(self.contents@.subrange(0, n as int) =~= raw@);
            }
            self.has_contents = true;
        }
    }

    /// Keys the string by the address of `string`; with `copy_contents` also
    /// stores its bytes, otherwise marks the contents as absent. The string
    /// must fit: it has `SHARED_STRING_MAX_SIZE` bytes at most.
    pub fn set(&mut self, string: &'static str, copy_contents: bool)
        requires
            string.spec_bytes().len() <= SHARED_STRING_MAX_SIZE,
        ensures
            final(self)@.contents == if copy_contents {
                Some(string.spec_bytes())
            } else {
                None
            },
    {
        let key = address_of(string);
        if copy_contents {
            self.set_special(key, Some(string));
        } else {
            self.set_special(key, None);
        }
    }

    /// The key under which readers intern this string.
    pub fn get_key(&self) -> (key: usize)
        ensures
            key == self@.key,
    {
        self.key
    }

    /// Whether the bytes travel with this string.
    pub fn has_contents(&self) -> (present: bool)
        ensures
            present == self@.contents is Some,
    {
        self.has_contents
    }

    /// The text, when the bytes travel with this string.
    pub fn make_str(&self) -> (text: Option<&str>)
        ensures
            text is Some <==> self@.contents is Some,
            text matches Some(s) ==> Some(s.spec_bytes()) == self@.contents,
    {
        if self.has_contents {
            proof {
                use_type_invariant(self);
            }
            let bytes = vstd::slice::slice_subrange(self.contents.as_slice(), 0, self.size as usize);
            text_of(bytes)
        } else {
            None
        }
    }
}

/// Text that was stored with its contents reads back as the same text:
/// what `make_str` returns after `set` or `set_special` stored `written` is
/// `written`, character for character.
pub proof fn lemma_text_round_trip(written: &str, stored: SharedStringView, read: &str)
    requires
        stored.contents == Some(written.spec_bytes()),
        Some(read.spec_bytes()) == stored.contents,
    ensures
        read@ == written@,
{
    vstd::utf8::encode_utf8_decode_utf8(written@);
    vstd::utf8::encode_utf8_decode_utf8(read@);
}

/// One application frame.
#[derive(Clone, Copy)]
pub struct FrameData {
    /// Running number of the frame.
    pub number: u64,
    /// When the frame ended.
    pub end: Time,
    /// How long the frame took; it started at `end - duration`.
    pub duration: Duration,
}

/// One finished scope.
#[derive(Clone, Copy)]
pub struct ZoneData {
    /// Identifies the call site.
    pub uid: usize,
    pub color: Color,
    /// When the scope was left.
    pub end: Time,
    /// How long the scope ran; it was entered at `end - duration`.
    pub duration: Duration,
    /// Number of scopes that were open on the thread when this one was entered.
    pub depth: u32,
    /// Name of the call site.
    pub name: SharedString,
    /// The thread: keyed by its id, carrying its name.
    pub thread: SharedString,
}

/// One sample of a plotted series; the series is identified by `name`'s key.
#[derive(Clone, Copy)]
pub struct PlotData {
    pub time: Time,
    pub color: Color,
    /// The sample, as the bit pattern of a 64-bit IEEE-754 number.
    pub value: u64,
    pub name: SharedString,
}

/// One allocation or release of heap memory.
#[derive(Clone, Copy)]
pub struct HeapData {
    pub time: Time,
    pub addr: usize,
    pub size: usize,
    pub is_free: bool,
}

/// Precedes each message in the log buffer; `length` bytes of text follow it.
#[derive(Clone, Copy)]
pub struct LogEntryHeader {
    pub time: Time,
    pub color: Color,
    pub length: usize,
}

impl FrameData {
    /// A frame with every field zero.
    pub fn new() -> (frame: FrameData)
        ensures
            frame == (FrameData { number: 0, end: 0, duration: 0 }),
    {
        FrameData { number: 0, end: 0, duration: 0 }
    }
}

impl ZoneData {
    /// A record with every scalar zero and both strings without contents.
    pub fn new() -> (zone: ZoneData)
        ensures
            zone.uid == 0,
            zone.color == 0,
            zone.end == 0,
            zone.duration == 0,
            zone.depth == 0,
            zone.name@ == (SharedStringView { key: 0, contents: None }),
            zone.thread@ == (SharedStringView { key: 0, contents: None }),
    {
        ZoneData {
            uid: 0,
            color: 0,
            end: 0,
            duration: 0,
            depth: 0,
            name: SharedString::new(),
            thread: SharedString::new(),
        }
    }
}

impl PlotData {
    /// A sample with every scalar zero and a name without contents.
    pub fn new() -> (plot: PlotData)
        ensures
            plot.time == 0,
            plot.color == 0,
            plot.value == 0,
            plot.name@ == (SharedStringView { key: 0, contents: None }),
    {
        PlotData { time: 0, color: 0, value: 0, name: SharedString::new() }
    }
}

impl HeapData {
    /// An event with every field zero.
    pub fn new() -> (heap: HeapData)
        ensures
            heap == (HeapData { time: 0, addr: 0, size: 0, is_free: false }),
    {
        HeapData { time: 0, addr: 0, size: 0, is_free: false }
    }
}

/// Lets a reader that walks records newest first know when to stop.
pub trait ShouldStopQuery {
    /// Whether a record that ended at `t` started after `query_max`.
    fn should_stop_query(&self, t: Time, query_max: Time) -> bool;
}

impl ShouldStopQuery for FrameData {
    fn should_stop_query(&self, t: Time, query_max: Time) -> (stop: bool)
        ensures
            stop == (t - self.duration > query_max),
    {
        t > query_max && t - query_max > self.duration
    }
}

/// A value that can fill a slot of type `T` in a channel.
pub trait WriteInto<T> {
    /// Whether the value fits the slot's limits. An implementation that says
    /// nothing claims to fit always.
    open spec fn writable(&self) -> bool {
        true
    }

    /// Whether writing this value can turn a slot holding `before` into
    /// `after`. An implementation that says nothing promises nothing of the
    /// slot.
    open spec fn writes(&self, before: T, after: T) -> bool {
        true
    }

    /// Fills `target` with this value.
    fn write_into(&self, target: &mut T)
        requires
            self.writable(),
        ensures
            self.writes(*old(target), *final(target)),
    ;
}

impl<T: Copy> WriteInto<T> for T {
    open spec fn writable(&self) -> bool {
        true
    }

    open spec fn writes(&self, before: T, after: T) -> bool {
        after == *self
    }

    fn write_into(&self, target: &mut T) {
        *target = *self;
    }
}

/// Entries that a channel with `size` attempted pushes holds.
pub open spec fn held_count(size: nat) -> nat {
    if size <= NUM_ENTRIES {
        size
    } else {
        NUM_ENTRIES as nat
    }
}

/// Entries that a channel with `size` attempted pushes had no room for.
pub open spec fn lost_count(size: nat) -> nat {
    if size <= NUM_ENTRIES {
        0
    } else {
        (size - NUM_ENTRIES) as nat
    }
}

/// The count of attempted pushes after one more: it stops at the largest
/// number that the counter can hold.
pub open spec fn pushed_size(size: nat) -> nat {
    if size < usize::MAX {
        size + 1
    } else {
        size
    }
}

/// The count of attempted pushes after `pushes` more.
pub open spec fn size_after(size: nat, pushes: nat) -> nat
    decreases pushes,
{
    if pushes == 0 {
        size
    } else {
        pushed_size(size_after(size, (pushes - 1) as nat))
    }
}

/// A channel as its two sides see it.
pub struct PayloadView<T> {
    /// Pushes attempted since the channel was last drained.
    pub size: nat,
    /// The slots, `NUM_ENTRIES` of them.
    pub data: Seq<T>,
}

impl<T> PayloadView<T> {
    /// Whether the next push finds a free slot.
    pub open spec fn accepts(self) -> bool {
        self.size < NUM_ENTRIES
    }

    /// The entries that a drain hands out, oldest first.
    pub open spec fn held(self) -> Seq<T> {
        self.data.subrange(0, held_count(self.size) as int)
    }

    /// The channel after a drain: empty, its slots as they were.
    pub open spec fn drained(self) -> PayloadView<T> {
        PayloadView { size: 0, data: self.data }
    }

    /// Whether `after` is this channel after one push was counted: every slot
    /// is as it was, but for the next free one if there was one.
    pub open spec fn counted_push(self, after: PayloadView<T>) -> bool {
        &&& after.size == pushed_size(self.size)
        &&& after.data.len() == NUM_ENTRIES
        &&& forall|i: int|
            0 <= i < NUM_ENTRIES && !(self.accepts() && i == self.size) ==> after.data[i]
                == self.data[i]
    }
}

/// A fixed-capacity channel for records of one kind. `size` counts the pushes
/// attempted since the last drain, so a drain reports what was lost too.
pub struct Payload<T: Copy> {
    lock: SpinLock,
    size: usize,
    data: [T; NUM_ENTRIES],
}

impl<T: Copy> View for Payload<T> {
    type V = PayloadView<T>;

    closed spec fn view(&self) -> PayloadView<T> {
        PayloadView { size: self.size as nat, data: self.data@ }
    }
}

impl<T: Copy> Payload<T> {
    /// An empty, unlocked channel whose slots all hold `fill`.
    pub fn new(fill: T) -> (payload: Payload<T>)
        ensures
            payload@.size == 0,
            payload@.data == Seq::new(NUM_ENTRIES as nat, |i: int| fill),
    {
        let payload = Payload { lock: SpinLock::new(), size: 0, data: [fill; NUM_ENTRIES] };
        assert(payload.data@ =~= Seq::new(NUM_ENTRIES as nat, |i: int| fill));
        payload
    }

    /// Empties the channel and releases its lock.
    pub fn init(&mut self)
        ensures
            final(self)@ == old(self)@.drained(),
    {
        self.lock.unlock();
        self.size = 0;
    }

    /// The channel's own lock, as contracts speak of it.
    pub closed spec fn guard(&self) -> &SpinLock {
        &self.lock
    }

    /// The lock that guards the channel between processes: the channel's
    /// own, not a copy of it.
    pub fn lock(&self) -> (lock: &SpinLock)
        ensures
            lock == self.guard(),
    {
        &self.lock
    }

    /// Pushes attempted since the last drain.
    pub fn size(&self) -> (size: usize)
        ensures
            size == self@.size,
            self@.data.len() == NUM_ENTRIES,
    {
        self.size
    }

    /// Counts one push and, while there is room, lets `entry` fill the next
    /// free slot. Returns whether the entry was stored. An entry that does
    /// not fit a slot may be pushed only where no slot is free. The caller
    /// holds the channel's lock.
    pub fn push<U: WriteInto<T>>(&mut self, entry: &U) -> (stored: bool)
        requires
            old(self)@.accepts() ==> entry.writable(),
        ensures
            stored == old(self)@.accepts(),
            old(self)@.counted_push(final(self)@),
            stored ==> entry.writes(
                old(self)@.data[old(self)@.size as int],
                final(self)@.data[old(self)@.size as int],
            ),
    {
        let stored = self.size < NUM_ENTRIES;
        if stored {
            let mut slot = self.data[self.size];
            entry.write_into(&mut slot);
            self.data[self.size] = slot;
        }
        self.size = self.size.saturating_add(1);
        stored
    }

    /// Drains the channel into the front of `dst`: returns how many entries
    /// were copied out and how many had been lost for want of room, and
    /// leaves the channel empty. The rest of `dst` stays as it was. The
    /// caller holds the channel's lock.
    pub fn retrieve(&mut self, dst: &mut [T]) -> (counts: (usize, usize))
        requires
            old(dst)@.len() >= NUM_ENTRIES,
        ensures
            counts.0 == held_count(old(self)@.size),
            counts.1 == lost_count(old(self)@.size),
            counts.0 + counts.1 == old(self)@.size,
            final(self)@ == old(self)@.drained(),
            final(dst)@.len() == old(dst)@.len(),
            final(dst)@.subrange(0, counts.0 as int) == old(self)@.held(),
            forall|i: int| 0 <= i < counts.0 ==> final(dst)@[i] == old(self)@.data[i],
            forall|i: int| counts.0 <= i < old(dst)@.len() ==> final(dst)@[i] == old(dst)@[i],
    {
        let (retrieved, lost) = if self.size <= NUM_ENTRIES {
            (self.size, 0)
        } else {
            (NUM_ENTRIES, self.size - NUM_ENTRIES)
        };
        let mut i: usize = 0;
        while i < retrieved
            invariant
                i <= retrieved <= NUM_ENTRIES,
                dst@.len() == old(dst)@.len(),
                dst@.len() >= NUM_ENTRIES,
                self.data == old(self).data,
                forall|j: int| 0 <= j < i ==> dst@[j] == self.data@[j],
                forall|j: int| i <= j < dst@.len() ==> dst@[j] == old(dst)@[j],
            decreases retrieved - i,
        {
            dst[i] = self.data[i];
            i += 1;
        }
        self.size = 0;
        assert(dst@.subrange(0, retrieved as int) =~= old(self)@.held());
        (retrieved, lost)
    }
}

/// A drain accounts for every push since the last one: of `pushes` pushes
/// into an empty channel it hands out the first `NUM_ENTRIES` at most and
/// reports the others as lost. The counter stops at `usize::MAX`, so the law
/// is stated for no more pushes than that.
pub proof fn lemma_drain_accounts_for_pushes(pushes: nat)
    requires
        pushes <= usize::MAX,
    ensures
        size_after(0, pushes) == pushes,
        held_count(size_after(0, pushes)) == if pushes <= NUM_ENTRIES {
            pushes
        } else {
            NUM_ENTRIES as nat
        },
        lost_count(size_after(0, pushes)) == if pushes <= NUM_ENTRIES {
            0
        } else {
            pushes - NUM_ENTRIES
        },
        held_count(size_after(0, pushes)) + lost_count(size_after(0, pushes)) == pushes,
    decreases pushes,
{
    if pushes > 0 {
        lemma_drain_accounts_for_pushes((pushes - 1) as nat);
    }
}

/// A drained channel has nothing to hand out and nothing lost, and draining
/// it again changes nothing: two drains in a row with no push between them
/// both report `(0, 0)` after the first has emptied the channel.
pub proof fn lemma_drain_of_drained<T>(channel: PayloadView<T>)
    ensures
        held_count(channel.drained().size) == 0,
        lost_count(channel.drained().size) == 0,
        channel.drained().held() == Seq::<T>::empty(),
        channel.drained().drained() == channel.drained(),
{
    assert(channel.drained().held() =~= Seq::<T>::empty());
}

/// An empty channel stores exactly its first `NUM_ENTRIES` pushes: each of
/// them finds a free slot, and every later one finds none but is counted
/// all the same.
pub proof fn lemma_capacity<T>(channel: PayloadView<T>, pushes: nat)
    requires
        channel.size == size_after(0, pushes),
        pushes < usize::MAX,
    ensures
        channel.accepts() <==> pushes < NUM_ENTRIES,
        pushed_size(channel.size) == pushes + 1,
{
    lemma_drain_accounts_for_pushes(pushes);
}

/// The error type of the `shared_memory` crate, carried through unread.
#[verifier::external_type_specification]
#[verifier::external_body]
pub struct ExShmemError(shared_memory::ShmemError);

/// Why a region could not be opened.
#[derive(Debug)]
pub enum SharedMemoryOpenError {
    /// The operating system could not open or map the segment.
    ShmemError(ShmemError),
    /// The region does not start with `MAGIC`.
    BadMagic,
    /// The region was laid out by another protocol version.
    ProtocolMismatch,
    /// The region was laid out for another pointer width.
    PlatformMismatch,
}

/// The directory, below the user's data directory, that holds the region's
/// link file.
pub const DATA_DIR_NAME: &'static str = "temporal-lens";

/// The name of the region's link file in that directory.
pub const SHMEM_FILE_NAME: &'static str = "shmem";

/// Bytes in a pointer-wide integer on this platform.
pub open spec fn pointer_width() -> nat {
    vstd::layout::size_of::<usize>()
}

/// The verdict on a region's first three words: they are checked in order,
/// and the first that differs names the error.
pub open spec fn handshake_spec(magic: u32, protocol_version: u32, size_of_usize: u32) -> Result<
    (),
    SharedMemoryOpenError,
> {
    if magic != MAGIC {
        Err(SharedMemoryOpenError::BadMagic)
    } else if protocol_version != PROTOCOL_VERSION {
        Err(SharedMemoryOpenError::ProtocolMismatch)
    } else if size_of_usize != pointer_width() {
        Err(SharedMemoryOpenError::PlatformMismatch)
    } else {
        Ok(())
    }
}

/// Checks the three header words of a mapped region against this build.
pub fn handshake(magic: u32, protocol_version: u32, size_of_usize: u32) -> (verdict: Result<
    (),
    SharedMemoryOpenError,
>)
    ensures
        verdict == handshake_spec(magic, protocol_version, size_of_usize),
{
    if magic != MAGIC {
        Err(SharedMemoryOpenError::BadMagic)
    } else if protocol_version != PROTOCOL_VERSION {
        Err(SharedMemoryOpenError::ProtocolMismatch)
    } else if size_of_usize as usize != core::mem::size_of::<usize>() {
        Err(SharedMemoryOpenError::PlatformMismatch)
    } else {
        Ok(())
    }
}

/// The verdict on an attempt to open a region: `mapped` is what the operating
/// system made of it, the region's three header words or its error. An error
/// of the system is passed on as it is; a region that was mapped is held to
/// the handshake.
pub fn open_verdict(mapped: Result<(u32, u32, u32), ShmemError>) -> (verdict: Result<
    (),
    SharedMemoryOpenError,
>)
    ensures
        verdict == match mapped {
            Ok(header) => handshake_spec(header.0, header.1, header.2),
            Err(error) => Err(SharedMemoryOpenError::ShmemError(error)),
        },
{
    match mapped {
        Ok(header) => handshake(header.0, header.1, header.2),
        Err(error) => Err(SharedMemoryOpenError::ShmemError(error)),
    }
}

/// The whole shared region: a three-word header, one channel per kind of
/// event, and the log buffer with its own lock.
pub struct SharedMemoryData {
    pub magic: u32,
    pub protocol_version: u32,
    pub size_of_usize: u32,
    pub frame_data: Payload<FrameData>,
    pub zone_data: Payload<ZoneData>,
    pub heap_data: Payload<HeapData>,
    pub plot_data: Payload<PlotData>,
    /// Guards the log buffer between processes.
    pub log_data_lock: SpinLock,
    /// Messages in `log_data`.
    pub log_data_count: u32,
    /// Each message is a `LogEntryHeader` followed by its text.
    pub log_data: [u8; LOG_DATA_SIZE],
}

impl SharedMemoryData {
    /// Whether the header is the one that `init` writes and every channel and
    /// the log are empty.
    pub open spec fn fresh(&self) -> bool {
        &&& self.magic == MAGIC
        &&& self.protocol_version == PROTOCOL_VERSION
        &&& self.size_of_usize == pointer_width()
        &&& self.frame_data@.size == 0
        &&& self.zone_data@.size == 0
        &&& self.heap_data@.size == 0
        &&& self.plot_data@.size == 0
        &&& self.log_data_count == 0
    }

    /// Whether the header and the log are as in `before`.
    pub open spec fn keeps_header_and_log(&self, before: &SharedMemoryData) -> bool {
        &&& self.magic == before.magic
        &&& self.protocol_version == before.protocol_version
        &&& self.size_of_usize == before.size_of_usize
        &&& self.log_data_count == before.log_data_count
        &&& self.log_data == before.log_data
    }

    /// A region in this process's own memory, initialised as `init` does.
    pub fn new() -> (region: SharedMemoryData)
        ensures
            region.fresh(),
    {
        let mut region = SharedMemoryData {
            magic: 0,
            protocol_version: 0,
            size_of_usize: 0,
            frame_data: Payload::new(FrameData::new()),
            zone_data: Payload::new(ZoneData::new()),
            heap_data: Payload::new(HeapData::new()),
            plot_data: Payload::new(PlotData::new()),
            log_data_lock: SpinLock::new(),
            log_data_count: 0,
            log_data: [0u8; LOG_DATA_SIZE],
        };
        region.init();
        region
    }

    /// What the creator of a region does before any producer may open it:
    /// writes the header, empties every channel and the log, and releases
    /// every lock. The slots and the log's bytes stay as they were.
    pub fn init(&mut self)
        ensures
            final(self).fresh(),
            final(self).frame_data@ == old(self).frame_data@.drained(),
            final(self).zone_data@ == old(self).zone_data@.drained(),
            final(self).heap_data@ == old(self).heap_data@.drained(),
            final(self).plot_data@ == old(self).plot_data@.drained(),
            final(self).log_data == old(self).log_data,
    {
        self.magic = MAGIC;
        self.protocol_version = PROTOCOL_VERSION;
        self.size_of_usize = core::mem::size_of::<usize>() as u32;
        self.frame_data.init();
        self.zone_data.init();
        self.heap_data.init();
        self.plot_data.init();
        self.log_data_lock.unlock();
        self.log_data_count = 0;
    }

    /// The handshake that a producer runs on a region it has mapped.
    pub fn check(&self) -> (verdict: Result<(), SharedMemoryOpenError>)
        ensures
            verdict == handshake_spec(self.magic, self.protocol_version, self.size_of_usize),
    {
        handshake(self.magic, self.protocol_version, self.size_of_usize)
    }
}

/// A region that its creator has initialised passes the handshake of every
/// producer built for the same protocol and pointer width.
pub proof fn lemma_fresh_region_passes_handshake(region: SharedMemoryData)
    requires
        region.fresh(),
    ensures
        handshake_spec(region.magic, region.protocol_version, region.size_of_usize) == Ok::<
            (),
            SharedMemoryOpenError,
        >(()),
{
}

/// A region is refused for exactly one reason, the first of its header words
/// that differs, and is accepted only if none does.
pub proof fn lemma_handshake_names_first_difference(
    magic: u32,
    protocol_version: u32,
    size_of_usize: u32,
)
    ensures
        ({
            let verdict = handshake_spec(magic, protocol_version, size_of_usize);
            &&& verdict is Ok <==> magic == MAGIC && protocol_version == PROTOCOL_VERSION
                && size_of_usize == pointer_width()
            &&& verdict == Err::<(), SharedMemoryOpenError>(SharedMemoryOpenError::BadMagic)
                <==> magic != MAGIC
            &&& verdict == Err::<(), SharedMemoryOpenError>(
                SharedMemoryOpenError::ProtocolMismatch,
            ) <==> magic == MAGIC && protocol_version != PROTOCOL_VERSION
            &&& verdict == Err::<(), SharedMemoryOpenError>(
                SharedMemoryOpenError::PlatformMismatch,
            ) <==> magic == MAGIC && protocol_version == PROTOCOL_VERSION && size_of_usize
                != pointer_width()
            &&& !(verdict matches Err(SharedMemoryOpenError::ShmemError(_)))
        }),
{
}

} // verus!
