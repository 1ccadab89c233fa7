//! Client-side core of a low-overhead profiler that publishes timing events
//! through fixed-capacity queues laid out in one shared region.
//!
//! The library holds the rules: what a scope records when it is entered and
//! left, when a name travels with a record, how a channel counts what it
//! could not store, when an attachment is attempted. Its callers own the
//! clock, the threads and the mapping of the region, and hand in plain
//! values: times are nanoseconds since the process's start instant.

use crate::shmem::address_of;
use crate::shmem::Color;
use crate::shmem::Duration;
use crate::shmem::FrameData;
use crate::shmem::PlotData;
use crate::shmem::SharedMemoryData;
use crate::shmem::SharedStringView;
use crate::shmem::Time;
use crate::shmem::WriteInto;
use crate::shmem::ZoneData;
use crate::shmem::SHARED_STRING_MAX_SIZE;
use vstd::prelude::*;
use vstd::string::StringSliceAdditionalSpecFns;
use vstd::utf8::encode_utf8;

pub mod attach;
pub mod shmem;
pub mod spinlock;
pub mod trace;

verus! {

/// The colours that call sites use when they name none of their own.
pub const COLOR_BLUE: Color = 0x0061afef;

pub const COLOR_ORANGE: Color = 0x00d19a66;

pub const COLOR_PURPLE: Color = 0x00c678dd;

pub const COLOR_GREEN: Color = 0x0098c379;

pub const COLOR_RED: Color = 0x00e06c75;

pub const COLOR_CYAN: Color = 0x0056b6c2;

/// A thread as contracts speak of it.
pub struct ThreadInfoView {
    pub id: u64,
    pub name: Seq<char>,
    /// Whether a stored record has carried the name.
    pub name_sent: bool,
    /// Scopes entered on the thread and not yet left.
    pub depth: nat,
}

impl ThreadInfoView {
    /// The name that a scope entered now is to carry: the thread's name until
    /// it has been sent.
    pub open spec fn name_to_send(self) -> Option<Seq<char>> {
        if self.name_sent {
            None
        } else {
            Some(self.name)
        }
    }

    /// The thread after it has entered a scope.
    pub open spec fn entered(self) -> ThreadInfoView {
        ThreadInfoView { depth: self.depth + 1, ..self }
    }

    /// The thread after it has left a scope whose record was stored or not,
    /// and carried the thread's name or not.
    pub open spec fn left(self, stored: bool, carried_name: bool) -> ThreadInfoView {
        ThreadInfoView {
            depth: (self.depth - 1) as nat,
            name_sent: self.name_sent || (stored && carried_name),
            ..self
        }
    }
}

/// What a thread keeps for its scopes: its id and name, whether the name has
/// reached the collector, and how many scopes are open.
pub struct ThreadInfo {
    id: u64,
    name: String,
    name_sent: bool,
    depth: u32,
}

impl View for ThreadInfo {
    type V = ThreadInfoView;

    closed spec fn view(&self) -> ThreadInfoView {
        ThreadInfoView {
            id: self.id,
            name: self.name@,
            name_sent: self.name_sent,
            depth: self.depth as nat,
        }
    }
}

impl ThreadInfo {
    /// The state of a thread that has entered no scope yet.
    pub fn new(id: u64, name: String) -> (thread: ThreadInfo)
        ensures
            thread@ == (ThreadInfoView { id, name: name@, name_sent: false, depth: 0 }),
    {
        ThreadInfo { id, name, name_sent: false, depth: 0 }
    }

    pub fn id(&self) -> (id: u64)
        ensures
            id == self@.id,
    {
        self.id
    }

    pub fn name(&self) -> (name: &str)
        ensures
            name@ == self@.name,
    {
        self.name.as_str()
    }

    pub fn name_sent(&self) -> (sent: bool)
        ensures
            sent == self@.name_sent,
    {
        self.name_sent
    }

    pub fn depth(&self) -> (depth: u32)
        ensures
            depth == self@.depth,
    {
        self.depth
    }

    /// Opens a scope: returns the thread's id, its name unless the name has
    /// been sent, and the number of scopes that were open before this one.
    pub fn enter(&mut self) -> (entry: (u64, Option<String>, u32))
        requires
            old(self)@.depth < u32::MAX,
        ensures
            entry.0 == old(self)@.id,
            entry.1 is Some <==> old(self)@.name_to_send() is Some,
            entry.1 matches Some(name) ==> Some(name@) == old(self)@.name_to_send(),
            entry.2 == old(self)@.depth,
            final(self)@ == old(self)@.entered(),
    {
        let depth = self.depth;
        self.depth = depth + 1;
        let name = if self.name_sent {
            None
        } else {
            Some(self.name.clone())
        };
        (self.id, name, depth)
    }

    /// Closes a scope. The name counts as sent once a record that carried it
    /// has been stored.
    pub fn leave(&mut self, push_succeeded: bool, carried_name: bool)
        requires
            old(self)@.depth > 0,
        ensures
            final(self)@ == old(self)@.left(push_succeeded, carried_name),
    {
        if push_succeeded && carried_name {
            self.name_sent = true;
        }
        self.depth = self.depth - 1;
    }
}

/// A call site as contracts speak of it.
pub struct ZoneInfoView {
    pub color: Color,
    pub name: Seq<char>,
    /// The key under which readers intern the name.
    pub name_key: usize,
    /// Whether the next record is to carry the name.
    pub copy_name: bool,
}

impl ZoneInfoView {
    /// The call site after one of its scopes was left and its record was
    /// stored or not: once a record is stored, the name is sent no more.
    pub open spec fn published(self, stored: bool) -> ZoneInfoView {
        ZoneInfoView { copy_name: self.copy_name && !stored, ..self }
    }
}

/// Describes one call site. The name travels with the site's records until
/// one of them has been stored.
pub struct ZoneInfo {
    color: Color,
    name: &'static str,
    name_key: usize,
    copy_name: bool,
}

impl View for ZoneInfo {
    type V = ZoneInfoView;

    closed spec fn view(&self) -> ZoneInfoView {
        ZoneInfoView {
            color: self.color,
            name: self.name@,
            name_key: self.name_key,
            copy_name: self.copy_name,
        }
    }
}

impl ZoneInfo {
    /// A call site whose name has not been sent. The name is keyed by the
    /// address at which it is stored.
    pub fn new(color: Color, name: &'static str) -> (info: ZoneInfo)
        ensures
            info@.color == color,
            info@.name == name@,
            info@.copy_name,
    {
        ZoneInfo { color, name, name_key: address_of(name), copy_name: true }
    }

    pub fn color(&self) -> (color: Color)
        ensures
            color == self@.color,
    {
        self.color
    }

    pub fn name(&self) -> (name: &'static str)
        ensures
            name@ == self@.name,
    {
        self.name
    }

    pub fn name_key(&self) -> (key: usize)
        ensures
            key == self@.name_key,
    {
        self.name_key
    }

    pub fn copy_name(&self) -> (copy: bool)
        ensures
            copy == self@.copy_name,
    {
        self.copy_name
    }
}

/// When a scope was left and how long it ran.
#[derive(Clone, Copy)]
struct TimeData {
    end: Time,
    duration: Duration,
}

/// An open scope as contracts speak of it.
pub struct ZoneView {
    /// Identifies the call site.
    pub uid: usize,
    pub color: Color,
    pub name: Seq<char>,
    /// The key under which readers intern the call site's name.
    pub name_key: usize,
    /// Whether the record is to carry the call site's name.
    pub copy_name: bool,
    /// When the scope was entered.
    pub start: Time,
    /// When the scope was left; set on leaving.
    pub end: Time,
    /// How long the scope ran; set on leaving.
    pub duration: Duration,
    pub thread_id: u64,
    /// The thread's name, where the record is to carry it.
    pub thread_name: Option<Seq<char>>,
    /// Scopes that were open on the thread when this one was entered.
    pub depth: u32,
}

impl ZoneView {
    /// Whether both names fit an interned string.
    pub open spec fn writable(self) -> bool {
        &&& encode_utf8(self.name).len() <= SHARED_STRING_MAX_SIZE
        &&& self.thread_name matches Some(name) ==> encode_utf8(name).len()
            <= SHARED_STRING_MAX_SIZE
    }

    /// Whether `record` is what this scope publishes.
    pub open spec fn describes(self, record: ZoneData) -> bool {
        &&& record.uid == self.uid
        &&& record.color == self.color
        &&& record.end == self.end
        &&& record.duration == self.duration
        &&& record.depth == self.depth
        &&& record.name@ == (SharedStringView {
            key: self.name_key,
            contents: if self.copy_name {
                Some(encode_utf8(self.name))
            } else {
                None
            },
        })
        &&& record.thread@ == (SharedStringView {
            key: self.thread_id as usize,
            contents: match self.thread_name {
                Some(name) => Some(encode_utf8(name)),
                None => None,
            },
        })
    }

    /// The scope as it stands when it is left at `now`, with the call site
    /// saying through `copy_name` whether its name is still to be sent.
    pub open spec fn left_at(self, now: Time, copy_name: bool) -> ZoneView {
        ZoneView {
            copy_name,
            end: now,
            duration: span(self.start, now),
            ..self
        }
    }
}

/// An open scope: created on entry, consumed by `end`, which alone publishes
/// it.
pub struct Zone {
    uid: usize,
    color: Color,
    name: &'static str,
    name_key: usize,
    copy_name: bool,
    start: Time,
    time_data: TimeData,
    thread_id: u64,
    thread_name: Option<String>,
    depth: u32,
}

impl View for Zone {
    type V = ZoneView;

    closed spec fn view(&self) -> ZoneView {
        ZoneView {
            uid: self.uid,
            color: self.color,
            name: self.name@,
            name_key: self.name_key,
            copy_name: self.copy_name,
            start: self.start,
            end: self.time_data.end,
            duration: self.time_data.duration,
            thread_id: self.thread_id,
            thread_name: match self.thread_name {
                Some(name) => Some(name@),
                None => None,
            },
            depth: self.depth,
        }
    }
}

impl WriteInto<ZoneData> for Zone {
    open spec fn writable(&self) -> bool {
        self@.writable()
    }

    open spec fn writes(&self, before: ZoneData, after: ZoneData) -> bool {
        self@.describes(after)
    }

    fn write_into(&self, target: &mut ZoneData) {
        target.uid = self.uid;
        target.color = self.color;
        target.end = self.time_data.end;
        target.duration = self.time_data.duration;
        target.depth = self.depth;
        if self.copy_name {
            target.name.set_special(self.name_key, Some(self.name));
        } else {
            target.name.set_special(self.name_key, None);
        }
        match &self.thread_name {
            Some(name) => target.thread.set_special(self.thread_id as usize, Some(name.as_str())),
            None => target.thread.set_special(self.thread_id as usize, None),
        }
    }
}

impl Zone {
    /// Enters a scope of the call site `info`, which `uid` identifies, on the
    /// thread `thread` at time `now`.
    pub fn new(uid: usize, info: &ZoneInfo, thread: &mut ThreadInfo, now: Time) -> (zone: Zone)
        requires
            old(thread)@.depth < u32::MAX,
        ensures
            zone@ == (ZoneView {
                uid,
                color: info@.color,
                name: info@.name,
                name_key: info@.name_key,
                copy_name: info@.copy_name,
                start: now,
                end: 0,
                duration: 0,
                thread_id: old(thread)@.id,
                thread_name: old(thread)@.name_to_send(),
                depth: old(thread)@.depth as u32,
            }),
            final(thread)@ == old(thread)@.entered(),
    {
        let (thread_id, thread_name, depth) = thread.enter();
        Zone {
            uid,
            color: info.color,
            name: info.name,
            name_key: info.name_key,
            copy_name: info.copy_name,
            start: now,
            time_data: TimeData { end: 0, duration: 0 },
            thread_id,
            thread_name,
            depth,
        }
    }

    /// Leaves the scope at `now` and publishes it to `region`, if there is
    /// one. Returns whether the record was stored. Once a record is stored,
    /// the call site stops sending its name, and so does the thread if the
    /// record carried the thread's name. Without a region nothing is
    /// published and only the thread's count of open scopes changes. Names
    /// longer than an interned string holds are accepted only where nothing
    /// is stored. The caller holds the lock of the region's channel for
    /// scopes.
    pub fn end(
        self,
        info: &mut ZoneInfo,
        thread: &mut ThreadInfo,
        region: Option<&mut SharedMemoryData>,
        now: Time,
    ) -> (stored: bool)
        requires
            (region matches Some(mem) && mem.zone_data@.accepts()) ==> self@.writable(),
            old(thread)@.depth > 0,
        ensures
            stored == (region matches Some(mem) && mem.zone_data@.accepts()),
            final(info)@ == old(info)@.published(stored),
            final(thread)@ == old(thread)@.left(stored, self@.thread_name is Some),
            region matches Some(mem) ==> {
                &&& mem.zone_data@.counted_push(final(mem).zone_data@)
                &&& stored ==> self@.left_at(now, old(info)@.copy_name).describes(
                    final(mem).zone_data@.data[mem.zone_data@.size as int],
                )
                &&& final(mem).keeps_header_and_log(mem)
                &&& final(mem).frame_data@ == mem.frame_data@
                &&& final(mem).heap_data@ == mem.heap_data@
                &&& final(mem).plot_data@ == mem.plot_data@
            },
    {
        let mut zone = self;
        let carried_name = zone.thread_name.is_some();
        let stored = match region {
            Some(mem) => {
                zone.time_data = TimeData { end: now, duration: now.saturating_sub(zone.start) };
                zone.copy_name = info.copy_name;
                mem.zone_data.push(&zone)
            },
            None => false,
        };
        if stored {
            info.copy_name = false;
        }
        thread.leave(stored, carried_name);
        stored
    }
}

/// Publishes the frame numbered `num` that ended at `end`, if it has a start:
/// a frame's start is the previous frame's end, so the first delimiter of a
/// run has none and publishes nothing. Returns whether a record was stored.
/// The caller holds the lock of the region's channel for frames.
pub fn send_frame_info(
    region: Option<&mut SharedMemoryData>,
    num: u64,
    start: Option<Time>,
    end: Time,
) -> (stored: bool)
    ensures
        stored == (start is Some && (region matches Some(mem) && mem.frame_data@.accepts())),
        region matches Some(mem) ==> {
            &&& start is Some ==> mem.frame_data@.counted_push(final(mem).frame_data@)
            &&& start is None ==> final(mem).frame_data@ == mem.frame_data@
            &&& stored ==> final(mem).frame_data@.data[mem.frame_data@.size as int] == (FrameData {
                number: num,
                end,
                duration: span(start.unwrap(), end),
            })
            &&& final(mem).keeps_header_and_log(mem)
            &&& final(mem).zone_data@ == mem.zone_data@
            &&& final(mem).heap_data@ == mem.heap_data@
            &&& final(mem).plot_data@ == mem.plot_data@
        },
{
    match region {
        Some(mem) => {
            match start {
                Some(from) => {
                    let entry = FrameData {
                        number: num,
                        end,
                        duration: end.saturating_sub(from),
                    };
                    mem.frame_data.push(&entry)
                },
                None => false,
            }
        },
        None => false,
    }
}

/// The time from `from` to `to`; none if `to` is the earlier.
pub open spec fn span(from: Time, to: Time) -> Duration {
    if to >= from {
        (to - from) as u64
    } else {
        0
    }
}

/// A frame counter as contracts speak of it.
pub struct FrameDelimiterView {
    /// When the last delimiter was passed, if any was.
    pub last: Option<Time>,
    /// Delimiters passed so far.
    pub number: u64,
}

/// Counts the frames of one loop and remembers when the last one ended.
pub struct FrameDelimiter {
    last: Option<Time>,
    number: u64,
}

impl View for FrameDelimiter {
    type V = FrameDelimiterView;

    closed spec fn view(&self) -> FrameDelimiterView {
        FrameDelimiterView { last: self.last, number: self.number }
    }
}

impl FrameDelimiter {
    /// A counter that has passed no delimiter.
    pub fn new() -> (frames: FrameDelimiter)
        ensures
            frames@ == (FrameDelimiterView { last: None, number: 0 }),
    {
        FrameDelimiter { last: None, number: 0 }
    }

    /// When the last delimiter was passed.
    pub fn last(&self) -> (last: Option<Time>)
        ensures
            last == self@.last,
    {
        self.last
    }

    /// Delimiters passed so far.
    pub fn number(&self) -> (number: u64)
        ensures
            number == self@.number,
    {
        self.number
    }

    /// Passes a delimiter at `now`: publishes the frame that ends here, as
    /// `send_frame_info` does with the counter's number and last time, then
    /// counts the delimiter and remembers `now`. Returns whether a record was
    /// stored.
    pub fn mark(&mut self, region: Option<&mut SharedMemoryData>, now: Time) -> (stored: bool)
        requires
            old(self)@.number < u64::MAX,
        ensures
            final(self)@ == (FrameDelimiterView {
                last: Some(now),
                number: (old(self)@.number + 1) as u64,
            }),
            stored == (old(self)@.last is Some && (region matches Some(mem)
                && mem.frame_data@.accepts())),
            region matches Some(mem) ==> {
                &&& old(self)@.last is Some ==> mem.frame_data@.counted_push(final(mem).frame_data@)
                &&& old(self)@.last is None ==> final(mem).frame_data@ == mem.frame_data@
                &&& stored ==> final(mem).frame_data@.data[mem.frame_data@.size as int] == (FrameData {
                    number: old(self)@.number,
                    end: now,
                    duration: span(old(self)@.last.unwrap(), now),
                })
                &&& final(mem).keeps_header_and_log(mem)
                &&& final(mem).zone_data@ == mem.zone_data@
                &&& final(mem).heap_data@ == mem.heap_data@
                &&& final(mem).plot_data@ == mem.plot_data@
            },
    {
        let stored = send_frame_info(region, self.number, self.last, now);
        self.last = Some(now);
        self.number = self.number + 1;
        stored
    }
}

/// The colour of the series that tracks the heap's size.
pub const HEAP_PLOT_COLOR: Color = 0x0098c379;

/// The key of the series that tracks the heap's size.
pub const HEAP_PLOT_KEY: usize = 0;

/// One sample of the heap's size.
pub struct HeapPlotData {
    pub time: Time,
    /// Bytes in use, as the bit pattern of a 64-bit IEEE-754 number.
    pub value: u64,
}

impl WriteInto<PlotData> for HeapPlotData {
    open spec fn writable(&self) -> bool {
        true
    }

    open spec fn writes(&self, before: PlotData, after: PlotData) -> bool {
        &&& after.time == self.time
        &&& after.color == HEAP_PLOT_COLOR
        &&& after.value == self.value
        &&& after.name@ == (SharedStringView { key: HEAP_PLOT_KEY, contents: None })
    }

    fn write_into(&self, target: &mut PlotData) {
        target.time = self.time;
        target.color = HEAP_PLOT_COLOR;
        target.value = self.value;
        target.name.set_special(HEAP_PLOT_KEY, None);
    }
}

/// Publishes the heap's size `value` at `now` to `region`, if there is one,
/// as a sample of the series with key `HEAP_PLOT_KEY`. Returns whether the
/// sample was stored. The caller holds the lock of the region's channel for
/// plots.
pub fn report_heap(region: Option<&mut SharedMemoryData>, now: Time, value: u64) -> (stored: bool)
    ensures
        stored == (region matches Some(mem) && mem.plot_data@.accepts()),
        region matches Some(mem) ==> {
            &&& mem.plot_data@.counted_push(final(mem).plot_data@)
            &&& stored ==> (HeapPlotData { time: now, value }).writes(
                mem.plot_data@.data[mem.plot_data@.size as int],
                final(mem).plot_data@.data[mem.plot_data@.size as int],
            )
            &&& final(mem).keeps_header_and_log(mem)
            &&& final(mem).frame_data@ == mem.frame_data@
            &&& final(mem).zone_data@ == mem.zone_data@
            &&& final(mem).heap_data@ == mem.heap_data@
        },
{
    match region {
        Some(mem) => {
            let entry = HeapPlotData { time: now, value };
            mem.plot_data.push(&entry)
        },
        None => false,
    }
}

/// One sample of a named series, ready to be published.
pub struct Plot {
    pub time: Time,
    pub color: Color,
    /// The sample, as the bit pattern of a 64-bit IEEE-754 number.
    pub value: u64,
    /// The key that identifies the series.
    pub key: usize,
    /// Name of the series.
    pub name: &'static str,
    /// Whether the record is to carry the name.
    pub copy_name: bool,
}

impl WriteInto<PlotData> for Plot {
    open spec fn writable(&self) -> bool {
        self.name.spec_bytes().len() <= SHARED_STRING_MAX_SIZE
    }

    open spec fn writes(&self, before: PlotData, after: PlotData) -> bool {
        &&& after.time == self.time
        &&& after.color == self.color
        &&& after.value == self.value
        &&& after.name@ == (SharedStringView {
            key: self.key,
            contents: if self.copy_name {
                Some(self.name.spec_bytes())
            } else {
                None
            },
        })
    }

    fn write_into(&self, target: &mut PlotData) {
        target.time = self.time;
        target.color = self.color;
        target.value = self.value;
        if self.copy_name {
            target.name.set_special(self.key, Some(self.name));
        } else {
            target.name.set_special(self.key, None);
        }
    }
}

/// Publishes `plot` to `region`, if there is one. Returns whether the sample
/// was stored. The caller holds the lock of the region's channel for plots.
pub fn submit_plot(region: Option<&mut SharedMemoryData>, plot: &Plot) -> (stored: bool)
    requires
        (region matches Some(mem) && mem.plot_data@.accepts()) ==> plot.writable(),
    ensures
        stored == (region matches Some(mem) && mem.plot_data@.accepts()),
        region matches Some(mem) ==> {
            &&& mem.plot_data@.counted_push(final(mem).plot_data@)
            &&& stored ==> plot.writes(
                mem.plot_data@.data[mem.plot_data@.size as int],
                final(mem).plot_data@.data[mem.plot_data@.size as int],
            )
            &&& final(mem).keeps_header_and_log(mem)
            &&& final(mem).frame_data@ == mem.frame_data@
            &&& final(mem).zone_data@ == mem.zone_data@
            &&& final(mem).heap_data@ == mem.heap_data@
        },
{
    match region {
        Some(mem) => mem.plot_data.push(plot),
        None => false,
    }
}

} // verus!
