//! The registry of shared memory segments: which segments exist, under which names and
//! sizes. Mapping and unmapping the memory is the host's part; the registry decides whether
//! a segment may be created and records it once the host has mapped it.

use vstd::prelude::*;
use crate::common::foreign::now_secs;
use crate::common::str_map::str_eq;
use super::types::{SharedMemoryConfig, SharedMemoryError, SharedMemoryStats};

verus! {

/// A mapped segment: its configuration and mapped size in bytes.
#[derive(Debug)]
pub struct SharedMemorySegment {
    config: SharedMemoryConfig,
    size: usize,
}

impl SharedMemorySegment {
    /// A segment of the given configuration, mapped with `size` bytes.
    pub fn new(config: SharedMemoryConfig, size: usize) -> (r: Self)
        ensures
            r.cfg() == config,
            r.mapped_size() == size,
    {
        SharedMemorySegment { config, size }
    }

    pub closed spec fn cfg(&self) -> SharedMemoryConfig {
        self.config
    }

    pub closed spec fn mapped_size(&self) -> usize {
        self.size
    }

    /// The segment's configuration.
    pub fn get_config(&self) -> (r: SharedMemoryConfig)
        ensures
            r == self.cfg(),
    {
        self.config.clone()
    }

    /// The mapped size in bytes.
    pub fn get_size(&self) -> (r: usize)
        ensures
            r == self.mapped_size(),
    {
        self.size
    }
}

/// The size `size` rounded up to a whole number of pages.
pub open spec fn page_aligned(size: nat, page_size: nat) -> nat {
    ((size + page_size - 1) / page_size as int) as nat * page_size
}

/// A handle on a registered segment.
#[derive(Debug)]
pub struct SharedMemoryHandle {
    config: SharedMemoryConfig,
}

impl SharedMemoryHandle {
    pub closed spec fn cfg(&self) -> SharedMemoryConfig {
        self.config
    }

    /// The configured size of the segment.
    pub fn get_size(&self) -> (r: usize)
        ensures
            r == self.cfg().size,
    {
        self.config.size
    }

    /// The segment's name.
    pub fn get_name(&self) -> (r: &str)
        ensures
            r@ == self.cfg().name@,
    {
        self.config.name.as_str()
    }
}

/// The names of a list of segments, in order.
pub open spec fn segment_names(s: Seq<SharedMemorySegment>) -> Seq<Seq<char>> {
    s.map_values(|g: SharedMemorySegment| g.cfg().name@)
}

/// The total mapped size of a list of segments.
pub open spec fn total_size(s: Seq<SharedMemorySegment>) -> nat
    decreases s.len(),
{
    if s.len() == 0 {
        0
    } else {
        total_size(s.drop_last()) + s.last().mapped_size() as nat
    }
}

/// The registry of a process's shared memory segments.
#[derive(Debug)]
pub struct SharedMemoryManager {
    segments: Vec<SharedMemorySegment>,
    process_id: u32,
    /// Seconds since the Unix epoch when the registry was made.
    created_at_secs: u64,
}

/// Whole seconds from `from` to `to`; zero where `to` is earlier.
pub open spec fn elapsed_secs(from: u64, to: u64) -> u64 {
    if to >= from {
        (to - from) as u64
    } else {
        0
    }
}

impl SharedMemoryManager {
    /// The registered segments, oldest first.
    pub closed spec fn segs(&self) -> Seq<SharedMemorySegment> {
        self.segments@
    }

    pub closed spec fn pid(&self) -> u32 {
        self.process_id
    }

    /// When the registry was made, in seconds since the Unix epoch.
    pub closed spec fn created(&self) -> u64 {
        self.created_at_secs
    }

    /// No name is registered twice.
    pub open spec fn wf(&self) -> bool {
        segment_names(self.segs()).no_duplicates()
    }

    /// An empty registry for the process `process_id`, made now.
    pub fn new(process_id: u32) -> (r: Result<Self, SharedMemoryError>)
        ensures
            r matches Ok(m) && m.wf() && m.segs().len() == 0 && m.pid() == process_id,
    {
        Ok(Self::new_at(process_id, now_secs()))
    }

    /// An empty registry for the process `process_id`, made at `now_secs` seconds since the
    /// Unix epoch.
    pub fn new_at(process_id: u32, now_secs: u64) -> (r: Self)
        ensures
            r.wf(),
            r.segs().len() == 0,
            r.pid() == process_id,
            r.created() == now_secs,
    {
        let r = SharedMemoryManager { segments: Vec::new(), process_id, created_at_secs: now_secs };
        proof {
            assert(segment_names(r.segs()) =~= Seq::<Seq<char>>::empty());
        }
        r
    }

    /// The position of the segment named `name`, if registered.
    fn position(&self, name: &str) -> (r: Option<usize>)
        ensures
            match r {
                Some(i) => i < self.segs().len() && self.segs()[i as int].cfg().name@ == name@
                    && segment_names(self.segs()).contains(name@),
                None => !segment_names(self.segs()).contains(name@),
            },
    {
        let mut i: usize = 0;
        while i < self.segments.len()
            invariant
                i <= self.segments@.len(),
                forall|j: int| 0 <= j < i ==> #[trigger] self.segments@[j].cfg().name@ != name@,
            decreases self.segments@.len() - i,
        {
            if str_eq(self.segments[i].config.name.as_str(), name) {
                proof {
                    assert(segment_names(self.segs())[i as int] == name@);
                }
                return Some(i);
            }
            i = i + 1;
        }
        proof {
            if segment_names(self.segs()).contains(name@) {
                let k = choose|k: int| 0 <= k < segment_names(self.segs()).len() && segment_names(self.segs())[k] == name@;
                assert(self.segments@[k].cfg().name@ == name@);
            }
        }
        None
    }

    /// Decides whether a segment may be created: a name already registered is refused, then
    /// a size of zero; otherwise the size to map is the configured size rounded up to whole
    /// pages.
    pub fn check_new_segment(&self, config: &SharedMemoryConfig, page_size: usize) -> (r: Result<usize, SharedMemoryError>)
        requires
            page_size > 0,
            config.size + page_size - 1 <= usize::MAX,
        ensures
            segment_names(self.segs()).contains(config.name@) ==> r == Err::<usize, SharedMemoryError>(SharedMemoryError::AlreadyExists),
            !segment_names(self.segs()).contains(config.name@) && config.size == 0 ==> r == Err::<usize, SharedMemoryError>(SharedMemoryError::InvalidSize),
            !segment_names(self.segs()).contains(config.name@) && config.size > 0 ==> r == Ok::<usize, SharedMemoryError>(
                page_aligned(config.size as nat, page_size as nat) as usize,
            ) && page_aligned(config.size as nat, page_size as nat) <= usize::MAX,
    {
        if self.position(config.name.as_str()).is_some() {
            return Err(SharedMemoryError::AlreadyExists);
        }
        if config.size == 0 {
            return Err(SharedMemoryError::InvalidSize);
        }
        let pages = (config.size + (page_size - 1)) / page_size;
        assert(pages * page_size <= config.size + page_size - 1) by (nonlinear_arith)
            requires
                pages == (config.size + page_size - 1) / page_size as int,
                page_size > 0,
        ;
        Ok(pages * page_size)
    }

    /// Records a segment the host has mapped, when its name is free.
    pub fn insert_segment(&mut self, segment: SharedMemorySegment) -> (r: Result<SharedMemoryHandle, SharedMemoryError>)
        requires
            old(self).wf(),
        ensures
            final(self).wf(),
            final(self).pid() == old(self).pid(),
            segment_names(old(self).segs()).contains(segment.cfg().name@) ==> (r matches Err(SharedMemoryError::AlreadyExists))
                && final(self).segs() == old(self).segs(),
            !segment_names(old(self).segs()).contains(segment.cfg().name@) ==> (r matches Ok(h) && h.cfg() == segment.cfg())
                && final(self).segs() == old(self).segs().push(segment),
    {
        if self.position(segment.config.name.as_str()).is_some() {
            return Err(SharedMemoryError::AlreadyExists);
        }
        let config = segment.config.clone();
        let ghost old_s = self.segments@;
        self.segments.push(segment);
        proof {
            assert(segment_names(self.segments@) =~= segment_names(old_s).push(config.name@));
        }
        Ok(SharedMemoryHandle { config })
    }

    /// A handle on the segment named `name`.
    pub fn open_segment(&self, name: &str) -> (r: Result<SharedMemoryHandle, SharedMemoryError>)
        ensures
            segment_names(self.segs()).contains(name@) <==> r is Ok,
            r matches Ok(h) ==> h.cfg().name@ == name@ && exists|i: int| 0 <= i < self.segs().len() && h.cfg() == #[trigger] self.segs()[i].cfg(),
            r is Err ==> r == Err::<SharedMemoryHandle, SharedMemoryError>(SharedMemoryError::NotFound),
    {
        match self.position(name) {
            Some(i) => {
                proof {
                    assert(segment_names(self.segs())[i as int] == name@);
                }
                Ok(SharedMemoryHandle { config: self.segments[i].config.clone() })
            },
            None => Err(SharedMemoryError::NotFound),
        }
    }

    /// Unregisters the segment named `name` (the host unmaps it).
    pub fn remove_segment(&mut self, name: &str) -> (r: Result<(), SharedMemoryError>)
        requires
            old(self).wf(),
        ensures
            final(self).wf(),
            final(self).pid() == old(self).pid(),
            segment_names(old(self).segs()).contains(name@) <==> r is Ok,
            r is Err ==> r == Err::<(), SharedMemoryError>(SharedMemoryError::NotFound) && final(self).segs() == old(self).segs(),
            r is Ok ==> exists|i: int| 0 <= i < old(self).segs().len() && old(self).segs()[i].cfg().name@ == name@
                && final(self).segs() == old(self).segs().remove(i),
            !segment_names(final(self).segs()).contains(name@),
    {
        match self.position(name) {
            Some(i) => {
                let ghost old_s = self.segments@;
                self.segments.remove(i);
                proof {
                    let names = segment_names(old_s);
                    assert(segment_names(self.segments@) =~= names.remove(i as int));
                    assert(names[i as int] == name@);
                    assert forall|a: int, b: int| 0 <= a < b < names.remove(i as int).len() implies names.remove(i as int)[a] != names.remove(i as int)[b] by {
                        let a2 = if a < i { a } else { a + 1 };
                        let b2 = if b < i { b } else { b + 1 };
                        assert(names.remove(i as int)[a] == names[a2]);
                        assert(names.remove(i as int)[b] == names[b2]);
                    }
                    if segment_names(self.segments@).contains(name@) {
                        let k = choose|k: int| 0 <= k < names.remove(i as int).len() && names.remove(i as int)[k] == name@;
                        let k2 = if k < i { k } else { k + 1 };
                        assert(names.remove(i as int)[k] == names[k2]);
                    }
                    assert(segment_names(old_s).contains(name@)) by {
                        assert(segment_names(old_s)[i as int] == name@);
                    }
                }
                Ok(())
            },
            None => Err(SharedMemoryError::NotFound),
        }
    }

    /// The names of the registered segments, oldest first.
    pub fn list_segments(&self) -> (r: Vec<String>)
        ensures
            r@.map_values(|s: String| s@) == segment_names(self.segs()),
    {
        let mut out: Vec<String> = Vec::new();
        let mut i: usize = 0;
        while i < self.segments.len()
            invariant
                i <= self.segments@.len(),
                out@.len() == i,
                forall|j: int| 0 <= j < i ==> #[trigger] out@[j]@ == self.segments@[j].cfg().name@,
            decreases self.segments@.len() - i,
        {
            out.push(self.segments[i].config.name.clone());
            i = i + 1;
        }
        proof {
            assert(out@.map_values(|s: String| s@) =~= segment_names(self.segs()));
        }
        out
    }

    /// Statistics at `now_secs` seconds since the Unix epoch: the process, the number of
    /// segments, their total mapped size and the seconds since the registry was made.
    pub fn get_stats_at(&self, now_secs: u64) -> (r: SharedMemoryStats)
        requires
            total_size(self.segs()) <= usize::MAX,
        ensures
            r == (SharedMemoryStats {
                process_id: self.pid(),
                total_segments: self.segs().len() as usize,
                total_memory_bytes: total_size(self.segs()) as usize,
                uptime: elapsed_secs(self.created(), now_secs),
            }),
    {
        let mut total: usize = 0;
        let mut i: usize = 0;
        while i < self.segments.len()
            invariant
                i <= self.segments@.len(),
                total == total_size(self.segments@.subrange(0, i as int)),
                total_size(self.segments@) <= usize::MAX,
            decreases self.segments@.len() - i,
        {
            proof {
                assert(self.segments@.subrange(0, i + 1).drop_last() =~= self.segments@.subrange(0, i as int));
                lemma_total_size_prefix(self.segments@, i as int + 1);
            }
            total = total + self.segments[i].size;
            i = i + 1;
        }
        proof {
            assert(self.segments@.subrange(0, self.segments@.len() as int) =~= self.segments@);
        }
        SharedMemoryStats {
            process_id: self.process_id,
            total_segments: self.segments.len(),
            total_memory_bytes: total,
            uptime: if now_secs >= self.created_at_secs {
                now_secs - self.created_at_secs
            } else {
                0
            },
        }
    }

    /// Statistics now: as `get_stats_at` gives them for the clock's reading.
    pub fn get_stats(&self) -> (r: SharedMemoryStats)
        requires
            total_size(self.segs()) <= usize::MAX,
        ensures
            r.process_id == self.pid(),
            r.total_segments == self.segs().len(),
            r.total_memory_bytes == total_size(self.segs()),
            exists|now: u64| r.uptime == #[trigger] elapsed_secs(self.created(), now),
    {
        let count = self.segments.len();
        let now = now_secs();
        let r = self.get_stats_at(now);
        assert(r.total_segments == count);
        proof {
            assert(r.uptime == elapsed_secs(self.created(), now));
        }
        r
    }
}

/// The total size of a prefix never exceeds the total size of the whole list.
proof fn lemma_total_size_prefix(s: Seq<SharedMemorySegment>, n: int)
    requires
        0 <= n <= s.len(),
    ensures
        total_size(s.subrange(0, n)) <= total_size(s),
    decreases s.len() - n,
{
    if n < s.len() {
        lemma_total_size_prefix(s, n + 1);
        assert(s.subrange(0, n + 1).drop_last() =~= s.subrange(0, n));
    } else {
        assert(s.subrange(0, n) =~= s);
    }
}

} // verus!
