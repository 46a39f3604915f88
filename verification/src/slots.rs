//! The guest memory-slot table of a virtual machine.
//!
//! Each slot maps one host range at one guest physical address. Slots in
//! one address space never overlap in guest-address range; a slot is
//! removed by registering it with zero length. While a slot is live only
//! its flags may be registered anew: the kernel refuses to move or resize
//! a live slot, so a range change must go through removal first, and the
//! table refuses it the same way. A read-only registration marks the slot
//! as an unbacked placeholder: its size is zero in the table and on the
//! wire, whatever the host range length.

use vstd::prelude::*;

use crate::errors::MemoryError;
use crate::kvm_wire::{MemoryRegion, MEM_LOG_DIRTY_PAGES, MEM_READ_ONLY};

verus! {

/// The page size every host range must be aligned to.
pub const PAGE_SIZE: u64 = 4096;

/// One registered guest memory slot.
#[derive(Debug, Clone, Copy, PartialEq, Eq, Structural)]
pub struct MemorySlot {
    /// The slot id, unique within one address space.
    pub slot: u16,
    /// The guest physical address the range is mapped at.
    pub guest_base: u64,
    /// The length of the mapped range; zero for a read-only placeholder.
    pub size: u64,
    /// The starting host virtual address backing the range.
    pub host_addr: u64,
    /// The properties of the slot.
    pub flags: u16,
}

/// Whether two slots' guest ranges cannot collide: one of them is empty
/// or one ends before the other begins.
pub open spec fn slots_disjoint(a: MemorySlot, b: MemorySlot) -> bool {
    ||| a.size == 0
    ||| b.size == 0
    ||| a.guest_base + a.size <= b.guest_base
    ||| b.guest_base + b.size <= a.guest_base
}

/// The position of a slot id in a table, or a negative value when the id
/// is not registered.
pub open spec fn slot_index(s: Seq<MemorySlot>, id: u16) -> int
    decreases s.len(),
{
    if s.len() == 0 {
        -1
    } else if s[0].slot == id {
        0
    } else {
        let rest = slot_index(s.drop_first(), id);
        if rest < 0 {
            -1
        } else {
            rest + 1
        }
    }
}

/// The position named by `slot_index` is in range and carries the id;
/// a negative answer means no entry carries it.
pub proof fn lemma_slot_index(s: Seq<MemorySlot>, id: u16)
    ensures
        slot_index(s, id) >= 0 ==> slot_index(s, id) < s.len() && s[slot_index(s, id)].slot == id,
        slot_index(s, id) < 0 ==> forall|i: int| 0 <= i < s.len() ==> s[i].slot != id,
    decreases s.len(),
{
    if s.len() > 0 && s[0].slot != id {
        lemma_slot_index(s.drop_first(), id);
        assert forall|i: int| 1 <= i < s.len() implies s.drop_first()[i - 1] == s[i] by {}
    }
}

/// The slot table of one guest address space.
#[derive(Debug)]
pub struct SlotTable {
    /// The registered slots, in registration order.
    pub slots: Vec<MemorySlot>,
}

impl SlotTable {
    /// The table's invariant: slot ids are unique, guest ranges of
    /// distinct slots never overlap, no range wraps around the top of the
    /// guest address space, a mapped range is page-aligned, and a slot is
    /// empty exactly when it is a read-only placeholder.
    pub open spec fn wf(self) -> bool {
        &&& forall|i: int, j: int|
            0 <= i < self.slots@.len() && 0 <= j < self.slots@.len() && i != j
                ==> self.slots@[i].slot != self.slots@[j].slot
        &&& forall|i: int, j: int|
            0 <= i < self.slots@.len() && 0 <= j < self.slots@.len() && i != j ==> slots_disjoint(
                self.slots@[i],
                self.slots@[j],
            )
        &&& forall|i: int|
            0 <= i < self.slots@.len() ==> (#[trigger] self.slots@[i]).guest_base + self.slots@[i].size
                <= 0xFFFF_FFFF_FFFF_FFFF
        &&& forall|i: int|
            0 <= i < self.slots@.len() ==> ((#[trigger] self.slots@[i]).size == 0 <==> self.slots@[i].flags
                & MEM_READ_ONLY != 0)
        &&& forall|i: int|
            0 <= i < self.slots@.len() ==> ((#[trigger] self.slots@[i]).size > 0
                ==> self.slots@[i].host_addr % PAGE_SIZE == 0 && self.slots@[i].size % PAGE_SIZE
                == 0)
    }

    /// An empty table.
    pub fn new() -> (r: Self)
        ensures
            r.slots@.len() == 0,
            r.wf(),
    {
        SlotTable { slots: Vec::new() }
    }

    /// How many slots are registered.
    pub fn len(&self) -> (r: usize)
        ensures
            r == self.slots@.len(),
    {
        self.slots.len()
    }

    /// The table entry a registration request stands for: a read-only
    /// request becomes an empty placeholder whatever its length.
    pub open spec fn spec_entry(
        slot: u16,
        host_addr: u64,
        len: u64,
        guest_base: u64,
        read_only: bool,
        log_dirty: bool,
    ) -> MemorySlot {
        MemorySlot {
            slot,
            guest_base,
            size: if read_only {
                0
            } else {
                len
            },
            host_addr,
            flags: (if log_dirty {
                MEM_LOG_DIRTY_PAGES
            } else {
                0
            }) | (if read_only {
                MEM_READ_ONLY
            } else {
                0
            }),
        }
    }

    /// The wire record a registration request sends to the kernel. The
    /// read-only flag forces the size to zero regardless of the host
    /// range length: such a slot is a placeholder, not backed memory.
    pub open spec fn spec_wire_record(
        slot: u16,
        host_addr: u64,
        len: u64,
        guest_base: u64,
        read_only: bool,
        log_dirty: bool,
    ) -> MemoryRegion {
        MemoryRegion {
            slot,
            addr_space: 0,
            flags: (if log_dirty {
                MEM_LOG_DIRTY_PAGES
            } else {
                0
            }) | (if read_only {
                MEM_READ_ONLY
            } else {
                0
            }),
            padding: 0,
            guest_phys_addr: guest_base,
            memory_size: if read_only {
                0
            } else {
                len
            },
            host_virt_addr: host_addr,
        }
    }

    /// Whether a non-removal registration of an already live id keeps
    /// the slot's range: only the flags of a live slot may change; its
    /// guest base, size and host address are frozen until it is removed.
    pub open spec fn spec_keeps_live_range(self, slot: u16, entry: MemorySlot) -> bool {
        let idx = slot_index(self.slots@, slot);
        idx >= 0 ==> {
            let live = self.slots@[idx];
            entry.guest_base == live.guest_base && entry.size == live.size && entry.host_addr
                == live.host_addr
        }
    }

    /// Whether a registration request is acceptable against a table: a
    /// mapped range must be page-aligned on both ends and must not wrap
    /// around the top of the guest address space; a live id's range must
    /// stay as it is; and the range must not overlap the guest range of
    /// any other slot. A zero-length request that is not read-only is a
    /// removal and is always acceptable.
    pub open spec fn spec_acceptable(self, slot: u16, host_addr: u64, len: u64, guest_base: u64,
        read_only: bool, log_dirty: bool) -> bool {
        let entry = Self::spec_entry(slot, host_addr, len, guest_base, read_only, log_dirty);
        ||| (entry.size == 0 && !read_only)
        ||| {
            &&& (entry.size > 0 ==> host_addr % PAGE_SIZE == 0 && len % PAGE_SIZE == 0)
            &&& guest_base + entry.size <= 0xFFFF_FFFF_FFFF_FFFF
            &&& self.spec_keeps_live_range(slot, entry)
            &&& forall|j: int|
                0 <= j < self.slots@.len() && (#[trigger] self.slots@[j]).slot != slot
                    ==> slots_disjoint(entry, self.slots@[j])
        }
    }

    /// The error a rejected registration reports: a misaligned mapped
    /// range first, then one that wraps the guest address space, then an
    /// attempt to change a live slot's range, then an overlap with
    /// another slot.
    pub open spec fn spec_register_error(self, slot: u16, host_addr: u64, len: u64,
        guest_base: u64, read_only: bool, log_dirty: bool) -> MemoryError {
        let entry = Self::spec_entry(slot, host_addr, len, guest_base, read_only, log_dirty);
        if entry.size > 0 && (host_addr % PAGE_SIZE != 0 || len % PAGE_SIZE != 0) {
            MemoryError::Misaligned
        } else if entry.size > 0 && guest_base + entry.size > 0xFFFF_FFFF_FFFF_FFFF {
            MemoryError::TooLarge
        } else if !self.spec_keeps_live_range(slot, entry) {
            MemoryError::LiveSlotChanged
        } else {
            MemoryError::Overlap
        }
    }

    /// Registers a slot: a new id is appended, a zero-length request
    /// that is not read-only removes the id, and a live id accepts only
    /// a flags change on its unchanged range — the kernel refuses to
    /// move or resize a live slot, so the table does too. On success the
    /// kernel's wire record is returned; the caller must keep the host
    /// range valid for as long as the slot stays registered, since the
    /// kernel maps it directly.
    ///
    /// A misaligned mapped range, a range that wraps the guest address
    /// space, a range change on a live id, and a range that overlaps
    /// another slot are rejected, in that order of checks, without
    /// changing the table.
    pub fn register(
        &mut self,
        slot: u16,
        host_addr: u64,
        len: u64,
        guest_base: u64,
        read_only: bool,
        log_dirty: bool,
    ) -> (r: Result<MemoryRegion, MemoryError>)
        requires
            old(self).wf(),
        ensures
            final(self).wf(),
            r is Ok <==> old(self).spec_acceptable(slot, host_addr, len, guest_base, read_only,
                log_dirty),
            r is Ok ==> r.unwrap() == Self::spec_wire_record(slot, host_addr, len, guest_base,
                read_only, log_dirty),
            r is Ok ==> {
                let entry = Self::spec_entry(slot, host_addr, len, guest_base, read_only,
                    log_dirty);
                let idx = slot_index(old(self).slots@, slot);
                if entry.size == 0 && !read_only {
                    if idx >= 0 {
                        final(self).slots@ =~= old(self).slots@.remove(idx)
                    } else {
                        final(self).slots@ =~= old(self).slots@
                    }
                } else {
                    if idx >= 0 {
                        final(self).slots@ =~= old(self).slots@.update(idx, entry)
                    } else {
                        final(self).slots@ =~= old(self).slots@.push(entry)
                    }
                }
            },
            r is Err ==> final(self).slots@ =~= old(self).slots@,
            r is Err ==> r.unwrap_err() == old(self).spec_register_error(slot, host_addr, len,
                guest_base, read_only, log_dirty),
    {
        let entry_size: u64 = if read_only { 0 } else { len };
        let flags: u16 = (if log_dirty { MEM_LOG_DIRTY_PAGES } else { 0 }) | (if read_only {
            MEM_READ_ONLY
        } else {
            0
        });

        if entry_size > 0 && (host_addr % PAGE_SIZE != 0 || len % PAGE_SIZE != 0) {
            return Err(MemoryError::Misaligned);
        }

        if entry_size > 0 && guest_base > u64::MAX - entry_size {
            return Err(MemoryError::TooLarge);
        }

        let entry = MemorySlot { slot, guest_base, size: entry_size, host_addr, flags };

        // Find the position of this id, if it is already registered.
        let ghost old_slots = self.slots@;
        let mut idx: usize = 0;
        let mut found: bool = false;

        while idx < self.slots.len() && !found
            invariant
                old_slots == old(self).slots@,
                self.slots@ == old_slots,
                idx <= old_slots.len(),
                found ==> idx < old_slots.len() && old_slots[idx as int].slot == slot,
                !found ==> forall|i: int| 0 <= i < idx ==> old_slots[i].slot != slot,
            decreases old_slots.len() - idx + (if found { 0int } else { 1int }),
        {
            if self.slots[idx].slot == slot {
                found = true;
            } else {
                idx = idx + 1;
            }
        }

        proof {
            lemma_slot_index(old_slots, slot);
            if found {
                assert(slot_index(old_slots, slot) == idx) by {
                    lemma_slot_index_unique(old_slots, slot, idx as int);
                }
            } else {
                assert(slot_index(old_slots, slot) < 0) by {
                    if slot_index(old_slots, slot) >= 0 {
                        assert(old_slots[slot_index(old_slots, slot)].slot == slot);
                    }
                }
            }
        }

        if entry_size == 0 && !read_only {
            let record = MemoryRegion {
                slot,
                addr_space: 0,
                flags,
                padding: 0,
                guest_phys_addr: guest_base,
                memory_size: entry_size,
                host_virt_addr: host_addr,
            };
            if found {
                let ghost pre = self.slots@;
                self.slots.remove(idx);
                proof {
                    let news = self.slots@;
                    assert forall|i: int| 0 <= i < news.len() implies #[trigger] news[i]
                        == if i < idx as int {
                        pre[i]
                    } else {
                        pre[i + 1]
                    } by {}
                    assert(final(self).wf());
                }
            }
            return Ok(record);
        }

        // A live slot's range is frozen: only its flags may be
        // registered anew while it lives.
        if found {
            let live = self.slots[idx];
            if !(entry.guest_base == live.guest_base && entry.size == live.size
                && entry.host_addr == live.host_addr) {
                return Err(MemoryError::LiveSlotChanged);
            }
        }

        // Check the new range against every other slot's guest range.
        let mut j: usize = 0;

        while j < self.slots.len()
            invariant
                old_slots == old(self).slots@,
                self.slots@ == old_slots,
                j <= old_slots.len(),
                forall|i: int|
                    0 <= i < j && (#[trigger] old_slots[i]).slot != slot ==> slots_disjoint(
                        entry,
                        old_slots[i],
                    ),
                old(self).wf(),
                entry == (MemorySlot { slot, guest_base, size: entry_size, host_addr, flags }),
                entry == Self::spec_entry(slot, host_addr, len, guest_base, read_only, log_dirty),
                entry.guest_base + entry.size <= 0xFFFF_FFFF_FFFF_FFFF,
                entry.size > 0 ==> host_addr % PAGE_SIZE == 0 && len % PAGE_SIZE == 0,
                !(entry.size == 0 && !read_only),
                found <==> slot_index(old_slots, slot) >= 0,
                found ==> slot_index(old_slots, slot) == idx as int,
                found ==> idx < old_slots.len() && old_slots[idx as int].slot == slot,
                found ==> entry.guest_base == old_slots[idx as int].guest_base && entry.size
                    == old_slots[idx as int].size && entry.host_addr == old_slots[
                    idx as int].host_addr,
                old(self).spec_keeps_live_range(slot, entry),
            decreases old_slots.len() - j,
        {
            let other = self.slots[j];

            if other.slot != slot && entry_size > 0 && other.size > 0 {
                let entry_end: u64 = guest_base + entry_size;
                let other_end: u64 = other.guest_base + other.size;

                if !(entry_end <= other.guest_base || other_end <= guest_base) {
                    proof {
                        let jj = j as int;
                        assert(old(self).slots@[jj] == other);
                        assert(!slots_disjoint(entry, old(self).slots@[jj]));
                        assert(!old(self).spec_acceptable(slot, host_addr, len, guest_base,
                            read_only, log_dirty));
                    }
                    return Err(MemoryError::Overlap);
                }
            }

            j = j + 1;
        }

        let record = MemoryRegion {
            slot,
            addr_space: 0,
            flags,
            padding: 0,
            guest_phys_addr: guest_base,
            memory_size: entry_size,
            host_virt_addr: host_addr,
        };

        proof {
            let e: u16 = entry.flags;
            let a: u16 = if log_dirty { MEM_LOG_DIRTY_PAGES } else { 0 };
            let b: u16 = if read_only { MEM_READ_ONLY } else { 0 };
            assert(((a | b) & 2 != 0) == (b == 2)) by (bit_vector)
                requires
                    a == 0 || a == 1,
                    b == 0 || b == 2,
            ;
            assert((e & MEM_READ_ONLY != 0) == read_only);
        }

        if found {
            self.slots[idx] = entry;
            proof {
                let news = self.slots@;
                assert(news =~= old_slots.update(idx as int, entry));
                assert forall|i: int, j2: int|
                    0 <= i < news.len() && 0 <= j2 < news.len() && i != j2 implies news[i].slot
                    != news[j2].slot && slots_disjoint(news[i], news[j2]) by {
                    if i != idx as int && j2 != idx as int {
                        assert(news[i] == old_slots[i] && news[j2] == old_slots[j2]);
                    } else if i == idx as int {
                        assert(old_slots[j2].slot != slot);
                    } else {
                        assert(old_slots[i].slot != slot);
                    }
                }
                assert(final(self).wf());
            }
        } else {
            self.slots.push(entry);
            proof {
                let news = self.slots@;
                assert forall|i: int, j2: int|
                    0 <= i < news.len() && 0 <= j2 < news.len() && i != j2 implies news[i].slot
                    != news[j2].slot && slots_disjoint(news[i], news[j2]) by {
                    if i < old_slots.len() && j2 < old_slots.len() {
                        assert(news[i] == old_slots[i] && news[j2] == old_slots[j2]);
                    } else if i == old_slots.len() {
                        assert(news[i] == entry && news[j2] == old_slots[j2]);
                        assert(old_slots[j2].slot != slot);
                    } else {
                        assert(news[j2] == entry && news[i] == old_slots[i]);
                        assert(old_slots[i].slot != slot);
                    }
                }
                assert(final(self).wf());
            }
        }

        Ok(record)
    }
}

/// A table position that carries an id and has no earlier position
/// carrying it is the position `slot_index` names.
proof fn lemma_slot_index_unique(s: Seq<MemorySlot>, id: u16, at: int)
    requires
        0 <= at < s.len(),
        s[at].slot == id,
        forall|i: int| 0 <= i < at ==> s[i].slot != id,
    ensures
        slot_index(s, id) == at,
    decreases s.len(),
{
    if s[0].slot != id {
        assert(at > 0);
        lemma_slot_index_unique(s.drop_first(), id, at - 1);
        assert forall|i: int| 0 <= i < s.drop_first().len() implies s.drop_first()[i] == s[i + 1]
            by {}
    }
}

} // verus!
