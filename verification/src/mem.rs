//! Protected memory ranges and the address space that owns them.
//!
//! An [`AddressSpace`] is an ordered set of non-overlapping, protection-tagged
//! [`MemoryRegion`]s forming a machine's physical address space. Regions enter
//! it only through [`AddressSpace::add_mappable_range`], which keeps the set
//! sorted by base address and pairwise disjoint.

use crate::SystemError;
use vstd::prelude::*;

verus! {

/// Read/write/execute permission bits attached to one memory region.
/// Immutable once attached.
#[derive(Clone, Copy, PartialEq, Eq, Structural, Debug)]
pub struct ProtectionFlags {
    pub read: bool,
    pub write: bool,
    pub execute: bool,
}

impl ProtectionFlags {
    /// Full permissions: readable, writable and executable.
    pub open spec fn spec_all() -> ProtectionFlags {
        ProtectionFlags { read: true, write: true, execute: true }
    }

    /// Full permissions: readable, writable and executable.
    pub fn all() -> (r: ProtectionFlags)
        ensures
            r == ProtectionFlags::spec_all(),
    {
        ProtectionFlags { read: true, write: true, execute: true }
    }
}

/// One protected range `[base, base + size)` of the physical address space.
#[derive(Clone, Copy, PartialEq, Eq, Structural, Debug)]
pub struct MemoryRegion {
    pub base: u64,
    pub size: u64,
    pub protection: ProtectionFlags,
}

impl MemoryRegion {
    /// A region is well formed when it is non-empty and its half-open
    /// extent `[base, base + size)` fits the 64-bit address width.
    pub open spec fn wf(self) -> bool {
        &&& self.size > 0
        &&& self.base + self.size <= u64::MAX
    }

    /// Whether `addr` lies inside this region.
    pub open spec fn spec_contains(self, addr: u64) -> bool {
        self.base <= addr < self.base + self.size
    }

    /// Whether the extents of the two regions do not intersect.
    pub open spec fn disjoint(self, other: MemoryRegion) -> bool {
        self.base + self.size <= other.base || other.base + other.size <= self.base
    }

    /// Whether `addr` lies inside this region.
    pub fn contains(&self, addr: u64) -> (r: bool)
        ensures
            r == self.spec_contains(addr),
    {
        self.base <= addr && addr - self.base < self.size
    }
}

/// Disjointness is symmetric: registering two intersecting ranges fails in
/// either order, because each one intersects the other.
pub proof fn lemma_disjoint_symmetric(a: MemoryRegion, b: MemoryRegion)
    ensures
        a.disjoint(b) == b.disjoint(a),
{
}

/// Whether a requested extent is non-empty and fits the address width;
/// `add_mappable_range` rejects exactly the other extents as `InvalidRange`.
/// The half-open end `base + size` must itself be a representable address,
/// so a range ending exactly at the top of the address space (one that
/// would cover the very last address) is rejected too.
pub open spec fn valid_extent(base: u64, size: u64) -> bool {
    &&& size > 0
    &&& base + size <= u64::MAX
}

/// Well-formedness of an address space's region sequence: every region is
/// well formed and the regions are sorted by base with disjoint extents.
pub open spec fn regions_wf(s: Seq<MemoryRegion>) -> bool {
    &&& forall|i: int| 0 <= i < s.len() ==> (#[trigger] s[i]).wf()
    &&& forall|i: int, j: int|
        0 <= i < j < s.len() ==> (#[trigger] s[i]).base + s[i].size <= (#[trigger] s[j]).base
}

/// In a well-formed region sequence, any two distinct regions are disjoint.
pub proof fn lemma_regions_wf_disjoint(s: Seq<MemoryRegion>, i: int, j: int)
    requires
        regions_wf(s),
        0 <= i < s.len(),
        0 <= j < s.len(),
        i != j,
    ensures
        s[i].disjoint(s[j]),
{
}

/// The first region of `s` that contains `addr`, if any.
pub open spec fn find_region(s: Seq<MemoryRegion>, addr: u64) -> Option<MemoryRegion>
    decreases s.len(),
{
    if s.len() == 0 {
        None
    } else if s[0].spec_contains(addr) {
        Some(s[0])
    } else {
        find_region(s.drop_first(), addr)
    }
}

/// In a well-formed region sequence, looking up any address inside a
/// registered region finds exactly that region.
pub proof fn lemma_find_region_registered(s: Seq<MemoryRegion>, addr: u64, i: int)
    requires
        regions_wf(s),
        0 <= i < s.len(),
        s[i].spec_contains(addr),
    ensures
        find_region(s, addr) == Some(s[i]),
    decreases s.len(),
{
    if i == 0 {
    } else {
        lemma_regions_wf_disjoint(s, 0, i);
        assert(!s[0].spec_contains(addr));
        assert(regions_wf(s.drop_first()));
        lemma_find_region_registered(s.drop_first(), addr, i - 1);
    }
}

/// An address inside no registered region is found in no region.
pub proof fn lemma_find_region_none(s: Seq<MemoryRegion>, addr: u64)
    requires
        forall|i: int| 0 <= i < s.len() ==> !(#[trigger] s[i]).spec_contains(addr),
    ensures
        find_region(s, addr) is None,
    decreases s.len(),
{
    if s.len() > 0 {
        lemma_find_region_none(s.drop_first(), addr);
    }
}

/// The position at which a region with base `base` belongs in the
/// base-sorted sequence `s`: the count of regions whose base is at most
/// `base`.
pub open spec fn insert_pos(s: Seq<MemoryRegion>, base: u64) -> int
    decreases s.len(),
{
    if s.len() == 0 {
        0
    } else if base < s[0].base {
        0
    } else {
        1 + insert_pos(s.drop_first(), base)
    }
}

proof fn lemma_insert_pos_char(s: Seq<MemoryRegion>, base: u64, p: int)
    requires
        0 <= p <= s.len(),
        forall|j: int| 0 <= j < p ==> (#[trigger] s[j]).base <= base,
        p < s.len() ==> base < s[p].base,
    ensures
        insert_pos(s, base) == p,
    decreases s.len(),
{
    if s.len() > 0 && p > 0 {
        assert(s[0].base <= base);
        lemma_insert_pos_char(s.drop_first(), base, p - 1);
    }
}

/// An ordered set of non-overlapping protected memory ranges. Owned
/// exclusively by one system; mutated only through `add_mappable_range`.
pub struct AddressSpace {
    regions: Vec<MemoryRegion>,
}

impl View for AddressSpace {
    type V = Seq<MemoryRegion>;

    closed spec fn view(&self) -> Seq<MemoryRegion> {
        self.regions@
    }
}

impl AddressSpace {
    /// Well-formedness: regions are well formed, base-sorted and disjoint.
    pub open spec fn wf(self) -> bool {
        regions_wf(self@)
    }

    /// An empty address space with no registered regions.
    pub fn new() -> (r: AddressSpace)
        ensures
            r.wf(),
            r@ == Seq::<MemoryRegion>::empty(),
    {
        AddressSpace { regions: Vec::new() }
    }

    /// The number of registered regions.
    pub fn region_count(&self) -> (r: usize)
        ensures
            r == self@.len(),
    {
        self.regions.len()
    }

    /// The region at position `i` in base-address order.
    pub fn region_at(&self, i: usize) -> (r: MemoryRegion)
        requires
            i < self@.len(),
        ensures
            r == self@[i as int],
    {
        self.regions[i]
    }

    /// Registers the protected range `[base, base + size)`.
    ///
    /// Fails with `InvalidRange` when the extent is empty or does not fit
    /// the address width, and with `OverlappingRange` when it intersects a
    /// region already registered; on failure the address space is unchanged.
    /// On success the region is inserted at its base-sorted position, and
    /// this is the only way regions enter an address space.
    pub fn add_mappable_range(
        &mut self,
        protection: ProtectionFlags,
        base: u64,
        size: u64,
    ) -> (r: Result<(), SystemError>)
        requires
            old(self).wf(),
        ensures
            final(self).wf(),
            !valid_extent(base, size) ==> r == Err::<(), SystemError>(SystemError::InvalidRange)
                && final(self)@ == old(self)@,
            valid_extent(base, size) && !(forall|i: int|
                0 <= i < old(self)@.len() ==> (#[trigger] old(self)@[i]).disjoint(
                    (MemoryRegion { base, size, protection }),
                )) ==> r == Err::<(), SystemError>(SystemError::OverlappingRange) && final(self)@
                == old(self)@,
            valid_extent(base, size) && (forall|i: int|
                0 <= i < old(self)@.len() ==> (#[trigger] old(self)@[i]).disjoint(
                    (MemoryRegion { base, size, protection }),
                )) ==> r == Ok::<(), SystemError>(()) && final(self)@ == old(self)@.insert(
                insert_pos(old(self)@, base),
                (MemoryRegion { base, size, protection }),
            ),
    {
        if size == 0 || base > u64::MAX - size {
            return Err(SystemError::InvalidRange);
        }
        let reg = MemoryRegion { base, size, protection };
        let ghost s0 = self@;
        let mut i: usize = 0;
        while i < self.regions.len()
            invariant
                self@ == s0,
                regions_wf(s0),
                reg.wf(),
                reg == (MemoryRegion { base, size, protection }),
                i <= s0.len(),
                forall|j: int| 0 <= j < i ==> (#[trigger] s0[j]).disjoint(reg),
            decreases self.regions.len() - i,
        {
            let cur = self.regions[i];
            assert(cur.wf());
            if !(cur.base + cur.size <= reg.base || reg.base + reg.size <= cur.base) {
                assert(!cur.disjoint(reg));
                return Err(SystemError::OverlappingRange);
            }
            i += 1;
        }
        let mut pos: usize = 0;
        while pos < self.regions.len() && self.regions[pos].base <= base
            invariant
                self@ == s0,
                regions_wf(s0),
                pos <= s0.len(),
                forall|j: int| 0 <= j < pos ==> (#[trigger] s0[j]).base <= base,
            decreases self.regions.len() - pos,
        {
            pos += 1;
        }
        proof {
            lemma_insert_pos_char(s0, base, pos as int);
        }
        self.regions.insert(pos, reg);
        proof {
            let s1 = self@;
            assert(s1 == s0.insert(pos as int, reg));
            s0.insert_ensures(pos as int, reg);
            assert forall|j: int| 0 <= j < s1.len() implies (#[trigger] s1[j]).wf() by {
                if j < pos {
                    assert(s1[j] == s0[j]);
                } else if j == pos {
                } else {
                    assert(s1[j] == s0[j - 1]);
                }
            }
            assert forall|a: int, b: int| 0 <= a < b < s1.len() implies (#[trigger] s1[a]).base
                + s1[a].size <= (#[trigger] s1[b]).base by {
                lemma_insert_preserves_order(s0, reg, pos as int, a, b);
            }
        }
        Ok(())
    }

    /// Returns the region containing `addr`, or none. No side effects; used
    /// by the execution engine to enforce permissions per access.
    pub fn lookup(&self, addr: u64) -> (r: Option<MemoryRegion>)
        ensures
            r == find_region(self@, addr),
    {
        proof {
            assert(self@.skip(0) =~= self@);
        }
        let mut i: usize = 0;
        while i < self.regions.len()
            invariant
                i <= self@.len(),
                find_region(self@, addr) == find_region(self@.skip(i as int), addr),
            decreases self.regions.len() - i,
        {
            let r = self.regions[i];
            if r.contains(addr) {
                assert(self@.skip(i as int)[0] == self@[i as int]);
                return Some(r);
            }
            proof {
                assert(self@.skip(i as int)[0] == self@[i as int]);
                assert(self@.skip(i as int).drop_first() =~= self@.skip(i as int + 1));
            }
            i += 1;
        }
        proof {
            assert(self@.skip(i as int) =~= Seq::<MemoryRegion>::empty());
        }
        None
    }
}

/// Inserting a region that is disjoint from every region of a well-formed
/// sequence, at its base-sorted position, keeps the sequence base-sorted.
proof fn lemma_insert_preserves_order(
    s0: Seq<MemoryRegion>,
    reg: MemoryRegion,
    pos: int,
    a: int,
    b: int,
)
    requires
        regions_wf(s0),
        reg.wf(),
        forall|j: int| 0 <= j < s0.len() ==> (#[trigger] s0[j]).disjoint(reg),
        0 <= pos <= s0.len(),
        forall|j: int| 0 <= j < pos ==> (#[trigger] s0[j]).base <= reg.base,
        pos < s0.len() ==> reg.base < s0[pos].base,
        0 <= a < b < s0.insert(pos, reg).len(),
    ensures
        s0.insert(pos, reg)[a].base + s0.insert(pos, reg)[a].size <= s0.insert(pos, reg)[b].base,
{
    let s1 = s0.insert(pos, reg);
    s0.insert_ensures(pos, reg);
    if a < pos && b < pos {
    } else if a < pos && b == pos {
        // an earlier region ends at or before the new base: it is disjoint
        // from the new region, and starting later would leave a gap below it
        assert(s0[a].base <= reg.base);
        assert(s0[a].disjoint(reg));
        assert(s0[a].wf());
    } else if a < pos && b > pos {
        assert(s1[a] == s0[a]);
        assert(s1[b] == s0[b - 1]);
        if b - 1 == a {
            assert(s0[a].base <= reg.base);
            assert(s0[a].disjoint(reg));
            assert(reg.base < s0[b - 1].base);
            assert(s0[a].wf());
        }
    } else if a == pos {
        // the new region ends at or before the base of each later region
        assert(s1[b] == s0[b - 1]);
        assert(reg.base < s0[b - 1].base || pos <= b - 1);
        if pos < s0.len() {
            assert(reg.base < s0[pos].base);
            if b - 1 > pos {
                assert(s0[pos].base + s0[pos].size <= s0[b - 1].base);
            }
            assert(reg.base < s0[b - 1].base);
        }
        assert(s0[b - 1].disjoint(reg));
        assert(s0[b - 1].wf());
    } else {
        assert(s1[a] == s0[a - 1]);
        assert(s1[b] == s0[b - 1]);
    }
}

} // verus!
