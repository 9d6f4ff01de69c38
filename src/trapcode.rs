use vstd::prelude::*;

verus! {

/// The kind of a WebAssembly trap.
#[derive(Clone, Copy, Debug, PartialEq, Eq, Structural)]
pub enum TrapCodeType {
    MemoryOutOfBounds,
    BadSignature,
    IntegerDivByZero,
    BadConversionToInteger,
    Unreachable,
    StackOverflow,
    Interrupt,
    User,
    Unknown,
}

/// A trap code: its kind and an opaque tag chosen by the compiler.
#[derive(Clone, Copy, Debug, PartialEq, Eq, Structural)]
pub struct TrapCode {
    pub ty: TrapCodeType,
    pub tag: u16,
}

/// The sentinel trap code for a faulting address that no manifest entry covers.
pub open spec fn unknown_trapcode() -> TrapCode {
    TrapCode { ty: TrapCodeType::Unknown, tag: 0 }
}

impl TrapCode {
    pub fn unknown() -> (r: TrapCode)
        ensures
            r == unknown_trapcode(),
    {
        TrapCode { ty: TrapCodeType::Unknown, tag: 0 }
    }
}

/// One entry of a trap manifest: the code addresses `start .. start + len` raise `code`.
#[derive(Clone, Copy, Debug, PartialEq, Eq, Structural)]
pub struct TrapSite {
    pub start: u64,
    pub len: u64,
    pub code: TrapCode,
}

impl TrapSite {
    pub open spec fn end(self) -> int {
        self.start as int + self.len as int
    }

    /// Covers at least one address and ends within the address space.
    pub open spec fn valid(self) -> bool {
        self.len > 0 && self.end() <= u64::MAX
    }

    pub open spec fn covers(self, pc: u64) -> bool {
        self.start <= pc && (pc as int) < self.end()
    }
}

/// Entries are non-empty, sorted by address, pairwise disjoint and within the address space.
pub open spec fn sites_ordered(s: Seq<TrapSite>) -> bool {
    &&& forall|i: int| 0 <= i < s.len() ==> #[trigger] s[i].valid()
    &&& forall|i: int, j: int| 0 <= i < j < s.len() ==> #[trigger] s[i].end() <= #[trigger] s[j].start
}

/// What a manifest says of an address: the code of the entry that covers it, if any.
pub open spec fn manifest_lookup(s: Seq<TrapSite>, pc: u64) -> Option<TrapCode> {
    if exists|i: int| 0 <= i < s.len() && #[trigger] s[i].covers(pc) {
        let i = choose|i: int| 0 <= i < s.len() && #[trigger] s[i].covers(pc);
        Some(s[i].code)
    } else {
        None
    }
}

/// The trap code a fault at `pc` is classified as: the manifest's, or the unknown sentinel.
pub open spec fn classify_pc(s: Seq<TrapSite>, pc: u64) -> TrapCode {
    match manifest_lookup(s, pc) {
        Some(c) => c,
        None => unknown_trapcode(),
    }
}

/// Why a list of trap sites cannot form a manifest.
#[derive(Clone, Copy, Debug, PartialEq, Eq, Structural)]
pub enum ManifestError {
    /// The entry at this index covers no address.
    EmptySite(usize),
    /// The entry at this index runs past the end of the address space.
    SiteOverflows(usize),
    /// The entry at this index starts before its predecessor ends.
    Unordered(usize),
}

/// The compiler's map from code addresses to trap codes, sorted for lock-free lookup.
pub struct TrapManifest {
    sites: Vec<TrapSite>,
}

impl TrapManifest {
    pub closed spec fn view(&self) -> Seq<TrapSite> {
        self.sites@
    }

    pub open spec fn wf(&self) -> bool {
        sites_ordered(self@)
    }

    #[verifier::type_invariant]
    spec fn ordered(&self) -> bool {
        sites_ordered(self.sites@)
    }

    /// The manifest with no entries.
    pub fn empty() -> (r: TrapManifest)
        ensures
            r@ == Seq::<TrapSite>::empty(),
            r.wf(),
    {
        TrapManifest { sites: Vec::new() }
    }

    /// Builds a manifest from entries given in address order, refusing empty,
    /// overflowing or overlapping entries.
    pub fn new(sites: Vec<TrapSite>) -> (r: Result<TrapManifest, ManifestError>)
        ensures
            r is Ok <==> sites_ordered(sites@),
            r matches Ok(m) ==> m@ == sites@ && m.wf(),
            r matches Err(ManifestError::EmptySite(i)) ==> i < sites@.len() && sites@[i as int].len == 0,
            r matches Err(ManifestError::SiteOverflows(i)) ==> i < sites@.len() && sites@[i as int].len > 0
                && sites@[i as int].end() > u64::MAX,
            r matches Err(ManifestError::Unordered(i)) ==> 0 < i < sites@.len()
                && sites@[i as int].start < sites@[i - 1].end(),
    {
        let n = sites.len();
        let mut i: usize = 0;
        while i < n
            invariant
                n == sites@.len(),
                0 <= i <= n,
                sites_ordered(sites@.subrange(0, i as int)),
            decreases n - i,
        {
            let s = sites[i];
            if s.len == 0 {
                proof {
                    assert(!sites@[i as int].valid());
                }
                return Err(ManifestError::EmptySite(i));
            }
            if s.start > u64::MAX - s.len {
                proof {
                    assert(!sites@[i as int].valid());
                }
                return Err(ManifestError::SiteOverflows(i));
            }
            if i > 0 {
                let p = sites[i - 1];
                proof {
                    let old_s = sites@.subrange(0, i as int);
                    assert(old_s[i - 1] == sites@[i - 1]);
                    assert(old_s[i - 1].valid());
                }
                if s.start < p.start + p.len {
                    proof {
                        assert(sites@[i - 1].end() > sites@[i as int].start);
                    }
                    return Err(ManifestError::Unordered(i));
                }
            }
            proof {
                let old_s = sites@.subrange(0, i as int);
                let new_s = sites@.subrange(0, i as int + 1);
                assert forall|a: int, b: int| 0 <= a < b < new_s.len() implies
                    #[trigger] new_s[a].end() <= #[trigger] new_s[b].start by {
                    if b < i {
                        assert(old_s[a] == new_s[a] && old_s[b] == new_s[b]);
                    } else {
                        assert(new_s[b] == sites@[i as int]);
                        assert(new_s[i - 1] == sites@[i - 1]);
                        assert(new_s[i - 1].end() <= new_s[b].start);
                        if a < i - 1 {
                            assert(old_s[a] == new_s[a] && old_s[i - 1] == new_s[i - 1]);
                            assert(old_s[a].end() <= old_s[i - 1].start);
                        }
                    }
                }
                assert forall|a: int| 0 <= a < new_s.len() implies #[trigger] new_s[a].valid() by {
                    if a < i {
                        assert(old_s[a] == new_s[a]);
                        assert(old_s[a].valid());
                    } else {
                        assert(new_s[a] == sites@[i as int]);
                        assert(s.len > 0 && s.start as int + s.len as int <= u64::MAX);
                    }
                }
                assert(sites_ordered(new_s));
            }
            i = i + 1;
        }
        proof {
            assert(sites@.subrange(0, n as int) =~= sites@);
        }
        Ok(TrapManifest { sites })
    }

    /// Looks `pc` up by binary search, reading the table only.
    pub fn lookup_trapcode(&self, pc: u64) -> (r: Option<TrapCode>)
        ensures
            r == manifest_lookup(self@, pc),
    {
        proof {
            use_type_invariant(self);
        }
        let mut lo: usize = 0;
        let mut hi: usize = self.sites.len();
        while lo < hi
            invariant
                self.wf(),
                0 <= lo <= hi <= self@.len(),
                forall|i: int| 0 <= i < lo ==> #[trigger] self@[i].end() <= pc,
                forall|i: int| hi <= i < self@.len() ==> pc < #[trigger] self@[i].start,
            decreases hi - lo,
        {
            let mid = lo + (hi - lo) / 2;
            let s = self.sites[mid];
            if pc < s.start {
                proof {
                    assert forall|i: int| mid <= i < self@.len() implies pc < #[trigger] self@[i].start by {
                        if i > mid {
                            assert(self@[mid as int].end() <= self@[i].start);
                        }
                    }
                }
                hi = mid;
            } else if pc - s.start < s.len {
                proof {
                    assert(self@[mid as int].covers(pc));
                    lemma_covering_site_unique(self@, pc, mid as int);
                }
                return Some(s.code);
            } else {
                proof {
                    assert forall|i: int| 0 <= i <= mid implies #[trigger] self@[i].end() <= pc by {
                        if i < mid {
                            assert(self@[i].end() <= self@[mid as int].start);
                        }
                    }
                }
                lo = mid + 1;
            }
        }
        proof {
            assert forall|i: int| 0 <= i < self@.len() implies !#[trigger] self@[i].covers(pc) by {
                if i < lo {
                    assert(self@[i].end() <= pc);
                } else {
                    assert(pc < self@[i].start);
                }
            }
        }
        None
    }

    /// The trap code of a fault at `pc`: the manifest's entry, or the unknown sentinel.
    pub fn classify(&self, pc: u64) -> (r: TrapCode)
        ensures
            r == classify_pc(self@, pc),
    {
        match self.lookup_trapcode(pc) {
            Some(c) => c,
            None => TrapCode::unknown(),
        }
    }
}

/// In an ordered manifest at most one entry covers an address, so an address that
/// an entry covers is classified as that entry's code.
pub proof fn lemma_covering_site_unique(s: Seq<TrapSite>, pc: u64, k: int)
    requires
        sites_ordered(s),
        0 <= k < s.len(),
        s[k].covers(pc),
    ensures
        manifest_lookup(s, pc) == Some(s[k].code),
        classify_pc(s, pc) == s[k].code,
{
    let i = choose|i: int| 0 <= i < s.len() && #[trigger] s[i].covers(pc);
    if i < k {
        assert(s[i].end() <= s[k].start);
    } else if i > k {
        assert(s[k].end() <= s[i].start);
    }
}

/// An address that no entry covers is classified as the unknown sentinel.
pub proof fn lemma_uncovered_pc_is_unknown(s: Seq<TrapSite>, pc: u64)
    requires
        forall|i: int| 0 <= i < s.len() ==> !#[trigger] s[i].covers(pc),
    ensures
        manifest_lookup(s, pc) is None,
        classify_pc(s, pc) == unknown_trapcode(),
{
}

/// The address one byte past an entry is classified as unknown unless the next
/// entry starts right there.
pub proof fn lemma_one_past_site_is_unknown(s: Seq<TrapSite>, i: int)
    requires
        sites_ordered(s),
        0 <= i < s.len(),
        s[i].end() < u64::MAX,
        i + 1 == s.len() || s[i].end() < s[i + 1].start,
    ensures
        classify_pc(s, s[i].end() as u64) == unknown_trapcode(),
{
    let pc = s[i].end() as u64;
    assert forall|j: int| 0 <= j < s.len() implies !#[trigger] s[j].covers(pc) by {
        if j < i {
            assert(s[j].end() <= s[i].start);
        } else if j > i + 1 {
            assert(s[i + 1].end() <= s[j].start);
            assert(s[i + 1].valid());
        }
    }
}

} // verus!
