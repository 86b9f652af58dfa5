//! Guest physical memory: an ordered collection of backing spans with
//! bounds-checked, span-local reads and writes.

use vstd::prelude::*;

use crate::VmError;

verus! {

/// A caller-declared request for backing memory: `size` bytes of guest
/// physical address space starting at `start`.
pub struct GpaSpan {
    pub start: u64,
    pub size: usize,
}

/// An owned backing region. The bytes stand for the guest physical range
/// `[gpa, gpa + bytes.len())`.
pub struct MappedGpa {
    pub gpa: u64,
    pub bytes: Vec<u8>,
}

/// The mathematical value of one backing region.
pub ghost struct SpanView {
    pub gpa: u64,
    pub bytes: Seq<u8>,
}

impl View for MappedGpa {
    type V = SpanView;

    open spec fn view(&self) -> SpanView {
        SpanView { gpa: self.gpa, bytes: self.bytes@ }
    }
}

/// Whether `gpa` lies inside the span.
pub open spec fn span_contains(s: SpanView, gpa: u64) -> bool {
    s.gpa <= gpa < s.gpa + s.bytes.len()
}

/// Index of the first span containing `gpa`, or -1 when none does.
/// Lookups resolve to the earliest declared span, as a linear scan would.
pub open spec fn find_span_index(spans: Seq<SpanView>, gpa: u64) -> int
    decreases spans.len(),
{
    if spans.len() == 0 {
        -1
    } else if span_contains(spans[0], gpa) {
        0
    } else {
        let rest = find_span_index(spans.drop_first(), gpa);
        if rest < 0 {
            -1
        } else {
            rest + 1
        }
    }
}

/// `find_span_index` returns -1 exactly when no span contains `gpa`, and
/// otherwise the first containing index.
pub proof fn lemma_find_span_index(spans: Seq<SpanView>, gpa: u64)
    ensures
        find_span_index(spans, gpa) == -1 || 0 <= find_span_index(spans, gpa) < spans.len(),
        find_span_index(spans, gpa) == -1 <==> forall|j: int|
            0 <= j < spans.len() ==> !span_contains(spans[j], gpa),
        find_span_index(spans, gpa) >= 0 ==> {
            let i = find_span_index(spans, gpa);
            &&& 0 <= i < spans.len()
            &&& span_contains(spans[i], gpa)
            &&& forall|j: int| 0 <= j < i ==> !span_contains(spans[j], gpa)
        },
    decreases spans.len(),
{
    if spans.len() == 0 {
    } else if span_contains(spans[0], gpa) {
    } else {
        lemma_find_span_index(spans.drop_first(), gpa);
        assert forall|j: int| 1 <= j < spans.len() implies spans.drop_first()[j - 1]
            == spans[j] by {}
    }
}

/// The bytes of `b` with `data` written at offset `off`.
pub open spec fn overwrite_bytes(b: Seq<u8>, off: int, data: Seq<u8>) -> Seq<u8> {
    Seq::new(b.len(), |k: int| if off <= k < off + data.len() {
        data[k - off]
    } else {
        b[k]
    })
}

/// The memory after writing `data` at `gpa`: `None` when no span contains
/// `gpa` or the write would run past the end of the containing span.
pub open spec fn spec_write(spans: Seq<SpanView>, gpa: u64, data: Seq<u8>) -> Option<
    Seq<SpanView>,
> {
    let i = find_span_index(spans, gpa);
    if i < 0 {
        None
    } else {
        let s = spans[i];
        let off = gpa - s.gpa;
        if off + data.len() <= s.bytes.len() {
            Some(spans.update(i, SpanView { gpa: s.gpa, bytes: overwrite_bytes(s.bytes, off, data) }))
        } else {
            None
        }
    }
}

/// The `size` bytes at `gpa`: `None` when no span contains `gpa` or fewer
/// than `size` bytes remain in the containing span.
pub open spec fn spec_read(spans: Seq<SpanView>, gpa: u64, size: int) -> Option<Seq<u8>> {
    let i = find_span_index(spans, gpa);
    if i < 0 {
        None
    } else {
        let s = spans[i];
        let off = gpa - s.gpa;
        if off + size <= s.bytes.len() {
            Some(s.bytes.subrange(off, off + size))
        } else {
            None
        }
    }
}

/// Whether an access of `n` bytes at `gpa` stays inside the span that
/// resolves `gpa`: exactly when reads and writes of that length succeed.
pub open spec fn spec_can_access(spans: Seq<SpanView>, gpa: u64, n: int) -> bool {
    let i = find_span_index(spans, gpa);
    &&& i >= 0
    &&& gpa - spans[i].gpa + n <= spans[i].bytes.len()
}

/// Two span sequences with the same layout (count, bases, sizes) resolve
/// every address to the same span index.
pub proof fn lemma_find_span_index_congruence(s1: Seq<SpanView>, s2: Seq<SpanView>, gpa: u64)
    requires
        s1.len() == s2.len(),
        forall|j: int|
            0 <= j < s1.len() ==> s2[j].gpa == s1[j].gpa && s2[j].bytes.len()
                == s1[j].bytes.len(),
    ensures
        find_span_index(s2, gpa) == find_span_index(s1, gpa),
    decreases s1.len(),
{
    if s1.len() != 0 {
        assert(span_contains(s2[0], gpa) == span_contains(s1[0], gpa));
        lemma_find_span_index_congruence(s1.drop_first(), s2.drop_first(), gpa);
    }
}

/// A successful write changes bytes only, never the span layout, so it
/// preserves which accesses are valid.
pub proof fn lemma_write_preserves_layout(spans: Seq<SpanView>, gpa: u64, data: Seq<u8>)
    requires
        spec_write(spans, gpa, data) is Some,
    ensures
        ({
            let s2 = spec_write(spans, gpa, data).unwrap();
            &&& s2.len() == spans.len()
            &&& forall|j: int|
                0 <= j < spans.len() ==> s2[j].gpa == spans[j].gpa && s2[j].bytes.len()
                    == spans[j].bytes.len()
            &&& forall|g: u64, n: int| spec_can_access(s2, g, n) == spec_can_access(spans, g, n)
        }),
{
    lemma_find_span_index(spans, gpa);
    let s2 = spec_write(spans, gpa, data).unwrap();
    assert forall|g: u64, n: int| spec_can_access(s2, g, n) == spec_can_access(
        spans,
        g,
        n,
    ) by {
        lemma_find_span_index_congruence(spans, s2, g);
        lemma_find_span_index(spans, g);
    }
}

/// A successful write leaves every read of a range disjoint from the
/// written one exactly as it was.
pub proof fn lemma_write_preserves_disjoint_reads(
    spans: Seq<SpanView>,
    gpa_w: u64,
    data: Seq<u8>,
    gpa_r: u64,
    n: int,
)
    requires
        spec_write(spans, gpa_w, data) is Some,
        0 <= n,
        gpa_r + n <= gpa_w || gpa_w + data.len() <= gpa_r,
    ensures
        spec_read(spec_write(spans, gpa_w, data).unwrap(), gpa_r, n) == spec_read(
            spans,
            gpa_r,
            n,
        ),
{
    let s2 = spec_write(spans, gpa_w, data).unwrap();
    lemma_write_preserves_layout(spans, gpa_w, data);
    lemma_find_span_index_congruence(spans, s2, gpa_r);
    lemma_find_span_index(spans, gpa_r);
    lemma_find_span_index(spans, gpa_w);
    let iw = find_span_index(spans, gpa_w);
    let ir = find_span_index(spans, gpa_r);
    if ir >= 0 {
        let s = spans[ir];
        let offr = gpa_r - s.gpa;
        if ir != iw {
            assert(s2[ir] == spans[ir]);
        } else if offr + n <= s.bytes.len() {
            assert(s2[ir].bytes.subrange(offr, offr + n) =~= s.bytes.subrange(offr, offr + n));
        }
    }
}

/// Guest physical memory: an ordered collection of backing spans.
pub struct Memory {
    pub spans: Vec<MappedGpa>,
}

impl View for Memory {
    type V = Seq<SpanView>;

    open spec fn view(&self) -> Seq<SpanView> {
        self.spans@.map_values(|s: MappedGpa| s@)
    }
}

impl Memory {
    /// Wrap an already-built collection of spans.
    pub fn new(spans: Vec<MappedGpa>) -> (r: Self)
        ensures
            r@ == spans@.map_values(|s: MappedGpa| s@),
    {
        Self { spans }
    }

    /// Index of the first span containing `gpa`, if any.
    fn find_index(&self, gpa: u64) -> (r: Option<usize>)
        ensures
            match r {
                Some(i) => {
                    &&& i == find_span_index(self@, gpa)
                    &&& i < self@.len()
                    &&& span_contains(self@[i as int], gpa)
                },
                None => find_span_index(self@, gpa) == -1,
            },
    {
        let ghost spans = self@;
        let n: usize = self.spans.len();
        let mut i: usize = 0;
        while i < n
            invariant
                n == spans.len(),
                spans == self@,
                0 <= i <= n,
                forall|j: int| 0 <= j < i ==> !span_contains(spans[j], gpa),
            decreases n - i,
        {
            let s = &self.spans[i];
            if s.gpa <= gpa && gpa - s.gpa < s.bytes.len() as u64 {
                proof {
                    lemma_find_span_index(spans, gpa);
                    assert(span_contains(spans[i as int], gpa));
                    let res = find_span_index(spans, gpa);
                    assert(res != -1);
                    assert(res == i as int) by {
                        if res < i as int {
                            assert(!span_contains(spans[res], gpa));
                        } else if res > i as int {
                            assert(!span_contains(spans[i as int], gpa));
                        }
                    }
                }
                return Some(i);
            }
            i = i + 1;
        }
        proof {
            lemma_find_span_index(spans, gpa);
        }
        None
    }

    /// The first span containing `gpa`, if any.
    pub fn find_span(&self, gpa: u64) -> (r: Option<&MappedGpa>)
        ensures
            match r {
                Some(s) => {
                    let i = find_span_index(self@, gpa);
                    &&& i >= 0
                    &&& s@ == self@[i]
                },
                None => find_span_index(self@, gpa) == -1,
            },
    {
        match self.find_index(gpa) {
            Some(i) => Some(&self.spans[i]),
            None => None,
        }
    }

    /// Copy `data` into guest memory at `gpa`.
    ///
    /// Fails, leaving memory unchanged, when no span contains `gpa` or the
    /// write would run past the end of the containing span; there are no
    /// partial writes.
    pub fn write(&mut self, gpa: u64, data: &[u8]) -> (r: Result<(), VmError>)
        ensures
            r is Ok <==> spec_write(old(self)@, gpa, data@) is Some,
            match r {
                Ok(()) => Some(final(self)@) == spec_write(old(self)@, gpa, data@),
                Err(e) => {
                    &&& e == VmError::InvalidGuestAddress
                    &&& final(self)@ == old(self)@
                },
            },
    {
        let i = match self.find_index(gpa) {
            Some(i) => i,
            None => {
                return Err(VmError::InvalidGuestAddress);
            },
        };
        let sp_gpa: u64 = self.spans[i].gpa;
        let blen: usize = self.spans[i].bytes.len();
        proof {
            assert(span_contains(self@[i as int], gpa));
        }
        let off: usize = (gpa - sp_gpa) as usize;
        if data.len() > blen - off {
            return Err(VmError::InvalidGuestAddress);
        }
        let ghost orig = self@;
        let n: usize = data.len();
        let mut k: usize = 0;
        while k < n
            invariant
                n == data@.len(),
                0 <= k <= n,
                i < self@.len(),
                self@.len() == orig.len(),
                forall|j: int| 0 <= j < orig.len() && j != i ==> self@[j] == orig[j],
                self@[i as int].gpa == orig[i as int].gpa,
                self@[i as int].bytes.len() == orig[i as int].bytes.len(),
                off == gpa - orig[i as int].gpa,
                off + n <= orig[i as int].bytes.len(),
                off + n <= usize::MAX,
                forall|m: int|
                    0 <= m < orig[i as int].bytes.len() ==> self@[i as int].bytes[m] == (
                    if off <= m < off + k {
                        data@[m - off]
                    } else {
                        orig[i as int].bytes[m]
                    }),
            decreases n - k,
        {
            let sp = &mut self.spans[i];
            let b = &mut sp.bytes;
            b[off + k] = data[k];
            k = k + 1;
        }
        proof {
            let target = spec_write(orig, gpa, data@);
            assert(find_span_index(orig, gpa) == i);
            assert(self@[i as int].bytes =~= overwrite_bytes(
                orig[i as int].bytes,
                off as int,
                data@,
            ));
            assert(self@ =~~= target.unwrap());
        }
        Ok(())
    }

    /// Copy exactly `size` bytes out of guest memory at `gpa`.
    ///
    /// Fails when no span contains `gpa` or fewer than `size` bytes remain
    /// between `gpa` and the end of the containing span.
    pub fn read(&self, gpa: u64, size: usize) -> (r: Result<Vec<u8>, VmError>)
        ensures
            r is Ok <==> spec_read(self@, gpa, size as int) is Some,
            match r {
                Ok(v) => Some(v@) == spec_read(self@, gpa, size as int),
                Err(e) => e == VmError::InvalidGuestAddress,
            },
    {
        let i = match self.find_index(gpa) {
            Some(i) => i,
            None => {
                return Err(VmError::InvalidGuestAddress);
            },
        };
        let sp_gpa: u64 = self.spans[i].gpa;
        let blen: usize = self.spans[i].bytes.len();
        proof {
            assert(span_contains(self@[i as int], gpa));
        }
        let off: usize = (gpa - sp_gpa) as usize;
        if size > blen - off {
            return Err(VmError::InvalidGuestAddress);
        }
        let mut out: Vec<u8> = Vec::new();
        let mut k: usize = 0;
        while k < size
            invariant
                0 <= k <= size,
                i < self@.len(),
                off == gpa - self@[i as int].gpa,
                off + size <= self@[i as int].bytes.len(),
                off + size <= usize::MAX,
                out@.len() == k,
                forall|m: int| 0 <= m < k ==> out@[m] == self@[i as int].bytes[off + m],
            decreases size - k,
        {
            let sp = &self.spans[i];
            out.push(sp.bytes[off + k]);
            k = k + 1;
        }
        proof {
            assert(out@ =~= spec_read(self@, gpa, size as int).unwrap());
        }
        Ok(out)
    }

    /// After a successful write, reading the same length back at the same
    /// address returns exactly the bytes written.
    pub proof fn lemma_write_read_round_trip(spans: Seq<SpanView>, gpa: u64, data: Seq<u8>)
        requires
            spec_write(spans, gpa, data) is Some,
        ensures
            spec_read(spec_write(spans, gpa, data).unwrap(), gpa, data.len() as int) == Some(
                data,
            ),
    {
        let i = find_span_index(spans, gpa);
        lemma_find_span_index(spans, gpa);
        let spans2 = spec_write(spans, gpa, data).unwrap();
        assert(forall|j: int|
            0 <= j < spans.len() ==> span_contains(spans2[j], gpa) == span_contains(
                spans[j],
                gpa,
            ));
        lemma_find_span_index(spans2, gpa);
        let i2 = find_span_index(spans2, gpa);
        assert(i2 == i) by {
            assert(span_contains(spans2[i], gpa));
            if i2 < i {
                assert(!span_contains(spans2[i2], gpa));
            } else if i2 > i {
                assert(!span_contains(spans2[i], gpa));
            }
        }
        let off = gpa - spans[i].gpa;
        assert(spans2[i].bytes.subrange(off, off + data.len()) =~= data);
    }

    /// Whether `n` bytes at `gpa` can be read or written in one access.
    pub fn can_access(&self, gpa: u64, n: usize) -> (r: bool)
        ensures
            r == spec_can_access(self@, gpa, n as int),
    {
        match self.find_index(gpa) {
            Some(i) => {
                let sp_gpa: u64 = self.spans[i].gpa;
                let blen: usize = self.spans[i].bytes.len();
                proof {
                    assert(span_contains(self@[i as int], gpa));
                }
                let off: usize = (gpa - sp_gpa) as usize;
                n <= blen - off
            },
            None => false,
        }
    }

    /// Whether some span covers `gpa`.
    pub fn is_gpa_valid(&self, gpa: u64) -> (r: bool)
        ensures
            r <==> exists|i: int| 0 <= i < self@.len() && span_contains(self@[i], gpa),
    {
        proof {
            lemma_find_span_index(self@, gpa);
        }
        self.find_span(gpa).is_some()
    }
}

} // verus!
