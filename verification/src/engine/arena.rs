//! Allocation ownership: an arena with one root allocation and child
//! allocations linked newest first from the root, all zero-filled when made
//! and all released together.
use vstd::prelude::*;

verus! {

/// Handle of a child allocation of an [`Arena`].
#[derive(Clone, Copy, Debug, Eq, PartialEq)]
pub struct Smb2AllocHandle {
    index: usize,
}

impl Smb2AllocHandle {
    /// The allocation index the handle stands for.
    pub closed spec fn spec_index(self) -> usize {
        self.index
    }

    /// Returns the arena-local allocation index represented by this handle.
    pub fn index(self) -> (r: usize)
        ensures
            r == self.spec_index(),
    {
        self.index
    }
}

/// A child allocation: its payload and the link to the previous child.
#[derive(Debug, Clone)]
pub struct Smb2AllocEntry {
    next: Option<Smb2AllocHandle>,
    buf: Vec<u8>,
}

/// `n` zero bytes.
pub open spec fn zeros(n: nat) -> Seq<u8> {
    Seq::new(n, |i: int| 0u8)
}

fn zero_vec(size: usize) -> (r: Vec<u8>)
    ensures
        r@ == zeros(size as nat),
{
    let mut v: Vec<u8> = Vec::new();
    let mut i: usize = 0;
    while i < size
        invariant
            i <= size,
            v@ == zeros(i as nat),
        decreases size - i,
    {
        v.push(0);
        i = i + 1;
        assert(v@ =~= zeros(i as nat));
    }
    v
}

impl Smb2AllocEntry {
    /// The link to the previous child allocation.
    pub closed spec fn spec_next(&self) -> Option<Smb2AllocHandle> {
        self.next
    }

    /// The payload bytes.
    pub closed spec fn payload(&self) -> Seq<u8> {
        self.buf@
    }

    /// Creates an unlinked zeroed allocation of `size` bytes.
    pub fn zeroed(size: usize) -> (r: Self)
        ensures
            r.spec_next() is None,
            r.payload() == zeros(size as nat),
    {
        Smb2AllocEntry { next: None, buf: zero_vec(size) }
    }

    /// Returns the link to the previous child allocation.
    pub fn next(&self) -> (r: Option<Smb2AllocHandle>)
        ensures
            r == self.spec_next(),
    {
        self.next
    }

    /// Returns the payload bytes.
    pub fn as_slice(&self) -> (r: &[u8])
        ensures
            r@ == self.payload(),
    {
        self.buf.as_slice()
    }

    /// Returns the payload bytes for writing.
    pub fn as_mut_slice(&mut self) -> (r: &mut [u8])
        ensures
            r@ == old(self).payload(),
            final(self).payload() == final(r)@,
            final(self).spec_next() == old(self).spec_next(),
    {
        self.buf.as_mut_slice()
    }
}

/// The root allocation: its payload and the link to the newest child.
#[derive(Debug, Clone)]
pub struct Smb2AllocHeader {
    mem: Option<Smb2AllocHandle>,
    buf: Vec<u8>,
}

impl Smb2AllocHeader {
    /// The link to the newest child allocation.
    pub closed spec fn spec_first(&self) -> Option<Smb2AllocHandle> {
        self.mem
    }

    /// The root payload bytes.
    pub closed spec fn payload(&self) -> Seq<u8> {
        self.buf@
    }

    /// Creates a root allocation with a zeroed payload of `size` bytes.
    pub fn zeroed(size: usize) -> (r: Self)
        ensures
            r.spec_first() is None,
            r.payload() == zeros(size as nat),
    {
        Smb2AllocHeader { mem: None, buf: zero_vec(size) }
    }

    /// Returns the link to the newest child allocation.
    pub fn first_allocation(&self) -> (r: Option<Smb2AllocHandle>)
        ensures
            r == self.spec_first(),
    {
        self.mem
    }

    /// Returns the root payload bytes.
    pub fn as_slice(&self) -> (r: &[u8])
        ensures
            r@ == self.payload(),
    {
        self.buf.as_slice()
    }

    /// Returns the root payload bytes for writing.
    pub fn as_mut_slice(&mut self) -> (r: &mut [u8])
        ensures
            r@ == old(self).payload(),
            final(self).payload() == final(r)@,
            final(self).spec_first() == old(self).spec_first(),
    {
        self.buf.as_mut_slice()
    }
}

/// Arena of allocations: an optional root and the children in creation
/// order.
#[derive(Debug)]
pub struct Arena {
    header: Option<Smb2AllocHeader>,
    allocations: Vec<Smb2AllocEntry>,
}

/// The link to the child made just before child `i`, or the root's link to
/// the newest child when `i` is the number of children.
pub closed spec fn link_before(i: int) -> Option<Smb2AllocHandle> {
    if i == 0 {
        None
    } else {
        Some(Smb2AllocHandle { index: (i - 1) as usize })
    }
}

impl Arena {
    /// The root allocation, if initialized.
    pub closed spec fn root(&self) -> Option<Smb2AllocHeader> {
        self.header
    }

    /// The child allocations in creation order.
    pub closed spec fn children(&self) -> Seq<Smb2AllocEntry> {
        self.allocations@
    }

    /// The chain invariant: without a root there are no children; with one,
    /// the root links the newest child and each child links the one made
    /// before it.
    pub closed spec fn wf(&self) -> bool {
        match self.header {
            None => self.allocations@.len() == 0,
            Some(h) => {
                &&& h.mem == link_before(self.allocations@.len() as int)
                &&& forall|i: int| 0 <= i < self.allocations@.len() ==> #[trigger] self.allocations@[i].next == link_before(i)
            },
        }
    }

    /// Creates an empty arena with no root.
    pub fn new() -> (r: Self)
        ensures
            r.wf(),
            r.root() is None,
            r.children().len() == 0,
    {
        Arena { header: None, allocations: Vec::new() }
    }

    /// Creates the zeroed root allocation, releasing all children, and
    /// returns the root payload.
    pub fn smb2_alloc_init(&mut self, size: usize) -> (r: &mut [u8])
        ensures
            r@ == zeros(size as nat),
            final(self).wf(),
            final(self).children().len() == 0,
            final(self).root() matches Some(h) && h.spec_first() is None && h.payload() == final(r)@,
    {
        self.allocations.clear();
        self.header = Some(Smb2AllocHeader::zeroed(size));
        self.header_payload_mut()
    }

    /// Links a new zeroed child allocation of `size` bytes to the root and
    /// returns its handle: the new child links the child the root linked
    /// before, and the root now links the new child. Without a root nothing
    /// is made.
    pub fn smb2_alloc_data(&mut self, size: usize) -> (r: Option<Smb2AllocHandle>)
        ensures
            old(self).wf() ==> final(self).wf(),
            old(self).root() is None ==> r is None && final(self).root() == old(self).root()
                && final(self).children() == old(self).children(),
            old(self).root() matches Some(h0) ==> {
                &&& r matches Some(h) && h.spec_index() == old(self).children().len()
                &&& final(self).children().len() == old(self).children().len() + 1
                &&& forall|i: int| 0 <= i < old(self).children().len() ==> #[trigger] final(self).children()[i] == old(self).children()[i]
                &&& final(self).children().last().payload() == zeros(size as nat)
                &&& final(self).children().last().spec_next() == h0.spec_first()
                &&& final(self).root() matches Some(h1) && h1.payload() == h0.payload()
                    && h1.spec_first() == r
            },
    {
        let n = self.allocations.len();
        match self.header.take() {
            None => None,
            Some(mut header) => {
                let handle = Smb2AllocHandle { index: n };
                let mut entry = Smb2AllocEntry::zeroed(size);
                entry.next = header.mem;
                header.mem = Some(handle);
                self.allocations.push(entry);
                self.header = Some(header);
                proof {
                    if old(self).wf() {
                        assert forall|i: int| 0 <= i < self.allocations@.len() implies #[trigger] self.allocations@[i].next == link_before(i) by {
                            if i < n {
                                assert(self.allocations@[i] == old(self).allocations@[i]);
                            }
                        }
                    }
                }
                Some(handle)
            },
        }
    }

    /// Releases the root and all children.
    pub fn smb2_free_data(&mut self)
        ensures
            final(self).wf(),
            final(self).root() is None,
            final(self).children().len() == 0,
    {
        self.allocations.clear();
        self.header = None;
    }

    /// Makes a zeroed child allocation of `size` bytes, creating a root with
    /// an empty payload first when there is none, and returns its index; the
    /// root then links the new child.
    pub fn alloc_zeroed(&mut self, size: usize) -> (r: usize)
        ensures
            old(self).wf() ==> final(self).wf(),
            old(self).root() is Some ==> r == old(self).children().len()
                && final(self).children().len() == old(self).children().len() + 1
                && (forall|i: int| 0 <= i < old(self).children().len() ==> #[trigger] final(self).children()[i] == old(self).children()[i])
                && final(self).children().last().spec_next() == old(self).root()->0.spec_first()
                && final(self).root()->0.payload() == old(self).root()->0.payload(),
            old(self).root() is None ==> r == 0 && final(self).children().len() == 1
                && final(self).children().last().spec_next() is None
                && final(self).root()->0.payload().len() == 0,
            final(self).root() matches Some(h) && (h.spec_first() matches Some(f) && f.spec_index() == r),
            final(self).children().last().payload() == zeros(size as nat),
    {
        match self.smb2_alloc_data(size) {
            Some(handle) => handle.index(),
            None => {
                let _ = self.smb2_alloc_init(0);
                match self.smb2_alloc_data(size) {
                    Some(handle) => handle.index(),
                    None => 0,
                }
            },
        }
    }

    /// Returns the root allocation.
    pub fn header(&self) -> (r: Option<&Smb2AllocHeader>)
        ensures
            match r {
                Some(h) => self.root() == Some(*h),
                None => self.root() is None,
            },
    {
        match &self.header {
            Some(h) => Some(h),
            None => None,
        }
    }

    /// Returns a child allocation by handle.
    pub fn allocation(&self, handle: Smb2AllocHandle) -> (r: Option<&Smb2AllocEntry>)
        ensures
            match r {
                Some(e) => handle.spec_index() < self.children().len() && *e == self.children()[handle.spec_index() as int],
                None => handle.spec_index() >= self.children().len(),
            },
    {
        if handle.index < self.allocations.len() {
            Some(&self.allocations[handle.index])
        } else {
            None
        }
    }

    /// Returns a child allocation by handle, for writing its payload.
    pub fn allocation_mut(&mut self, handle: Smb2AllocHandle) -> (r: Option<&mut Smb2AllocEntry>)
        ensures
            final(self).root() == old(self).root(),
            match r {
                Some(e) => handle.spec_index() < old(self).children().len()
                    && *e == old(self).children()[handle.spec_index() as int]
                    && final(self).children() == old(self).children().update(handle.spec_index() as int, *final(e))
                    && (old(self).wf() && final(e).spec_next() == e.spec_next() ==> final(self).wf()),
                None => handle.spec_index() >= old(self).children().len()
                    && final(self).children() == old(self).children()
                    && (old(self).wf() ==> final(self).wf()),
            },
    {
        if handle.index < self.allocations.len() {
            Some(&mut self.allocations[handle.index])
        } else {
            None
        }
    }

    /// Returns the number of child allocations.
    pub fn allocation_count(&self) -> (r: usize)
        ensures
            r == self.children().len(),
    {
        self.allocations.len()
    }

    fn header_payload_mut(&mut self) -> (r: &mut [u8])
        ensures
            match old(self).root() {
                Some(h) => r@ == h.payload() && (final(self).root() matches Some(h2)
                    && h2.payload() == final(r)@ && h2.spec_first() == h.spec_first()),
                None => r@.len() == 0 && final(self).root() is None,
            },
            final(self).children() == old(self).children(),
    {
        match &mut self.header {
            Some(header) => header.as_mut_slice(),
            None => &mut [],
        }
    }
}

impl Default for Arena {
    fn default() -> (r: Self)
        ensures
            r.wf(),
            r.root() is None,
            r.children().len() == 0,
    {
        Arena::new()
    }
}

} // verus!
