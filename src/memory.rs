use vstd::prelude::*;
use crate::layout::PAGE_SIZE;

verus! {

/// A kernel virtual address.
#[derive(Clone, Copy, Debug, PartialEq, Eq)]
pub struct VAddr(pub u64);

impl VAddr {
    pub fn new(addr: u64) -> (r: VAddr)
        ensures
            r.0 == addr,
    {
        VAddr(addr)
    }

    pub fn value(&self) -> (r: u64)
        ensures
            r == self.0,
    {
        self.0
    }
}

/// A user-space virtual address.
#[derive(Clone, Copy, Debug, PartialEq, Eq)]
pub struct UserVAddr(pub u64);

impl UserVAddr {
    pub fn new(addr: u64) -> (r: UserVAddr)
        ensures
            r.0 == addr,
    {
        UserVAddr(addr)
    }

    pub fn value(&self) -> (r: u64)
        ensures
            r == self.0,
    {
        self.0
    }
}

/// Whether `addr` can be handed out as a page: non-null, page-aligned, and
/// with its whole page inside the address space.
pub open spec fn is_page_addr(addr: u64) -> bool {
    &&& addr != 0
    &&& addr % PAGE_SIZE == 0
    &&& addr <= u64::MAX - PAGE_SIZE
}

/// The pages a context may be built from: a stack of free page addresses,
/// handed out last in, first out.
pub struct PagePool {
    free: Vec<u64>,
}

impl PagePool {
    /// The free pages; the last one is handed out next.
    pub closed spec fn pages(&self) -> Seq<u64> {
        self.free@
    }

    /// Every free page is a valid page address, and none is listed twice.
    pub open spec fn wf(&self) -> bool {
        &&& forall|i: int| 0 <= i < self.pages().len() ==> is_page_addr(#[trigger] self.pages()[i])
        &&& self.pages().no_duplicates()
    }

    /// An empty pool.
    pub fn new() -> (r: PagePool)
        ensures
            r.wf(),
            r.pages() == Seq::<u64>::empty(),
    {
        PagePool { free: Vec::new() }
    }

    /// Whether `addr` is among the free pages.
    pub fn contains(&self, addr: u64) -> (r: bool)
        ensures
            r == self.pages().contains(addr),
    {
        let mut i: usize = 0;
        while i < self.free.len()
            invariant
                i <= self.pages().len(),
                forall|j: int| 0 <= j < i ==> self.pages()[j] != addr,
            decreases self.pages().len() - i,
        {
            if self.free[i] == addr {
                return true;
            }
            i += 1;
        }
        false
    }

    /// Hands the page at `addr` to the pool; refused (`false`, pool
    /// unchanged) unless `addr` is a valid page address not already in it.
    pub fn add_page(&mut self, addr: u64) -> (r: bool)
        requires
            old(self).wf(),
        ensures
            final(self).wf(),
            r == (is_page_addr(addr) && !old(self).pages().contains(addr)),
            r ==> final(self).pages() == old(self).pages().push(addr),
            !r ==> final(self).pages() == old(self).pages(),
    {
        if addr != 0 && addr % PAGE_SIZE == 0 && addr <= u64::MAX - PAGE_SIZE && !self.contains(addr) {
            self.free.push(addr);
            assert(forall|i: int| 0 <= i < self.pages().len() ==> #[trigger] self.pages()[i] == (
                if i < old(self).pages().len() { old(self).pages()[i] } else { addr }
            ));
            true
        } else {
            false
        }
    }

    /// Number of free pages.
    pub fn len(&self) -> (r: usize)
        ensures
            r == self.pages().len(),
    {
        self.free.len()
    }

    /// Takes one page: the last one added, or `None` when the pool is empty
    /// (the pool is then unchanged).
    pub fn alloc_page(&mut self) -> (r: Option<VAddr>)
        requires
            old(self).wf(),
        ensures
            final(self).wf(),
            old(self).pages().len() == 0 ==> r.is_none() && final(self).pages() == old(self).pages(),
            old(self).pages().len() > 0 ==> r == Some(VAddr(old(self).pages().last()))
                && final(self).pages() == old(self).pages().drop_last(),
            r.is_some() ==> is_page_addr(r.unwrap().0),
    {
        match self.free.pop() {
            Some(addr) => {
                assert(is_page_addr(old(self).pages()[old(self).pages().len() - 1]));
                Some(VAddr(addr))
            },
            None => None,
        }
    }
}

} // verus!
