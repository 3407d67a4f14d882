use crate::element::{Element, Record};
use rand::Rng;
use vstd::prelude::*;

verus! {

/// Why the store could not do what was asked.
#[derive(Debug, Clone, Copy, PartialEq, Eq, Structural)]
pub enum StoreError {
    /// No record to hand out.
    StoreEmpty,
    /// A record without choices, or whose answer names no choice.
    InvalidRecord,
    /// The backing storage could not be created or read.
    StorageUnavailable,
    /// The backing storage holds something that is not a list of valid records.
    MalformedStorage,
}

/// What appending `r` to the records `rs` gives: the longer list, or the
/// reason it was refused.
pub open spec fn appended(rs: Seq<Record>, r: Record) -> Result<Seq<Record>, StoreError> {
    if r.valid() {
        Ok(rs.push(r))
    } else {
        Err(StoreError::InvalidRecord)
    }
}

/// What asking the records `rs` for position `i` gives.
pub open spec fn retrieved(rs: Seq<Record>, i: int) -> Option<Record> {
    if 0 <= i < rs.len() {
        Some(rs[i])
    } else {
        None
    }
}

/// Relies on rand's `Rng::gen_range` over the thread-local generator: for a
/// non-empty half-open range it returns a value inside it (it panics on an
/// empty one).
#[verifier::external_body]
fn random_below(n: usize) -> (r: usize)
    requires
        n > 0,
    ensures
        r < n,
{
    rand::thread_rng().gen_range(0..n)
}

/// The question store: an ordered collection of valid records, addressed by
/// position.
pub struct Elements {
    elements: Vec<Element>,
}

impl View for Elements {
    type V = Seq<Record>;

    closed spec fn view(&self) -> Seq<Record> {
        self.elements@.map_values(|e: Element| e.record())
    }
}

impl Elements {
    /// Every record in the store is valid.
    pub open spec fn wf(&self) -> bool {
        forall|i: int| 0 <= i < self@.len() ==> (#[trigger] self@[i]).valid()
    }

    /// An empty store.
    pub fn new() -> (s: Elements)
        ensures
            s@ == Seq::<Record>::empty(),
            s.wf(),
    {
        let s = Elements { elements: Vec::new() };
        assert(s@ =~= Seq::<Record>::empty());
        s
    }

    /// The number of records.
    pub fn len(&self) -> (n: usize)
        ensures
            n == self@.len(),
    {
        self.elements.len()
    }

    /// Whether the store holds no record.
    pub fn is_empty(&self) -> (b: bool)
        ensures
            b == (self@.len() == 0),
    {
        self.elements.len() == 0
    }

    /// Adds a record at the end, if it is valid; else leaves the store as it
    /// was.
    pub fn append(&mut self, e: Element) -> (r: Result<(), StoreError>)
        requires
            old(self).wf(),
        ensures
            final(self).wf(),
            match appended(old(self)@, e.record()) {
                Ok(rs) => r == Ok::<(), StoreError>(()) && final(self)@ == rs,
                Err(err) => r == Err::<(), StoreError>(err) && final(self)@ == old(self)@,
            },
    {
        if e.choices.len() == 0 || e.answer >= e.choices.len() {
            return Err(StoreError::InvalidRecord);
        }
        let ghost rec = e.record();
        self.elements.push(e);
        assert(self@ =~= old(self)@.push(rec));
        Ok(())
    }

    /// The record at position `i`, bound to a cursor on its first choice.
    pub fn get(&self, i: usize) -> (r: Option<Element>)
        ensures
            match retrieved(self@, i as int) {
                Some(rec) => r is Some && r->0.record() == rec && r->0.index == 0,
                None => r is None,
            },
    {
        if i < self.elements.len() {
            Some(self.elements[i].rebound())
        } else {
            None
        }
    }

    /// The position of a record picked at random, or `None` when the store
    /// is empty.
    pub fn load_index(&self) -> (r: Option<usize>)
        ensures
            r is None <==> self@.len() == 0,
            r is Some ==> r->0 < self@.len(),
    {
        let n = self.elements.len();
        if n == 0 {
            None
        } else {
            Some(random_below(n))
        }
    }

    /// A record picked at random, bound to a cursor on its first choice, or
    /// `StoreEmpty` when there is none.
    pub fn load(&self) -> (r: Result<Element, StoreError>)
        requires
            self.wf(),
        ensures
            r is Err <==> self@.len() == 0,
            r is Err ==> r->Err_0 == StoreError::StoreEmpty,
            r is Ok ==> r->Ok_0.wf() && r->Ok_0.index == 0 && exists|i: int|
                0 <= i < self@.len() && self@[i] == r->Ok_0.record(),
    {
        let i = match self.load_index() {
            Some(i) => i,
            None => {
                return Err(StoreError::StoreEmpty);
            },
        };
        let e = self.elements[i].rebound();
        assert(self@[i as int] == e.record());
        Ok(e)
    }
}

/// A valid record appended to a store is retrieved, at the position just
/// past the old records, with the same prompt, choices and answer.
pub proof fn lemma_append_then_retrieve(rs: Seq<Record>, r: Record)
    requires
        r.valid(),
    ensures
        appended(rs, r) is Ok,
        retrieved(appended(rs, r)->Ok_0, rs.len() as int) == Some(r),
{
}

} // verus!
