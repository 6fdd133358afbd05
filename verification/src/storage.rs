//! The file registry: an insert-only table from a file's hash to the hashes of
//! its chunks. A file is registered once, by a signed origin.
use vstd::prelude::*;

verus! {

/// An account, by its number.
pub type AccountId = u64;

/// Who dispatched a call.
#[derive(Clone, Copy, Debug, PartialEq, Eq, Structural)]
pub enum RawOrigin {
    /// The system itself.
    Root,
    /// An account that signed the call.
    Signed(AccountId),
    /// Nobody: an unsigned call.
    Unsigned,
}

/// What the registry reports.
#[derive(Debug)]
pub enum Event {
    FileCreated(AccountId, Vec<u8>),
    FileRemoved(AccountId, Vec<u8>),
}

/// An event as a mathematical value.
pub enum EventView {
    FileCreated(AccountId, Seq<u8>),
    FileRemoved(AccountId, Seq<u8>),
}

impl View for Event {
    type V = EventView;

    open spec fn view(&self) -> EventView {
        match self {
            Event::FileCreated(who, hash) => EventView::FileCreated(*who, hash@),
            Event::FileRemoved(who, hash) => EventView::FileRemoved(*who, hash@),
        }
    }
}

/// Why the registry refuses a call.
#[derive(Clone, Copy, Debug, PartialEq, Eq, Structural)]
pub enum Error {
    FileAlreadyExist,
}

/// Why a dispatched call fails.
#[derive(Clone, Copy, Debug, PartialEq, Eq, Structural)]
pub enum DispatchError {
    /// The origin is not a signed account.
    BadOrigin,
    /// The registry refused.
    Module(Error),
}

/// The chunk hashes of one file, as a sequence of byte sequences.
pub open spec fn chunks_view(chunks: Vec<Vec<u8>>) -> Seq<Seq<u8>> {
    Seq::new(chunks@.len(), |i: int| chunks@[i]@)
}

#[derive(Debug)]
struct FileEntry {
    hash: Vec<u8>,
    chunks: Vec<Vec<u8>>,
}

/// Whether two byte strings are equal.
pub fn bytes_eq(a: &Vec<u8>, b: &Vec<u8>) -> (same: bool)
    ensures
        same == (a@ == b@),
{
    if a.len() != b.len() {
        return false;
    }
    let mut i: usize = 0;
    while i < a.len()
        invariant
            i <= a.len(),
            a.len() == b.len(),
            forall|j: int| 0 <= j < i ==> a@[j] == b@[j],
        decreases a.len() - i,
    {
        if a[i] != b[i] {
            return false;
        }
        i += 1;
    }
    assert(a@ =~= b@);
    true
}

/// Whether a file may be registered: by a signed origin, under a hash that is
/// not registered yet. The origin is looked at first.
pub fn may_create(signed: bool, exists: bool) -> (allowed: Result<(), DispatchError>)
    ensures
        allowed == (if !signed {
            Err::<(), DispatchError>(DispatchError::BadOrigin)
        } else if exists {
            Err::<(), DispatchError>(DispatchError::Module(Error::FileAlreadyExist))
        } else {
            Ok::<(), DispatchError>(())
        }),
{
    if !signed {
        Err(DispatchError::BadOrigin)
    } else if exists {
        Err(DispatchError::Module(Error::FileAlreadyExist))
    } else {
        Ok(())
    }
}

/// The registry with the events it has deposited.
#[derive(Debug)]
pub struct Pallet {
    files: Vec<FileEntry>,
    events: Vec<Event>,
}

impl Pallet {
    /// The registered files in the order of their registration: hash, chunks.
    pub closed spec fn entries(&self) -> Seq<(Seq<u8>, Seq<Seq<u8>>)> {
        Seq::new(self.files@.len(), |i: int| (self.files@[i].hash@, chunks_view(self.files@[i].chunks)))
    }

    /// The deposited events, oldest first.
    pub closed spec fn deposited(&self) -> Seq<EventView> {
        Seq::new(self.events@.len(), |i: int| self.events@[i]@)
    }

    /// Whether a file of this hash is registered.
    pub open spec fn contains_key(&self, hash: Seq<u8>) -> bool {
        exists|i: int| 0 <= i < self.entries().len() && (#[trigger] self.entries()[i]).0 == hash
    }

    /// No hash is registered twice.
    pub open spec fn wf(&self) -> bool {
        forall|i: int, j: int|
            0 <= i < j < self.entries().len() ==> (#[trigger] self.entries()[i]).0 != (
            #[trigger] self.entries()[j]).0
    }

    /// The empty registry.
    pub fn new() -> (pallet: Pallet)
        ensures
            pallet.wf(),
            pallet.entries() == Seq::<(Seq<u8>, Seq<Seq<u8>>)>::empty(),
            pallet.deposited() == Seq::<EventView>::empty(),
    {
        let pallet = Pallet { files: Vec::new(), events: Vec::new() };
        assert(pallet.entries() =~= Seq::empty());
        assert(pallet.deposited() =~= Seq::empty());
        pallet
    }

    fn position(&self, filehash: &Vec<u8>) -> (at: Option<usize>)
        ensures
            match at {
                Some(i) => i < self.entries().len() && self.entries()[i as int].0 == filehash@,
                None => !self.contains_key(filehash@),
            },
    {
        let mut i: usize = 0;
        while i < self.files.len()
            invariant
                i <= self.files@.len(),
                self.entries().len() == self.files@.len(),
                forall|j: int| 0 <= j < i ==> (#[trigger] self.entries()[j]).0 != filehash@,
            decreases self.files@.len() - i,
        {
            if bytes_eq(&self.files[i].hash, filehash) {
                return Some(i);
            }
            i += 1;
        }
        None
    }

    /// The chunks of the file registered under `filehash`, if there is one.
    pub fn files(&self, filehash: &Vec<u8>) -> (found: Option<&Vec<Vec<u8>>>)
        ensures
            found.is_some() == self.contains_key(filehash@),
            found.is_some() ==> exists|i: int|
                0 <= i < self.entries().len() && #[trigger] self.entries()[i] == (
                    filehash@,
                    chunks_view(*found.unwrap()),
                ),
    {
        match self.position(filehash) {
            Some(i) => {
                assert(self.entries()[i as int] == (filehash@, chunks_view(self.files@[i as int].chunks)));
                Some(&self.files[i].chunks)
            },
            None => None,
        }
    }

    /// How many events have been deposited.
    pub fn event_count(&self) -> (n: usize)
        ensures
            n == self.deposited().len(),
    {
        self.events.len()
    }

    /// The `i`-th deposited event.
    pub fn event(&self, i: usize) -> (event: &Event)
        requires
            i < self.deposited().len(),
        ensures
            event@ == self.deposited()[i as int],
    {
        &self.events[i]
    }

    /// How many files are registered.
    pub fn file_count(&self) -> (n: usize)
        ensures
            n == self.entries().len(),
    {
        self.files.len()
    }

    /// Registers the file `filehash` with its chunks for a signed origin, and
    /// deposits `FileCreated`. Any other origin is a `BadOrigin`; a hash that is
    /// registered already is refused. A refused call changes nothing.
    pub fn create_file(&mut self, origin: RawOrigin, filehash: Vec<u8>, chunks: Vec<Vec<u8>>) -> (done:
        Result<(), DispatchError>)
        requires
            old(self).wf(),
        ensures
            final(self).wf(),
            match origin {
                RawOrigin::Signed(sender) => if old(self).contains_key(filehash@) {
                    &&& done == Err::<(), DispatchError>(DispatchError::Module(Error::FileAlreadyExist))
                    &&& *final(self) == *old(self)
                } else {
                    &&& done.is_ok()
                    &&& final(self).entries() == old(self).entries().push(
                        (filehash@, chunks_view(chunks)),
                    )
                    &&& final(self).deposited() == old(self).deposited().push(
                        EventView::FileCreated(sender, filehash@),
                    )
                },
                _ => done == Err::<(), DispatchError>(DispatchError::BadOrigin) && *final(self) == *old(
                    self,
                ),
            },
    {
        let (signed, sender): (bool, AccountId) = match origin {
            RawOrigin::Signed(who) => (true, who),
            _ => (false, 0),
        };
        let exists = signed && self.position(&filehash).is_some();
        match may_create(signed, exists) {
            Ok(()) => {},
            Err(refusal) => {
                return Err(refusal);
            },
        }
        let ghost hash = filehash@;
        let ghost parts = chunks_view(chunks);
        let hash_copy = filehash.clone();
        assert(hash_copy@ =~= filehash@);
        let event = Event::FileCreated(sender, hash_copy);
        self.files.push(FileEntry { hash: filehash, chunks });
        self.events.push(event);
        assert(self.entries() =~= old(self).entries().push((hash, parts)));
        assert(self.deposited() =~= old(self).deposited().push(EventView::FileCreated(sender, hash)));
        Ok(())
    }
}

} // verus!
