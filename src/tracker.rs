//! The status of every compiled file, kept up to date from the messages that
//! concern compilations.

use vstd::prelude::*;

use crate::compilation::{status_after, with_stderr, with_stdout, CompilationStatus};
use crate::message::UIMessage;

verus! {

/// The status that a file has in `statuses`, or `Pending` where it has none yet.
pub open spec fn status_or_pending(statuses: Map<Seq<char>, CompilationStatus>, file: Seq<char>) -> CompilationStatus {
    if statuses.contains_key(file) {
        statuses[file]
    } else {
        CompilationStatus::Pending
    }
}

/// The statuses after `message`: a lifecycle value or captured output of a
/// compilation updates the status of its file, which starts as `Pending` the
/// first time the file is named; any other message leaves them unchanged.
pub open spec fn tracker_step(statuses: Map<Seq<char>, CompilationStatus>, message: UIMessage) -> Map<Seq<char>, CompilationStatus> {
    match message {
        UIMessage::Compilation { file, status } => statuses.insert(file@, status_after(status)),
        UIMessage::CompilationStdout { file, content } => statuses.insert(
            file@,
            with_stdout(status_or_pending(statuses, file@), content),
        ),
        UIMessage::CompilationStderr { file, content } => statuses.insert(
            file@,
            with_stderr(status_or_pending(statuses, file@), content),
        ),
        _ => statuses,
    }
}

/// Each file named so far, beside the status of its compilation.
struct FileStatuses {
    files: Vec<String>,
    statuses: Vec<CompilationStatus>,
}

impl View for FileStatuses {
    type V = Map<Seq<char>, CompilationStatus>;

    closed spec fn view(&self) -> Map<Seq<char>, CompilationStatus> {
        Map::new(
            |k: Seq<char>| exists|i: int| 0 <= i < self.files@.len() && self.files@[i]@ == k,
            |k: Seq<char>|
                self.statuses@[choose|i: int| 0 <= i < self.files@.len() && self.files@[i]@ == k],
        )
    }
}

impl FileStatuses {
    /// Each file stands once, beside its status.
    closed spec fn wf(&self) -> bool {
        &&& self.files@.len() == self.statuses@.len()
        &&& forall|i: int, j: int|
            0 <= i < j < self.files@.len() ==> #[trigger] self.files@[i]@ != #[trigger] self.files@[j]@
    }

    /// The file at `i` has the status at `i`.
    proof fn lemma_view_at(&self, i: int)
        requires
            self.wf(),
            0 <= i < self.files@.len(),
        ensures
            self@.contains_key(self.files@[i]@),
            self@[self.files@[i]@] == self.statuses@[i],
    {
        let k = self.files@[i]@;
        assert(self@.contains_key(k));
        let j = choose|j: int| 0 <= j < self.files@.len() && self.files@[j]@ == k;
        if j < i {
            assert(self.files@[j]@ != self.files@[i]@);
        } else if i < j {
            assert(self.files@[i]@ != self.files@[j]@);
        }
    }

    /// No file yet.
    fn new() -> (r: FileStatuses)
        ensures
            r.wf(),
            r@ == Map::<Seq<char>, CompilationStatus>::empty(),
    {
        let r = FileStatuses { files: Vec::new(), statuses: Vec::new() };
        assert(r@ =~= Map::<Seq<char>, CompilationStatus>::empty());
        r
    }

    /// Where `file` stands, if it does.
    fn index_of(&self, file: &String) -> (r: Option<usize>)
        requires
            self.wf(),
        ensures
            match r {
                Some(i) => i < self.files@.len() && self.files@[i as int]@ == file@,
                None => forall|i: int| 0 <= i < self.files@.len() ==> self.files@[i]@ != file@,
            },
    {
        let mut i: usize = 0;
        while i < self.files.len()
            invariant
                self.wf(),
                i <= self.files@.len(),
                forall|j: int| 0 <= j < i ==> self.files@[j]@ != file@,
            decreases self.files@.len() - i,
        {
            if self.files[i] == *file {
                return Some(i);
            }
            i += 1;
        }
        None
    }

    /// The status of the compilation of `file`, where it has been named.
    fn get(&self, file: &String) -> (r: Option<&CompilationStatus>)
        requires
            self.wf(),
        ensures
            match r {
                Some(s) => self@.contains_key(file@) && *s == self@[file@],
                None => !self@.contains_key(file@),
            },
    {
        match self.index_of(file) {
            Some(i) => {
                proof {
                    self.lemma_view_at(i as int);
                }
                Some(&self.statuses[i])
            },
            None => None,
        }
    }

    /// The place of `file`, which is added as `Pending` where it was not
    /// there yet.
    fn entry_of(&mut self, file: String) -> (i: usize)
        requires
            old(self).wf(),
        ensures
            final(self).wf(),
            i < final(self).files@.len(),
            final(self).files@[i as int]@ == file@,
            final(self).files@ == old(self).files@ || final(self).files@ == old(self).files@.push(file),
            final(self)@ == old(self)@.insert(file@, status_or_pending(old(self)@, file@)),
    {
        match self.index_of(&file) {
            Some(i) => {
                proof {
                    self.lemma_view_at(i as int);
                    assert(self@.insert(file@, status_or_pending(self@, file@)) =~= self@);
                }
                i
            },
            None => {
                let ghost before = *self;
                assert(!before@.contains_key(file@));
                self.files.push(file);
                self.statuses.push(CompilationStatus::Pending);
                let i = self.files.len() - 1;
                assert(self.wf()) by {
                    assert forall|a: int, b: int| 0 <= a < b < self.files@.len() implies #[trigger] self.files@[a]@
                        != #[trigger] self.files@[b]@ by {
                        if b < before.files@.len() {
                            assert(before.files@[a] == self.files@[a]);
                            assert(before.files@[b] == self.files@[b]);
                        } else {
                            assert(before.files@[a] == self.files@[a]);
                        }
                    }
                }
                proof {
                    let target = before@.insert(self.files@[i as int]@, CompilationStatus::Pending);
                    assert forall|k: Seq<char>| #[trigger] self@.contains_key(k) == target.contains_key(k) by {
                        if before@.contains_key(k) {
                            let j = choose|j: int| 0 <= j < before.files@.len() && before.files@[j]@ == k;
                            assert(self.files@[j] == before.files@[j]);
                        }
                        if self@.contains_key(k) && k != self.files@[i as int]@ {
                            let j = choose|j: int| 0 <= j < self.files@.len() && self.files@[j]@ == k;
                            assert(before.files@[j] == self.files@[j]);
                        }
                    }
                    assert forall|k: Seq<char>| #[trigger] self@.contains_key(k) implies self@[k] == target[k] by {
                        let j = choose|j: int| 0 <= j < self.files@.len() && self.files@[j]@ == k;
                        self.lemma_view_at(j);
                        if j < i {
                            before.lemma_view_at(j);
                            assert(self.files@[j] == before.files@[j]);
                            assert(self.statuses@[j] == before.statuses@[j]);
                        }
                    }
                    assert(self@ =~= target);
                }
                i
            },
        }
    }

    /// Fold `message` into the statuses: a lifecycle value of a compilation
    /// sets the status of its file, captured output is kept where the
    /// compilation has ended and dropped otherwise, and any other message is
    /// ignored.
    fn apply_message(&mut self, message: UIMessage)
        requires
            old(self).wf(),
        ensures
            final(self).wf(),
            final(self)@ == tracker_step(old(self)@, message),
    {
        let ghost before = *self;
        match message {
            UIMessage::Compilation { file, status } => {
                let i = self.entry_of(file);
                let ghost mid = *self;
                let mut s = self.statuses.remove(i);
                s.apply_status(status);
                self.statuses.insert(i, s);
                proof {
                    assert(self.statuses@ =~= mid.statuses@.update(i as int, self.statuses@[i as int]));
                    self.lemma_set_status(mid, i as int);
                }
            },
            UIMessage::CompilationStdout { file, content } => {
                let i = self.entry_of(file);
                let ghost mid = *self;
                let mut s = self.statuses.remove(i);
                proof { mid.lemma_view_at(i as int); }
                s.apply_stdout(content);
                self.statuses.insert(i, s);
                proof {
                    assert(self.statuses@ =~= mid.statuses@.update(i as int, self.statuses@[i as int]));
                    self.lemma_set_status(mid, i as int);
                }
            },
            UIMessage::CompilationStderr { file, content } => {
                let i = self.entry_of(file);
                let ghost mid = *self;
                let mut s = self.statuses.remove(i);
                proof { mid.lemma_view_at(i as int); }
                s.apply_stderr(content);
                self.statuses.insert(i, s);
                proof {
                    assert(self.statuses@ =~= mid.statuses@.update(i as int, self.statuses@[i as int]));
                    self.lemma_set_status(mid, i as int);
                }
            },
            _ => {},
        }
    }

    /// Replacing the status at `i` gives that file the new status and leaves
    /// every other file as it was.
    proof fn lemma_set_status(&self, before: FileStatuses, i: int)
        requires
            before.wf(),
            0 <= i < before.files@.len(),
            self.files@ == before.files@,
            self.statuses@ == before.statuses@.update(i, self.statuses@[i]),
        ensures
            self.wf(),
            self@ == before@.insert(before.files@[i]@, self.statuses@[i]),
    {
        let target = before@.insert(before.files@[i]@, self.statuses@[i]);
        assert forall|k: Seq<char>| #[trigger] self@.contains_key(k) implies self@[k] == target[k] by {
            let j = choose|j: int| 0 <= j < self.files@.len() && self.files@[j]@ == k;
            self.lemma_view_at(j);
            before.lemma_view_at(j);
            if j != i {
                assert(self.statuses@[j] == before.statuses@[j]);
            }
        }
        assert(self@ =~= target);
    }
}

/// The status of the compilation of each file named so far.
pub struct CompilationTracker {
    files: FileStatuses,
    handed: Ghost<Seq<UIMessage>>,
    finishes: Ghost<nat>,
}

impl View for CompilationTracker {
    type V = Map<Seq<char>, CompilationStatus>;

    closed spec fn view(&self) -> Map<Seq<char>, CompilationStatus> {
        self.files@
    }
}

impl CompilationTracker {
    #[verifier::type_invariant]
    closed spec fn inv(&self) -> bool {
        self.files.wf()
    }

    /// The messages handed to the tracker as a front-end, in order.
    pub closed spec fn handed(&self) -> Seq<UIMessage> {
        self.handed@
    }

    /// How many times the tracker has been asked to finish as a front-end.
    pub closed spec fn finishes(&self) -> nat {
        self.finishes@
    }

    /// A tracker that knows no file, and has been handed nothing.
    pub fn new() -> (r: CompilationTracker)
        ensures
            r@ == Map::<Seq<char>, CompilationStatus>::empty(),
            r.handed() == Seq::<UIMessage>::empty(),
            r.finishes() == 0,
    {
        CompilationTracker { files: FileStatuses::new(), handed: Ghost(Seq::empty()), finishes: Ghost(0) }
    }

    /// Note that `message` was handed to the tracker as a front-end.
    pub(crate) fn record_handed(&mut self, message: Ghost<UIMessage>)
        ensures
            final(self)@ == old(self)@,
            final(self).handed() == old(self).handed().push(message@),
            final(self).finishes() == old(self).finishes(),
    {
        proof {
            use_type_invariant(&*self);
        }
        self.handed = Ghost(self.handed@.push(message@));
    }

    /// Note that the tracker was asked to finish as a front-end.
    pub(crate) fn record_finish(&mut self)
        ensures
            final(self)@ == old(self)@,
            final(self).handed() == old(self).handed(),
            final(self).finishes() == old(self).finishes() + 1,
    {
        proof {
            use_type_invariant(&*self);
        }
        self.finishes = Ghost(self.finishes@ + 1);
    }

    /// The status of the compilation of `file`, where it has been named.
    pub fn get(&self, file: &String) -> (r: Option<&CompilationStatus>)
        ensures
            match r {
                Some(s) => self@.contains_key(file@) && *s == self@[file@],
                None => !self@.contains_key(file@),
            },
    {
        proof {
            use_type_invariant(self);
        }
        self.files.get(file)
    }

    /// Fold `message` into the statuses: a lifecycle value of a compilation
    /// sets the status of its file, captured output is kept where the
    /// compilation has ended and dropped otherwise, and any other message is
    /// ignored. A file is first known as `Pending`.
    pub fn apply_message(&mut self, message: UIMessage)
        ensures
            final(self)@ == tracker_step(old(self)@, message),
            final(self).handed() == old(self).handed(),
            final(self).finishes() == old(self).finishes(),
    {
        proof {
            use_type_invariant(&*self);
        }
        let mut files = FileStatuses::new();
        std::mem::swap(&mut files, &mut self.files);
        files.apply_message(message);
        self.files = files;
    }
}

} // verus!
