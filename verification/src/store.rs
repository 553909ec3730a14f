//! An explicit model of the document store: collections of documents,
//! with the store's two operations that the migrator relies on — reading
//! a document (which may fail to decode as the source shape) and
//! inserting a document (which fails when its key is already present).

use vstd::prelude::*;
use crate::errors::MigrationError;
use crate::records::{ExamModel, SourceExam, TargetExam, TargetExamModel};

verus! {

/// A stored document: a record in one of the two schema shapes. Reading
/// a document as a source record is a decode that fails on a
/// target-shaped document.
#[derive(Clone, Debug, PartialEq)]
pub enum Document {
    Source(SourceExam),
    Target(TargetExam),
}

/// Model of a stored document.
#[verifier::ext_equal]
pub ghost enum DocModel {
    Source(ExamModel),
    Target(TargetExamModel),
}

impl View for Document {
    type V = DocModel;

    open spec fn view(&self) -> DocModel {
        match self {
            Document::Source(e) => DocModel::Source(e@),
            Document::Target(t) => DocModel::Target(t@),
        }
    }
}

/// The store-assigned unique key of a document, whichever shape it has.
pub open spec fn doc_id(d: DocModel) -> u64 {
    match d {
        DocModel::Source(e) => e.id,
        DocModel::Target(t) => t.base.id,
    }
}

/// Whether some document in `docs` carries the key `id`.
pub open spec fn has_id(docs: Seq<DocModel>, id: u64) -> bool {
    exists|j: int| 0 <= j < docs.len() && #[trigger] doc_id(docs[j]) == id
}

/// The store-assigned unique key of a document.
pub fn document_id(d: &Document) -> (id: u64)
    ensures
        id == doc_id(d@),
{
    match d {
        Document::Source(e) => e.id,
        Document::Target(t) => t.id,
    }
}

/// One named collection's contents, in the order a cursor delivers them.
#[derive(Clone, Debug, PartialEq)]
pub struct Collection {
    pub docs: Vec<Document>,
}

impl View for Collection {
    type V = Seq<DocModel>;

    open spec fn view(&self) -> Seq<DocModel> {
        self.docs@.map_values(|d: Document| d@)
    }
}

impl Collection {
    /// An empty collection.
    pub fn new() -> (c: Self)
        ensures
            c@ == Seq::<DocModel>::empty(),
    {
        let c = Collection { docs: Vec::new() };
        proof {
            assert(c@ =~= Seq::<DocModel>::empty());
        }
        c
    }

    /// How many documents the collection holds.
    pub fn len(&self) -> (n: usize)
        ensures
            n == self@.len(),
    {
        self.docs.len()
    }

    /// Whether a document with key `id` is present.
    pub fn contains_id(&self, id: u64) -> (b: bool)
        ensures
            b == has_id(self@, id),
    {
        let mut i: usize = 0;
        while i < self.docs.len()
            invariant
                i <= self.docs.len(),
                forall|j: int| 0 <= j < i ==> #[trigger] doc_id(self@[j]) != id,
            decreases self.docs.len() - i,
        {
            if document_id(&self.docs[i]) == id {
                proof {
                    assert(self@[i as int] == self.docs@[i as int]@);
                    assert(doc_id(self@[i as int]) == id);
                }
                return true;
            }
            i += 1;
        }
        false
    }

    /// Insert a converted record. The destination enforces key
    /// uniqueness: inserting a record whose key is already present is an
    /// insert error, not an update, and leaves the collection unchanged.
    pub fn insert_target(&mut self, t: TargetExam) -> (r: Result<(), MigrationError>)
        ensures
            match r {
                Ok(()) => !has_id(old(self)@, t@.base.id) && final(self)@ == old(self)@.push(
                    DocModel::Target(t@),
                ),
                Err(e) => e == MigrationError::Insert && has_id(old(self)@, t@.base.id)
                    && final(self)@ == old(self)@,
            },
    {
        if self.contains_id(t.id) {
            Err(MigrationError::Insert)
        } else {
            self.docs.push(Document::Target(t));
            proof {
                assert(self@ =~= old(self)@.push(self.docs@.last()@));
            }
            Ok(())
        }
    }
}

} // verus!
