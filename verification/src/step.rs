//! The stream migrator: one migration step pulls every document of a
//! source collection in cursor order, decodes it as a source record,
//! converts it, and inserts the converted record into the destination
//! collection, stopping at the first error.

use vstd::prelude::*;
use crate::errors::MigrationError;
use crate::records::{convert, spec_convert};
use crate::store::{doc_id, has_id, Collection, DocModel, Document};

verus! {

/// What one migration step does to the destination, and what it returns:
/// documents are taken from `src` strictly in order; each must decode as
/// a source record (a target-shaped document is a decode error), is
/// converted, and is appended to `dest` unless its key is already
/// present there (an insert error). The first error stops the step;
/// documents already appended stay appended. On success the result is
/// the number of records migrated.
pub open spec fn step_model(src: Seq<DocModel>, dest: Seq<DocModel>) -> (Seq<DocModel>, Result<
    int,
    MigrationError,
>)
    decreases src.len(),
{
    if src.len() == 0 {
        (dest, Ok(0int))
    } else {
        match src[0] {
            DocModel::Target(_) => (dest, Err(MigrationError::CursorDecode)),
            DocModel::Source(e) => {
                if has_id(dest, e.id) {
                    (dest, Err(MigrationError::Insert))
                } else {
                    let rest = step_model(src.skip(1), dest.push(DocModel::Target(spec_convert(e))));
                    (
                        rest.0,
                        match rest.1 {
                            Ok(n) => Ok(n + 1),
                            Err(er) => Err(er),
                        },
                    )
                }
            },
        }
    }
}

/// A step result with its success count shifted by the number of records
/// already migrated before it.
spec fn shift_count(r: Result<int, MigrationError>, k: int) -> Result<
    int,
    MigrationError,
> {
    match r {
        Ok(n) => Ok(n + k),
        Err(er) => Err(er),
    }
}

/// How a bounded step run ended: the whole source collection was
/// migrated; or the run was halted — by a timeout or an operator signal
/// observed between record operations — after migrating the records it
/// reports; or a record failed.
#[derive(Clone, Copy, Debug, PartialEq, Eq, Structural)]
pub enum StepProgress {
    Finished(u64),
    Halted(u64),
    Failed(MigrationError),
}

/// The number of records a bounded run may process: the whole source
/// collection, unless the stop is observed first.
pub open spec fn bounded_len(src: Seq<DocModel>, limit: int) -> int {
    if limit < src.len() {
        limit
    } else {
        src.len() as int
    }
}

/// Run one migration step, observing a stop bound between record
/// operations: migrate the documents of `source` into `dest` in cursor
/// order, stopping at the first decode or insert error, and processing
/// no record beyond the first `limit` — a run abandoned by timeout or
/// cancellation after `limit` records leaves exactly the converted
/// prefix it reports, every written record whole.
#[verifier::loop_isolation(false)]
pub fn run_step_until(source: &Collection, dest: &mut Collection, limit: usize) -> (r:
    StepProgress)
    ensures
        final(dest)@ == step_model(source@.take(bounded_len(source@, limit as int)), old(dest)@).0,
        match (r, step_model(source@.take(bounded_len(source@, limit as int)), old(dest)@).1) {
            (StepProgress::Finished(n), Ok(m)) => n == m && limit >= source@.len(),
            (StepProgress::Halted(n), Ok(m)) => n == m && limit < source@.len(),
            (StepProgress::Failed(a), Err(b)) => a == b,
            _ => false,
        },
{
    let n = source.docs.len();
    let bound = if limit < n {
        limit
    } else {
        n
    };
    let ghost src0 = source@.take(bound as int);
    let ghost dest0 = dest@;
    let mut i: usize = 0;
    proof {
        assert(src0.skip(0) =~= src0);
    }
    while i < bound
        invariant
            src0 == source@.take(bound as int),
            bound == bounded_len(source@, limit as int),
            bound <= source@.len(),
            i <= bound == src0.len(),
            step_model(src0, dest0).0 == step_model(src0.skip(i as int), dest@).0,
            step_model(src0, dest0).1 == shift_count(
                step_model(src0.skip(i as int), dest@).1,
                i as int,
            ),
        decreases bound - i,
    {
        proof {
            assert(src0.skip(i as int)[0] == src0[i as int]);
            assert(src0[i as int] == source.docs@[i as int]@);
        }
        match &source.docs[i] {
            Document::Target(_) => {
                proof {
                    assert(src0.skip(i as int).len() > 0);
                    assert(step_model(src0.skip(i as int), dest@) == (
                        dest@,
                        Err::<int, MigrationError>(MigrationError::CursorDecode),
                    ));
                }
                return StepProgress::Failed(MigrationError::CursorDecode);
            },
            Document::Source(e) => {
                let ghost em = e@;
                let t = convert(e);
                let ghost dest_before = dest@;
                match dest.insert_target(t) {
                    Ok(()) => {
                        proof {
                            assert(src0.skip(i as int).skip(1) =~= src0.skip(i + 1 as int));
                            assert(step_model(src0.skip(i as int), dest_before).0 == step_model(
                                src0.skip(i + 1 as int),
                                dest_before.push(DocModel::Target(spec_convert(em))),
                            ).0);
                            assert(dest@ == dest_before.push(DocModel::Target(spec_convert(em))));
                        }
                        i += 1;
                    },
                    Err(er) => {
                        proof {
                            assert(has_id(dest@, em.id));
                            assert(step_model(src0.skip(i as int), dest@) == (
                                dest@,
                                Err::<int, MigrationError>(MigrationError::Insert),
                            ));
                        }
                        return StepProgress::Failed(er);
                    },
                }
            },
        }
    }
    proof {
        assert(src0.skip(bound as int) =~= Seq::<DocModel>::empty());
    }
    if bound < n {
        StepProgress::Halted(i as u64)
    } else {
        StepProgress::Finished(i as u64)
    }
}

/// Run one migration step to completion: migrate every document of
/// `source` into `dest`, in cursor order, stopping at the first decode
/// or insert error. Returns the number of records migrated.
pub fn run_step(source: &Collection, dest: &mut Collection) -> (r: Result<u64, MigrationError>)
    ensures
        final(dest)@ == step_model(source@, old(dest)@).0,
        match (r, step_model(source@, old(dest)@).1) {
            (Ok(n), Ok(m)) => n == m,
            (Err(a), Err(b)) => a == b,
            _ => false,
        },
{
    let n = source.docs.len();
    proof {
        assert(source@.take(bounded_len(source@, n as int)) =~= source@);
    }
    match run_step_until(source, dest, n) {
        StepProgress::Finished(c) => Ok(c),
        StepProgress::Halted(c) => {
            proof {
                assert(false);
            }
            Ok(c)
        },
        StepProgress::Failed(e) => Err(e),
    }
}

// ---------------------------------------------------------------------
// Laws of one migration step.
// ---------------------------------------------------------------------

/// Whether every document of a source collection decodes as a source
/// record.
pub open spec fn all_source(src: Seq<DocModel>) -> bool {
    forall|k: int| 0 <= k < src.len() ==> src[k] is Source
}

/// Whether migrating `src` into a destination currently holding `dest`
/// meets no key conflict: no incoming key is already present, and the
/// incoming keys are pairwise distinct.
pub open spec fn conflict_free(src: Seq<DocModel>, dest: Seq<DocModel>) -> bool {
    forall|k: int|
        0 <= k < src.len() ==> !has_id(dest, #[trigger] doc_id(src[k])) && (forall|j: int|
            0 <= j < k ==> doc_id(src[j]) != doc_id(src[k]))
}

/// The documents a source collection converts to, in order.
pub open spec fn converted_docs(src: Seq<DocModel>) -> Seq<DocModel> {
    src.map_values(
        |d: DocModel|
            match d {
                DocModel::Source(e) => DocModel::Target(spec_convert(e)),
                DocModel::Target(t) => DocModel::Target(t),
            },
    )
}

proof fn lemma_has_id_push(docs: Seq<DocModel>, d: DocModel, id: u64)
    ensures
        has_id(docs.push(d), id) <==> (has_id(docs, id) || doc_id(d) == id),
{
    if has_id(docs, id) {
        let j = choose|j: int| 0 <= j < docs.len() && #[trigger] doc_id(docs[j]) == id;
        assert(doc_id(docs.push(d)[j]) == id);
    }
    if doc_id(d) == id {
        assert(doc_id(docs.push(d)[docs.len() as int]) == id);
    }
    if has_id(docs.push(d), id) && doc_id(d) != id {
        let j = choose|j: int|
            0 <= j < docs.push(d).len() && #[trigger] doc_id(docs.push(d)[j]) == id;
        assert(doc_id(docs[j]) == id);
    }
}

/// Count fidelity: migrating a source collection whose documents all
/// decode, with no key conflicts against the destination, succeeds,
/// migrates every record, and appends exactly the converted records, in
/// cursor order.
pub proof fn lemma_count_fidelity(src: Seq<DocModel>, dest: Seq<DocModel>)
    requires
        all_source(src),
        conflict_free(src, dest),
    ensures
        step_model(src, dest).0 == dest + converted_docs(src),
        step_model(src, dest).1 == Ok::<int, MigrationError>(src.len() as int),
    decreases src.len(),
{
    if src.len() == 0 {
        assert(dest + converted_docs(src) =~= dest);
    } else {
        let e = src[0]->Source_0;
        assert(!has_id(dest, doc_id(src[0])));
        let dest1 = dest.push(DocModel::Target(spec_convert(e)));
        assert forall|k: int| 0 <= k < src.skip(1).len() implies !has_id(
            dest1,
            #[trigger] doc_id(src.skip(1)[k]),
        ) && (forall|j: int| 0 <= j < k ==> doc_id(src.skip(1)[j]) != doc_id(src.skip(1)[k])) by {
            assert(src.skip(1)[k] == src[k + 1]);
            assert(!has_id(dest, doc_id(src[k + 1])));
            assert(doc_id(src[0]) != doc_id(src[k + 1]));
            lemma_has_id_push(dest, DocModel::Target(spec_convert(e)), doc_id(src[k + 1]));
            assert forall|j: int| 0 <= j < k implies doc_id(src.skip(1)[j]) != doc_id(
                src.skip(1)[k],
            ) by {
                assert(src.skip(1)[j] == src[j + 1]);
                assert(doc_id(src[j + 1]) != doc_id(src[k + 1]));
            }
        }
        lemma_count_fidelity(src.skip(1), dest1);
        assert(dest1 + converted_docs(src.skip(1)) =~= dest + converted_docs(src));
    }
}

/// Abandonment leaves a clean prefix: a run stopped — by timeout or by
/// an operator signal — after the first `k` records of a clean source
/// collection has written exactly the converted `k`-prefix, in cursor
/// order, with every written record whole.
pub proof fn lemma_prefix_abandonment(src: Seq<DocModel>, dest: Seq<DocModel>, k: int)
    requires
        0 <= k <= src.len(),
        all_source(src),
        conflict_free(src, dest),
    ensures
        step_model(src.take(k), dest).0 == dest + converted_docs(src.take(k)),
        step_model(src.take(k), dest).1 == Ok::<int, MigrationError>(k),
{
    assert forall|j: int| 0 <= j < src.take(k).len() implies src.take(k)[j] == src[j] by {}
    lemma_count_fidelity(src.take(k), dest);
}

/// Non-idempotence: running the same step a second time against an
/// unmodified source and the destination the first, successful, run
/// filled fails with an insert error on the first record — its key is
/// already present — and writes nothing further.
pub proof fn lemma_rerun_duplicate(src: Seq<DocModel>, dest: Seq<DocModel>)
    requires
        src.len() > 0,
        all_source(src),
        conflict_free(src, dest),
    ensures
        step_model(src, step_model(src, dest).0).1 == Err::<int, MigrationError>(
            MigrationError::Insert,
        ),
        step_model(src, step_model(src, dest).0).0 == step_model(src, dest).0,
{
    lemma_count_fidelity(src, dest);
    let dest1 = step_model(src, dest).0;
    let e = src[0]->Source_0;
    assert(dest1[dest.len() as int] == converted_docs(src)[0]);
    assert(doc_id(dest1[dest.len() as int]) == e.id);
    assert(has_id(dest1, e.id));
}

} // verus!
