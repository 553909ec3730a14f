//! The migration chain: an ordered sequence of named migration steps,
//! run strictly in order against a store of collections, short-circuiting
//! on the first failure.

use vstd::prelude::*;
use vstd::pervasive::VecAdditionalExecFns;
use crate::errors::MigrationError;
use crate::step::{run_step, step_model};
use crate::store::{Collection, DocModel};

verus! {

/// One named schema-version transition: which collection holds the
/// old-shape records, and which collection the converted records are
/// written to. Collections are addressed by their position in the store.
#[derive(Clone, Debug, PartialEq)]
pub struct MigrationStep {
    pub name: String,
    pub source: usize,
    pub dest: usize,
}

/// The store a chain runs against: its collections, in a fixed order.
#[derive(Clone, Debug, PartialEq)]
pub struct Store {
    pub collections: Vec<Collection>,
}

impl View for Store {
    type V = Seq<Seq<DocModel>>;

    open spec fn view(&self) -> Seq<Seq<DocModel>> {
        self.collections@.map_values(|c: Collection| c@)
    }
}

/// Whether a step addresses two distinct collections that the store has.
pub open spec fn step_valid(s: MigrationStep, n: int) -> bool {
    s.source < n && s.dest < n && s.source != s.dest
}

/// Whether every step of a chain is valid for a store of `n` collections.
pub open spec fn chain_valid(steps: Seq<MigrationStep>, n: int) -> bool {
    forall|i: int| 0 <= i < steps.len() ==> step_valid(#[trigger] steps[i], n)
}

/// What running a chain does to the store: steps run strictly in order;
/// each rewrites its destination collection as `step_model` says; the
/// first failing step ends the chain at once — later steps are never
/// started, and what the failing step had already written stays written.
pub open spec fn chain_model(steps: Seq<MigrationStep>, store: Seq<Seq<DocModel>>) -> (
    Seq<Seq<DocModel>>,
    Result<(), MigrationError>,
)
    decreases steps.len(),
{
    if steps.len() == 0 {
        (store, Ok(()))
    } else {
        let s = steps[0];
        let res = step_model(store[s.source as int], store[s.dest as int]);
        let store1 = store.update(s.dest as int, res.0);
        match res.1 {
            Err(e) => (store1, Err(e)),
            Ok(_) => chain_model(steps.skip(1), store1),
        }
    }
}

/// Run a migration chain against the store, strictly in chain order,
/// stopping at the first failing step.
#[verifier::loop_isolation(false)]
pub fn migrate(store: &mut Store, steps: &Vec<MigrationStep>) -> (r: Result<(), MigrationError>)
    requires
        chain_valid(steps@, old(store).collections@.len() as int),
    ensures
        final(store)@ == chain_model(steps@, old(store)@).0,
        r == chain_model(steps@, old(store)@).1,
{
    let ghost steps0 = steps@;
    let ghost store0 = store@;
    let mut i: usize = 0;
    proof {
        assert(steps0.skip(0) =~= steps0);
    }
    while i < steps.len()
        invariant
            i <= steps0.len(),
            steps@ == steps0,
            store.collections@.len() == old(store).collections@.len(),
            chain_model(steps0, store0).0 == chain_model(steps0.skip(i as int), store@).0,
            chain_model(steps0, store0).1 == chain_model(steps0.skip(i as int), store@).1,
        decreases steps0.len() - i,
    {
        let ghost store_head = store@;
        let si = steps[i].source;
        let di = steps[i].dest;
        proof {
            assert(step_valid(steps0[i as int], store.collections@.len() as int));
            assert(steps0.skip(i as int)[0] == steps0[i as int]);
        }
        let mut src_coll = Collection::new();
        store.collections.set_and_swap(si, &mut src_coll);
        let mut dst_coll = Collection::new();
        store.collections.set_and_swap(di, &mut dst_coll);
        let ghost step_out = step_model(store_head[si as int], store_head[di as int]);
        let res = run_step(&src_coll, &mut dst_coll);
        proof {
            assert(src_coll@ == store_head[si as int]);
            assert(dst_coll@ == step_out.0);
        }
        store.collections.set_and_swap(si, &mut src_coll);
        store.collections.set_and_swap(di, &mut dst_coll);
        proof {
            assert(store@ =~= store_head.update(di as int, step_out.0));
        }
        match res {
            Ok(_) => {
                proof {
                    assert(steps0.skip(i as int).skip(1) =~= steps0.skip(i + 1 as int));
                    assert(chain_model(steps0.skip(i as int), store_head) == chain_model(
                        steps0.skip(i + 1 as int),
                        store@,
                    ));
                }
                i += 1;
            },
            Err(e) => {
                proof {
                    assert(chain_model(steps0.skip(i as int), store_head) == (
                        store@,
                        Err::<(), MigrationError>(e),
                    ));
                }
                return Err(e);
            },
        }
    }
    proof {
        assert(steps0.skip(steps0.len() as int) =~= Seq::<MigrationStep>::empty());
    }
    Ok(())
}

/// Fail-fast: in a chain of two steps whose first step fails, the second
/// step's destination collection is never written — its contents, and so
/// its record count, are unchanged — and the chain reports the failure.
pub proof fn lemma_fail_fast_two_steps(
    s1: MigrationStep,
    s2: MigrationStep,
    store: Seq<Seq<DocModel>>,
)
    requires
        step_valid(s1, store.len() as int),
        step_valid(s2, store.len() as int),
        s2.dest != s1.dest,
        step_model(store[s1.source as int], store[s1.dest as int]).1 is Err,
    ensures
        chain_model(seq![s1, s2], store).0[s2.dest as int] == store[s2.dest as int],
        chain_model(seq![s1, s2], store).1 is Err,
{
    let steps = seq![s1, s2];
    assert(steps[0] == s1);
    assert(chain_model(steps, store).0 == store.update(
        s1.dest as int,
        step_model(store[s1.source as int], store[s1.dest as int]).0,
    ));
}

} // verus!
