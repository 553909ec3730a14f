use schema_migrate::chain::{migrate, MigrationStep, Store};
use schema_migrate::errors::MigrationError;
use schema_migrate::records::{convert, SourceConfig, SourceExam};
use schema_migrate::store::{Collection, Document};

fn exam(id: u64) -> SourceExam {
    SourceExam {
        id,
        question_sets: vec![],
        config: SourceConfig {
            name: String::from("Test"),
            note: String::new(),
            tags: vec![],
            total_time_in_m_s: 100,
            question_sets: vec![],
            retake_time_in_m_s: 100,
            passing_percent: 80,
        },
        prerequisites: vec![],
        deprecated: false,
    }
}

fn source_collection(ids: &[u64]) -> Collection {
    Collection {
        docs: ids.iter().map(|id| Document::Source(exam(*id))).collect(),
    }
}

#[test]
fn chain_runs_steps_in_order() {
    let mut store = Store {
        collections: vec![
            source_collection(&[1, 2]),
            Collection::new(),
            source_collection(&[3]),
            Collection::new(),
        ],
    };
    let steps = vec![
        MigrationStep { name: String::from("v0 -> v1"), source: 0, dest: 1 },
        MigrationStep { name: String::from("v1 -> v2"), source: 2, dest: 3 },
    ];
    let r = migrate(&mut store, &steps);
    assert_eq!(r, Ok(()));
    assert_eq!(store.collections[0].len(), 2);
    assert_eq!(store.collections[1].len(), 2);
    assert_eq!(store.collections[2].len(), 1);
    assert_eq!(store.collections[3].len(), 1);
}

#[test]
fn fail_fast_skips_later_steps() {
    let mut first_dest = Collection::new();
    // The first step will hit a key conflict on its first record.
    first_dest.docs.push(Document::Target(convert(&exam(1))));
    let mut store = Store {
        collections: vec![
            source_collection(&[1, 2]),
            first_dest,
            source_collection(&[3]),
            Collection::new(),
        ],
    };
    let steps = vec![
        MigrationStep { name: String::from("v0 -> v1"), source: 0, dest: 1 },
        MigrationStep { name: String::from("v1 -> v2"), source: 2, dest: 3 },
    ];
    let r = migrate(&mut store, &steps);
    assert_eq!(r, Err(MigrationError::Insert));
    // The second step's destination was never written to.
    assert_eq!(store.collections[3].len(), 0);
    // The failing step's destination keeps what was already there.
    assert_eq!(store.collections[1].len(), 1);
}
