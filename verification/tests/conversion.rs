use schema_migrate::records::{
    convert, SourceAnswer, SourceConfig, SourceExam, SourceQuestion, SourceQuestionSet,
    TargetConfig, TargetExam,
};
use schema_migrate::version;

fn plain_exam(id: u64) -> SourceExam {
    SourceExam {
        id,
        question_sets: vec![],
        config: SourceConfig {
            name: String::from("Test"),
            note: String::new(),
            tags: vec![],
            total_time_in_m_s: 100,
            question_sets: vec![],
            retake_time_in_m_s: 100,
            passing_percent: 80,
        },
        prerequisites: vec![],
        deprecated: false,
    }
}

#[test]
fn env_exam_temp_to_exam_creator_exam() {
    let v0 = plain_exam(1);

    let v0_cop = v0.clone();
    let v1 = TargetExam {
        id: v0_cop.id,
        question_sets: vec![],
        config: TargetConfig {
            name: v0_cop.config.name,
            note: v0_cop.config.note,
            tags: vec![],
            total_time_in_m_s: v0_cop.config.total_time_in_m_s,
            question_sets: vec![],
            retake_time_in_m_s: v0_cop.config.retake_time_in_m_s,
            passing_percent: v0_cop.config.passing_percent,
        },
        prerequisites: vec![],
        deprecated: v0_cop.deprecated,
        version: 1,
    };

    let new: TargetExam = convert(&v0);

    assert_eq!(v1.id, new.id);
    assert_eq!(v1.question_sets, new.question_sets);
    assert_eq!(v1.config, new.config);
    assert_eq!(v1.prerequisites, new.prerequisites);
    assert_eq!(v1.deprecated, new.deprecated);
    assert_eq!(v1.version, new.version);
}

#[test]
fn conversion_preserves_identity() {
    let v0 = plain_exam(42);
    let v1 = convert(&v0);
    assert_eq!(v1.id, 42);
}

#[test]
fn conversion_injects_default_version() {
    assert_eq!(version(), 1);
    let v0 = plain_exam(3);
    let v1 = convert(&v0);
    assert_eq!(v1.version, 1);
}

#[test]
fn conversion_is_total_on_nested_records() {
    let v0 = SourceExam {
        id: 11,
        question_sets: vec![SourceQuestionSet {
            id: 21,
            questions: vec![SourceQuestion {
                id: 31,
                text: String::from("What is a cursor?"),
                answers: vec![
                    SourceAnswer {
                        id: 41,
                        text: String::from("A lazy handle over query results"),
                        is_correct: true,
                    },
                    SourceAnswer {
                        id: 42,
                        text: String::from("An index"),
                        is_correct: false,
                    },
                ],
            }],
        }],
        config: SourceConfig {
            name: String::from("Nested"),
            note: String::from("covers every nested shape"),
            tags: vec![String::from("schema"), String::from("migration")],
            total_time_in_m_s: 3600000,
            question_sets: vec![21],
            retake_time_in_m_s: 60000,
            passing_percent: 75,
        },
        prerequisites: vec![5, 6],
        deprecated: true,
    };
    let v1 = convert(&v0);

    assert_eq!(v1.id, 11);
    assert_eq!(v1.version, 1);
    assert_eq!(v1.deprecated, true);
    assert_eq!(v1.prerequisites, vec![5, 6]);
    assert_eq!(v1.config.name, "Nested");
    assert_eq!(v1.config.note, "covers every nested shape");
    assert_eq!(v1.config.tags, vec!["schema", "migration"]);
    assert_eq!(v1.config.total_time_in_m_s, 3600000);
    assert_eq!(v1.config.question_sets, vec![21]);
    assert_eq!(v1.config.retake_time_in_m_s, 60000);
    assert_eq!(v1.config.passing_percent, 75);
    assert_eq!(v1.question_sets.len(), 1);
    let qs = &v1.question_sets[0];
    assert_eq!(qs.id, 21);
    assert_eq!(qs.questions.len(), 1);
    let q = &qs.questions[0];
    assert_eq!(q.id, 31);
    assert_eq!(q.text, "What is a cursor?");
    assert_eq!(q.answers.len(), 2);
    assert_eq!(q.answers[0].id, 41);
    assert_eq!(q.answers[0].text, "A lazy handle over query results");
    assert_eq!(q.answers[0].is_correct, true);
    assert_eq!(q.answers[1].id, 42);
    assert_eq!(q.answers[1].text, "An index");
    assert_eq!(q.answers[1].is_correct, false);
}
