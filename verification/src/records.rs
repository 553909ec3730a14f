//! Record shapes for the two schema versions and the pure conversion
//! between them.
//!
//! The conversion rule is: every field present in both shapes is copied
//! verbatim (recursively for nested structures); the `version` field,
//! which exists only in the target shape, is populated with
//! [`crate::DEFAULT_SCHEMA_VERSION`]. Conversion is total: it succeeds for
//! every well-formed source record.

use vstd::prelude::*;

verus! {

// ---------------------------------------------------------------------
// Mathematical models shared by both schema versions.
// ---------------------------------------------------------------------

/// Model of one answer to a question.
#[verifier::ext_equal]
pub ghost struct AnswerModel {
    pub id: u64,
    pub text: Seq<char>,
    pub is_correct: bool,
}

/// Model of one question.
#[verifier::ext_equal]
pub ghost struct QuestionModel {
    pub id: u64,
    pub text: Seq<char>,
    pub answers: Seq<AnswerModel>,
}

/// Model of one question set.
#[verifier::ext_equal]
pub ghost struct QuestionSetModel {
    pub id: u64,
    pub questions: Seq<QuestionModel>,
}

/// Model of an exam's configuration.
#[verifier::ext_equal]
pub ghost struct ConfigModel {
    pub name: Seq<char>,
    pub note: Seq<char>,
    pub tags: Seq<Seq<char>>,
    pub total_time_in_m_s: u64,
    pub question_sets: Seq<u64>,
    pub retake_time_in_m_s: u64,
    pub passing_percent: u64,
}

/// Model of a whole exam record in the source shape.
#[verifier::ext_equal]
pub ghost struct ExamModel {
    pub id: u64,
    pub question_sets: Seq<QuestionSetModel>,
    pub config: ConfigModel,
    pub prerequisites: Seq<u64>,
    pub deprecated: bool,
}

/// Model of a whole exam record in the target shape: the source shape
/// plus the schema-version tag introduced by the migration.
#[verifier::ext_equal]
pub ghost struct TargetExamModel {
    pub base: ExamModel,
    pub version: i64,
}

/// The views of a sequence of viewable values, in order.
pub open spec fn views_of<T: View>(s: Seq<T>) -> Seq<T::V> {
    s.map_values(|x: T| x@)
}

// ---------------------------------------------------------------------
// Source-shape records.
// ---------------------------------------------------------------------

#[derive(Clone, Debug, PartialEq)]
pub struct SourceAnswer {
    pub id: u64,
    pub text: String,
    pub is_correct: bool,
}

#[derive(Clone, Debug, PartialEq)]
pub struct SourceQuestion {
    pub id: u64,
    pub text: String,
    pub answers: Vec<SourceAnswer>,
}

#[derive(Clone, Debug, PartialEq)]
pub struct SourceQuestionSet {
    pub id: u64,
    pub questions: Vec<SourceQuestion>,
}

#[derive(Clone, Debug, PartialEq)]
pub struct SourceConfig {
    pub name: String,
    pub note: String,
    pub tags: Vec<String>,
    pub total_time_in_m_s: u64,
    pub question_sets: Vec<u64>,
    pub retake_time_in_m_s: u64,
    pub passing_percent: u64,
}

#[derive(Clone, Debug, PartialEq)]
pub struct SourceExam {
    pub id: u64,
    pub question_sets: Vec<SourceQuestionSet>,
    pub config: SourceConfig,
    pub prerequisites: Vec<u64>,
    pub deprecated: bool,
}

impl View for SourceAnswer {
    type V = AnswerModel;

    open spec fn view(&self) -> AnswerModel {
        AnswerModel { id: self.id, text: self.text@, is_correct: self.is_correct }
    }
}

impl View for SourceQuestion {
    type V = QuestionModel;

    open spec fn view(&self) -> QuestionModel {
        QuestionModel { id: self.id, text: self.text@, answers: views_of(self.answers@) }
    }
}

impl View for SourceQuestionSet {
    type V = QuestionSetModel;

    open spec fn view(&self) -> QuestionSetModel {
        QuestionSetModel { id: self.id, questions: views_of(self.questions@) }
    }
}

impl View for SourceConfig {
    type V = ConfigModel;

    open spec fn view(&self) -> ConfigModel {
        ConfigModel {
            name: self.name@,
            note: self.note@,
            tags: views_of(self.tags@),
            total_time_in_m_s: self.total_time_in_m_s,
            question_sets: self.question_sets@,
            retake_time_in_m_s: self.retake_time_in_m_s,
            passing_percent: self.passing_percent,
        }
    }
}

impl View for SourceExam {
    type V = ExamModel;

    open spec fn view(&self) -> ExamModel {
        ExamModel {
            id: self.id,
            question_sets: views_of(self.question_sets@),
            config: self.config@,
            prerequisites: self.prerequisites@,
            deprecated: self.deprecated,
        }
    }
}

// ---------------------------------------------------------------------
// Target-shape records.
// ---------------------------------------------------------------------

#[derive(Clone, Debug, PartialEq)]
pub struct TargetAnswer {
    pub id: u64,
    pub text: String,
    pub is_correct: bool,
}

#[derive(Clone, Debug, PartialEq)]
pub struct TargetQuestion {
    pub id: u64,
    pub text: String,
    pub answers: Vec<TargetAnswer>,
}

#[derive(Clone, Debug, PartialEq)]
pub struct TargetQuestionSet {
    pub id: u64,
    pub questions: Vec<TargetQuestion>,
}

#[derive(Clone, Debug, PartialEq)]
pub struct TargetConfig {
    pub name: String,
    pub note: String,
    pub tags: Vec<String>,
    pub total_time_in_m_s: u64,
    pub question_sets: Vec<u64>,
    pub retake_time_in_m_s: u64,
    pub passing_percent: u64,
}

#[derive(Clone, Debug, PartialEq)]
pub struct TargetExam {
    pub id: u64,
    pub question_sets: Vec<TargetQuestionSet>,
    pub config: TargetConfig,
    pub prerequisites: Vec<u64>,
    pub deprecated: bool,
    pub version: i64,
}

impl View for TargetAnswer {
    type V = AnswerModel;

    open spec fn view(&self) -> AnswerModel {
        AnswerModel { id: self.id, text: self.text@, is_correct: self.is_correct }
    }
}

impl View for TargetQuestion {
    type V = QuestionModel;

    open spec fn view(&self) -> QuestionModel {
        QuestionModel { id: self.id, text: self.text@, answers: views_of(self.answers@) }
    }
}

impl View for TargetQuestionSet {
    type V = QuestionSetModel;

    open spec fn view(&self) -> QuestionSetModel {
        QuestionSetModel { id: self.id, questions: views_of(self.questions@) }
    }
}

impl View for TargetConfig {
    type V = ConfigModel;

    open spec fn view(&self) -> ConfigModel {
        ConfigModel {
            name: self.name@,
            note: self.note@,
            tags: views_of(self.tags@),
            total_time_in_m_s: self.total_time_in_m_s,
            question_sets: self.question_sets@,
            retake_time_in_m_s: self.retake_time_in_m_s,
            passing_percent: self.passing_percent,
        }
    }
}

impl View for TargetExam {
    type V = TargetExamModel;

    open spec fn view(&self) -> TargetExamModel {
        TargetExamModel {
            base: ExamModel {
                id: self.id,
                question_sets: views_of(self.question_sets@),
                config: self.config@,
                prerequisites: self.prerequisites@,
                deprecated: self.deprecated,
            },
            version: self.version,
        }
    }
}

// ---------------------------------------------------------------------
// Conversion.
// ---------------------------------------------------------------------

/// What converting one source record yields: all shared fields are kept
/// as they are, and the target-only `version` field gets its documented
/// default.
pub open spec fn spec_convert(e: ExamModel) -> TargetExamModel {
    TargetExamModel { base: e, version: crate::DEFAULT_SCHEMA_VERSION }
}

fn convert_answer(a: &SourceAnswer) -> (t: TargetAnswer)
    ensures
        t@ == a@,
{
    TargetAnswer { id: a.id, text: a.text.clone(), is_correct: a.is_correct }
}

fn convert_question(q: &SourceQuestion) -> (t: TargetQuestion)
    ensures
        t@ == q@,
{
    let mut answers: Vec<TargetAnswer> = Vec::new();
    let mut i: usize = 0;
    while i < q.answers.len()
        invariant
            i <= q.answers.len(),
            answers@.len() == i,
            forall|j: int| 0 <= j < i ==> answers@[j]@ == q.answers@[j]@,
        decreases q.answers.len() - i,
    {
        answers.push(convert_answer(&q.answers[i]));
        i += 1;
    }
    proof {
        assert(views_of(answers@) =~= views_of(q.answers@));
    }
    TargetQuestion { id: q.id, text: q.text.clone(), answers }
}

fn convert_question_set(s: &SourceQuestionSet) -> (t: TargetQuestionSet)
    ensures
        t@ == s@,
{
    let mut questions: Vec<TargetQuestion> = Vec::new();
    let mut i: usize = 0;
    while i < s.questions.len()
        invariant
            i <= s.questions.len(),
            questions@.len() == i,
            forall|j: int| 0 <= j < i ==> questions@[j]@ == s.questions@[j]@,
        decreases s.questions.len() - i,
    {
        questions.push(convert_question(&s.questions[i]));
        i += 1;
    }
    proof {
        assert(views_of(questions@) =~= views_of(s.questions@));
    }
    TargetQuestionSet { id: s.id, questions }
}

fn copy_tags(v: &Vec<String>) -> (r: Vec<String>)
    ensures
        views_of(r@) == views_of(v@),
{
    let mut r: Vec<String> = Vec::new();
    let mut i: usize = 0;
    while i < v.len()
        invariant
            i <= v.len(),
            r@.len() == i,
            forall|j: int| 0 <= j < i ==> r@[j]@ == v@[j]@,
        decreases v.len() - i,
    {
        r.push(v[i].clone());
        i += 1;
    }
    proof {
        assert(views_of(r@) =~= views_of(v@));
    }
    r
}

fn copy_ids(v: &Vec<u64>) -> (r: Vec<u64>)
    ensures
        r@ == v@,
{
    let mut r: Vec<u64> = Vec::new();
    let mut i: usize = 0;
    while i < v.len()
        invariant
            i <= v.len(),
            r@ == v@.take(i as int),
        decreases v.len() - i,
    {
        r.push(v[i]);
        proof {
            assert(r@ =~= v@.take(i + 1 as int));
        }
        i += 1;
    }
    proof {
        assert(v@.take(v@.len() as int) =~= v@);
    }
    r
}

fn convert_config(c: &SourceConfig) -> (t: TargetConfig)
    ensures
        t@ == c@,
{
    TargetConfig {
        name: c.name.clone(),
        note: c.note.clone(),
        tags: copy_tags(&c.tags),
        total_time_in_m_s: c.total_time_in_m_s,
        question_sets: copy_ids(&c.question_sets),
        retake_time_in_m_s: c.retake_time_in_m_s,
        passing_percent: c.passing_percent,
    }
}

/// Convert one source-shape record to the target shape. Total: succeeds
/// for every well-formed source record. Shared fields are copied verbatim
/// (recursively), and the target-only `version` field is set to the
/// documented default.
pub fn convert(src: &SourceExam) -> (t: TargetExam)
    ensures
        t@ == spec_convert(src@),
{
    let mut question_sets: Vec<TargetQuestionSet> = Vec::new();
    let mut i: usize = 0;
    while i < src.question_sets.len()
        invariant
            i <= src.question_sets.len(),
            question_sets@.len() == i,
            forall|j: int| 0 <= j < i ==> question_sets@[j]@ == src.question_sets@[j]@,
        decreases src.question_sets.len() - i,
    {
        question_sets.push(convert_question_set(&src.question_sets[i]));
        i += 1;
    }
    proof {
        assert(views_of(question_sets@) =~= views_of(src.question_sets@));
    }
    TargetExam {
        id: src.id,
        question_sets,
        config: convert_config(&src.config),
        prerequisites: copy_ids(&src.prerequisites),
        deprecated: src.deprecated,
        version: crate::version(),
    }
}

// ---------------------------------------------------------------------
// Laws of the conversion.
// ---------------------------------------------------------------------

/// Identity preservation: converting a record keeps its identifying key.
pub proof fn lemma_identity_preserved(e: ExamModel)
    ensures
        spec_convert(e).base.id == e.id,
{
}

/// Default injection: the target-only `version` field of a converted
/// record always equals the documented default.
pub proof fn lemma_default_version_injected(e: ExamModel)
    ensures
        spec_convert(e).version == crate::DEFAULT_SCHEMA_VERSION,
{
}

/// Field preservation: every field shared between the two shapes is
/// copied verbatim, nested structures included.
pub proof fn lemma_shared_fields_preserved(e: ExamModel)
    ensures
        spec_convert(e).base == e,
{
}

} // verus!
