//! The data model: parent entities, caller-supplied payloads, and the child
//! records the protocol inserts.

use vstd::prelude::*;
use vstd::string::StringExecFns;
use crate::felt::contracts_parsed;

verus! {

/// A contract address parsed from its textual form: the 32 big-endian bytes
/// of the Starknet field element the text denotes.
pub struct ContractAddress {
    pub bytes: Vec<u8>,
}

impl ContractAddress {
    /// A parsed address always holds exactly 32 bytes.
    pub open spec fn wf(&self) -> bool {
        self.bytes@.len() == 32
    }
}

/// Parent entity: a quest, owned by exactly one administrator subject.
/// Read-only from this library's perspective.
pub struct QuestRecord {
    pub id: u64,
    /// The administrator subject that may create children under this quest.
    pub issuer: String,
}

/// Parent entity for questions: a quiz. Only its existence matters to the
/// creation protocol.
pub struct QuizRecord {
    pub id: u64,
}

/// Caller-supplied fields for a new balance task. `contracts` is the
/// delimited contract-address list, already split into its elements.
pub struct TaskPayload {
    pub quest_id: u64,
    pub name: String,
    pub desc: String,
    pub contracts: Vec<String>,
    pub href: String,
    pub cta: String,
}

/// A task document: a child record of a quest.
pub struct TaskRecord {
    pub id: u64,
    pub quest_id: u64,
    pub name: String,
    pub desc: String,
    pub href: String,
    pub cta: String,
    pub verify_endpoint: String,
    pub verify_endpoint_type: String,
    pub task_type: Option<String>,
    /// The quiz a quiz task points at; `None` for balance tasks.
    pub quiz_name: Option<u64>,
    pub contracts: Option<Vec<ContractAddress>>,
}

/// Caller-supplied fields for a new quiz question.
pub struct QuestionPayload {
    pub quiz_id: u64,
    pub question: String,
    pub options: Vec<String>,
    pub correct_answers: Vec<u64>,
}

/// A quiz question document: a child record of a quiz.
pub struct QuestionRecord {
    pub id: u64,
    pub quiz_id: u64,
    pub question: String,
    pub options: Vec<String>,
    pub correct_answers: Vec<u64>,
    pub kind: String,
    pub layout: String,
}

/// What the balance task inserted for `payload` under the allocated `id`
/// must hold: the caller's fields, the parsed contract list, and the fixed
/// defaults of the balance kind.
pub open spec fn is_balance_task(r: TaskRecord, id: u64, p: TaskPayload) -> bool {
    &&& r.id == id
    &&& r.quest_id == p.quest_id
    &&& r.name == p.name
    &&& r.desc == p.desc
    &&& r.href == p.href
    &&& r.cta == p.cta
    &&& r.verify_endpoint@ == "quests/verify_balance"@
    &&& r.verify_endpoint_type@ == "default"@
    &&& r.task_type matches Some(t) && t@ == "balance"@
    &&& r.quiz_name is None
    &&& r.contracts matches Some(cs) && contracts_parsed(cs@, p.contracts@)
}

/// What the question inserted for `payload` under the allocated `id` must
/// hold: the caller's fields and the fixed defaults of the question kind.
pub open spec fn is_quiz_question(r: QuestionRecord, id: u64, p: QuestionPayload) -> bool {
    &&& r.id == id
    &&& r.quiz_id == p.quiz_id
    &&& r.question == p.question
    &&& r.options == p.options
    &&& r.correct_answers == p.correct_answers
    &&& r.kind@ == "text_choice"@
    &&& r.layout@ == "default"@
}

/// Construct the balance task record for an allocated ID: the validated
/// payload fields plus the balance kind's fixed defaults.
pub fn build_task_record(id: u64, payload: TaskPayload, contracts: Vec<ContractAddress>) -> (r:
    TaskRecord)
    requires
        contracts_parsed(contracts@, payload.contracts@),
    ensures
        is_balance_task(r, id, payload),
{
    TaskRecord {
        id,
        quest_id: payload.quest_id,
        name: payload.name,
        desc: payload.desc,
        href: payload.href,
        cta: payload.cta,
        verify_endpoint: String::from_str("quests/verify_balance"),
        verify_endpoint_type: String::from_str("default"),
        task_type: Some(String::from_str("balance")),
        quiz_name: None,
        contracts: Some(contracts),
    }
}

/// Construct the question record for an allocated ID: the payload fields
/// plus the question kind's fixed defaults.
pub fn build_question_record(id: u64, payload: QuestionPayload) -> (r: QuestionRecord)
    ensures
        is_quiz_question(r, id, payload),
{
    QuestionRecord {
        id,
        quiz_id: payload.quiz_id,
        question: payload.question,
        options: payload.options,
        correct_answers: payload.correct_answers,
        kind: String::from_str("text_choice"),
        layout: String::from_str("default"),
    }
}

} // verus!
