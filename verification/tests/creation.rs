use quest_admin::counter::IdCounter;
use quest_admin::errors::CreationError;
use quest_admin::felt::parse_contracts;
use quest_admin::protocol::{create_question, create_task, StoreFaults};
use quest_admin::records::{
    QuestRecord, QuestionPayload, QuizRecord, TaskPayload, TaskRecord,
};
use quest_admin::store::StoreModel;

fn no_faults() -> StoreFaults {
    StoreFaults { alloc_query_fails: false, insert_fails: false }
}

fn store_with_quest(id: u64, issuer: &str) -> StoreModel {
    StoreModel {
        quests: vec![QuestRecord { id, issuer: issuer.to_string() }],
        tasks: Vec::new(),
        quizzes: Vec::new(),
        questions: Vec::new(),
    }
}

fn task_payload(quest_id: u64, contracts: Vec<&str>) -> TaskPayload {
    TaskPayload {
        quest_id,
        name: "Hold the token".to_string(),
        desc: "Keep a minimum balance".to_string(),
        contracts: contracts.into_iter().map(|c| c.to_string()).collect(),
        href: "https://example.com/task".to_string(),
        cta: "Go".to_string(),
    }
}

fn linking_task(id: u64, quest_id: u64, quiz_id: u64) -> TaskRecord {
    TaskRecord {
        id,
        quest_id,
        name: "Quiz task".to_string(),
        desc: "Answer the quiz".to_string(),
        href: "https://example.com/quiz".to_string(),
        cta: "Start".to_string(),
        verify_endpoint: "quests/verify_quiz".to_string(),
        verify_endpoint_type: "quiz".to_string(),
        task_type: Some("quiz".to_string()),
        quiz_name: Some(quiz_id),
        contracts: None,
    }
}

fn question_payload(quiz_id: u64) -> QuestionPayload {
    QuestionPayload {
        quiz_id,
        question: "What is the base layer?".to_string(),
        options: vec!["L1".to_string(), "L2".to_string()],
        correct_answers: vec![0],
    }
}

#[test]
fn create_task_inserts_record_with_next_id() {
    let mut store = store_with_quest(1, "alice");
    let mut counter = IdCounter::new(0);
    let subject = "alice".to_string();
    let payload = task_payload(1, vec!["0x1", "10"]);
    let r = create_task(&mut store, &mut counter, &subject, payload, no_faults());
    assert_eq!(r, Ok(1));
    assert_eq!(counter.last_id, 1);
    assert_eq!(store.tasks.len(), 1);
    let rec = &store.tasks[0];
    assert_eq!(rec.id, 1);
    assert_eq!(rec.quest_id, 1);
    assert_eq!(rec.name, "Hold the token");
    assert_eq!(rec.verify_endpoint, "quests/verify_balance");
    assert_eq!(rec.verify_endpoint_type, "default");
    assert_eq!(rec.task_type.as_deref(), Some("balance"));
    assert!(rec.quiz_name.is_none());
    let contracts = rec.contracts.as_ref().expect("contracts must be parsed");
    assert_eq!(contracts.len(), 2);
    // "0x1" parses to the field element 1: 31 zero bytes then 0x01.
    assert_eq!(contracts[0].bytes.len(), 32);
    assert_eq!(contracts[0].bytes[31], 1);
    assert!(contracts[0].bytes[..31].iter().all(|b| *b == 0));
    // "10" parses as decimal.
    assert_eq!(contracts[1].bytes[31], 10);
}

#[test]
fn create_task_rejects_foreign_subject() {
    let mut store = store_with_quest(1, "alice");
    let mut counter = IdCounter::new(0);
    let subject = "bob".to_string();
    let payload = task_payload(1, vec!["0x1"]);
    let r = create_task(&mut store, &mut counter, &subject, payload, no_faults());
    assert_eq!(r, Err(CreationError::Unauthorized));
    assert!(store.tasks.is_empty());
    assert_eq!(counter.last_id, 0);
}

#[test]
fn create_task_rejects_missing_quest() {
    let mut store = store_with_quest(1, "alice");
    let mut counter = IdCounter::new(0);
    let subject = "alice".to_string();
    let payload = task_payload(2, vec!["0x1"]);
    let r = create_task(&mut store, &mut counter, &subject, payload, no_faults());
    assert_eq!(r, Err(CreationError::Unauthorized));
    assert!(store.tasks.is_empty());
    assert_eq!(counter.last_id, 0);
}

#[test]
fn create_task_rejects_unparsable_contract() {
    let mut store = store_with_quest(1, "alice");
    let mut counter = IdCounter::new(0);
    let subject = "alice".to_string();
    let payload = task_payload(1, vec!["0x1", "not-an-address"]);
    let r = create_task(&mut store, &mut counter, &subject, payload, no_faults());
    assert_eq!(r, Err(CreationError::PayloadInvalid));
    assert!(store.tasks.is_empty());
    assert_eq!(counter.last_id, 0);
}

#[test]
fn create_task_surfaces_allocator_store_failure() {
    let mut store = store_with_quest(1, "alice");
    let mut counter = IdCounter::new(0);
    let subject = "alice".to_string();
    let payload = task_payload(1, vec!["0x1"]);
    let faults = StoreFaults { alloc_query_fails: true, insert_fails: false };
    let r = create_task(&mut store, &mut counter, &subject, payload, faults);
    assert_eq!(r, Err(CreationError::AllocatorStoreError));
    assert!(store.tasks.is_empty());
    // The query itself failed: no ID is considered consumed.
    assert_eq!(counter.last_id, 0);
}

#[test]
fn failed_insert_leaves_gap_but_never_reuses_id() {
    let mut store = store_with_quest(1, "alice");
    store.tasks.push(linking_task(3, 1, 9));
    let mut counter = IdCounter::new(0);
    let subject = "alice".to_string();
    let faults = StoreFaults { alloc_query_fails: false, insert_fails: true };
    let r = create_task(&mut store, &mut counter, &subject, task_payload(1, vec!["0x1"]), faults);
    assert_eq!(r, Err(CreationError::StoreWriteError));
    // No record with the allocated ID 4 exists afterward...
    assert_eq!(store.tasks.len(), 1);
    assert!(store.tasks.iter().all(|t| t.id != 4));
    // ...but the ID stays consumed, so the next creation skips it.
    assert_eq!(counter.last_id, 4);
    let r2 = create_task(&mut store, &mut counter, &subject, task_payload(1, vec!["0x1"]), no_faults());
    assert_eq!(r2, Ok(5));
    assert!(store.tasks.iter().all(|t| t.id != 4));
}

#[test]
fn create_question_inserts_record_with_defaults() {
    let mut store = store_with_quest(7, "alice");
    store.tasks.push(linking_task(1, 7, 9));
    store.quizzes.push(QuizRecord { id: 9 });
    let mut counter = IdCounter::new(0);
    let subject = "alice".to_string();
    let r = create_question(&mut store, &mut counter, &subject, question_payload(9), no_faults());
    assert_eq!(r, Ok(1));
    assert_eq!(store.questions.len(), 1);
    let rec = &store.questions[0];
    assert_eq!(rec.id, 1);
    assert_eq!(rec.quiz_id, 9);
    assert_eq!(rec.question, "What is the base layer?");
    assert_eq!(rec.options, vec!["L1".to_string(), "L2".to_string()]);
    assert_eq!(rec.correct_answers, vec![0]);
    assert_eq!(rec.kind, "text_choice");
    assert_eq!(rec.layout, "default");
}

#[test]
fn two_question_creations_get_successive_ids() {
    let mut store = store_with_quest(7, "alice");
    store.tasks.push(linking_task(1, 7, 9));
    store.quizzes.push(QuizRecord { id: 9 });
    let mut counter = IdCounter::new(0);
    let subject = "alice".to_string();
    let first = create_question(&mut store, &mut counter, &subject, question_payload(9), no_faults());
    let second = create_question(&mut store, &mut counter, &subject, question_payload(9), no_faults());
    assert_eq!(first, Ok(1));
    assert_eq!(second, Ok(2));
    assert_eq!(store.questions.len(), 2);
    assert!(store.questions.iter().all(|q| q.quiz_id == 9));
    assert_ne!(store.questions[0].id, store.questions[1].id);
}

#[test]
fn create_question_rejects_unlinked_quiz() {
    let mut store = store_with_quest(7, "alice");
    store.quizzes.push(QuizRecord { id: 9 });
    let mut counter = IdCounter::new(0);
    let subject = "alice".to_string();
    let r = create_question(&mut store, &mut counter, &subject, question_payload(9), no_faults());
    assert_eq!(r, Err(CreationError::ParentNotFound));
    assert!(store.questions.is_empty());
    assert_eq!(counter.last_id, 0);
}

#[test]
fn create_question_rejects_missing_quiz_record() {
    // The linking task exists and the subject is authorized, but the quiz
    // record itself is absent from the quiz collection.
    let mut store = store_with_quest(7, "alice");
    store.tasks.push(linking_task(1, 7, 9));
    let mut counter = IdCounter::new(0);
    let subject = "alice".to_string();
    let r = create_question(&mut store, &mut counter, &subject, question_payload(9), no_faults());
    assert_eq!(r, Err(CreationError::PayloadInvalid));
    assert!(store.questions.is_empty());
    assert_eq!(counter.last_id, 0);
}

#[test]
fn create_question_rejects_foreign_subject() {
    let mut store = store_with_quest(7, "alice");
    store.tasks.push(linking_task(1, 7, 9));
    store.quizzes.push(QuizRecord { id: 9 });
    let mut counter = IdCounter::new(0);
    let subject = "bob".to_string();
    let r = create_question(&mut store, &mut counter, &subject, question_payload(9), no_faults());
    assert_eq!(r, Err(CreationError::Unauthorized));
    assert!(store.questions.is_empty());
    assert_eq!(counter.last_id, 0);
}

#[test]
fn parse_contracts_is_fail_fast_and_exact() {
    let parts = vec!["0x1".to_string(), "255".to_string()];
    let parsed = parse_contracts(&parts).expect("both addresses are valid");
    assert_eq!(parsed.len(), 2);
    assert_eq!(parsed[0].bytes.len(), 32);
    assert_eq!(parsed[0].bytes[31], 1);
    assert_eq!(parsed[1].bytes[31], 255);
    assert!(parsed[1].bytes[..31].iter().all(|b| *b == 0));

    let bad = vec!["0x1".to_string(), "zzz".to_string(), "0x2".to_string()];
    assert!(matches!(parse_contracts(&bad), Err(CreationError::PayloadInvalid)));
}
