//! The ownership-gated creation protocol: resolve the parent, verify that
//! the caller administers it, validate the payload, allocate the next child
//! ID inside the kind's critical section, and insert the new record. Any
//! gate failure aborts the request with no record inserted; an ID allocated
//! before a failed insert stays consumed (a gap, never a collision).

use vstd::prelude::*;
use crate::counter::{next_id, IdCounter};
use crate::errors::CreationError;
use crate::felt::{all_contracts_valid, parse_contracts};
use crate::records::{
    is_balance_task, is_quiz_question, build_question_record, build_task_record, QuestRecord,
    QuestionPayload, QuizRecord, TaskPayload, TaskRecord,
};
use crate::store::{
    find_quest, find_quest_by_id, find_task_by_quiz, find_task_by_quiz_id, lemma_max_question_id_bound,
    lemma_max_task_id_bound, lemma_push_preserves_unique_question_ids,
    lemma_push_preserves_unique_task_ids, max_question_id, max_task_id, question_ids_unique,
    quiz_exists, quiz_with_id_exists, query_max_question_id, query_max_task_id, task_ids_unique,
    StoreModel,
};

verus! {

/// Outcomes of the two store calls that only the store decides: the
/// largest-ID query and the final insert may each fail (connectivity,
/// timeout). The protocol is verified for every combination.
#[derive(Clone, Copy, Debug, PartialEq, Eq, Structural)]
pub struct StoreFaults {
    /// The allocator's largest-ID query fails; no ID is consumed.
    pub alloc_query_fails: bool,
    /// The final insert fails; the allocated ID stays consumed.
    pub insert_fails: bool,
}

/// The caller's subject administers the quest: the quest exists and its
/// stored issuer equals the subject.
pub open spec fn quest_authorizes(quests: Seq<QuestRecord>, quest_id: u64, subject: Seq<char>) -> bool {
    find_quest(quests, quest_id) matches Some(q) && q.issuer@ == subject
}

/// A task creation request passes every gate before the allocator.
pub open spec fn task_reaches_allocation(
    quests: Seq<QuestRecord>,
    payload: TaskPayload,
    subject: Seq<char>,
    faults: StoreFaults,
) -> bool {
    &&& quest_authorizes(quests, payload.quest_id, subject)
    &&& all_contracts_valid(payload.contracts@)
    &&& !faults.alloc_query_fails
}

/// The exact result a task creation request gets, gate by gate.
pub open spec fn expected_task_result(
    r: Result<u64, CreationError>,
    quests: Seq<QuestRecord>,
    tasks: Seq<TaskRecord>,
    counter0: int,
    payload: TaskPayload,
    subject: Seq<char>,
    faults: StoreFaults,
) -> bool {
    if !quest_authorizes(quests, payload.quest_id, subject) {
        r == Result::<u64, CreationError>::Err(CreationError::Unauthorized)
    } else if !all_contracts_valid(payload.contracts@) {
        r == Result::<u64, CreationError>::Err(CreationError::PayloadInvalid)
    } else if faults.alloc_query_fails {
        r == Result::<u64, CreationError>::Err(CreationError::AllocatorStoreError)
    } else if faults.insert_fails {
        r == Result::<u64, CreationError>::Err(CreationError::StoreWriteError)
    } else {
        r == Result::<u64, CreationError>::Ok(next_id(counter0, max_task_id(tasks)) as u64)
    }
}

/// Whether the stored issuer of a resolved quest equals the caller's subject.
pub fn subject_matches(quest: &QuestRecord, subject: &String) -> (r: bool)
    ensures
        r == (quest.issuer@ == subject@),
{
    quest.issuer == *subject
}

/// Create a balance task under a quest: verify that `subject` administers
/// the quest, parse the contract list fail-fast, allocate the next task ID
/// inside the task kind's critical section, and insert the record. On any
/// failure no record is inserted, and the counter advances only when an ID
/// was allocated.
pub fn create_task(
    store: &mut StoreModel,
    counter: &mut IdCounter,
    subject: &String,
    payload: TaskPayload,
    faults: StoreFaults,
) -> (r: Result<u64, CreationError>)
    requires
        old(counter).last_id < u64::MAX,
        max_task_id(old(store).tasks@) < u64::MAX,
    ensures
        expected_task_result(
            r,
            old(store).quests@,
            old(store).tasks@,
            old(counter).last_id as int,
            payload,
            subject@,
            faults,
        ),
        final(store).quests@ == old(store).quests@,
        final(store).quizzes@ == old(store).quizzes@,
        final(store).questions@ == old(store).questions@,
        final(counter).last_id >= old(counter).last_id,
        task_reaches_allocation(old(store).quests@, payload, subject@, faults)
            ==> final(counter).last_id as int == next_id(
            old(counter).last_id as int,
            max_task_id(old(store).tasks@),
        ),
        !task_reaches_allocation(old(store).quests@, payload, subject@, faults)
            ==> *final(counter) == *old(counter),
        r is Err ==> final(store).tasks@ == old(store).tasks@,
        r matches Err(e) && e == CreationError::StoreWriteError ==> forall|j: int|
            0 <= j < final(store).tasks@.len()
                ==> (#[trigger] final(store).tasks@[j]).id != final(counter).last_id,
        r matches Ok(id) ==> {
            &&& final(store).tasks@.len() == old(store).tasks@.len() + 1
            &&& final(store).tasks@.drop_last() == old(store).tasks@
            &&& is_balance_task(final(store).tasks@.last(), id, payload)
            &&& final(counter).last_id == id
            &&& id as int > max_task_id(old(store).tasks@)
        },
        task_ids_unique(old(store).tasks@) ==> task_ids_unique(final(store).tasks@),
{
    let authorized = match find_quest_by_id(&store.quests, payload.quest_id) {
        Some(q) => subject_matches(q, subject),
        None => false,
    };
    if !authorized {
        return Err(CreationError::Unauthorized);
    }
    let contracts = match parse_contracts(&payload.contracts) {
        Ok(cs) => cs,
        Err(e) => {
            return Err(e);
        },
    };
    if faults.alloc_query_fails {
        return Err(CreationError::AllocatorStoreError);
    }
    let store_max = query_max_task_id(&store.tasks);
    let id = counter.allocate(store_max);
    if faults.insert_fails {
        proof {
            assert forall|j: int| 0 <= j < store.tasks@.len() implies (#[trigger] store.tasks@[j]).id
                != id by {
                lemma_max_task_id_bound(store.tasks@, j);
            }
        }
        return Err(CreationError::StoreWriteError);
    }
    let record = build_task_record(id, payload, contracts);
    store.tasks.push(record);
    proof {
        assert(store.tasks@.drop_last() =~= old(store).tasks@);
        if task_ids_unique(old(store).tasks@) {
            lemma_push_preserves_unique_task_ids(old(store).tasks@, store.tasks@.last());
            assert(store.tasks@ =~= old(store).tasks@.push(store.tasks@.last()));
        }
    }
    Ok(id)
}

/// A question creation request passes every gate before the allocator.
pub open spec fn question_reaches_allocation(
    quests: Seq<QuestRecord>,
    tasks: Seq<TaskRecord>,
    quizzes: Seq<QuizRecord>,
    quiz_id: u64,
    subject: Seq<char>,
    faults: StoreFaults,
) -> bool {
    &&& find_task_by_quiz(tasks, quiz_id) matches Some(t)
    &&& quest_authorizes(quests, t.quest_id, subject)
    &&& quiz_exists(quizzes, quiz_id)
    &&& !faults.alloc_query_fails
}

/// The exact result a question creation request gets, gate by gate.
pub open spec fn expected_question_result(
    r: Result<u64, CreationError>,
    store0: StoreModel,
    counter0: int,
    payload: QuestionPayload,
    subject: Seq<char>,
    faults: StoreFaults,
) -> bool {
    match find_task_by_quiz(store0.tasks@, payload.quiz_id) {
        None => r == Result::<u64, CreationError>::Err(CreationError::ParentNotFound),
        Some(t) => if !quest_authorizes(store0.quests@, t.quest_id, subject) {
            r == Result::<u64, CreationError>::Err(CreationError::Unauthorized)
        } else if !quiz_exists(store0.quizzes@, payload.quiz_id) {
            r == Result::<u64, CreationError>::Err(CreationError::PayloadInvalid)
        } else if faults.alloc_query_fails {
            r == Result::<u64, CreationError>::Err(CreationError::AllocatorStoreError)
        } else if faults.insert_fails {
            r == Result::<u64, CreationError>::Err(CreationError::StoreWriteError)
        } else {
            r == Result::<u64, CreationError>::Ok(
                next_id(counter0, max_question_id(store0.questions@)) as u64,
            )
        },
    }
}

/// The quest whose administrator may create questions under the given quiz:
/// the owning quest of the task that links to the quiz, `ParentNotFound`
/// where no task links to it.
pub fn resolve_question_parent(link: &Option<TaskRecord>) -> (r: Result<u64, CreationError>)
    ensures
        match *link {
            Some(t) => r == Result::<u64, CreationError>::Ok(t.quest_id),
            None => r == Result::<u64, CreationError>::Err(CreationError::ParentNotFound),
        },
{
    match link {
        Some(t) => Ok(t.quest_id),
        None => Err(CreationError::ParentNotFound),
    }
}

/// Create a question under a quiz: resolve the quiz's linking task, verify
/// that `subject` administers the owning quest, check that the quiz record
/// itself exists, allocate the next question ID inside the question kind's
/// critical section, and insert the record. On any failure no record is
/// inserted, and the counter advances only when an ID was allocated.
pub fn create_question(
    store: &mut StoreModel,
    counter: &mut IdCounter,
    subject: &String,
    payload: QuestionPayload,
    faults: StoreFaults,
) -> (r: Result<u64, CreationError>)
    requires
        old(counter).last_id < u64::MAX,
        max_question_id(old(store).questions@) < u64::MAX,
    ensures
        expected_question_result(
            r,
            *old(store),
            old(counter).last_id as int,
            payload,
            subject@,
            faults,
        ),
        final(store).quests@ == old(store).quests@,
        final(store).quizzes@ == old(store).quizzes@,
        final(store).tasks@ == old(store).tasks@,
        final(counter).last_id >= old(counter).last_id,
        question_reaches_allocation(
            old(store).quests@,
            old(store).tasks@,
            old(store).quizzes@,
            payload.quiz_id,
            subject@,
            faults,
        ) ==> final(counter).last_id as int == next_id(
            old(counter).last_id as int,
            max_question_id(old(store).questions@),
        ),
        !question_reaches_allocation(
            old(store).quests@,
            old(store).tasks@,
            old(store).quizzes@,
            payload.quiz_id,
            subject@,
            faults,
        ) ==> *final(counter) == *old(counter),
        r is Err ==> final(store).questions@ == old(store).questions@,
        r matches Err(e) && e == CreationError::StoreWriteError ==> forall|j: int|
            0 <= j < final(store).questions@.len()
                ==> (#[trigger] final(store).questions@[j]).id != final(counter).last_id,
        r matches Ok(id) ==> {
            &&& final(store).questions@.len() == old(store).questions@.len() + 1
            &&& final(store).questions@.drop_last() == old(store).questions@
            &&& is_quiz_question(final(store).questions@.last(), id, payload)
            &&& final(counter).last_id == id
            &&& id as int > max_question_id(old(store).questions@)
        },
        question_ids_unique(old(store).questions@) ==> question_ids_unique(
            final(store).questions@,
        ),
{
    let quest_id = match find_task_by_quiz_id(&store.tasks, payload.quiz_id) {
        Some(t) => t.quest_id,
        None => {
            return Err(CreationError::ParentNotFound);
        },
    };
    let authorized = match find_quest_by_id(&store.quests, quest_id) {
        Some(q) => subject_matches(q, subject),
        None => false,
    };
    if !authorized {
        return Err(CreationError::Unauthorized);
    }
    if !quiz_with_id_exists(&store.quizzes, payload.quiz_id) {
        return Err(CreationError::PayloadInvalid);
    }
    if faults.alloc_query_fails {
        return Err(CreationError::AllocatorStoreError);
    }
    let store_max = query_max_question_id(&store.questions);
    let id = counter.allocate(store_max);
    if faults.insert_fails {
        proof {
            assert forall|j: int| 0 <= j < store.questions@.len() implies (
            #[trigger] store.questions@[j]).id != id by {
                lemma_max_question_id_bound(store.questions@, j);
            }
        }
        return Err(CreationError::StoreWriteError);
    }
    let record = build_question_record(id, payload);
    store.questions.push(record);
    proof {
        assert(store.questions@.drop_last() =~= old(store).questions@);
        if question_ids_unique(old(store).questions@) {
            lemma_push_preserves_unique_question_ids(
                old(store).questions@,
                store.questions@.last(),
            );
            assert(store.questions@ =~= old(store).questions@.push(store.questions@.last()));
        }
    }
    Ok(id)
}

} // verus!
