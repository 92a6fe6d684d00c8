//! An in-memory model of the document store's collections, with the three
//! query shapes the protocol needs: find-one by equality filter, and the
//! largest-ID lookup (the store's descending-sort, limit-one query).

use vstd::prelude::*;
use crate::counter::{max2, store_max_val};
use crate::records::{QuestRecord, QuestionRecord, QuizRecord, TaskRecord};

verus! {

/// The collections the creation protocol touches. Quests and quizzes are
/// read-only parents; tasks and questions are the child records it inserts.
pub struct StoreModel {
    pub quests: Vec<QuestRecord>,
    pub tasks: Vec<TaskRecord>,
    pub quizzes: Vec<QuizRecord>,
    pub questions: Vec<QuestionRecord>,
}

/// First quest with the given ID, in collection order (find-one).
pub open spec fn find_quest(quests: Seq<QuestRecord>, id: u64) -> Option<QuestRecord>
    decreases quests.len(),
{
    if quests.len() == 0 {
        None
    } else if quests[0].id == id {
        Some(quests[0])
    } else {
        find_quest(quests.drop_first(), id)
    }
}

/// First task whose quiz link equals the given quiz ID, in collection order.
pub open spec fn find_task_by_quiz(tasks: Seq<TaskRecord>, quiz_id: u64) -> Option<TaskRecord>
    decreases tasks.len(),
{
    if tasks.len() == 0 {
        None
    } else if tasks[0].quiz_name == Some(quiz_id) {
        Some(tasks[0])
    } else {
        find_task_by_quiz(tasks.drop_first(), quiz_id)
    }
}

/// Whether a quiz with the given ID exists.
pub open spec fn quiz_exists(quizzes: Seq<QuizRecord>, id: u64) -> bool {
    exists|i: int| 0 <= i < quizzes.len() && (#[trigger] quizzes[i]).id == id
}

/// Largest task ID present, `0` for an empty collection.
pub open spec fn max_task_id(tasks: Seq<TaskRecord>) -> int
    decreases tasks.len(),
{
    if tasks.len() == 0 {
        0
    } else {
        max2(max_task_id(tasks.drop_last()), tasks.last().id as int)
    }
}

/// Largest question ID present, `0` for an empty collection.
pub open spec fn max_question_id(questions: Seq<QuestionRecord>) -> int
    decreases questions.len(),
{
    if questions.len() == 0 {
        0
    } else {
        max2(max_question_id(questions.drop_last()), questions.last().id as int)
    }
}

/// Every task ID is bounded by the collection's maximum.
pub proof fn lemma_max_task_id_bound(tasks: Seq<TaskRecord>, i: int)
    requires
        0 <= i < tasks.len(),
    ensures
        tasks[i].id as int <= max_task_id(tasks),
    decreases tasks.len(),
{
    if i < tasks.len() - 1 {
        lemma_max_task_id_bound(tasks.drop_last(), i);
        assert(tasks.drop_last()[i] == tasks[i]);
    }
}

/// Every question ID is bounded by the collection's maximum.
pub proof fn lemma_max_question_id_bound(questions: Seq<QuestionRecord>, i: int)
    requires
        0 <= i < questions.len(),
    ensures
        questions[i].id as int <= max_question_id(questions),
    decreases questions.len(),
{
    if i < questions.len() - 1 {
        lemma_max_question_id_bound(questions.drop_last(), i);
        assert(questions.drop_last()[i] == questions[i]);
    }
}

/// No two tasks hold the same ID.
pub open spec fn task_ids_unique(tasks: Seq<TaskRecord>) -> bool {
    forall|i: int, j: int|
        0 <= i < j < tasks.len() ==> (#[trigger] tasks[i]).id != (#[trigger] tasks[j]).id
}

/// No two questions hold the same ID.
pub open spec fn question_ids_unique(questions: Seq<QuestionRecord>) -> bool {
    forall|i: int, j: int|
        0 <= i < j < questions.len() ==> (#[trigger] questions[i]).id != (
        #[trigger] questions[j]).id
}

/// Appending a task whose ID exceeds the collection's maximum — as every
/// allocated ID does — keeps the IDs pairwise distinct: no two task records
/// ever hold the same ID.
pub proof fn lemma_push_preserves_unique_task_ids(tasks: Seq<TaskRecord>, t: TaskRecord)
    requires
        task_ids_unique(tasks),
        t.id as int > max_task_id(tasks),
    ensures
        task_ids_unique(tasks.push(t)),
{
    let pushed = tasks.push(t);
    assert forall|i: int, j: int|
        0 <= i < j < pushed.len() implies (#[trigger] pushed[i]).id != (
    #[trigger] pushed[j]).id by {
        if j == tasks.len() {
            lemma_max_task_id_bound(tasks, i);
        }
    }
}

/// Appending a question whose ID exceeds the collection's maximum — as every
/// allocated ID does — keeps the IDs pairwise distinct: no two question
/// records ever hold the same ID.
pub proof fn lemma_push_preserves_unique_question_ids(
    questions: Seq<QuestionRecord>,
    q: QuestionRecord,
)
    requires
        question_ids_unique(questions),
        q.id as int > max_question_id(questions),
    ensures
        question_ids_unique(questions.push(q)),
{
    let pushed = questions.push(q);
    assert forall|i: int, j: int|
        0 <= i < j < pushed.len() implies (#[trigger] pushed[i]).id != (
    #[trigger] pushed[j]).id by {
        if j == questions.len() {
            lemma_max_question_id_bound(questions, i);
        }
    }
}

/// Find-one on the quests collection.
pub fn find_quest_by_id(quests: &Vec<QuestRecord>, id: u64) -> (r: Option<&QuestRecord>)
    ensures
        match r {
            Some(q) => find_quest(quests@, id) == Some(*q),
            None => find_quest(quests@, id) is None,
        },
{
    let mut i: usize = 0;
    assert(quests@.skip(0) =~= quests@);
    while i < quests.len()
        invariant
            i <= quests@.len(),
            find_quest(quests@, id) == find_quest(quests@.skip(i as int), id),
        decreases quests@.len() - i,
    {
        if quests[i].id == id {
            assert(quests@.skip(i as int)[0] == quests@[i as int]);
            return Some(&quests[i]);
        }
        assert(quests@.skip(i as int).drop_first() =~= quests@.skip(i as int + 1));
        i = i + 1;
    }
    None
}

/// Find-one on the tasks collection, filtering on the quiz link.
pub fn find_task_by_quiz_id(tasks: &Vec<TaskRecord>, quiz_id: u64) -> (r: Option<&TaskRecord>)
    ensures
        match r {
            Some(t) => find_task_by_quiz(tasks@, quiz_id) == Some(*t),
            None => find_task_by_quiz(tasks@, quiz_id) is None,
        },
{
    let mut i: usize = 0;
    assert(tasks@.skip(0) =~= tasks@);
    while i < tasks.len()
        invariant
            i <= tasks@.len(),
            find_task_by_quiz(tasks@, quiz_id) == find_task_by_quiz(tasks@.skip(i as int), quiz_id),
        decreases tasks@.len() - i,
    {
        let linked = match tasks[i].quiz_name {
            Some(q) => q == quiz_id,
            None => false,
        };
        assert(tasks@.skip(i as int)[0] == tasks@[i as int]);
        if linked {
            return Some(&tasks[i]);
        }
        assert(tasks@.skip(i as int).drop_first() =~= tasks@.skip(i as int + 1));
        i = i + 1;
    }
    None
}

/// Whether the quizzes collection holds a quiz with the given ID
/// (find-one by equality filter).
pub fn quiz_with_id_exists(quizzes: &Vec<QuizRecord>, id: u64) -> (r: bool)
    ensures
        r == quiz_exists(quizzes@, id),
{
    let mut i: usize = 0;
    while i < quizzes.len()
        invariant
            i <= quizzes@.len(),
            forall|k: int| 0 <= k < i ==> (#[trigger] quizzes@[k]).id != id,
        decreases quizzes@.len() - i,
    {
        if quizzes[i].id == id {
            return true;
        }
        i = i + 1;
    }
    false
}

/// The store's largest-task-ID query: the ID of the record that sorting by
/// ID descending with limit one returns, `None` on an empty collection.
pub fn query_max_task_id(tasks: &Vec<TaskRecord>) -> (r: Option<u64>)
    ensures
        store_max_val(r) == max_task_id(tasks@),
        r is None <==> tasks@.len() == 0,
{
    if tasks.len() == 0 {
        return None;
    }
    let mut cur: u64 = 0;
    let mut i: usize = 0;
    while i < tasks.len()
        invariant
            i <= tasks@.len(),
            cur as int == max_task_id(tasks@.take(i as int)),
        decreases tasks@.len() - i,
    {
        assert(tasks@.take(i as int + 1).drop_last() =~= tasks@.take(i as int));
        assert(tasks@.take(i as int + 1).last() == tasks@[i as int]);
        if tasks[i].id > cur {
            cur = tasks[i].id;
        }
        i = i + 1;
    }
    assert(tasks@.take(tasks@.len() as int) =~= tasks@);
    Some(cur)
}

/// The store's largest-question-ID query.
pub fn query_max_question_id(questions: &Vec<QuestionRecord>) -> (r: Option<u64>)
    ensures
        store_max_val(r) == max_question_id(questions@),
        r is None <==> questions@.len() == 0,
{
    if questions.len() == 0 {
        return None;
    }
    let mut cur: u64 = 0;
    let mut i: usize = 0;
    while i < questions.len()
        invariant
            i <= questions@.len(),
            cur as int == max_question_id(questions@.take(i as int)),
        decreases questions@.len() - i,
    {
        assert(questions@.take(i as int + 1).drop_last() =~= questions@.take(i as int));
        assert(questions@.take(i as int + 1).last() == questions@[i as int]);
        if questions[i].id > cur {
            cur = questions[i].id;
        }
        i = i + 1;
    }
    assert(questions@.take(questions@.len() as int) =~= questions@);
    Some(cur)
}

} // verus!
