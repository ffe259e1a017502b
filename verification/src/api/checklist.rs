//! Checklists.
use crate::api::request;
use crate::api::request::{make_call, Request, RequestView};
use crate::api::rich_text;
use crate::api::rich_text::telegram_rich_text_entities;
use crate::content::{Checklist, ChecklistTask};
use crate::error;
use crate::error::{message, Error, ErrorView};
use crate::json;
use crate::json::{strip_nulls, Fields, Json, JsonView};
use crate::native;
use crate::native::{add_member, merge_fields, telegram_native_object};
use crate::text;
use crate::text::parse_i64;
use vstd::prelude::*;
use vstd::string::*;

verus! {

/// A task that Telegram accepts in a new checklist.
pub open spec fn task_valid(task: ChecklistTask) -> bool {
    &&& 1 <= task.text.text@.len() <= 100
    &&& !task.completed
    &&& task.completed_by is None
    &&& task.completed_at is None
}

pub open spec fn tasks_valid(tasks: Seq<ChecklistTask>) -> bool {
    forall|i: int| 0 <= i < tasks.len() ==> task_valid(#[trigger] tasks[i])
}

fn check_tasks(tasks: &Vec<ChecklistTask>) -> (result: bool)
    ensures
        result == tasks_valid(tasks@),
{
    let mut i: usize = 0;
    while i < tasks.len()
        invariant
            i <= tasks@.len(),
            forall|j: int| 0 <= j < i ==> task_valid(#[trigger] tasks@[j]),
        decreases tasks@.len() - i,
    {
        let task: &ChecklistTask = &tasks[i];
        let n: usize = task.text.text.as_str().unicode_len();
        if !(1 <= n && n <= 100 && !task.completed && task.completed_by.is_none()
            && task.completed_at.is_none()) {
            assert(!task_valid(tasks@[i as int]));
            return false;
        }
        i += 1;
    }
    true
}

/// The number of a task: its own, or its place in the list from 1 on.
pub open spec fn task_id(task: ChecklistTask, index: int) -> Option<int> {
    match task.id {
        Some(id) => match text::i64_value(id@) {
            Some(n) => Some(n as int),
            None => None,
        },
        None => Some(index + 1),
    }
}

/// A task under its number.
pub open spec fn task_outcome(task: ChecklistTask, id: int) -> Result<JsonView, ErrorView> {
    match rich_text::entities_outcome(task.text) {
        Err(e) => Err(e),
        Ok(entities) => {
            let own = json::no_fields().insert("id"@, JsonView::Integer(id)).insert(
                "text"@,
                JsonView::Text(task.text.text@),
            ).insert("text_entities"@, JsonView::Array(entities));
            match task.platform_data {
                None => Ok(JsonView::Object(own)),
                Some(native) => match native::native_object_outcome(native, "checklist task"@) {
                    Err(e) => Err(e),
                    Ok(extra) => match native::merged(own, extra, "Telegram checklist task"@) {
                        Err(e) => Err(e),
                        Ok(all) => Ok(JsonView::Object(all)),
                    },
                },
            }
        },
    }
}

fn write_task(task: &ChecklistTask, id: i64) -> (result: Result<Json, Error>)
    ensures
        error::shown(result) == task_outcome(*task, id as int),
{
    let entities = telegram_rich_text_entities(&task.text)?;
    let mut own = Fields::none();
    own.put("id", Json::integer(id));
    own.put("text", Json::text(task.text.text.as_str()));
    own.put("text_entities", Json::array(entities));
    if let Some(native) = &task.platform_data {
        let extra = telegram_native_object(native, "checklist task")?;
        own = merge_fields(own, &extra, "Telegram checklist task")?;
    }
    Ok(Json::object(own))
}

/// The first `n` tasks with their numbers, which are positive and all
/// different.
pub open spec fn tasks_outcome(tasks: Seq<ChecklistTask>, n: int) -> Result<
    (Seq<JsonView>, Seq<int>),
    ErrorView,
>
    decreases n,
{
    if n <= 0 {
        Ok((Seq::empty(), Seq::empty()))
    } else {
        match tasks_outcome(tasks, n - 1) {
            Err(e) => Err(e),
            Ok((done, ids)) => match task_id(tasks[n - 1], n - 1) {
                None => error::refused("invalid Telegram checklist task id"@),
                Some(id) => if id <= 0 || ids.contains(id) {
                    error::refused("Telegram checklist task ids must be positive and unique"@)
                } else {
                    match task_outcome(tasks[n - 1], id) {
                        Err(e) => Err(e),
                        Ok(value) => Ok((done.push(value), ids.push(id))),
                    }
                },
            },
        }
    }
}

proof fn lemma_tasks_refused(tasks: Seq<ChecklistTask>, n: int, total: int)
    requires
        0 <= n <= total,
        tasks_outcome(tasks, n) is Err,
    ensures
        tasks_outcome(tasks, total) == tasks_outcome(tasks, n),
    decreases total - n,
{
    if n < total {
        lemma_tasks_refused(tasks, n + 1, total);
    }
}

/// Numbers as integers.
spec fn numbers(list: Seq<i64>) -> Seq<int> {
    Seq::new(list.len(), |i: int| list[i] as int)
}

fn holds(list: &Vec<i64>, id: i64) -> (found: bool)
    ensures
        found == numbers(list@).contains(id as int),
{
    let mut i: usize = 0;
    while i < list.len()
        invariant
            i <= list@.len(),
            forall|j: int| 0 <= j < i ==> #[trigger] list@[j] != id,
        decreases list@.len() - i,
    {
        if list[i] == id {
            assert(numbers(list@)[i as int] == id);
            return true;
        }
        i += 1;
    }
    false
}

fn write_tasks(tasks: &Vec<ChecklistTask>) -> (result: Result<Vec<Json>, Error>)
    requires
        tasks@.len() <= 30,
    ensures
        match result {
            Ok(items) => tasks_outcome(tasks@, tasks@.len() as int) matches Ok((written, _))
                && written == json::views(items@),
            Err(e) => tasks_outcome(tasks@, tasks@.len() as int) == Err::<
                (Seq<JsonView>, Seq<int>),
                ErrorView,
            >(e@),
        },
{
    let mut items: Vec<Json> = Vec::new();
    let mut ids: Vec<i64> = Vec::new();
    let mut i: usize = 0;
    proof {
        assert(json::views(items@) =~= Seq::<JsonView>::empty());
        assert(numbers(ids@) =~= Seq::<int>::empty());
    }
    while i < tasks.len()
        invariant
            i <= tasks@.len() <= 30,
            tasks_outcome(tasks@, i as int) == Ok::<(Seq<JsonView>, Seq<int>), ErrorView>(
                (json::views(items@), numbers(ids@)),
            ),
        decreases tasks@.len() - i,
    {
        let task: &ChecklistTask = &tasks[i];
        let parsed = match &task.id {
            Some(id) => parse_i64(id.as_str()),
            None => Some(i as i64 + 1),
        };
        let id: i64 = match parsed {
            Some(id) => id,
            None => {
                proof {
                    lemma_tasks_refused(tasks@, i + 1, tasks@.len() as int);
                }
                return Err(message("invalid Telegram checklist task id"));
            },
        };
        if id <= 0 || holds(&ids, id) {
            proof {
                lemma_tasks_refused(tasks@, i + 1, tasks@.len() as int);
            }
            return Err(message("Telegram checklist task ids must be positive and unique"));
        }
        let ghost before = json::views(items@);
        let ghost before_ids = numbers(ids@);
        match write_task(task, id) {
            Ok(value) => {
                items.push(value);
                ids.push(id);
                assert(json::views(items@) =~= before.push(value@));
                assert(numbers(ids@) =~= before_ids.push(id as int));
            },
            Err(e) => {
                proof {
                    lemma_tasks_refused(tasks@, i + 1, tasks@.len() as int);
                }
                return Err(e);
            },
        }
        i += 1;
    }
    Ok(items)
}

/// A new checklist.
pub open spec fn input_checklist_outcome(checklist: Checklist) -> Result<JsonView, ErrorView> {
    let tasks = checklist.tasks@;
    if !(1 <= tasks.len() <= 30) {
        error::refused("Telegram checklists require 1 to 30 tasks"@)
    } else if !(1 <= checklist.title.text@.len() <= 255) {
        error::refused("Telegram checklist titles must contain 1 to 255 characters"@)
    } else if !tasks_valid(tasks) {
        error::refused(
            "Telegram checklist tasks must contain 1 to 100 characters and cannot set completion state"@,
        )
    } else {
        match tasks_outcome(tasks, tasks.len() as int) {
            Err(e) => Err(e),
            Ok((written, _)) => match rich_text::entities_outcome(checklist.title) {
                Err(e) => Err(e),
                Ok(entities) => {
                    let own = json::no_fields().insert(
                        "title"@,
                        JsonView::Text(checklist.title.text@),
                    ).insert("title_entities"@, JsonView::Array(entities)).insert(
                        "tasks"@,
                        JsonView::Array(written),
                    ).insert("others_can_add_tasks"@, JsonView::Bool(checklist.can_add_tasks)).insert(
                        "others_can_mark_tasks_as_done"@,
                        JsonView::Bool(checklist.can_mark_tasks_done),
                    );
                    match checklist.platform_data {
                        None => Ok(json::stripped(JsonView::Object(own))),
                        Some(native) => match native::native_object_outcome(native, "checklist"@) {
                            Err(e) => Err(e),
                            Ok(extra) => match native::merged(own, extra, "Telegram checklist"@) {
                                Err(e) => Err(e),
                                Ok(all) => Ok(json::stripped(JsonView::Object(all))),
                            },
                        },
                    }
                },
            },
        }
    }
}

/// Writes a new checklist.
pub fn telegram_input_checklist(checklist: &Checklist) -> (result: Result<Json, Error>)
    ensures
        error::shown(result) == input_checklist_outcome(*checklist),
{
    let count: usize = checklist.tasks.len();
    if !(1 <= count && count <= 30) {
        return Err(message("Telegram checklists require 1 to 30 tasks"));
    }
    let title: usize = checklist.title.text.as_str().unicode_len();
    if !(1 <= title && title <= 255) {
        return Err(message("Telegram checklist titles must contain 1 to 255 characters"));
    }
    if !check_tasks(&checklist.tasks) {
        return Err(
            message(
                "Telegram checklist tasks must contain 1 to 100 characters and cannot set completion state",
            ),
        );
    }
    let tasks = write_tasks(&checklist.tasks)?;
    let entities = telegram_rich_text_entities(&checklist.title)?;
    let mut own = Fields::none();
    own.put("title", Json::text(checklist.title.text.as_str()));
    own.put("title_entities", Json::array(entities));
    own.put("tasks", Json::array(tasks));
    own.put("others_can_add_tasks", Json::bool(checklist.can_add_tasks));
    own.put("others_can_mark_tasks_as_done", Json::bool(checklist.can_mark_tasks_done));
    if let Some(native) = &checklist.platform_data {
        let extra = telegram_native_object(native, "checklist")?;
        own = merge_fields(own, &extra, "Telegram checklist")?;
    }
    Ok(strip_nulls(Json::object(own)))
}

/// The call that sends a checklist.
pub open spec fn send_checklist_outcome(
    payload: Map<Seq<char>, JsonView>,
    checklist: Checklist,
) -> Result<RequestView, ErrorView> {
    match input_checklist_outcome(checklist) {
        Err(e) => Err(e),
        Ok(value) => request::requested(
            "sendChecklist"@,
            native::added(payload, "checklist"@, value, "message content"@),
        ),
    }
}

/// Makes the call that sends a checklist.
pub fn send_telegram_checklist(checklist: &Checklist, payload: Fields) -> (result: Result<
    Request,
    Error,
>)
    ensures
        error::shown(result) == send_checklist_outcome(json::fields(payload), *checklist),
{
    let value = telegram_input_checklist(checklist)?;
    let payload = add_member(payload, "checklist", value, "message content")?;
    Ok(make_call("sendChecklist", payload))
}

/// The numbers of the tasks of a checklist that was accepted are positive and
/// all different.
pub proof fn law_task_ids_distinct(tasks: Seq<ChecklistTask>, n: int)
    ensures
        tasks_outcome(tasks, n) matches Ok((written, ids)) ==> {
            &&& written.len() == ids.len()
            &&& forall|i: int| 0 <= i < ids.len() ==> #[trigger] ids[i] > 0
            &&& forall|i: int, j: int|
                0 <= i < j < ids.len() ==> #[trigger] ids[i] != #[trigger] ids[j]
        },
    decreases n,
{
    if n > 0 {
        law_task_ids_distinct(tasks, n - 1);
        if let Ok((written, ids)) = tasks_outcome(tasks, n) {
            let (_, before) = tasks_outcome(tasks, n - 1)->Ok_0;
            let id = task_id(tasks[n - 1], n - 1)->0;
            assert(ids == before.push(id));
            assert forall|i: int, j: int| 0 <= i < j < ids.len() implies #[trigger] ids[i]
                != #[trigger] ids[j] by {
                if j == before.len() {
                    assert(before[i] == ids[i]);
                    assert(!before.contains(id));
                }
            }
        }
    }
}

/// A checklist that is sent keeps to what Telegram allows: 1 to 30 tasks, the
/// lengths of its texts, and no task that is already done.
pub proof fn law_accepted_checklists_are_valid(checklist: Checklist)
    requires
        input_checklist_outcome(checklist) is Ok,
    ensures
        1 <= checklist.tasks@.len() <= 30,
        1 <= checklist.title.text@.len() <= 255,
        tasks_valid(checklist.tasks@),
{
}

proof fn lemma_checklist_keys()
    ensures
        "title"@.len() == 5,
        "title_entities"@.len() == 14,
        "tasks"@.len() == 5,
        "others_can_add_tasks"@.len() == 20,
        "others_can_mark_tasks_as_done"@.len() == 29,
        "id"@.len() == 2,
        "text"@.len() == 4,
        "text_entities"@.len() == 13,
        "title"@ != "tasks"@,
{
    reveal_strlit("title");
    reveal_strlit("title_entities");
    reveal_strlit("tasks");
    reveal_strlit("others_can_add_tasks");
    reveal_strlit("others_can_mark_tasks_as_done");
    reveal_strlit("id");
    reveal_strlit("text");
    reveal_strlit("text_entities");
    assert("title"@[1] != "tasks"@[1]);
}

spec fn written_checklist(checklist: Checklist) -> Map<Seq<char>, JsonView> {
    let tasks = tasks_outcome(checklist.tasks@, checklist.tasks@.len() as int)->Ok_0.0;
    json::no_fields().insert("title"@, JsonView::Text(checklist.title.text@)).insert(
        "title_entities"@,
        JsonView::Array(rich_text::entities_outcome(checklist.title)->Ok_0),
    ).insert("tasks"@, JsonView::Array(tasks)).insert(
        "others_can_add_tasks"@,
        JsonView::Bool(checklist.can_add_tasks),
    ).insert("others_can_mark_tasks_as_done"@, JsonView::Bool(checklist.can_mark_tasks_done))
}

proof fn lemma_checklist_member(checklist: Checklist, key: Seq<char>)
    requires
        input_checklist_outcome(checklist) is Ok,
    ensures
        input_checklist_outcome(checklist)->Ok_0 is Object,
        json::member(written_checklist(checklist), key) matches Some(value) ==> json::member(
            input_checklist_outcome(checklist)->Ok_0->Object_0,
            key,
        ) == if value is Null {
            None
        } else {
            Some(json::stripped(value))
        },
{
    let own = written_checklist(checklist);
    let all = match checklist.platform_data {
        None => own,
        Some(native) => native::merged(
            own,
            native::native_object_outcome(native, "checklist"@)->Ok_0,
            "Telegram checklist"@,
        )->Ok_0,
    };
    if let Some(native) = checklist.platform_data {
        native::lemma_merged_keeps(
            own,
            native::native_object_outcome(native, "checklist"@)->Ok_0,
            "Telegram checklist"@ + " duplicates field "@,
            key,
        );
    }
    json::lemma_stripped_member(all, key);
}

proof fn lemma_task_written(tasks: Seq<ChecklistTask>, n: int, i: int)
    requires
        tasks_outcome(tasks, n) is Ok,
        0 <= i < n <= tasks.len(),
    ensures
        tasks_outcome(tasks, n)->Ok_0.0.len() == n,
        task_id(tasks[i], i) matches Some(id) && task_outcome(tasks[i], id) == Ok::<
            JsonView,
            ErrorView,
        >(tasks_outcome(tasks, n)->Ok_0.0[i]),
    decreases n,
{
    reveal_with_fuel(tasks_outcome, 2);
    if i < n - 1 {
        lemma_task_written(tasks, n - 1, i);
    } else if n > 1 {
        lemma_task_written(tasks, n - 1, n - 2);
    }
}

/// A checklist is written with its title and with what others may do to it:
/// whether they may add tasks and whether they may mark tasks as done, each
/// under its own name. Its tasks follow in their order, each with its text and
/// its number: the one that it was given, or else its place, counted from one.
pub proof fn law_checklists_are_written_as_they_are(checklist: Checklist, i: int)
    requires
        input_checklist_outcome(checklist) is Ok,
        0 <= i < checklist.tasks@.len(),
    ensures
        input_checklist_outcome(checklist) matches Ok(JsonView::Object(written)) && json::text_in(
            written,
            "title"@,
        ) == Some(checklist.title.text@) && json::bool_in(written, "others_can_add_tasks"@) == Some(
            checklist.can_add_tasks,
        ) && json::bool_in(written, "others_can_mark_tasks_as_done"@) == Some(
            checklist.can_mark_tasks_done,
        ) && (json::array_in(written, "tasks"@) matches Some(tasks) && tasks.len()
            == checklist.tasks@.len() && (tasks[i] matches JsonView::Object(task) && json::text_in(
            task,
            "text"@,
        ) == Some(checklist.tasks@[i].text.text@) && (checklist.tasks@[i].id is None
            ==> json::member(task, "id"@) == Some(JsonView::Integer(i + 1))) && (
        checklist.tasks@[i].id matches Some(id) ==> (text::i64_value(id@) matches Some(number)
            && json::i64_in(task, "id"@) == Some(number))))),
{
    lemma_checklist_keys();
    lemma_checklist_member(checklist, "title"@);
    lemma_checklist_member(checklist, "title_entities"@);
    lemma_checklist_member(checklist, "tasks"@);
    lemma_checklist_member(checklist, "others_can_add_tasks"@);
    lemma_checklist_member(checklist, "others_can_mark_tasks_as_done"@);
    let tasks = checklist.tasks@;
    lemma_task_written(tasks, tasks.len() as int, i);
    let written = tasks_outcome(tasks, tasks.len() as int)->Ok_0.0;
    json::lemma_stripped_item(written, i);
    let task = tasks[i];
    let own = json::no_fields().insert("id"@, JsonView::Integer(task_id(task, i)->0)).insert(
        "text"@,
        JsonView::Text(task.text.text@),
    ).insert("text_entities"@, JsonView::Array(rich_text::entities_outcome(task.text)->Ok_0));
    if let Some(native) = task.platform_data {
        let extra = native::native_object_outcome(native, "checklist task"@)->Ok_0;
        let complaint = "Telegram checklist task"@ + " duplicates field "@;
        native::lemma_merged_keeps(own, extra, complaint, "id"@);
        native::lemma_merged_keeps(own, extra, complaint, "text"@);
    }
    json::lemma_stripped_member(written[i]->Object_0, "id"@);
    json::lemma_stripped_member(written[i]->Object_0, "text"@);
}

/// A checklist is sent whole, by the method for checklists.
pub proof fn law_checklists_are_sent(payload: Map<Seq<char>, JsonView>, checklist: Checklist)
    requires
        send_checklist_outcome(payload, checklist) is Ok,
    ensures
        ({
            let call = send_checklist_outcome(payload, checklist)->Ok_0;
            &&& call.method == "sendChecklist"@
            &&& input_checklist_outcome(checklist) matches Ok(value)
            &&& json::member(call.payload, "checklist"@) == Some(json::stripped(value))
        }),
{
    let value = input_checklist_outcome(checklist)->Ok_0;
    lemma_checklist_member(checklist, "title"@);
    let all = native::added(payload, "checklist"@, value, "message content"@)->Ok_0;
    request::lemma_call_member("sendChecklist"@, all, "checklist"@);
}

/// A checklist that keeps to the limits is accepted: one to thirty tasks of at
/// most a hundred characters that are not done yet, and a title of at most two
/// hundred and fifty-five.
pub proof fn law_checklists_within_the_limits_are_accepted(checklist: Checklist)
    requires
        1 <= checklist.tasks@.len() <= 30,
        1 <= checklist.title.text@.len() <= 255,
        checklist.title.spans@.len() == 0,
        forall|i: int|
            0 <= i < checklist.tasks@.len() ==> {
                let task = #[trigger] checklist.tasks@[i];
                &&& 1 <= task.text.text@.len() <= 100
                &&& task.text.spans@.len() == 0
                &&& !task.completed
                &&& task.completed_by is None
                &&& task.completed_at is None
                &&& task.id is None
                &&& task.platform_data is None
            },
        checklist.platform_data is None,
    ensures
        input_checklist_outcome(checklist) is Ok,
{
    assert(tasks_valid(checklist.tasks@));
    lemma_tasks_accepted(checklist.tasks@, checklist.tasks@.len() as int);
}

proof fn lemma_tasks_accepted(tasks: Seq<ChecklistTask>, n: int)
    requires
        0 <= n <= tasks.len(),
        forall|i: int|
            0 <= i < tasks.len() ==> (#[trigger] tasks[i]).text.spans@.len() == 0
                && tasks[i].id is None && tasks[i].platform_data is None,
    ensures
        tasks_outcome(tasks, n) matches Ok((written, ids)) && ids.len() == n && forall|i: int|
            0 <= i < n ==> #[trigger] ids[i] == i + 1,
    decreases n,
{
    if n > 0 {
        lemma_tasks_accepted(tasks, n - 1);
        assert(tasks[n - 1].id is None);
        let ids = tasks_outcome(tasks, n - 1)->Ok_0.1;
        assert(!ids.contains(n));
        assert(task_outcome(tasks[n - 1], n) is Ok);
    }
}

} // verus!
