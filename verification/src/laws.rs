//! Laws the operations obey, stated over the views their contracts use.

use vstd::prelude::*;

use crate::model::{MapDataView, TaskView};
use crate::ops::{
    has_map_with_id, has_task_with_id, is_first_map_with_id, maps_without_id, tasks_without_id,
    with_name,
};

verus! {

/// All task ids in `tasks` are pairwise distinct.
pub open spec fn task_ids_unique(tasks: Seq<TaskView>) -> bool {
    forall|i: int, j: int|
        0 <= i < j < tasks.len() ==> (#[trigger] tasks[i]).id != (#[trigger] tasks[j]).id
}

/// A created map is immediately listed: appending a map view makes it the
/// last element of the collection a listing then yields, and its id finds it.
pub proof fn lemma_created_map_is_listed(maps: Seq<MapDataView>, m: MapDataView)
    ensures
        maps.push(m).len() == maps.len() + 1,
        maps.push(m)[maps.len() as int] == m,
        has_map_with_id(maps.push(m), m.id),
{
    assert(maps.push(m)[maps.len() as int] == m);
}

/// Deleting a map id that no map carries is a no-op: the collection comes
/// out unchanged.
pub proof fn lemma_maps_without_absent_id(maps: Seq<MapDataView>, id: Seq<char>)
    requires
        !has_map_with_id(maps, id),
    ensures
        maps_without_id(maps, id) == maps,
    decreases maps.len(),
{
    if maps.len() == 0 {
        assert(maps_without_id(maps, id) =~= maps);
    } else {
        if maps.last().id == id {
            assert(has_map_with_id(maps, id)) by {
                assert(maps[maps.len() - 1].id == id);
            }
        }
        assert(!has_map_with_id(maps.drop_last(), id)) by {
            if has_map_with_id(maps.drop_last(), id) {
                let i = choose|i: int|
                    0 <= i < maps.drop_last().len() && (#[trigger] maps.drop_last()[i]).id == id;
                assert(maps[i].id == id);
            }
        }
        lemma_maps_without_absent_id(maps.drop_last(), id);
        assert(maps_without_id(maps, id) =~= maps);
    }
}

/// Deleting a task id that no task carries is a no-op: the collection comes
/// out unchanged.
pub proof fn lemma_tasks_without_absent_id(tasks: Seq<TaskView>, id: Seq<char>)
    requires
        !has_task_with_id(tasks, id),
    ensures
        tasks_without_id(tasks, id) == tasks,
    decreases tasks.len(),
{
    if tasks.len() == 0 {
        assert(tasks_without_id(tasks, id) =~= tasks);
    } else {
        if tasks.last().id == id {
            assert(has_task_with_id(tasks, id)) by {
                assert(tasks[tasks.len() - 1].id == id);
            }
        }
        assert(!has_task_with_id(tasks.drop_last(), id)) by {
            if has_task_with_id(tasks.drop_last(), id) {
                let i = choose|i: int|
                    0 <= i < tasks.drop_last().len() && (#[trigger] tasks.drop_last()[i]).id
                        == id;
                assert(tasks[i].id == id);
            }
        }
        lemma_tasks_without_absent_id(tasks.drop_last(), id);
        assert(tasks_without_id(tasks, id) =~= tasks);
    }
}

/// Deleting a task id shrinks the collection by exactly one where some task
/// carries it and ids are unique, and leaves the collection unchanged where
/// none does.
pub proof fn lemma_delete_event_count(tasks: Seq<TaskView>, id: Seq<char>)
    requires
        task_ids_unique(tasks),
    ensures
        has_task_with_id(tasks, id) ==> tasks_without_id(tasks, id).len() == tasks.len() - 1,
        !has_task_with_id(tasks, id) ==> tasks_without_id(tasks, id) == tasks,
    decreases tasks.len(),
{
    if !has_task_with_id(tasks, id) {
        lemma_tasks_without_absent_id(tasks, id);
    } else {
        if tasks.last().id == id {
            assert(!has_task_with_id(tasks.drop_last(), id)) by {
                if has_task_with_id(tasks.drop_last(), id) {
                    let i = choose|i: int|
                        0 <= i < tasks.drop_last().len() && (#[trigger] tasks.drop_last()[i]).id
                            == id;
                    assert(tasks[i].id == tasks[tasks.len() - 1].id);
                }
            }
            lemma_tasks_without_absent_id(tasks.drop_last(), id);
        } else {
            assert(has_task_with_id(tasks.drop_last(), id)) by {
                let i = choose|i: int|
                    0 <= i < tasks.len() && (#[trigger] tasks[i]).id == id;
                assert(i != tasks.len() - 1);
                assert(tasks.drop_last()[i].id == id);
            }
            assert(task_ids_unique(tasks.drop_last())) by {
                assert forall|i: int, j: int|
                    0 <= i < j < tasks.drop_last().len() implies (#[trigger] tasks.drop_last()[i]).id
                    != (#[trigger] tasks.drop_last()[j]).id by {
                    assert(tasks.drop_last()[i] == tasks[i]);
                    assert(tasks.drop_last()[j] == tasks[j]);
                }
            }
            lemma_delete_event_count(tasks.drop_last(), id);
        }
    }
}

/// After a successful rename of the first map carrying `id`, the same
/// position is still the first carrying `id`, and the map there has the new
/// name and every other field as before.
pub proof fn lemma_rename_then_get(
    maps: Seq<MapDataView>,
    id: Seq<char>,
    name: Seq<char>,
    i: int,
)
    requires
        is_first_map_with_id(maps, id, i),
    ensures
        is_first_map_with_id(maps.update(i, with_name(maps[i], name)), id, i),
        maps.update(i, with_name(maps[i], name))[i].name == name,
        maps.update(i, with_name(maps[i], name))[i].id == maps[i].id,
        maps.update(i, with_name(maps[i], name))[i].nodes == maps[i].nodes,
        maps.update(i, with_name(maps[i], name))[i].connections == maps[i].connections,
{
}

} // verus!
