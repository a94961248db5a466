//! The request operations of the application: create, read, update, delete
//! for maps and for calendar tasks, over the in-memory [`AppData`] state.
//!
//! Every operation says over the views of [`crate::model`] exactly which
//! collection it changes and how; the surrounding application persists the
//! affected document after each mutation.

use vstd::pervasive::VecAdditionalExecFns;
use vstd::prelude::*;

use crate::ids::fresh_uuid_string;
use crate::model::{
    AppData, Connection, ConnectionView, MapData, MapDataView, NewTask, NewTaskView, Node,
    NodeView, Task, TaskView,
};

verus! {

/// An id-keyed lookup that found nothing; surfaced to the caller as a
/// request-level error message.
#[derive(Debug, Clone, Copy, PartialEq, Eq, Structural)]
pub enum OpError {
    MapNotFound,
    EventNotFound,
}

impl OpError {
    /// The message the front end receives for this error.
    pub fn message(&self) -> (r: String)
        ensures
            *self == OpError::MapNotFound ==> r@ == "Map not found"@,
            *self == OpError::EventNotFound ==> r@ == "Event not found"@,
    {
        match self {
            OpError::MapNotFound => "Map not found".to_string(),
            OpError::EventNotFound => "Event not found".to_string(),
        }
    }
}

/// Some map in `maps` carries the id `id`.
pub open spec fn has_map_with_id(maps: Seq<MapDataView>, id: Seq<char>) -> bool {
    exists|i: int| 0 <= i < maps.len() && (#[trigger] maps[i]).id == id
}

/// `i` is the position of the first map in `maps` carrying the id `id`.
pub open spec fn is_first_map_with_id(maps: Seq<MapDataView>, id: Seq<char>, i: int) -> bool {
    &&& 0 <= i < maps.len()
    &&& maps[i].id == id
    &&& forall|j: int| 0 <= j < i ==> (#[trigger] maps[j]).id != id
}

/// Some task in `tasks` carries the id `id`.
pub open spec fn has_task_with_id(tasks: Seq<TaskView>, id: Seq<char>) -> bool {
    exists|i: int| 0 <= i < tasks.len() && (#[trigger] tasks[i]).id == id
}

/// `i` is the position of the first task in `tasks` carrying the id `id`.
pub open spec fn is_first_task_with_id(tasks: Seq<TaskView>, id: Seq<char>, i: int) -> bool {
    &&& 0 <= i < tasks.len()
    &&& tasks[i].id == id
    &&& forall|j: int| 0 <= j < i ==> (#[trigger] tasks[j]).id != id
}

/// `maps` with every map carrying the id `id` removed, order kept.
pub open spec fn maps_without_id(maps: Seq<MapDataView>, id: Seq<char>) -> Seq<MapDataView>
    decreases maps.len(),
{
    if maps.len() == 0 {
        Seq::empty()
    } else {
        let rest = maps_without_id(maps.drop_last(), id);
        if maps.last().id == id {
            rest
        } else {
            rest.push(maps.last())
        }
    }
}

/// `tasks` with every task carrying the id `id` removed, order kept.
pub open spec fn tasks_without_id(tasks: Seq<TaskView>, id: Seq<char>) -> Seq<TaskView>
    decreases tasks.len(),
{
    if tasks.len() == 0 {
        Seq::empty()
    } else {
        let rest = tasks_without_id(tasks.drop_last(), id);
        if tasks.last().id == id {
            rest
        } else {
            rest.push(tasks.last())
        }
    }
}

/// `m` with its nodes and connections replaced and everything else kept.
pub open spec fn with_contents(
    m: MapDataView,
    nodes: Seq<NodeView>,
    connections: Seq<ConnectionView>,
) -> MapDataView {
    MapDataView { id: m.id, name: m.name, nodes, connections }
}

/// `m` with its name replaced and everything else kept.
pub open spec fn with_name(m: MapDataView, name: Seq<char>) -> MapDataView {
    MapDataView { id: m.id, name, nodes: m.nodes, connections: m.connections }
}

/// The task that adopting the fields of `e` under the id `id` yields.
pub open spec fn task_from_new(id: Seq<char>, e: NewTaskView) -> TaskView {
    TaskView {
        id,
        title: e.title,
        description: e.description,
        due_date: e.due_date,
        is_completed: e.is_completed,
        is_undated: e.is_undated,
        importance: e.importance,
    }
}

fn find_map_index(maps: &Vec<MapData>, id: &String) -> (r: Option<usize>)
    ensures
        match r {
            Some(i) => is_first_map_with_id(maps.deep_view(), id@, i as int),
            None => !has_map_with_id(maps.deep_view(), id@),
        },
{
    let mut i: usize = 0;
    while i < maps.len()
        invariant
            i <= maps.len(),
            forall|j: int| 0 <= j < i ==> (#[trigger] maps.deep_view()[j]).id != id@,
        decreases maps.len() - i,
    {
        if maps[i].id == *id {
            return Some(i);
        }
        i += 1;
    }
    None
}

fn find_task_index(tasks: &Vec<Task>, id: &String) -> (r: Option<usize>)
    ensures
        match r {
            Some(i) => is_first_task_with_id(tasks.deep_view(), id@, i as int),
            None => !has_task_with_id(tasks.deep_view(), id@),
        },
{
    let mut i: usize = 0;
    while i < tasks.len()
        invariant
            i <= tasks.len(),
            forall|j: int| 0 <= j < i ==> (#[trigger] tasks.deep_view()[j]).id != id@,
        decreases tasks.len() - i,
    {
        if tasks[i].id == *id {
            return Some(i);
        }
        i += 1;
    }
    None
}

impl AppData {
    /// A state holding the given collections, as read from the documents.
    pub fn new(maps: Vec<MapData>, tasks: Vec<Task>) -> (r: AppData)
        ensures
            r.maps_view() == maps.deep_view(),
            r.tasks_view() == tasks.deep_view(),
    {
        AppData { maps, tasks }
    }

    /// All maps, in storage order.
    pub fn get_maps(&self) -> (r: Vec<MapData>)
        ensures
            r.deep_view() == self.maps_view(),
    {
        let r = self.maps.clone();
        proof {
            assert(r.deep_view() =~= self.maps.deep_view());
        }
        r
    }

    /// The first map carrying the id, or nothing.
    pub fn get_map(&self, id: String) -> (r: Option<MapData>)
        ensures
            r is Some <==> has_map_with_id(self.maps_view(), id@),
            r matches Some(m) ==> exists|i: int|
                #[trigger] is_first_map_with_id(self.maps_view(), id@, i) && m.deep_view()
                    == self.maps_view()[i],
    {
        match find_map_index(&self.maps, &id) {
            Some(i) => {
                let m = self.maps[i].clone();
                proof {
                    assert(is_first_map_with_id(self.maps_view(), id@, i as int));
                    assert(m.deep_view() == self.maps_view()[i as int]);
                }
                Some(m)
            },
            None => None,
        }
    }

    /// Appends a map with the given name, a freshly generated id, and no
    /// nodes or connections, and returns it.
    pub fn create_map(&mut self, name: String) -> (r: MapData)
        ensures
            r.deep_view().name == name@,
            r.deep_view().id.len() == 36,
            r.deep_view().nodes.len() == 0,
            r.deep_view().connections.len() == 0,
            final(self).maps_view() == old(self).maps_view().push(r.deep_view()),
            final(self).tasks_view() == old(self).tasks_view(),
    {
        let new_map = MapData {
            id: fresh_uuid_string(),
            name,
            nodes: Vec::new(),
            connections: Vec::new(),
        };
        let copy = new_map.clone();
        self.maps.push(copy);
        proof {
            assert(self.maps.deep_view() =~= old(self).maps.deep_view().push(
                new_map.deep_view(),
            ));
        }
        new_map
    }

    /// All tasks, in storage order.
    pub fn get_tasks_command(&self) -> (r: Vec<Task>)
        ensures
            r.deep_view() == self.tasks_view(),
    {
        let r = self.tasks.clone();
        proof {
            assert(r.deep_view() =~= self.tasks.deep_view());
        }
        r
    }

    /// All tasks, in storage order; the calendar's alias of
    /// [`AppData::get_tasks_command`].
    pub fn get_all_calendar_events_command(&self) -> (r: Vec<Task>)
        ensures
            r.deep_view() == self.tasks_view(),
    {
        self.get_tasks_command()
    }

    /// Replaces the task collection wholesale; never fails.
    pub fn save_tasks_command(&mut self, tasks: Vec<Task>) -> (r: Result<(), OpError>)
        ensures
            r is Ok,
            final(self).tasks_view() == tasks.deep_view(),
            final(self).maps_view() == old(self).maps_view(),
    {
        self.tasks = tasks;
        Ok(())
    }

    /// Replaces the nodes and connections of the first map carrying the id;
    /// fails, changing nothing, where no map carries it.
    pub fn update_map(
        &mut self,
        id: String,
        nodes: Vec<Node>,
        connections: Vec<Connection>,
    ) -> (r: Result<(), OpError>)
        ensures
            r is Ok <==> has_map_with_id(old(self).maps_view(), id@),
            match r {
                Ok(()) => exists|i: int|
                    #[trigger] is_first_map_with_id(old(self).maps_view(), id@, i) && final(self).maps_view() == old(self).maps_view().update(
                        i,
                        with_contents(
                            old(self).maps_view()[i],
                            nodes.deep_view(),
                            connections.deep_view(),
                        ),
                    ),
                Err(e) => e == OpError::MapNotFound && final(self).maps_view() == old(self).maps_view(),
            },
            final(self).tasks_view() == old(self).tasks_view(),
    {
        match find_map_index(&self.maps, &id) {
            Some(i) => {
                let m = self.maps.remove(i);
                let updated = MapData { id: m.id, name: m.name, nodes, connections };
                self.maps.insert(i, updated);
                proof {
                    assert(is_first_map_with_id(old(self).maps_view(), id@, i as int));
                    assert(self.maps.deep_view() =~= old(self).maps.deep_view().update(
                        i as int,
                        with_contents(
                            old(self).maps_view()[i as int],
                            nodes.deep_view(),
                            connections.deep_view(),
                        ),
                    ));
                }
                Ok(())
            },
            None => Err(OpError::MapNotFound),
        }
    }

    /// Removes every map carrying the id; removing an absent id succeeds and
    /// changes nothing.
    pub fn delete_map(&mut self, id: String) -> (r: Result<(), OpError>)
        ensures
            r is Ok,
            final(self).maps_view() == maps_without_id(old(self).maps_view(), id@),
            final(self).tasks_view() == old(self).tasks_view(),
    {
        let mut kept: Vec<MapData> = Vec::new();
        let mut i: usize = 0;
        while i < self.maps.len()
            invariant
                i <= self.maps.len(),
                kept.deep_view() == maps_without_id(
                    self.maps.deep_view().subrange(0, i as int),
                    id@,
                ),
            decreases self.maps.len() - i,
        {
            let ghost prefix = self.maps.deep_view().subrange(0, i as int);
            if self.maps[i].id == id {
            } else {
                kept.push(self.maps[i].clone());
            }
            proof {
                let prefix1 = self.maps.deep_view().subrange(0, i + 1);
                assert(prefix1.drop_last() =~= prefix);
                assert(prefix1.last() == self.maps.deep_view()[i as int]);
                assert(kept.deep_view() =~= maps_without_id(prefix1, id@));
            }
            i += 1;
        }
        proof {
            assert(self.maps.deep_view().subrange(0, self.maps@.len() as int) =~= self
                .maps
                .deep_view());
        }
        self.maps = kept;
        Ok(())
    }

    /// Gives the first map carrying the id the new name and returns the
    /// renamed map; fails, changing nothing, where no map carries it.
    pub fn rename_map(&mut self, id: String, new_name: String) -> (r: Result<MapData, OpError>)
        ensures
            r is Ok <==> has_map_with_id(old(self).maps_view(), id@),
            match r {
                Ok(m) => exists|i: int|
                    #[trigger] is_first_map_with_id(old(self).maps_view(), id@, i) && final(self).maps_view() == old(self).maps_view().update(
                        i,
                        with_name(old(self).maps_view()[i], new_name@),
                    ) && m.deep_view() == with_name(old(self).maps_view()[i], new_name@),
                Err(e) => e == OpError::MapNotFound && final(self).maps_view() == old(self).maps_view(),
            },
            final(self).tasks_view() == old(self).tasks_view(),
    {
        match find_map_index(&self.maps, &id) {
            Some(i) => {
                let m = self.maps.remove(i);
                let updated = MapData {
                    id: m.id,
                    name: new_name,
                    nodes: m.nodes,
                    connections: m.connections,
                };
                let ret = updated.clone();
                self.maps.insert(i, updated);
                proof {
                    assert(is_first_map_with_id(old(self).maps_view(), id@, i as int));
                    assert(self.maps.deep_view() =~= old(self).maps.deep_view().update(
                        i as int,
                        with_name(old(self).maps_view()[i as int], new_name@),
                    ));
                }
                Ok(ret)
            },
            None => Err(OpError::MapNotFound),
        }
    }

    /// Appends a task built from the given fields under a freshly generated
    /// id, and returns it.
    pub fn add_calendar_event_command(&mut self, event: NewTask) -> (r: Task)
        ensures
            r.deep_view() == task_from_new(r.deep_view().id, event.deep_view()),
            r.deep_view().id.len() == 36,
            final(self).tasks_view() == old(self).tasks_view().push(r.deep_view()),
            final(self).maps_view() == old(self).maps_view(),
    {
        let new_event = Task {
            id: fresh_uuid_string(),
            title: event.title,
            description: event.description,
            due_date: event.due_date,
            is_completed: event.is_completed,
            is_undated: event.is_undated,
            importance: event.importance,
        };
        let copy = new_event.clone();
        self.tasks.push(copy);
        proof {
            assert(self.tasks.deep_view() =~= old(self).tasks.deep_view().push(
                new_event.deep_view(),
            ));
        }
        new_event
    }

    /// Replaces the first task carrying the id of the given task by that
    /// task and returns it; fails, changing nothing, where no task carries
    /// it.
    pub fn update_calendar_event_command(&mut self, event: Task) -> (r: Result<Task, OpError>)
        ensures
            r is Ok <==> has_task_with_id(old(self).tasks_view(), event.deep_view().id),
            match r {
                Ok(t) => t.deep_view() == event.deep_view() && exists|i: int|
                    #[trigger] is_first_task_with_id(old(self).tasks_view(), event.deep_view().id, i)
                        && final(self).tasks_view() == old(self).tasks_view().update(
                        i,
                        event.deep_view(),
                    ),
                Err(e) => e == OpError::EventNotFound && final(self).tasks_view() == old(self).tasks_view(),
            },
            final(self).maps_view() == old(self).maps_view(),
    {
        match find_task_index(&self.tasks, &event.id) {
            Some(i) => {
                let ret = event.clone();
                proof {
                    assert(is_first_task_with_id(
                        old(self).tasks_view(),
                        event.deep_view().id,
                        i as int,
                    ));
                }
                self.tasks.set(i, event);
                proof {
                    assert(self.tasks.deep_view() =~= old(self).tasks.deep_view().update(
                        i as int,
                        event.deep_view(),
                    ));
                }
                Ok(ret)
            },
            None => Err(OpError::EventNotFound),
        }
    }

    /// Removes every task carrying the id and reports whether any task
    /// carried it before the call.
    pub fn delete_calendar_event_command(&mut self, id: String) -> (r: bool)
        ensures
            r == has_task_with_id(old(self).tasks_view(), id@),
            final(self).tasks_view() == tasks_without_id(old(self).tasks_view(), id@),
            final(self).maps_view() == old(self).maps_view(),
    {
        let existed = match find_task_index(&self.tasks, &id) {
            Some(i) => {
                proof {
                    assert(has_task_with_id(self.tasks_view(), id@));
                }
                true
            },
            None => false,
        };
        let mut kept: Vec<Task> = Vec::new();
        let mut i: usize = 0;
        while i < self.tasks.len()
            invariant
                i <= self.tasks.len(),
                kept.deep_view() == tasks_without_id(
                    self.tasks.deep_view().subrange(0, i as int),
                    id@,
                ),
            decreases self.tasks.len() - i,
        {
            let ghost prefix = self.tasks.deep_view().subrange(0, i as int);
            if self.tasks[i].id == id {
            } else {
                kept.push(self.tasks[i].clone());
            }
            proof {
                let prefix1 = self.tasks.deep_view().subrange(0, i + 1);
                assert(prefix1.drop_last() =~= prefix);
                assert(prefix1.last() == self.tasks.deep_view()[i as int]);
                assert(kept.deep_view() =~= tasks_without_id(prefix1, id@));
            }
            i += 1;
        }
        proof {
            assert(self.tasks.deep_view().subrange(0, self.tasks@.len() as int) =~= self
                .tasks
                .deep_view());
        }
        self.tasks = kept;
        existed
    }
}

} // verus!
