//! The persisted data model: maps made of nodes and connections, embedded
//! file blobs, calendar tasks, and the aggregate application state.
//!
//! Each executable type has a ghost counterpart over `Seq` values, reached
//! through `deep_view`; the operation contracts speak of those views.

use vstd::prelude::*;

verus! {

/// A node's placement on the canvas.
#[derive(Debug, Clone, Copy, PartialEq, Eq, Structural)]
pub struct Position {
    pub x: i64,
    pub y: i64,
}

/// A file blob attached to a node; `content` holds the bytes base64-encoded.
#[derive(Debug)]
pub struct FileData {
    pub id: String,
    pub name: String,
    pub original_name: String,
    pub size: u64,
    pub file_type: String,
    pub content: String,
}

#[verifier::ext_equal]
pub ghost struct FileDataView {
    pub id: Seq<char>,
    pub name: Seq<char>,
    pub original_name: Seq<char>,
    pub size: u64,
    pub file_type: Seq<char>,
    pub content: Seq<char>,
}

impl DeepView for FileData {
    type V = FileDataView;

    open spec fn deep_view(&self) -> FileDataView {
        FileDataView {
            id: self.id.deep_view(),
            name: self.name.deep_view(),
            original_name: self.original_name.deep_view(),
            size: self.size,
            file_type: self.file_type.deep_view(),
            content: self.content.deep_view(),
        }
    }
}

impl Clone for FileData {
    fn clone(&self) -> (res: Self)
        ensures
            res.deep_view() == self.deep_view(),
    {
        FileData {
            id: self.id.clone(),
            name: self.name.clone(),
            original_name: self.original_name.clone(),
            size: self.size,
            file_type: self.file_type.clone(),
            content: self.content.clone(),
        }
    }
}

/// One node of a map. `links` hold ids of other nodes in the same map; they
/// are weak references and may dangle.
#[derive(Debug)]
pub struct Node {
    pub id: String,
    pub position: Position,
    pub title: String,
    pub description: String,
    pub links: Vec<String>,
    pub files: Vec<FileData>,
    pub is_done: Option<bool>,
    pub size: Option<String>,
    pub color: Option<String>,
}

#[verifier::ext_equal]
pub ghost struct NodeView {
    pub id: Seq<char>,
    pub position: Position,
    pub title: Seq<char>,
    pub description: Seq<char>,
    pub links: Seq<Seq<char>>,
    pub files: Seq<FileDataView>,
    pub is_done: Option<bool>,
    pub size: Option<Seq<char>>,
    pub color: Option<Seq<char>>,
}

impl DeepView for Node {
    type V = NodeView;

    open spec fn deep_view(&self) -> NodeView {
        NodeView {
            id: self.id.deep_view(),
            position: self.position,
            title: self.title.deep_view(),
            description: self.description.deep_view(),
            links: self.links.deep_view(),
            files: self.files.deep_view(),
            is_done: self.is_done,
            size: self.size.deep_view(),
            color: self.color.deep_view(),
        }
    }
}

fn clone_opt_string(s: &Option<String>) -> (res: Option<String>)
    ensures
        res.deep_view() == s.deep_view(),
{
    match s {
        Some(v) => Some(v.clone()),
        None => None,
    }
}

impl Clone for Node {
    fn clone(&self) -> (res: Self)
        ensures
            res.deep_view() == self.deep_view(),
    {
        let res = Node {
            id: self.id.clone(),
            position: self.position,
            title: self.title.clone(),
            description: self.description.clone(),
            links: self.links.clone(),
            files: self.files.clone(),
            is_done: self.is_done,
            size: clone_opt_string(&self.size),
            color: clone_opt_string(&self.color),
        };
        proof {
            assert(res.links.deep_view() =~= self.links.deep_view());
            assert(res.files.deep_view() =~= self.files.deep_view());
            assert(res.deep_view() =~~= self.deep_view());
        }
        res
    }
}

/// A directed edge between two nodes, referenced by id; endpoints are not
/// checked for existence.
#[derive(Debug)]
pub struct Connection {
    pub id: String,
    pub from: String,
    pub to: String,
}

#[verifier::ext_equal]
pub ghost struct ConnectionView {
    pub id: Seq<char>,
    pub from: Seq<char>,
    pub to: Seq<char>,
}

impl DeepView for Connection {
    type V = ConnectionView;

    open spec fn deep_view(&self) -> ConnectionView {
        ConnectionView {
            id: self.id.deep_view(),
            from: self.from.deep_view(),
            to: self.to.deep_view(),
        }
    }
}

impl Clone for Connection {
    fn clone(&self) -> (res: Self)
        ensures
            res.deep_view() == self.deep_view(),
    {
        Connection { id: self.id.clone(), from: self.from.clone(), to: self.to.clone() }
    }
}

/// One mind map: a named graph of nodes and connections, identified by `id`.
#[derive(Debug)]
pub struct MapData {
    pub id: String,
    pub name: String,
    pub nodes: Vec<Node>,
    pub connections: Vec<Connection>,
}

#[verifier::ext_equal]
pub ghost struct MapDataView {
    pub id: Seq<char>,
    pub name: Seq<char>,
    pub nodes: Seq<NodeView>,
    pub connections: Seq<ConnectionView>,
}

impl DeepView for MapData {
    type V = MapDataView;

    open spec fn deep_view(&self) -> MapDataView {
        MapDataView {
            id: self.id.deep_view(),
            name: self.name.deep_view(),
            nodes: self.nodes.deep_view(),
            connections: self.connections.deep_view(),
        }
    }
}

impl Clone for MapData {
    fn clone(&self) -> (res: Self)
        ensures
            res.deep_view() == self.deep_view(),
    {
        let res = MapData {
            id: self.id.clone(),
            name: self.name.clone(),
            nodes: self.nodes.clone(),
            connections: self.connections.clone(),
        };
        proof {
            assert(res.nodes.deep_view() =~= self.nodes.deep_view());
            assert(res.connections.deep_view() =~= self.connections.deep_view());
            assert(res.deep_view() =~~= self.deep_view());
        }
        res
    }
}

/// One calendar task, identified by `id`.
#[derive(Debug)]
pub struct Task {
    pub id: String,
    pub title: String,
    pub description: Option<String>,
    pub due_date: Option<String>,
    pub is_completed: bool,
    pub is_undated: bool,
    pub importance: Option<String>,
}

#[verifier::ext_equal]
pub ghost struct TaskView {
    pub id: Seq<char>,
    pub title: Seq<char>,
    pub description: Option<Seq<char>>,
    pub due_date: Option<Seq<char>>,
    pub is_completed: bool,
    pub is_undated: bool,
    pub importance: Option<Seq<char>>,
}

impl DeepView for Task {
    type V = TaskView;

    open spec fn deep_view(&self) -> TaskView {
        TaskView {
            id: self.id.deep_view(),
            title: self.title.deep_view(),
            description: self.description.deep_view(),
            due_date: self.due_date.deep_view(),
            is_completed: self.is_completed,
            is_undated: self.is_undated,
            importance: self.importance.deep_view(),
        }
    }
}

impl Clone for Task {
    fn clone(&self) -> (res: Self)
        ensures
            res.deep_view() == self.deep_view(),
    {
        Task {
            id: self.id.clone(),
            title: self.title.clone(),
            description: clone_opt_string(&self.description),
            due_date: clone_opt_string(&self.due_date),
            is_completed: self.is_completed,
            is_undated: self.is_undated,
            importance: clone_opt_string(&self.importance),
        }
    }
}

/// The fields of a task to be created; the store assigns the id.
#[derive(Debug)]
pub struct NewTask {
    pub title: String,
    pub description: Option<String>,
    pub due_date: Option<String>,
    pub is_completed: bool,
    pub is_undated: bool,
    pub importance: Option<String>,
}

#[verifier::ext_equal]
pub ghost struct NewTaskView {
    pub title: Seq<char>,
    pub description: Option<Seq<char>>,
    pub due_date: Option<Seq<char>>,
    pub is_completed: bool,
    pub is_undated: bool,
    pub importance: Option<Seq<char>>,
}

impl DeepView for NewTask {
    type V = NewTaskView;

    open spec fn deep_view(&self) -> NewTaskView {
        NewTaskView {
            title: self.title.deep_view(),
            description: self.description.deep_view(),
            due_date: self.due_date.deep_view(),
            is_completed: self.is_completed,
            is_undated: self.is_undated,
            importance: self.importance.deep_view(),
        }
    }
}

/// The whole persisted application state: every map and every task.
#[derive(Debug)]
pub struct AppData {
    pub maps: Vec<MapData>,
    pub tasks: Vec<Task>,
}

impl AppData {
    /// The sequence of map views the state currently holds.
    pub open spec fn maps_view(self) -> Seq<MapDataView> {
        self.maps.deep_view()
    }

    /// The sequence of task views the state currently holds.
    pub open spec fn tasks_view(self) -> Seq<TaskView> {
        self.tasks.deep_view()
    }
}

} // verus!
