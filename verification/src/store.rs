//! The document store's in-memory side: the seed content written on first
//! run and the handling of a parsed (or unparseable) document.
//!
//! Reading the two JSON files and turning their text into collections is the
//! surrounding application's work; it hands this module the outcome of the
//! parse, and this module decides what collection the load yields.

use vstd::prelude::*;

use crate::model::{
    Connection, ConnectionView, FileDataView, MapData, MapDataView, Node, NodeView, Position,
    Task, TaskView,
};

verus! {

/// The seed collection written on first run: one sample map with two nodes
/// joined by one connection.
pub open spec fn seed_maps() -> Seq<MapDataView> {
    seq![
        MapDataView {
            id: "1"@,
            name: "Getting Started"@,
            nodes: seq![
                NodeView {
                    id: "node-1"@,
                    position: Position { x: 100, y: 100 },
                    title: "Welcome to Idea Map!"@,
                    description: "This is your first node. You can edit it by clicking on it."@,
                    links: Seq::<Seq<char>>::empty(),
                    files: Seq::<FileDataView>::empty(),
                    is_done: Some(false),
                    size: Some("100%"@),
                    color: Some("#090f29"@),
                },
                NodeView {
                    id: "node-2"@,
                    position: Position { x: 400, y: 250 },
                    title: "Create Your Own Nodes"@,
                    description: "Add more nodes to build your map. Click \"Add Node\" to start."@,
                    links: Seq::<Seq<char>>::empty(),
                    files: Seq::<FileDataView>::empty(),
                    is_done: Some(true),
                    size: Some("100%"@),
                    color: Some("#090f29"@),
                },
            ],
            connections: seq![
                ConnectionView { id: "conn-1"@, from: "node-1"@, to: "node-2"@ },
            ],
        },
    ]
}

/// The map collection a fresh application-data directory starts with.
pub fn default_maps() -> (r: Vec<MapData>)
    ensures
        r.deep_view() == seed_maps(),
{
    let mut nodes: Vec<Node> = Vec::new();
    nodes.push(
        Node {
            id: "node-1".to_string(),
            position: Position { x: 100, y: 100 },
            title: "Welcome to Idea Map!".to_string(),
            description: "This is your first node. You can edit it by clicking on it."
                .to_string(),
            links: Vec::new(),
            files: Vec::new(),
            is_done: Some(false),
            size: Some("100%".to_string()),
            color: Some("#090f29".to_string()),
        },
    );
    nodes.push(
        Node {
            id: "node-2".to_string(),
            position: Position { x: 400, y: 250 },
            title: "Create Your Own Nodes".to_string(),
            description: "Add more nodes to build your map. Click \"Add Node\" to start."
                .to_string(),
            links: Vec::new(),
            files: Vec::new(),
            is_done: Some(true),
            size: Some("100%".to_string()),
            color: Some("#090f29".to_string()),
        },
    );
    let mut connections: Vec<Connection> = Vec::new();
    connections.push(
        Connection {
            id: "conn-1".to_string(),
            from: "node-1".to_string(),
            to: "node-2".to_string(),
        },
    );
    let mut r: Vec<MapData> = Vec::new();
    r.push(MapData { id: "1".to_string(), name: "Getting Started".to_string(), nodes, connections });
    proof {
        assert(r.deep_view() =~~= seed_maps());
    }
    r
}

/// The task collection a fresh application-data directory starts with.
pub fn default_tasks() -> (r: Vec<Task>)
    ensures
        r.deep_view() == Seq::<TaskView>::empty(),
{
    let r: Vec<Task> = Vec::new();
    proof {
        assert(r.deep_view() =~= Seq::<TaskView>::empty());
    }
    r
}

/// The collection a load of the maps document yields once the file exists
/// and has been read: the parsed collection where parsing succeeded, and
/// silently the empty collection where the document was malformed.
pub fn maps_from_parse(parsed: Option<Vec<MapData>>) -> (r: Vec<MapData>)
    ensures
        parsed matches Some(v) ==> r.deep_view() == v.deep_view(),
        parsed is None ==> r.deep_view() == Seq::<MapDataView>::empty(),
{
    match parsed {
        Some(v) => v,
        None => {
            let r: Vec<MapData> = Vec::new();
            proof {
                assert(r.deep_view() =~= Seq::<MapDataView>::empty());
            }
            r
        },
    }
}

/// The collection a load of the task document yields once the file exists
/// and has been read: the parsed collection where parsing succeeded, and
/// silently the empty collection where the document was malformed.
pub fn tasks_from_parse(parsed: Option<Vec<Task>>) -> (r: Vec<Task>)
    ensures
        parsed matches Some(v) ==> r.deep_view() == v.deep_view(),
        parsed is None ==> r.deep_view() == Seq::<TaskView>::empty(),
{
    match parsed {
        Some(v) => v,
        None => {
            let r: Vec<Task> = Vec::new();
            proof {
                assert(r.deep_view() =~= Seq::<TaskView>::empty());
            }
            r
        },
    }
}

} // verus!
