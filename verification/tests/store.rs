use andromeda::model::{MapData, Position, Task};
use andromeda::store::{default_maps, default_tasks, maps_from_parse, tasks_from_parse};

#[test]
fn seed_collection_holds_the_sample_map() {
    let maps = default_maps();
    assert_eq!(maps.len(), 1);
    let m = &maps[0];
    assert_eq!(m.id, "1");
    assert_eq!(m.name, "Getting Started");
    assert_eq!(m.nodes.len(), 2);
    assert_eq!(m.nodes[0].id, "node-1");
    assert_eq!(m.nodes[0].title, "Welcome to Idea Map!");
    assert_eq!(
        m.nodes[0].description,
        "This is your first node. You can edit it by clicking on it."
    );
    assert_eq!(m.nodes[0].position, Position { x: 100, y: 100 });
    assert!(m.nodes[0].links.is_empty());
    assert!(m.nodes[0].files.is_empty());
    assert_eq!(m.nodes[0].is_done, Some(false));
    assert_eq!(m.nodes[0].size.as_deref(), Some("100%"));
    assert_eq!(m.nodes[0].color.as_deref(), Some("#090f29"));
    assert_eq!(m.nodes[1].id, "node-2");
    assert_eq!(m.nodes[1].title, "Create Your Own Nodes");
    assert_eq!(
        m.nodes[1].description,
        "Add more nodes to build your map. Click \"Add Node\" to start."
    );
    assert_eq!(m.nodes[1].position, Position { x: 400, y: 250 });
    assert_eq!(m.nodes[1].is_done, Some(true));
    assert_eq!(m.connections.len(), 1);
    assert_eq!(m.connections[0].id, "conn-1");
    assert_eq!(m.connections[0].from, "node-1");
    assert_eq!(m.connections[0].to, "node-2");
}

#[test]
fn seed_task_collection_is_empty() {
    assert!(default_tasks().is_empty());
}

#[test]
fn malformed_documents_fall_back_to_empty_collections() {
    assert!(maps_from_parse(None).is_empty());
    assert!(tasks_from_parse(None).is_empty());
}

#[test]
fn parsed_documents_are_taken_as_they_are() {
    let m = MapData {
        id: "m1".to_string(),
        name: "First".to_string(),
        nodes: Vec::new(),
        connections: Vec::new(),
    };
    let m2 = MapData {
        id: "m2".to_string(),
        name: "Second".to_string(),
        nodes: Vec::new(),
        connections: Vec::new(),
    };
    let maps = maps_from_parse(Some(vec![m, m2]));
    assert_eq!(maps.len(), 2);
    assert_eq!(maps[0].id, "m1");
    assert_eq!(maps[1].id, "m2");
    let t = Task {
        id: "t1".to_string(),
        title: "one".to_string(),
        description: Some("desc".to_string()),
        due_date: Some("2024-01-31".to_string()),
        is_completed: true,
        is_undated: false,
        importance: None,
    };
    let tasks = tasks_from_parse(Some(vec![t]));
    assert_eq!(tasks.len(), 1);
    assert_eq!(tasks[0].id, "t1");
    assert_eq!(tasks[0].due_date.as_deref(), Some("2024-01-31"));
    assert!(tasks[0].is_completed);
}
