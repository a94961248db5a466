use andromeda::model::{AppData, Connection, MapData, NewTask, Node, Position, Task};
use andromeda::ops::OpError;

fn empty_state() -> AppData {
    AppData::new(Vec::new(), Vec::new())
}

fn plain_task(id: &str, title: &str) -> Task {
    Task {
        id: id.to_string(),
        title: title.to_string(),
        description: None,
        due_date: None,
        is_completed: false,
        is_undated: false,
        importance: None,
    }
}

fn plain_node(id: &str, title: &str) -> Node {
    Node {
        id: id.to_string(),
        position: Position { x: 10, y: 20 },
        title: title.to_string(),
        description: "d".to_string(),
        links: Vec::new(),
        files: Vec::new(),
        is_done: Some(false),
        size: None,
        color: None,
    }
}

#[test]
fn created_map_is_empty_and_listed() {
    let mut st = empty_state();
    let m = st.create_map("Trips".to_string());
    assert_eq!(m.name, "Trips");
    assert!(m.nodes.is_empty());
    assert!(m.connections.is_empty());
    assert_eq!(m.id.chars().count(), 36);
    let maps = st.get_maps();
    assert_eq!(maps.len(), 1);
    assert_eq!(maps[0].id, m.id);
    assert_eq!(maps[0].name, "Trips");
}

#[test]
fn created_ids_differ() {
    let mut st = empty_state();
    let a = st.create_map("A".to_string());
    let b = st.create_map("B".to_string());
    assert_ne!(a.id, b.id);
    assert_eq!(st.get_maps().len(), 2);
}

#[test]
fn get_map_finds_by_id() {
    let mut st = empty_state();
    let a = st.create_map("A".to_string());
    let b = st.create_map("B".to_string());
    let got = st.get_map(b.id.clone()).expect("map should be found");
    assert_eq!(got.id, b.id);
    assert_eq!(got.name, "B");
    assert!(st.get_map("absent".to_string()).is_none());
    let _ = a;
}

#[test]
fn update_missing_map_fails_and_changes_nothing() {
    let mut st = empty_state();
    let m = st.create_map("A".to_string());
    let r = st.update_map("absent".to_string(), Vec::new(), Vec::new());
    assert!(matches!(r, Err(OpError::MapNotFound)));
    let maps = st.get_maps();
    assert_eq!(maps.len(), 1);
    assert_eq!(maps[0].id, m.id);
    assert_eq!(maps[0].name, "A");
}

#[test]
fn update_map_replaces_contents() {
    let mut st = empty_state();
    let m = st.create_map("A".to_string());
    let node = plain_node("n1", "First");
    let conn = Connection {
        id: "c1".to_string(),
        from: "n1".to_string(),
        to: "n1".to_string(),
    };
    let r = st.update_map(m.id.clone(), vec![node], vec![conn]);
    assert!(r.is_ok());
    let got = st.get_map(m.id.clone()).expect("map should be found");
    assert_eq!(got.name, "A");
    assert_eq!(got.nodes.len(), 1);
    assert_eq!(got.nodes[0].id, "n1");
    assert_eq!(got.nodes[0].title, "First");
    assert_eq!(got.connections.len(), 1);
    assert_eq!(got.connections[0].id, "c1");
}

#[test]
fn delete_missing_map_is_noop_success() {
    let mut st = empty_state();
    st.create_map("A".to_string());
    let r = st.delete_map("absent".to_string());
    assert!(r.is_ok());
    assert_eq!(st.get_maps().len(), 1);
}

#[test]
fn delete_map_removes_it() {
    let mut st = empty_state();
    let a = st.create_map("A".to_string());
    let b = st.create_map("B".to_string());
    let r = st.delete_map(a.id.clone());
    assert!(r.is_ok());
    let maps = st.get_maps();
    assert_eq!(maps.len(), 1);
    assert_eq!(maps[0].id, b.id);
}

#[test]
fn rename_then_get_keeps_other_fields() {
    let mut st = empty_state();
    let m = st.create_map("Old".to_string());
    let node = plain_node("n1", "First");
    st.update_map(m.id.clone(), vec![node], Vec::new())
        .expect("update should succeed");
    let renamed = st
        .rename_map(m.id.clone(), "Foo".to_string())
        .expect("rename should succeed");
    assert_eq!(renamed.name, "Foo");
    assert_eq!(renamed.id, m.id);
    let got = st.get_map(m.id.clone()).expect("map should be found");
    assert_eq!(got.name, "Foo");
    assert_eq!(got.id, m.id);
    assert_eq!(got.nodes.len(), 1);
    assert_eq!(got.nodes[0].id, "n1");
    assert_eq!(got.nodes[0].title, "First");
    assert!(got.connections.is_empty());
}

#[test]
fn rename_missing_map_fails() {
    let mut st = empty_state();
    let r = st.rename_map("absent".to_string(), "Foo".to_string());
    assert!(matches!(r, Err(OpError::MapNotFound)));
}

#[test]
fn save_tasks_replaces_collection_wholesale() {
    let mut st = empty_state();
    st.add_calendar_event_command(NewTask {
        title: "before".to_string(),
        description: None,
        due_date: None,
        is_completed: false,
        is_undated: false,
        importance: None,
    });
    let r = st.save_tasks_command(vec![plain_task("t1", "one"), plain_task("t2", "two")]);
    assert!(r.is_ok());
    let tasks = st.get_tasks_command();
    assert_eq!(tasks.len(), 2);
    assert_eq!(tasks[0].id, "t1");
    assert_eq!(tasks[1].id, "t2");
}

#[test]
fn get_all_events_is_alias_of_get_tasks() {
    let mut st = empty_state();
    st.save_tasks_command(vec![plain_task("t1", "one")])
        .expect("save should succeed");
    let a = st.get_tasks_command();
    let b = st.get_all_calendar_events_command();
    assert_eq!(a.len(), b.len());
    assert_eq!(a[0].id, b[0].id);
    assert_eq!(a[0].title, b[0].title);
}

#[test]
fn add_event_assigns_id_and_appends() {
    let mut st = empty_state();
    let t = st.add_calendar_event_command(NewTask {
        title: "Pay rent".to_string(),
        description: None,
        due_date: None,
        is_completed: false,
        is_undated: false,
        importance: None,
    });
    assert_eq!(t.title, "Pay rent");
    assert_eq!(t.id.chars().count(), 36);
    assert!(!t.is_completed);
    assert!(!t.is_undated);
    let tasks = st.get_tasks_command();
    assert_eq!(tasks.len(), 1);
    assert_eq!(tasks[0].id, t.id);
    assert_eq!(tasks[0].title, "Pay rent");
}

#[test]
fn update_event_replaces_matching_task() {
    let mut st = empty_state();
    st.save_tasks_command(vec![plain_task("t1", "one"), plain_task("t2", "two")])
        .expect("save should succeed");
    let mut changed = plain_task("t2", "two changed");
    changed.is_completed = true;
    let r = st
        .update_calendar_event_command(changed)
        .expect("update should succeed");
    assert_eq!(r.id, "t2");
    assert_eq!(r.title, "two changed");
    let tasks = st.get_tasks_command();
    assert_eq!(tasks.len(), 2);
    assert_eq!(tasks[0].title, "one");
    assert_eq!(tasks[1].title, "two changed");
    assert!(tasks[1].is_completed);
}

#[test]
fn update_missing_event_fails() {
    let mut st = empty_state();
    let r = st.update_calendar_event_command(plain_task("absent", "x"));
    assert!(matches!(r, Err(OpError::EventNotFound)));
    assert!(st.get_tasks_command().is_empty());
}

#[test]
fn delete_event_reports_presence_and_shrinks_by_one() {
    let mut st = empty_state();
    st.save_tasks_command(vec![plain_task("t1", "one"), plain_task("t2", "two")])
        .expect("save should succeed");
    let removed = st.delete_calendar_event_command("t1".to_string());
    assert!(removed);
    assert_eq!(st.get_tasks_command().len(), 1);
    assert_eq!(st.get_tasks_command()[0].id, "t2");
    let removed_again = st.delete_calendar_event_command("t1".to_string());
    assert!(!removed_again);
    assert_eq!(st.get_tasks_command().len(), 1);
}

#[test]
fn error_messages_match_the_request_surface() {
    assert_eq!(OpError::MapNotFound.message(), "Map not found");
    assert_eq!(OpError::EventNotFound.message(), "Event not found");
}

#[test]
fn operations_leave_the_other_collection_alone() {
    let mut st = empty_state();
    let m = st.create_map("A".to_string());
    st.save_tasks_command(vec![plain_task("t1", "one")])
        .expect("save should succeed");
    st.delete_map(m.id.clone()).expect("delete should succeed");
    assert_eq!(st.get_tasks_command().len(), 1);
    st.delete_calendar_event_command("t1".to_string());
    assert!(st.get_maps().is_empty());
    let _ = MapData {
        id: "m".to_string(),
        name: "n".to_string(),
        nodes: Vec::new(),
        connections: Vec::new(),
    };
}
