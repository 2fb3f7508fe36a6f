use std::collections::HashMap;
use taskchampion::storage::inmemory::InMemoryStorage;
use taskchampion::Replica;
use taskchampion_py::annotation::Annotation;
use taskchampion_py::dependency_map::DependencyMap;
use taskchampion_py::error::Error;
use taskchampion_py::operations::{Operations, OperationsItem, OperationsKey};
use taskchampion_py::status::Status;
use taskchampion_py::tag::Tag;
use taskchampion_py::task::Task;
use taskchampion_py::task_data::TaskData;
use taskchampion_py::timestamp::Timestamp;
use taskchampion_py::working_set::WorkingSet;

const U1: &str = "a1a2a3a4-b1b2-c1c2-d1d2-d3d4d5d6d7d8";
const U2: &str = "00000000-0000-0000-0000-000000000002";
const U3: &str = "00000000-0000-0000-0000-000000000003";

fn runtime() -> tokio::runtime::Runtime {
    tokio::runtime::Builder::new_current_thread().build().unwrap()
}

/// A replica holding the given tasks, each with the given properties.
fn replica(tasks: &[(&str, &[(&str, &str)])]) -> (tokio::runtime::Runtime, Replica<InMemoryStorage>) {
    let rt = runtime();
    let mut rep = Replica::new(InMemoryStorage::new());
    let mut ops = taskchampion::Operations::new();
    for (uuid, props) in tasks {
        let mut data = taskchampion::TaskData::create(taskchampion::Uuid::parse_str(uuid).unwrap(), &mut ops);
        for (k, v) in props.iter() {
            data.update(*k, Some(v.to_string()), &mut ops);
        }
    }
    rt.block_on(rep.commit_operations(ops)).unwrap();
    rt.block_on(rep.rebuild_working_set(true)).unwrap();
    (rt, rep)
}

fn task(rt: &tokio::runtime::Runtime, rep: &mut Replica<InMemoryStorage>, uuid: &str) -> Task {
    let inner = rt.block_on(rep.get_task(taskchampion::Uuid::parse_str(uuid).unwrap())).unwrap().unwrap();
    Task { inner }
}

fn last_property(ops: &Operations) -> String {
    match ops.__getitem__(OperationsKey::Index(-1)) {
        Ok(OperationsItem::One(op)) => op.get_property().unwrap(),
        _ => panic!("no operation"),
    }
}

#[test]
fn task_data_create_update_delete() {
    let mut ops = Operations::new();
    assert_eq!(TaskData::create("bad".to_string(), &mut ops).err(), Some(Error::InvalidUuid));
    assert_eq!(ops.__len__(), 0);
    let mut d = TaskData::create(U1.to_uppercase(), &mut ops).unwrap();
    assert_eq!(ops.__len__(), 1);
    assert_eq!(ops.__repr__(), format!("Operations([Operation.Create(uuid=\"{U1}\")])"));
    assert_eq!(d.get_uuid(), U1);
    assert_eq!(d.__repr__(), format!("TaskData(uuid=\"{U1}\")"));
    assert_eq!(d.get("description".to_string()), None);
    assert!(!d.has("description".to_string()));

    d.update("description".to_string(), Some("first".to_string()), &mut ops);
    assert_eq!(d.get("description".to_string()), Some("first".to_string()));
    assert!(d.has("description".to_string()));
    d.update("description".to_string(), Some("second".to_string()), &mut ops);
    d.update("priority".to_string(), Some("H".to_string()), &mut ops);
    assert_eq!(ops.__len__(), 4);
    let Ok(OperationsItem::One(op)) = ops.__getitem__(OperationsKey::Index(2)) else { panic!() };
    assert_eq!(op.get_old_value(), Ok(Some("first".to_string())));
    assert_eq!(op.get_value(), Ok(Some("second".to_string())));

    let mut props = d.properties();
    props.sort();
    assert_eq!(props, vec!["description".to_string(), "priority".to_string()]);
    let items: HashMap<String, String> = d.items().into_iter().collect();
    assert_eq!(items.get("priority"), Some(&"H".to_string()));
    assert_eq!(items.len(), 2);

    d.update("priority".to_string(), None, &mut ops);
    assert!(!d.has("priority".to_string()));

    d.delete(&mut ops);
    assert!(d.properties().is_empty());
    let Ok(OperationsItem::One(op)) = ops.__getitem__(OperationsKey::Index(-1)) else { panic!() };
    assert!(op.is_delete());
    assert_eq!(op.get_old_task(), Ok(vec![("description".to_string(), "second".to_string())]));
}

#[test]
fn working_set_lookups_and_iteration() {
    let (rt, mut rep) = replica(&[(U2, &[("status", "pending")]), (U3, &[("status", "pending")]), (U1, &[("status", "completed")])]);
    let ws = WorkingSet { inner: rt.block_on(rep.working_set()).unwrap() };
    assert_eq!(ws.__len__(), 2);
    assert!(!ws.is_empty());
    assert_eq!(ws.largest_index(), 2);
    assert_eq!(ws.__repr__(), "WorkingSet(len=2, largest_index=2)");
    assert_eq!(ws.by_index(0), None);
    assert_eq!(ws.by_index(100), None);
    let i2 = ws.by_uuid(U2.to_string()).unwrap().unwrap();
    assert_eq!(ws.by_index(i2), Some(U2.to_string()));
    assert_eq!(ws.by_uuid(U1.to_string()), Ok(None));
    assert_eq!(ws.by_uuid("bad".to_string()), Err(Error::InvalidUuid));
    let mut it = ws.__iter__();
    let mut seen = Vec::new();
    while let Some((i, u)) = it.__next__(&ws) {
        assert_eq!(ws.by_index(i), Some(u.clone()));
        seen.push(u);
    }
    assert_eq!(seen.len(), ws.__len__());
    assert!(it.__next__(&ws).is_none());
}

#[test]
fn empty_working_set() {
    let (rt, mut rep) = replica(&[]);
    let ws = WorkingSet { inner: rt.block_on(rep.working_set()).unwrap() };
    assert_eq!(ws.__len__(), 0);
    assert!(ws.is_empty());
    assert_eq!(ws.largest_index(), 0);
    assert!(ws.__iter__().__next__(&ws).is_none());
}

#[test]
fn dependency_map_is_symmetric() {
    let dep2 = format!("dep_{U2}");
    let dep3 = format!("dep_{U3}");
    let (rt, mut rep) = replica(&[
        (U1, &[("status", "pending"), (dep2.as_str(), ""), (dep3.as_str(), "")]),
        (U2, &[("status", "pending")]),
        (U3, &[("status", "pending")]),
    ]);
    let dm = DependencyMap { inner: rt.block_on(rep.dependency_map(true)).unwrap() };
    let mut deps = dm.dependencies(U1.to_string()).unwrap();
    deps.sort();
    assert_eq!(deps, vec![U2.to_string(), U3.to_string()]);
    assert_eq!(dm.dependents(U2.to_string()), Ok(vec![U1.to_string()]));
    assert_eq!(dm.dependencies(U2.to_string()), Ok(vec![]));
    assert_eq!(dm.dependents(U1.to_string()), Ok(vec![]));
    assert_eq!(dm.dependencies("bad".to_string()), Err(Error::InvalidUuid));
    assert_eq!(dm.dependents("bad".to_string()), Err(Error::InvalidUuid));
    assert!(dm.__repr__().starts_with("DependencyMap { edges: ["));

    let t1 = task(&rt, &mut rep, U1);
    let t2 = task(&rt, &mut rep, U2);
    assert!(t1.is_blocked() && !t1.is_blocking());
    assert!(t2.is_blocking() && !t2.is_blocked());
    let mut got = t1.get_dependencies();
    got.sort();
    assert_eq!(got, vec![U2.to_string(), U3.to_string()]);
}

#[test]
fn task_getters() {
    let (rt, mut rep) = replica(&[(U1, &[
        ("description", "write tests"),
        ("priority", "M"),
        ("entry", "1700000000"),
        ("due", "not a number"),
        ("start", "1700000100"),
        ("tag_home", ""),
        ("annotation_1700000200", "a note"),
        ("custom", "x"),
    ])]);
    let t = task(&rt, &mut rep, U1);
    assert_eq!(t.get_uuid(), U1);
    assert_eq!(t.__repr__(), format!("Task(uuid=\"{U1}\", description=\"write tests\")"));
    assert_eq!(t.get_status(), Status::Pending);
    assert_eq!(t.get_description(), "write tests");
    assert_eq!(t.get_priority(), "M");
    assert_eq!(t.get_entry(), Timestamp::new(1_700_000_000, 0));
    assert_eq!(t.get_due(), None);
    assert_eq!(t.get_wait(), None);
    assert_eq!(t.get_modified(), None);
    assert!(!t.is_waiting());
    assert!(t.is_active());
    assert!(t.has_tag(&Tag::new("home".to_string()).unwrap()));
    assert!(!t.has_tag(&Tag::new("work".to_string()).unwrap()));
    assert!(t.has_tag(&Tag::new("PENDING".to_string()).unwrap()));
    assert!(t.has_tag(&Tag::new("ACTIVE".to_string()).unwrap()));
    assert!(t.has_tag(&Tag::new("UNBLOCKED".to_string()).unwrap()));
    assert!(!t.has_tag(&Tag::new("COMPLETED".to_string()).unwrap()));
    let mut tags: Vec<String> = t.get_tags().iter().map(|g| g.__str__()).collect();
    tags.sort();
    assert_eq!(tags, vec!["ACTIVE", "PENDING", "UNBLOCKED", "home"]);
    let anns = t.get_annotations();
    assert_eq!(anns.len(), 1);
    assert_eq!(anns[0].entry().seconds(), 1_700_000_200);
    assert_eq!(anns[0].description(), "a note");
    assert_eq!(t.get_user_defined_attribute("custom"), Some("x".to_string()));
    assert_eq!(t.get_user_defined_attribute("priority"), None);
    assert_eq!(t.get_user_defined_attributes(), vec![("custom".to_string(), "x".to_string())]);
    assert_eq!(t.get_value("priority".to_string()), Some("M".to_string()));
    assert_eq!(t.get_value("nosuch".to_string()), None);
    let d = t.to_task_data();
    assert_eq!(d.get_uuid(), U1);
    assert_eq!(d.get("custom".to_string()), Some("x".to_string()));
    assert!(t.get_dependencies().is_empty());
}

#[test]
fn task_status_and_end() {
    let (rt, mut rep) = replica(&[(U1, &[("status", "pending")])]);
    let mut t = task(&rt, &mut rep, U1);
    let mut ops = Operations::new();
    assert_eq!(t.set_status(Status::Unknown, &mut ops), Err(Error::UnknownStatusNotSettable));
    assert_eq!(ops.__len__(), 0);
    t.done(&mut ops).unwrap();
    assert_eq!(t.get_status(), Status::Completed);
    assert!(t.get_value("end".to_string()).is_some());
    assert!(t.get_value("modified".to_string()).is_some());
    // modified, end, status
    assert_eq!(ops.__len__(), 3);
    assert_eq!(last_property(&ops), "status");
    t.set_status(Status::Pending, &mut ops).unwrap();
    assert_eq!(t.get_status(), Status::Pending);
    assert_eq!(t.get_value("end".to_string()), None);
    assert_eq!(ops.__len__(), 5);
    t.set_value("status".to_string(), Some("wishful".to_string()), &mut ops).unwrap();
    assert_eq!(t.get_status(), Status::Unknown);
}

#[test]
fn task_setters_record_modified_once() {
    let (rt, mut rep) = replica(&[(U1, &[])]);
    let mut t = task(&rt, &mut rep, U1);
    let mut ops = Operations::new();
    t.set_description("new".to_string(), &mut ops).unwrap();
    assert_eq!(ops.__len__(), 2);
    t.set_priority("L".to_string(), &mut ops).unwrap();
    assert_eq!(ops.__len__(), 3);
    assert_eq!(t.get_description(), "new");
    assert_eq!(t.get_priority(), "L");
    t.set_entry(Timestamp::new(1_000, 999), &mut ops).unwrap();
    assert_eq!(t.get_value("entry".to_string()), Some("1000".to_string()));
    assert_eq!(t.get_entry(), Timestamp::new(1_000, 0));
    t.set_wait(Timestamp::new(4_000_000_000, 0), &mut ops).unwrap();
    assert!(t.is_waiting());
    assert!(t.has_tag(&Tag::new("WAITING".to_string()).unwrap()));
    t.set_wait(None, &mut ops).unwrap();
    assert_eq!(t.get_wait(), None);
    t.set_due(Timestamp::new(-5, 0), &mut ops).unwrap();
    assert_eq!(t.get_value("due".to_string()), Some("-5".to_string()));
    t.set_modified(Timestamp::new(77, 0).unwrap(), &mut ops).unwrap();
    assert_eq!(t.get_modified(), Timestamp::new(77, 0));
    t.start(&mut ops).unwrap();
    assert!(t.is_active());
    let n = ops.__len__();
    t.start(&mut ops).unwrap();
    assert_eq!(ops.__len__(), n);
    t.stop(&mut ops).unwrap();
    assert!(!t.is_active());
    assert_eq!(last_property(&ops), "start");
}

#[test]
fn task_tags_annotations_udas_dependencies() {
    let (rt, mut rep) = replica(&[(U1, &[])]);
    let mut t = task(&rt, &mut rep, U1);
    let mut ops = Operations::new();
    let home = Tag::new("home".to_string()).unwrap();
    t.add_tag(&home, &mut ops).unwrap();
    assert!(t.has_tag(&home));
    assert_eq!(t.get_value("tag_home".to_string()), Some(String::new()));
    t.remove_tag(&home, &mut ops).unwrap();
    assert!(!t.has_tag(&home));
    let synthetic = Tag::new("PENDING".to_string()).unwrap();
    let n = ops.__len__();
    assert_eq!(
        t.add_tag(&synthetic, &mut ops),
        Err(Error::Runtime("Usage Error: Synthetic tags cannot be modified".to_string()))
    );
    assert_eq!(
        t.remove_tag(&synthetic, &mut ops),
        Err(Error::Runtime("Usage Error: Synthetic tags cannot be modified".to_string()))
    );
    assert_eq!(ops.__len__(), n);

    let ann = Annotation::new(Timestamp::new(1_234, 5).unwrap(), "noted".to_string());
    t.add_annotation(ann, &mut ops).unwrap();
    assert_eq!(t.get_value("annotation_1234".to_string()), Some("noted".to_string()));
    t.remove_annotation(Timestamp::new(1_234, 0).unwrap(), &mut ops).unwrap();
    assert!(t.get_annotations().is_empty());

    t.set_user_defined_attribute("color".to_string(), "red".to_string(), &mut ops).unwrap();
    assert_eq!(t.get_user_defined_attribute("color"), Some("red".to_string()));
    t.remove_user_defined_attribute("color".to_string(), &mut ops).unwrap();
    assert_eq!(t.get_user_defined_attribute("color"), None);
    let msg = "Usage Error: Property name due as special meaning in a task and cannot be used as a UDA";
    assert_eq!(
        t.set_user_defined_attribute("due".to_string(), "x".to_string(), &mut ops),
        Err(Error::Runtime(msg.to_string()))
    );
    assert_eq!(t.remove_user_defined_attribute("due".to_string(), &mut ops), Err(Error::Runtime(msg.to_string())));

    t.add_dependency(U2.to_uppercase(), &mut ops).unwrap();
    assert_eq!(t.get_dependencies(), vec![U2.to_string()]);
    assert_eq!(t.get_value(format!("dep_{U2}")), Some(String::new()));
    assert_eq!(t.add_dependency("bad".to_string(), &mut ops), Err(Error::InvalidUuid));
    t.remove_dependency(U2.to_string(), &mut ops).unwrap();
    assert!(t.get_dependencies().is_empty());
    assert_eq!(t.remove_dependency("bad".to_string(), &mut ops), Err(Error::InvalidUuid));
}

#[test]
fn annotations_and_tags() {
    let a = Annotation::new(Timestamp::new(0, 0).unwrap(), "hello \"you\"".to_string());
    assert_eq!(a.__repr__(), "Annotation(entry=\"1970-01-01T00:00:00+00:00\", description=\"hello \\\"you\\\"\")");
    assert_eq!(a.clone(), a);
    assert_eq!(a.entry(), Timestamp::new(0, 0).unwrap());
    assert_eq!(a.description(), "hello \"you\"");

    let user = Tag::new("home".to_string()).unwrap();
    assert!(user.is_user() && !user.is_synthetic());
    assert_eq!(user.__str__(), "home");
    let synthetic = Tag::new("BLOCKED".to_string()).unwrap();
    assert!(synthetic.is_synthetic() && !synthetic.is_user());
    assert_eq!(Tag::new("a b".to_string()), Err(Error::InvalidTag("a b".to_string())));
    assert_eq!(Tag::new("NOSUCH".to_string()), Err(Error::InvalidTag("NOSUCH".to_string())));
    assert_eq!(Tag::new("".to_string()), Err(Error::InvalidTag(String::new())));
    assert_eq!(user.clone(), user);
}

#[test]
fn timestamp_and_annotation_readability() {
    let (rt, mut rep) = replica(&[(U1, &[
        ("entry", "99999999999999999"),
        ("due", "12"),
        ("wait", "soon"),
        ("annotation_5", "fine"),
    ])]);
    let t = task(&rt, &mut rep, U1);
    assert!(!t.can_read_timestamp("entry"));
    assert!(t.can_read_timestamp("due"));
    assert!(t.can_read_timestamp("wait"));
    assert!(t.can_read_timestamp("modified"));
    assert!(t.can_read_annotations());
    assert_eq!(t.get_due(), Timestamp::new(12, 0));
    let (rt2, mut rep2) = replica(&[(U2, &[("annotation_-99999999999999999", "far")])]);
    let t2 = task(&rt2, &mut rep2, U2);
    assert!(!t2.can_read_annotations());
}

#[test]
fn working_set_iteration_yields_entries_in_order() {
    let (rt, mut rep) = replica(&[(U2, &[("status", "pending")]), (U3, &[("status", "pending")]), (U1, &[("status", "completed")])]);
    let ws = WorkingSet { inner: rt.block_on(rep.working_set()).unwrap() };
    let mut expected = Vec::new();
    for i in 0..=ws.largest_index() {
        if let Some(u) = ws.by_index(i) {
            expected.push((i, u));
        }
    }
    let mut it = ws.__iter__();
    let mut got = Vec::new();
    while let Some(item) = it.__next__(&ws) {
        got.push(item);
    }
    assert_eq!(got, expected);
    assert!(got.windows(2).all(|w| w[0].0 < w[1].0));
    assert!(it.__next__(&ws).is_none());
    for (i, u) in &got {
        assert_eq!(ws.by_uuid(u.to_uppercase()), Ok(Some(*i)));
    }
}

#[test]
fn dependency_texts_are_converse() {
    let dep2 = format!("dep_{U2}");
    let (rt, mut rep) = replica(&[
        (U1, &[("status", "pending"), (dep2.as_str(), "")]),
        (U2, &[("status", "pending")]),
    ]);
    let dm = DependencyMap { inner: rt.block_on(rep.dependency_map(true)).unwrap() };
    let deps_of_u1 = dm.dependencies(U1.to_uppercase()).unwrap();
    let dependents_of_u2 = dm.dependents(U2.to_uppercase()).unwrap();
    assert!(deps_of_u1.contains(&U2.to_string()));
    assert!(dependents_of_u2.contains(&U1.to_string()));
    assert!(!dm.dependencies(U2.to_string()).unwrap().contains(&U1.to_string()));
    assert!(!dm.dependents(U1.to_string()).unwrap().contains(&U2.to_string()));
}
