use taskchampion_py::error::{Error, OperationAttribute};
use taskchampion_py::operation::{Operation, OperationKind};
use taskchampion_py::operations::{Operations, OperationsItem, OperationsKey};
use taskchampion_py::timestamp::Timestamp;

const U1: &str = "a1a2a3a4-b1b2-c1c2-d1d2-d3d4d5d6d7d8";

fn pairs(v: &[(&str, &str)]) -> Vec<(String, String)> {
    v.iter().map(|(k, v)| (k.to_string(), v.to_string())).collect()
}

fn update() -> Operation {
    Operation::Update(
        U1.to_string(),
        "description".to_string(),
        Timestamp::new(0, 0).unwrap(),
        Some("old".to_string()),
        None,
    )
    .unwrap()
}

#[test]
fn create_operation() {
    let op = Operation::Create(U1.to_uppercase()).unwrap();
    assert!(op.is_create());
    assert!(!op.is_delete() && !op.is_update() && !op.is_undo_point());
    assert_eq!(op.get_uuid(), Ok(U1.to_string()));
    assert_eq!(op.get_old_task(), Err(Error::MissingAttribute(OperationAttribute::OldTask)));
    assert_eq!(op.get_property(), Err(Error::MissingAttribute(OperationAttribute::Property)));
    assert_eq!(op.get_timestamp(), Err(Error::MissingAttribute(OperationAttribute::Timestamp)));
    assert_eq!(op.get_old_value(), Err(Error::MissingAttribute(OperationAttribute::OldValue)));
    assert_eq!(op.get_value(), Err(Error::MissingAttribute(OperationAttribute::Value)));
    assert_eq!(op.__repr__(), format!("Operation.Create(uuid=\"{U1}\")"));
}

#[test]
fn constructors_refuse_bad_uuids() {
    assert_eq!(Operation::Create("x".to_string()), Err(Error::InvalidUuid));
    assert_eq!(Operation::Delete("x".to_string(), vec![]), Err(Error::InvalidUuid));
    assert_eq!(
        Operation::Update("x".to_string(), "p".to_string(), Timestamp::new(0, 0).unwrap(), None, None),
        Err(Error::InvalidUuid)
    );
}

#[test]
fn delete_operation() {
    let op = Operation::Delete(U1.to_string(), pairs(&[("b", "2"), ("a", "1")])).unwrap();
    assert!(op.is_delete());
    assert_eq!(op.get_uuid(), Ok(U1.to_string()));
    assert_eq!(op.get_old_task(), Ok(pairs(&[("b", "2"), ("a", "1")])));
    assert_eq!(op.get_property(), Err(Error::MissingAttribute(OperationAttribute::Property)));
    assert_eq!(
        op.__repr__(),
        format!("Operation.Delete(uuid=\"{U1}\", old_task={{\"a\": \"1\", \"b\": \"2\"}})")
    );
    let empty = Operation::Delete(U1.to_string(), vec![]).unwrap();
    assert_eq!(empty.__repr__(), format!("Operation.Delete(uuid=\"{U1}\", old_task={{}})"));
}

#[test]
fn delete_text_ignores_entry_order() {
    let a = Operation::Delete(U1.to_string(), pairs(&[("x", "1"), ("y", "2"), ("w", "3")])).unwrap();
    let b = Operation::Delete(U1.to_string(), pairs(&[("y", "2"), ("w", "3"), ("x", "1")])).unwrap();
    assert_eq!(a.__repr__(), b.__repr__());
}

#[test]
fn update_operation() {
    let op = update();
    assert!(op.is_update());
    assert_eq!(op.get_uuid(), Ok(U1.to_string()));
    assert_eq!(op.get_property(), Ok("description".to_string()));
    assert_eq!(op.get_timestamp(), Ok(Timestamp::new(0, 0).unwrap()));
    assert_eq!(op.get_old_value(), Ok(Some("old".to_string())));
    assert_eq!(op.get_value(), Ok(None));
    assert_eq!(op.get_old_task(), Err(Error::MissingAttribute(OperationAttribute::OldTask)));
    assert_eq!(
        op.__repr__(),
        format!("Operation.Update(uuid=\"{U1}\", property=\"description\", timestamp=\"1970-01-01T00:00:00+00:00\", old_value=\"old\", value=None)")
    );
}

#[test]
fn undo_point_operation() {
    let op = Operation::UndoPoint();
    assert!(op.is_undo_point());
    assert_eq!(op.get_uuid(), Err(Error::MissingAttribute(OperationAttribute::Uuid)));
    assert_eq!(op.get_value(), Err(Error::MissingAttribute(OperationAttribute::Value)));
    assert_eq!(op.__repr__(), "Operation.UndoPoint()");
    assert!(matches!(op.kind(), OperationKind::UndoPoint));
}

#[test]
fn operation_clone_is_equal() {
    let op = update();
    assert_eq!(op.clone(), op);
}

fn three() -> Operations {
    let mut ops = Operations::new();
    ops.append(Operation::Create(U1.to_string()).unwrap());
    ops.append(Operation::UndoPoint());
    ops.append(update());
    ops
}

#[test]
fn operations_append_len_repr() {
    let empty = Operations::new();
    assert_eq!(empty.__len__(), 0);
    assert_eq!(empty.__repr__(), "Operations([])");
    assert_eq!(Operations::default(), empty);
    let ops = three();
    assert_eq!(ops.__len__(), 3);
    assert_eq!(
        ops.__repr__(),
        format!("Operations([Operation.Create(uuid=\"{U1}\"), Operation.UndoPoint(), {}])", update().__repr__())
    );
    assert_eq!(ops.clone(), ops);
    assert_eq!(ops.operations().len(), 3);
}

fn one(r: Result<OperationsItem, Error>) -> Operation {
    match r {
        Ok(OperationsItem::One(op)) => op,
        _ => panic!("expected one operation"),
    }
}

fn many(r: Result<OperationsItem, Error>) -> Operations {
    match r {
        Ok(OperationsItem::Many(ops)) => ops,
        _ => panic!("expected operations"),
    }
}

#[test]
fn operations_index() {
    let ops = three();
    assert!(one(ops.__getitem__(OperationsKey::Index(0))).is_create());
    assert!(one(ops.__getitem__(OperationsKey::Index(1))).is_undo_point());
    assert!(one(ops.__getitem__(OperationsKey::Index(-1))).is_update());
    assert!(one(ops.__getitem__(OperationsKey::Index(-3))).is_create());
    assert_eq!(
        one(ops.__getitem__(OperationsKey::Index(2))),
        one(ops.__getitem__(OperationsKey::Index(-1)))
    );
    assert!(matches!(ops.__getitem__(OperationsKey::Index(3)), Err(Error::IndexOutOfRange)));
    assert!(matches!(ops.__getitem__(OperationsKey::Index(-4)), Err(Error::IndexOutOfRange)));
    assert!(matches!(ops.__getitem__(OperationsKey::Index(isize::MIN)), Err(Error::IndexOutOfRange)));
    assert!(matches!(ops.__getitem__(OperationsKey::Other), Err(Error::InvalidIndexType)));
}

#[test]
fn operations_append_then_last() {
    let mut ops = three();
    ops.append(Operation::UndoPoint());
    assert_eq!(ops.__len__(), 4);
    assert!(one(ops.__getitem__(OperationsKey::Index(-1))).is_undo_point());
}

#[test]
fn operations_slices() {
    let ops = three();
    let all = many(ops.__getitem__(OperationsKey::Slice { start: 0, step: 1, slicelength: 3 }));
    assert_eq!(all, ops);
    let rev = many(ops.__getitem__(OperationsKey::Slice { start: 2, step: -1, slicelength: 3 }));
    assert!(one(rev.__getitem__(OperationsKey::Index(0))).is_update());
    assert!(one(rev.__getitem__(OperationsKey::Index(2))).is_create());
    let odd = many(ops.__getitem__(OperationsKey::Slice { start: 1, step: isize::MAX, slicelength: 1 }));
    assert_eq!(odd.__len__(), 1);
    assert!(one(odd.__getitem__(OperationsKey::Index(0))).is_undo_point());
    let none = many(ops.__getitem__(OperationsKey::Slice { start: 0, step: 2, slicelength: 0 }));
    assert_eq!(none.__len__(), 0);
    let even = many(ops.__getitem__(OperationsKey::Slice { start: 0, step: 2, slicelength: 2 }));
    assert!(one(even.__getitem__(OperationsKey::Index(1))).is_update());
}

#[test]
fn delete_equality_ignores_entry_order() {
    let a = Operation::Delete(U1.to_string(), pairs(&[("x", "1"), ("y", "2")])).unwrap();
    let b = Operation::Delete(U1.to_string(), pairs(&[("y", "2"), ("x", "1")])).unwrap();
    let c = Operation::Delete(U1.to_string(), pairs(&[("y", "2"), ("x", "9")])).unwrap();
    let d = Operation::Delete(U1.to_string(), pairs(&[("y", "2")])).unwrap();
    assert_eq!(a, b);
    assert_ne!(a, c);
    assert_ne!(a, d);
    assert_ne!(d, a);
    assert_eq!(a.kind(), b.kind());
    let mut left = Operations::new();
    left.append(a);
    left.append(update());
    let mut right = Operations::new();
    right.append(b);
    right.append(update());
    assert_eq!(left, right);
    let mut shorter = Operations::new();
    shorter.append(Operation::UndoPoint());
    assert_ne!(left, shorter);
}

#[test]
fn operation_equality_by_variant() {
    assert_eq!(Operation::UndoPoint(), Operation::UndoPoint());
    assert_eq!(Operation::Create(U1.to_string()).unwrap(), Operation::Create(U1.to_uppercase()).unwrap());
    assert_ne!(Operation::Create(U1.to_string()).unwrap(), Operation::UndoPoint());
    assert_eq!(update(), update());
    let other = Operation::Update(
        U1.to_string(),
        "description".to_string(),
        Timestamp::new(0, 1).unwrap(),
        Some("old".to_string()),
        None,
    )
    .unwrap();
    assert_ne!(update(), other);
}
