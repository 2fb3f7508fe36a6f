# taskchampion_py

A verified library for TaskChampion's task data as Python programs see it, and the Python
module built on it.

- `src/` is the library, verified with Verus. Each module states its behaviour in contracts:
  - `ids`: UUID text (parsing, canonical hyphenated form);
  - `error`: the errors and their messages;
  - `status`: the five statuses seen by callers and the stored status values;
  - `timestamp`, `text`, `entries`: points in time, quoting and joining, task map entries
    and their order;
  - `operation`, `operations`: operations, their getters and texts, and list-like indexing
    and slicing of a sequence of them;
  - `task_data`, `task_model`, `task`: task data and the task model, reached through
    taskchampion's `TaskData` and `Task`;
  - `working_set`, `dependency_map`: the working set with its cursor, and dependency maps;
  - `annotation`, `tag`.

  Calls into taskchampion, uuid and chrono stand behind small trusted functions whose doc
  comments say what their contracts claim.
- `app/` is the Python module (pyo3): the classes, the replica with its storage and runtime,
  and the conversions between Python values and the library's.
- `tests/` runs the library against a real in-memory taskchampion replica.
