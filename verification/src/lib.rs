//! Task data, operations, working sets and dependency maps of a TaskChampion replica, in the
//! shape in which Python programs see them.
pub mod error;
pub mod ids;
pub mod timestamp;
pub mod status;
pub mod text;
pub mod entries;
pub mod operation;
pub mod operations;
pub mod task_data;
pub mod working_set;
pub mod dependency_map;
pub mod annotation;
pub mod tag;
pub mod task_model;
pub mod task;
