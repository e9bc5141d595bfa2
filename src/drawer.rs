//! The drawer's view of the context store. The store itself is served by the
//! auxiliary server; here the lists are empty and updates are accepted.
use vstd::prelude::*;

use crate::records::{DocumentEntry, TaskEntry};

verus! {

/// The tasks of a project: none are kept here.
pub fn list_tasks(project_path: Option<String>) -> (r: Result<Vec<TaskEntry>, String>)
    ensures
        r matches Ok(v) && v@.len() == 0,
{
    Ok(Vec::new())
}

/// The documents of a project: none are kept here.
pub fn list_documents(project_path: Option<String>) -> (r: Result<Vec<DocumentEntry>, String>)
    ensures
        r matches Ok(v) && v@.len() == 0,
{
    Ok(Vec::new())
}

/// Accepts a task's new status.
pub fn update_task_status(task_id: String, status: String) -> (r: Result<(), String>)
    ensures
        r is Ok,
{
    Ok(())
}

} // verus!
