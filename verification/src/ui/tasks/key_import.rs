use vstd::prelude::*;

use crate::ui::tasks::{spec_task_id, TodoTaskBehavior, TodoTaskKind, UserTodoTasks};

verus! {

/// The task of the initial room key import.
#[derive(Clone, Copy, Debug)]
pub struct InitialKeyImport;

impl TodoTaskBehavior for InitialKeyImport {
    open spec fn spec_kind(&self) -> TodoTaskKind {
        TodoTaskKind::InitialKeyImport
    }

    fn kind(&self) -> (kind: TodoTaskKind) {
        TodoTaskKind::InitialKeyImport
    }
}


/// Data of the initial key import task: the chosen key file, its passphrase, and the outcome.
#[derive(Clone, Debug)]
pub struct KeyImportView {
    pub paths: Vec<String>,
    pub password: String,
    pub success: bool,
    pub error: Option<String>,
}

/// The message shown when the import failed with `error`.
pub open spec fn spec_import_error(error: Seq<char>) -> Seq<char> {
    "Error: "@ + error
}

impl KeyImportView {
    pub fn new() -> (view: Self)
        ensures
            view.paths@.len() == 0,
            view.password@ == Seq::<char>::empty(),
            !view.success,
            view.error is None,
    {
        KeyImportView { paths: Vec::new(), password: String::new(), success: false, error: None }
    }

    /// Forget the chosen file, the passphrase and the outcome.
    pub fn reset(&mut self)
        ensures
            final(self).paths@.len() == 0,
            final(self).password@ == Seq::<char>::empty(),
            !final(self).success,
            final(self).error is None,
    {
        self.paths.clear();
        self.password = String::new();
        self.success = false;
        self.error = None;
    }

    /// Take the files the picker returned (none when it returned nothing).
    pub fn set_paths(&mut self, paths: Option<Vec<String>>)
        ensures
            final(self).paths@ == match paths {
                Some(p) => p@,
                None => Seq::<String>::empty(),
            },
            final(self).password == old(self).password,
            final(self).success == old(self).success,
            final(self).error == old(self).error,
    {
        self.paths = match paths {
            Some(p) => p,
            None => Vec::new(),
        };
    }

    /// The key file and passphrase to import with, when both are given: the first chosen
    /// file, and the passphrase.
    pub fn import_request(&self) -> (request: Option<(String, String)>)
        ensures
            match request {
                Some((path, passphrase)) => self.paths@.len() > 0 && self.password@.len() > 0
                    && path@ == self.paths@[0]@ && passphrase@ == self.password@,
                None => self.paths@.len() == 0 || self.password@.len() == 0,
            },
    {
        if self.paths.len() == 0 || self.password.as_str().unicode_len() == 0 {
            return None;
        }
        Some((self.paths[0].clone(), self.password.clone()))
    }

    /// Take the import's result: success marks the task completed; an error is shown.
    pub fn finish_import(&mut self, result: Result<(), String>, tasks: &mut UserTodoTasks)
        ensures
            match result {
                Ok(()) => final(self).success && final(self).error == old(self).error
                    && final(tasks)@.completed == old(tasks)@.completed.insert(
                    spec_task_id(TodoTaskKind::InitialKeyImport),
                ),
                Err(e) => {
                    &&& !final(self).success
                    &&& final(tasks)@ == old(tasks)@
                    &&& final(self).error matches Some(m) && m@ == spec_import_error(e@)
                },
            },
            final(tasks)@.tasks == old(tasks)@.tasks,
            final(self).paths == old(self).paths,
            final(self).password == old(self).password,
    {
        match result {
            Ok(()) => {
                self.success = true;
                tasks.mark_completed(InitialKeyImport.id());
            },
            Err(e) => {
                self.success = false;
                let mut m = String::from_str("Error: ");
                m.append(e.as_str());
                self.error = Some(m);
            },
        }
    }
}

} // verus!
