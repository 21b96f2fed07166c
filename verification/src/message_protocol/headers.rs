//! Task-routing headers of a message.
//!
//! The headers travel on the transport message as a string-to-value table
//! (not in the body), so brokers and consumers can route and filter without
//! deserializing the payload.

use vstd::prelude::*;

verus! {

/// Task-routing metadata: origin language tag, task name, task id, and the
/// id of the originating task of a chain or group (which may equal the task
/// id).  All four are required.
#[derive(Clone, Debug)]
pub struct Headers {
    pub lang: String,
    pub task: String,
    pub id: String,
    pub root_id: String,
}

/// The ordered wire table of the headers: the four keys in the ascending
/// order in which the transport's header table holds them.
pub open spec fn headers_wire_entries(headers: Headers) -> Seq<(Seq<char>, Seq<char>)> {
    seq![
        ("id"@, headers.id@),
        ("lang"@, headers.lang@),
        ("root_id"@, headers.root_id@),
        ("task"@, headers.task@),
    ]
}

impl Headers {
    /// Create new headers.
    ///
    /// * `lang` - origin language tag
    /// * `task` - task name
    /// * `id` - task id
    /// * `root_id` - id of the originating task
    pub fn new(lang: String, task: String, id: String, root_id: String) -> (r: Headers)
        ensures
            r.lang == lang,
            r.task == task,
            r.id == id,
            r.root_id == root_id,
    {
        Headers { lang, task, id, root_id }
    }

    /// Convert the headers to the ordered string-to-value table attached to
    /// the transport message.
    pub fn convert_to_map(&self) -> (r: Vec<(String, String)>)
        ensures
            r.deep_view() == headers_wire_entries(*self),
    {
        let mut r: Vec<(String, String)> = Vec::new();
        r.push(("id".to_owned(), self.id.clone()));
        r.push(("lang".to_owned(), self.lang.clone()));
        r.push(("root_id".to_owned(), self.root_id.clone()));
        r.push(("task".to_owned(), self.task.clone()));
        proof {
            assert(r.deep_view() =~= headers_wire_entries(*self));
        }
        r
    }
}

} // verus!
