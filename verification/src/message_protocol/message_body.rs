//! Message body shell of a task message.
//!
//! The body carries four optional task-composition references.  Its wire
//! mapping always holds all four keys; an absent field appears as an
//! explicit null, never as an omitted key.

use vstd::prelude::*;

use crate::json::{
    entries_view, json_object, keys_strictly_ascending, str_lt, BodyValue, WireValue,
};

verus! {

/// Task payload shell.
///
/// * `chord` - reference to a set of tasks to execute together
/// * `chain` - reference to a serial task sequence
/// * `callbacks` - follow-up task references
/// * `errbacks` - error-handler task references
#[derive(Clone, Debug)]
pub struct MessageBody {
    pub chord: Option<String>,
    pub chain: Option<String>,
    pub callbacks: Option<Vec<String>>,
    pub errbacks: Option<Vec<String>>,
}

/// The wire value of an optional string field: the string, or explicit null.
pub open spec fn text_or_null(field: Option<String>) -> WireValue {
    match field {
        Option::Some(s) => WireValue::Text(s@),
        Option::None => WireValue::Null,
    }
}

/// The wire value of an optional string-list field: the list, or explicit
/// null.
pub open spec fn text_list_or_null(field: Option<Vec<String>>) -> WireValue {
    match field {
        Option::Some(items) => WireValue::TextList(items.deep_view()),
        Option::None => WireValue::Null,
    }
}

/// The wire mapping of a body: exactly the four keys, in the ascending key
/// order in which the wire object holds them.
pub open spec fn body_wire_entries(body: MessageBody) -> Seq<(Seq<char>, WireValue)> {
    seq![
        ("callbacks"@, text_list_or_null(body.callbacks)),
        ("chain"@, text_or_null(body.chain)),
        ("chord"@, text_or_null(body.chord)),
        ("errbacks"@, text_list_or_null(body.errbacks)),
    ]
}

/// The canonical JSON text of a body's wire mapping.
pub open spec fn body_wire_json(body: MessageBody) -> Seq<char> {
    json_object(body_wire_entries(body))
}

/// The four keys of the wire mapping are strictly ascending, so the entries
/// are exactly what an ordered map over them yields.
pub proof fn lemma_body_entries_ascending(body: MessageBody)
    ensures
        keys_strictly_ascending(body_wire_entries(body)),
{
    reveal_strlit("callbacks");
    reveal_strlit("chain");
    reveal_strlit("chord");
    reveal_strlit("errbacks");
    reveal_with_fuel(str_lt, 5);
    assert(str_lt("callbacks"@, "chain"@));
    assert(str_lt("callbacks"@, "chord"@));
    assert(str_lt("callbacks"@, "errbacks"@));
    assert(str_lt("chain"@, "chord"@));
    assert(str_lt("chain"@, "errbacks"@));
    assert(str_lt("chord"@, "errbacks"@));
}

/// Clones a list of strings element by element, keeping its model.
fn copy_texts(items: &Vec<String>) -> (r: Vec<String>)
    ensures
        r.deep_view() == items.deep_view(),
{
    let mut r: Vec<String> = Vec::new();
    let mut i: usize = 0;
    while i < items.len()
        invariant
            i <= items.len(),
            r@.len() == i,
            forall|j: int| 0 <= j < i ==> r@[j]@ == items@[j]@,
        decreases items.len() - i,
    {
        r.push(items[i].clone());
        i = i + 1;
    }
    proof {
        assert(r.deep_view() =~= items.deep_view());
    }
    r
}

impl MessageBody {
    /// Create a new message body.
    ///
    /// * `chord` - reference to a set of tasks to execute together
    /// * `chain` - reference to a serial task sequence
    /// * `callbacks` - follow-up task references
    /// * `errbacks` - error-handler task references
    pub fn new(
        chord: Option<String>,
        chain: Option<String>,
        callbacks: Option<Vec<String>>,
        errbacks: Option<Vec<String>>,
    ) -> (r: MessageBody)
        ensures
            r.chord == chord,
            r.chain == chain,
            r.callbacks == callbacks,
            r.errbacks == errbacks,
    {
        MessageBody { chord, chain, callbacks, errbacks }
    }

    /// Convert the body to its wire-ready mapping: always the four keys
    /// `callbacks`, `chain`, `chord`, `errbacks` (in the map's key order),
    /// each bound to its field's value or to an explicit null.
    pub fn convert_to_json_map(&self) -> (r: Vec<(String, BodyValue)>)
        ensures
            entries_view(r@) == body_wire_entries(*self),
    {
        let callbacks_value = match &self.callbacks {
            Some(items) => BodyValue::TextList(copy_texts(items)),
            None => BodyValue::Null,
        };
        let chain_value = match &self.chain {
            Some(s) => BodyValue::Text(s.clone()),
            None => BodyValue::Null,
        };
        let chord_value = match &self.chord {
            Some(s) => BodyValue::Text(s.clone()),
            None => BodyValue::Null,
        };
        let errbacks_value = match &self.errbacks {
            Some(items) => BodyValue::TextList(copy_texts(items)),
            None => BodyValue::Null,
        };
        let mut r: Vec<(String, BodyValue)> = Vec::new();
        r.push(("callbacks".to_owned(), callbacks_value));
        r.push(("chain".to_owned(), chain_value));
        r.push(("chord".to_owned(), chord_value));
        r.push(("errbacks".to_owned(), errbacks_value));
        proof {
            assert(entries_view(r@) =~= body_wire_entries(*self));
        }
        r
    }
}

} // verus!
