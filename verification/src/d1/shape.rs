//! What a response of D1 looks like as JSON.
//!
//! A response is an object. Under `result` it holds an array of statement
//! results, under `success` a boolean, under `errors` and `messages` arrays of
//! records. Each record is an object with a string `message` and an integer
//! `code`. Each statement result is an object with a report under `meta`, an
//! array of rows under `results` and a boolean under `success`. A row is any
//! object. An integer is one that fits `i32`. Members that this list does not
//! name are passed over; a member that it names and the object lacks makes
//! the object something else than it should be.

use crate::d1::json::Json;
use vstd::prelude::*;

verus! {

/// A response, as contracts speak of it.
pub ghost struct D1ResponseView {
    pub result: Seq<D1ResultView>,
    pub success: bool,
    pub errors: Seq<D1ErrorView>,
    pub messages: Seq<D1MessageView>,
}

/// A statement result, as contracts speak of it. A row is the members of its
/// JSON object.
pub ghost struct D1ResultView {
    pub meta: MetaView,
    pub results: Seq<Map<Seq<char>, Json>>,
    pub success: bool,
}

/// The report on a statement's run, as contracts speak of it.
pub ghost struct MetaView {
    pub served_by: Seq<char>,
    pub duration_bits: u64,
    pub changes: i32,
    pub last_row_id: i32,
    pub changed_db: bool,
    pub size_after: i32,
    pub rows_read: i32,
    pub rows_written: i32,
}

/// An error record, as contracts speak of it.
pub ghost struct D1ErrorView {
    pub message: Seq<char>,
    pub code: i32,
}

/// A message record, as contracts speak of it.
pub ghost struct D1MessageView {
    pub message: Seq<char>,
    pub code: i32,
}

/// The member `name` of an object where it is a string.
pub open spec fn text_at(members: Map<Seq<char>, Json>, name: Seq<char>) -> Option<Seq<char>> {
    if members.contains_key(name) {
        match members[name] {
            Json::String(text) => Some(text),
            _ => None,
        }
    } else {
        None
    }
}

/// The member `name` of an object where it is a boolean.
pub open spec fn flag_at(members: Map<Seq<char>, Json>, name: Seq<char>) -> Option<bool> {
    if members.contains_key(name) {
        match members[name] {
            Json::Bool(flag) => Some(flag),
            _ => None,
        }
    } else {
        None
    }
}

/// The member `name` of an object where it is an integer that fits `i32`.
pub open spec fn int_at(members: Map<Seq<char>, Json>, name: Seq<char>) -> Option<i32> {
    if members.contains_key(name) {
        match members[name] {
            Json::Number(number) => match number.signed {
                Some(n) => if i32::MIN <= n <= i32::MAX {
                    Some(n as i32)
                } else {
                    None
                },
                None => None,
            },
            _ => None,
        }
    } else {
        None
    }
}

/// The member `name` of an object where it is a number that can be told as
/// a double, by the bits of the double.
pub open spec fn double_at(members: Map<Seq<char>, Json>, name: Seq<char>) -> Option<u64> {
    if members.contains_key(name) {
        match members[name] {
            Json::Number(number) => number.double_bits,
            _ => None,
        }
    } else {
        None
    }
}

/// The member `name` of an object where it is an array.
pub open spec fn list_at(members: Map<Seq<char>, Json>, name: Seq<char>) -> Option<Seq<Json>> {
    if members.contains_key(name) {
        match members[name] {
            Json::Array(items) => Some(items),
            _ => None,
        }
    } else {
        None
    }
}

impl D1ErrorView {
    /// The error that a document spells: an object with a string `message`
    /// and an integer `code`. Other members are passed over.
    pub open spec fn decode(json: Json) -> Option<Self> {
        match json {
            Json::Object(members) => match (
                text_at(members, "message"@),
                int_at(members, "code"@),
            ) {
                (Some(message), Some(code)) => Some(D1ErrorView { message, code }),
                _ => None,
            },
            _ => None,
        }
    }

    /// The errors that a list of documents spells: all of them or none.
    pub open spec fn decode_all(items: Seq<Json>) -> Option<Seq<Self>> {
        if forall|i: int| 0 <= i < items.len() ==> (#[trigger] Self::decode(items[i])) is Some {
            Some(Seq::new(items.len(), |i: int| Self::decode(items[i])->0))
        } else {
            None
        }
    }
}

impl D1MessageView {
    /// The message that a document spells: an object with a string `message`
    /// and an integer `code`. Other members are passed over.
    pub open spec fn decode(json: Json) -> Option<Self> {
        match json {
            Json::Object(members) => match (
                text_at(members, "message"@),
                int_at(members, "code"@),
            ) {
                (Some(message), Some(code)) => Some(D1MessageView { message, code }),
                _ => None,
            },
            _ => None,
        }
    }

    /// The messages that a list of documents spells: all of them or none.
    pub open spec fn decode_all(items: Seq<Json>) -> Option<Seq<Self>> {
        if forall|i: int| 0 <= i < items.len() ==> (#[trigger] Self::decode(items[i])) is Some {
            Some(Seq::new(items.len(), |i: int| Self::decode(items[i])->0))
        } else {
            None
        }
    }
}

impl MetaView {
    /// The report that a document spells: an object with a member of the
    /// right kind under each of the eight names.
    pub open spec fn decode(json: Json) -> Option<Self> {
        match json {
            Json::Object(members) => {
                let served_by = text_at(members, "served_by"@);
                let duration_bits = double_at(members, "duration"@);
                let changes = int_at(members, "changes"@);
                let last_row_id = int_at(members, "last_row_id"@);
                let changed_db = flag_at(members, "changed_db"@);
                let size_after = int_at(members, "size_after"@);
                let rows_read = int_at(members, "rows_read"@);
                let rows_written = int_at(members, "rows_written"@);
                if served_by is Some && duration_bits is Some && changes is Some
                    && last_row_id is Some && changed_db is Some && size_after is Some
                    && rows_read is Some && rows_written is Some {
                    Some(
                        MetaView {
                            served_by: served_by->0,
                            duration_bits: duration_bits->0,
                            changes: changes->0,
                            last_row_id: last_row_id->0,
                            changed_db: changed_db->0,
                            size_after: size_after->0,
                            rows_read: rows_read->0,
                            rows_written: rows_written->0,
                        },
                    )
                } else {
                    None
                }
            },
            _ => None,
        }
    }
}

/// The row that a document spells: the members of an object.
pub open spec fn decode_row(json: Json) -> Option<Map<Seq<char>, Json>> {
    match json {
        Json::Object(members) => Some(members),
        _ => None,
    }
}

/// The rows that a list of documents spells: all of them or none.
pub open spec fn decode_rows(items: Seq<Json>) -> Option<Seq<Map<Seq<char>, Json>>> {
    if forall|i: int| 0 <= i < items.len() ==> (#[trigger] decode_row(items[i])) is Some {
        Some(Seq::new(items.len(), |i: int| decode_row(items[i])->0))
    } else {
        None
    }
}

impl D1ResultView {
    /// The statement result that a document spells: an object with a report
    /// under `meta`, an array of rows under `results` and a boolean under
    /// `success`.
    pub open spec fn decode(json: Json) -> Option<Self> {
        match json {
            Json::Object(members) => {
                let meta = if members.contains_key("meta"@) {
                    MetaView::decode(members["meta"@])
                } else {
                    None
                };
                let results = match list_at(members, "results"@) {
                    Some(items) => decode_rows(items),
                    None => None,
                };
                let success = flag_at(members, "success"@);
                if meta is Some && results is Some && success is Some {
                    Some(D1ResultView { meta: meta->0, results: results->0, success: success->0 })
                } else {
                    None
                }
            },
            _ => None,
        }
    }

    /// The statement results that a list of documents spells: all of them or
    /// none.
    pub open spec fn decode_all(items: Seq<Json>) -> Option<Seq<Self>> {
        if forall|i: int| 0 <= i < items.len() ==> (#[trigger] Self::decode(items[i])) is Some {
            Some(Seq::new(items.len(), |i: int| Self::decode(items[i])->0))
        } else {
            None
        }
    }
}

/// The byte that a document spells: an integer from 0 to 255.
pub open spec fn decode_byte(json: Json) -> Option<u8> {
    match json {
        Json::Number(number) => match number.unsigned {
            Some(n) => if n <= u8::MAX {
                Some(n as u8)
            } else {
                None
            },
            None => None,
        },
        _ => None,
    }
}

/// The bytes that a document spells: an array of bytes, all of them or none.
pub open spec fn decode_bytes(json: Json) -> Option<Seq<u8>> {
    match json {
        Json::Array(items) => if forall|i: int|
            0 <= i < items.len() ==> (#[trigger] decode_byte(items[i])) is Some {
            Some(Seq::new(items.len(), |i: int| decode_byte(items[i])->0))
        } else {
            None
        },
        _ => None,
    }
}

impl D1ResponseView {
    /// The response that a document spells: an object with an array of
    /// statement results under `result`, a boolean under `success`, and
    /// arrays of errors and of messages under `errors` and `messages`.
    pub open spec fn decode(json: Json) -> Option<Self> {
        match json {
            Json::Object(members) => {
                let result = match list_at(members, "result"@) {
                    Some(items) => D1ResultView::decode_all(items),
                    None => None,
                };
                let success = flag_at(members, "success"@);
                let errors = match list_at(members, "errors"@) {
                    Some(items) => D1ErrorView::decode_all(items),
                    None => None,
                };
                let messages = match list_at(members, "messages"@) {
                    Some(items) => D1MessageView::decode_all(items),
                    None => None,
                };
                if result is Some && success is Some && errors is Some && messages is Some {
                    Some(
                        D1ResponseView {
                            result: result->0,
                            success: success->0,
                            errors: errors->0,
                            messages: messages->0,
                        },
                    )
                } else {
                    None
                }
            },
            _ => None,
        }
    }

    /// The bytes under `key` in the first row of the first statement result:
    /// `None` where there is no such row, where the row has no such column,
    /// and where the column does not hold bytes.
    pub open spec fn get_result(self, key: Seq<char>) -> Option<Seq<u8>> {
        if self.result.len() == 0 || self.result[0].results.len() == 0 {
            None
        } else {
            let row = self.result[0].results[0];
            if row.contains_key(key) {
                decode_bytes(row[key])
            } else {
                None
            }
        }
    }
}

/// Decoding keeps every row as the document has it: each row of each
/// statement result holds the members of the object that stands at its place
/// in the document, no more and no fewer, each with its value.
pub proof fn lemma_decode_keeps_rows(json: Json, statement: int, row: int)
    requires
        D1ResponseView::decode(json) is Some,
        0 <= statement < D1ResponseView::decode(json)->0.result.len(),
        0 <= row < D1ResponseView::decode(json)->0.result[statement].results.len(),
    ensures
        ({
            let response = D1ResponseView::decode(json)->0;
            let statements = list_at(json->Object_0, "result"@)->0;
            let rows = list_at(statements[statement]->Object_0, "results"@)->0;
            &&& statements.len() == response.result.len()
            &&& rows.len() == response.result[statement].results.len()
            &&& rows[row] == Json::Object(response.result[statement].results[row])
        }),
{
    let statements = list_at(json->Object_0, "result"@)->0;
    assert(D1ResultView::decode(statements[statement]) is Some);
    let rows = list_at(statements[statement]->Object_0, "results"@)->0;
    assert(decode_row(rows[row]) is Some);
}

} // verus!
