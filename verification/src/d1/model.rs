//! The response of D1 to a query, decoded.

use crate::d1::json::{
    clone_object, double_bits, from_slice, items_of, json_of, json_text, member, members_of, Json,
};
use crate::d1::shape::{
    decode_byte, decode_bytes, decode_row, decode_rows, double_at, flag_at, int_at, list_at,
    text_at, D1ErrorView, D1MessageView, D1ResponseView, D1ResultView, MetaView,
};
use crate::d1::wire::{content, content_of, lossy_text, utf8_lossy};
use bytes::Bytes;
use serde_json::Value;
use vstd::prelude::*;
use vstd::utf8::{decode_utf8, valid_utf8};

verus! {

/// Why a body gave no response.
#[derive(Clone, Copy, Debug, PartialEq, Eq, Structural)]
pub enum DecodeErrorKind {
    /// The body is not JSON, or not the JSON of a response.
    Malformed,
    /// The body is a response that says of itself that the query failed.
    BackendFailure,
}

/// A body that gave no response: why, and a message for whoever reads logs.
#[derive(Debug)]
pub struct DecodeError {
    pub kind: DecodeErrorKind,
    /// For [`DecodeErrorKind::Malformed`], what was wrong; for
    /// [`DecodeErrorKind::BackendFailure`], the body itself as text.
    pub message: String,
}

/// How the message of every [`DecodeErrorKind::Malformed`] error begins.
pub const MALFORMED_PREFIX: &'static str = "failed to parse error response: ";

/// What the message of a [`DecodeErrorKind::Malformed`] error goes on to say
/// of a body that is JSON, but not the JSON of a response.
pub const NOT_A_RESPONSE: &'static str = "the document is not a response";

/// A response of D1.
#[derive(Debug)]
pub struct D1Response {
    /// One result for each statement of the query, in order.
    pub result: Vec<D1Result>,
    /// Whether D1 carried the query out.
    pub success: bool,
    pub errors: Vec<D1Error>,
    pub messages: Vec<D1Message>,
}

/// What one statement gave.
#[derive(Debug)]
pub struct D1Result {
    pub meta: Meta,
    /// The rows, each a JSON object that holds the row's values by column.
    pub results: Vec<serde_json::Map<String, Value>>,
    pub success: bool,
}

/// What D1 reports of the run of one statement.
#[derive(Debug)]
pub struct Meta {
    pub served_by: String,
    /// The duration in milliseconds, a double held by its bits
    /// (`f64::from_bits` gives the number).
    pub duration_bits: u64,
    pub changes: i32,
    pub last_row_id: i32,
    pub changed_db: bool,
    pub size_after: i32,
    pub rows_read: i32,
    pub rows_written: i32,
}

/// An error that D1 records in a response.
#[derive(Debug)]
pub struct D1Error {
    pub message: String,
    pub code: i32,
}

impl Clone for D1Error {
    /// A record with the same message and code.
    fn clone(&self) -> (copy: Self)
        ensures
            copy@ == self@,
    {
        D1Error { message: self.message.clone(), code: self.code }
    }
}

/// A message that D1 adds to a response.
#[derive(Debug)]
pub struct D1Message {
    pub message: String,
    pub code: i32,
}

impl View for D1Error {
    type V = D1ErrorView;

    open spec fn view(&self) -> D1ErrorView {
        D1ErrorView { message: self.message@, code: self.code }
    }
}

impl View for D1Message {
    type V = D1MessageView;

    open spec fn view(&self) -> D1MessageView {
        D1MessageView { message: self.message@, code: self.code }
    }
}

impl View for Meta {
    type V = MetaView;

    open spec fn view(&self) -> MetaView {
        MetaView {
            served_by: self.served_by@,
            duration_bits: self.duration_bits,
            changes: self.changes,
            last_row_id: self.last_row_id,
            changed_db: self.changed_db,
            size_after: self.size_after,
            rows_read: self.rows_read,
            rows_written: self.rows_written,
        }
    }
}

impl View for D1Result {
    type V = D1ResultView;

    open spec fn view(&self) -> D1ResultView {
        D1ResultView {
            meta: self.meta@,
            results: self.results@.map_values(
                |row: serde_json::Map<String, Value>| members_of(row),
            ),
            success: self.success,
        }
    }
}

impl View for D1Response {
    type V = D1ResponseView;

    open spec fn view(&self) -> D1ResponseView {
        D1ResponseView {
            result: self.result@.map_values(|result: D1Result| result@),
            success: self.success,
            errors: self.errors@.map_values(|error: D1Error| error@),
            messages: self.messages@.map_values(|message: D1Message| message@),
        }
    }
}

/// The member `name` as a string of its own.
fn text_member(object: &serde_json::Map<String, Value>, name: &str) -> (text: Option<String>)
    ensures
        match text {
            Some(s) => text_at(members_of(*object), name@) == Some(s@),
            None => text_at(members_of(*object), name@) is None,
        },
{
    let s = member(object, name)?.as_str()?;
    Some(s.to_owned())
}

/// The member `name` as a boolean.
fn flag_member(object: &serde_json::Map<String, Value>, name: &str) -> (flag: Option<bool>)
    ensures
        flag == flag_at(members_of(*object), name@),
{
    member(object, name)?.as_bool()
}

/// The member `name` as an `i32`.
fn int_member(object: &serde_json::Map<String, Value>, name: &str) -> (number: Option<i32>)
    ensures
        number == int_at(members_of(*object), name@),
{
    let n = member(object, name)?.as_i64()?;
    if i32::MIN as i64 <= n && n <= i32::MAX as i64 {
        Some(n as i32)
    } else {
        None
    }
}

/// The member `name` as the bits of a double.
fn double_member(object: &serde_json::Map<String, Value>, name: &str) -> (bits: Option<u64>)
    ensures
        bits == double_at(members_of(*object), name@),
{
    double_bits(member(object, name)?)
}

/// The member `name` as the items of an array.
fn list_member<'a>(object: &'a serde_json::Map<String, Value>, name: &str) -> (list: Option<
    &'a Vec<Value>,
>)
    ensures
        match list {
            Some(items) => list_at(members_of(*object), name@) == Some(items_of(items@)),
            None => list_at(members_of(*object), name@) is None,
        },
{
    member(object, name)?.as_array()
}

impl D1Error {
    /// Reads one error record.
    fn decode(value: &Value) -> (error: Option<D1Error>)
        ensures
            match error {
                Some(e) => D1ErrorView::decode(json_of(*value)) == Some(e@),
                None => D1ErrorView::decode(json_of(*value)) is None,
            },
    {
        let object = value.as_object()?;
        let message = text_member(object, "message")?;
        let code = int_member(object, "code")?;
        Some(D1Error { message, code })
    }

    /// Reads a list of error records: all of them or none.
    fn decode_all(items: &Vec<Value>) -> (errors: Option<Vec<D1Error>>)
        ensures
            match errors {
                Some(es) => D1ErrorView::decode_all(items_of(items@)) == Some(
                    es@.map_values(|e: D1Error| e@),
                ),
                None => D1ErrorView::decode_all(items_of(items@)) is None,
            },
    {
        let mut errors: Vec<D1Error> = Vec::new();
        let mut at: usize = 0;
        while at < items.len()
            invariant
                at <= items.len(),
                errors@.len() == at,
                forall|i: int|
                    0 <= i < at ==> D1ErrorView::decode(#[trigger] items_of(items@)[i]) == Some(
                        errors@[i]@,
                    ),
            decreases items.len() - at,
        {
            match D1Error::decode(&items[at]) {
                Some(error) => errors.push(error),
                None => {
                    assert(D1ErrorView::decode(items_of(items@)[at as int]) is None);
                    return None;
                },
            }
            at += 1;
        }
        assert(errors@.map_values(|e: D1Error| e@) =~= D1ErrorView::decode_all(
            items_of(items@),
        )->0);
        Some(errors)
    }
}

impl D1Message {
    /// Reads one message record.
    fn decode(value: &Value) -> (message: Option<D1Message>)
        ensures
            match message {
                Some(m) => D1MessageView::decode(json_of(*value)) == Some(m@),
                None => D1MessageView::decode(json_of(*value)) is None,
            },
    {
        let object = value.as_object()?;
        let message = text_member(object, "message")?;
        let code = int_member(object, "code")?;
        Some(D1Message { message, code })
    }

    /// Reads a list of message records: all of them or none.
    fn decode_all(items: &Vec<Value>) -> (messages: Option<Vec<D1Message>>)
        ensures
            match messages {
                Some(ms) => D1MessageView::decode_all(items_of(items@)) == Some(
                    ms@.map_values(|m: D1Message| m@),
                ),
                None => D1MessageView::decode_all(items_of(items@)) is None,
            },
    {
        let mut messages: Vec<D1Message> = Vec::new();
        let mut at: usize = 0;
        while at < items.len()
            invariant
                at <= items.len(),
                messages@.len() == at,
                forall|i: int|
                    0 <= i < at ==> D1MessageView::decode(#[trigger] items_of(items@)[i]) == Some(
                        messages@[i]@,
                    ),
            decreases items.len() - at,
        {
            match D1Message::decode(&items[at]) {
                Some(message) => messages.push(message),
                None => {
                    assert(D1MessageView::decode(items_of(items@)[at as int]) is None);
                    return None;
                },
            }
            at += 1;
        }
        assert(messages@.map_values(|m: D1Message| m@) =~= D1MessageView::decode_all(
            items_of(items@),
        )->0);
        Some(messages)
    }
}

impl Meta {
    /// Reads the report on a statement's run.
    fn decode(value: &Value) -> (meta: Option<Meta>)
        ensures
            match meta {
                Some(m) => MetaView::decode(json_of(*value)) == Some(m@),
                None => MetaView::decode(json_of(*value)) is None,
            },
    {
        let object = value.as_object()?;
        let served_by = text_member(object, "served_by")?;
        let duration_bits = double_member(object, "duration")?;
        let changes = int_member(object, "changes")?;
        let last_row_id = int_member(object, "last_row_id")?;
        let changed_db = flag_member(object, "changed_db")?;
        let size_after = int_member(object, "size_after")?;
        let rows_read = int_member(object, "rows_read")?;
        let rows_written = int_member(object, "rows_written")?;
        Some(
            Meta {
                served_by,
                duration_bits,
                changes,
                last_row_id,
                changed_db,
                size_after,
                rows_read,
                rows_written,
            },
        )
    }
}

/// The rows that a list of values holds: a copy of each object, or `None`
/// where one of the values is no object.
fn rows_of(items: &Vec<Value>) -> (rows: Option<Vec<serde_json::Map<String, Value>>>)
    ensures
        match rows {
            Some(rs) => decode_rows(items_of(items@)) == Some(
                rs@.map_values(|row: serde_json::Map<String, Value>| members_of(row)),
            ),
            None => decode_rows(items_of(items@)) is None,
        },
{
    let mut rows: Vec<serde_json::Map<String, Value>> = Vec::new();
    let mut at: usize = 0;
    while at < items.len()
        invariant
            at <= items.len(),
            rows@.len() == at,
            forall|i: int|
                0 <= i < at ==> decode_row(#[trigger] items_of(items@)[i]) == Some(
                    members_of(rows@[i]),
                ),
        decreases items.len() - at,
    {
        match items[at].as_object() {
            Some(object) => rows.push(clone_object(object)),
            None => {
                assert(decode_row(items_of(items@)[at as int]) is None);
                return None;
            },
        }
        at += 1;
    }
    assert(rows@.map_values(|row: serde_json::Map<String, Value>| members_of(row))
        =~= decode_rows(items_of(items@))->0);
    Some(rows)
}

impl D1Result {
    /// Reads one statement result.
    fn decode(value: &Value) -> (result: Option<D1Result>)
        ensures
            match result {
                Some(r) => D1ResultView::decode(json_of(*value)) == Some(r@),
                None => D1ResultView::decode(json_of(*value)) is None,
            },
    {
        let object = value.as_object()?;
        let meta = Meta::decode(member(object, "meta")?)?;
        let results = rows_of(list_member(object, "results")?)?;
        let success = flag_member(object, "success")?;
        Some(D1Result { meta, results, success })
    }

    /// Reads a list of statement results: all of them or none.
    fn decode_all(items: &Vec<Value>) -> (results: Option<Vec<D1Result>>)
        ensures
            match results {
                Some(rs) => D1ResultView::decode_all(items_of(items@)) == Some(
                    rs@.map_values(|r: D1Result| r@),
                ),
                None => D1ResultView::decode_all(items_of(items@)) is None,
            },
    {
        let mut results: Vec<D1Result> = Vec::new();
        let mut at: usize = 0;
        while at < items.len()
            invariant
                at <= items.len(),
                results@.len() == at,
                forall|i: int|
                    0 <= i < at ==> D1ResultView::decode(#[trigger] items_of(items@)[i]) == Some(
                        results@[i]@,
                    ),
            decreases items.len() - at,
        {
            match D1Result::decode(&items[at]) {
                Some(result) => results.push(result),
                None => {
                    assert(D1ResultView::decode(items_of(items@)[at as int]) is None);
                    return None;
                },
            }
            at += 1;
        }
        assert(results@.map_values(|r: D1Result| r@) =~= D1ResultView::decode_all(
            items_of(items@),
        )->0);
        Some(results)
    }
}

/// Reads a column's value as bytes: `Some` for an array in which every item
/// is an integer from 0 to 255, `None` for every other value.
pub fn column_bytes(value: &Value) -> (bytes: Option<Vec<u8>>)
    ensures
        match bytes {
            Some(bs) => decode_bytes(json_of(*value)) == Some(bs@),
            None => decode_bytes(json_of(*value)) is None,
        },
{
    let items = value.as_array()?;
    let mut bytes: Vec<u8> = Vec::new();
    let mut at: usize = 0;
    while at < items.len()
        invariant
            at <= items.len(),
            bytes@.len() == at,
            json_of(*value) == Json::Array(items_of(items@)),
            forall|i: int|
                0 <= i < at ==> decode_byte(#[trigger] items_of(items@)[i]) == Some(bytes@[i]),
        decreases items.len() - at,
    {
        match items[at].as_u64() {
            Some(n) if n <= 255 => bytes.push(n as u8),
            _ => {
                assert(decode_byte(items_of(items@)[at as int]) is None);
                return None;
            },
        }
        at += 1;
    }
    assert(bytes@ =~= decode_bytes(json_of(*value))->0);
    Some(bytes)
}

impl D1ResponseView {
    /// What a body parses to: the response that it spells where it spells
    /// one that reports success, else the kind of error.
    pub open spec fn parse(body: Seq<u8>) -> Result<Self, DecodeErrorKind> {
        match json_text(body) {
            Some(json) => match Self::decode(json) {
                Some(response) => if response.success {
                    Ok(response)
                } else {
                    Err(DecodeErrorKind::BackendFailure)
                },
                None => Err(DecodeErrorKind::Malformed),
            },
            None => Err(DecodeErrorKind::Malformed),
        }
    }
}

impl D1Response {
    /// Parses the body of an HTTP answer of D1.
    ///
    /// The body must be JSON, the JSON must be that of a response, and the
    /// response must report success: then it is returned. A body that fails
    /// one of the first two gives a [`DecodeErrorKind::Malformed`] error. A
    /// response that reports failure gives a
    /// [`DecodeErrorKind::BackendFailure`] error, whose message is the body.
    pub fn parse(bs: &Bytes) -> (parsed: Result<D1Response, DecodeError>)
        ensures
            match D1ResponseView::parse(content_of(*bs)) {
                Ok(response) => parsed matches Ok(r) && r@ == response,
                Err(DecodeErrorKind::BackendFailure) => {
                    &&& parsed matches Err(e)
                    &&& e.kind == DecodeErrorKind::BackendFailure
                    &&& e.message@ == utf8_lossy(content_of(*bs))
                    &&& valid_utf8(content_of(*bs)) ==> e.message@ == decode_utf8(content_of(*bs))
                },
                Err(DecodeErrorKind::Malformed) => {
                    &&& parsed matches Err(e)
                    &&& e.kind == DecodeErrorKind::Malformed
                    &&& MALFORMED_PREFIX@.is_prefix_of(e.message@)
                    &&& json_text(content_of(*bs)) is Some ==> e.message@ == MALFORMED_PREFIX@
                        + NOT_A_RESPONSE@
                },
            },
            parsed matches Ok(r) ==> r.success,
    {
        let body = content(bs);
        match from_slice(body) {
            Ok(document) => D1Response::from_document(&document, body),
            Err(error) => {
                let mut message = MALFORMED_PREFIX.to_owned();
                message.append(error.to_string().as_str());
                Err(DecodeError { kind: DecodeErrorKind::Malformed, message })
            },
        }
    }

    /// Judges a body that has been read as JSON: `document` is what the body
    /// holds, `body` the body itself.
    pub fn from_document(document: &Value, body: &[u8]) -> (parsed: Result<D1Response, DecodeError>)
        ensures
            match D1ResponseView::decode(json_of(*document)) {
                Some(response) => if response.success {
                    parsed matches Ok(r) && r@ == response
                } else {
                    &&& parsed matches Err(e)
                    &&& e.kind == DecodeErrorKind::BackendFailure
                    &&& e.message@ == utf8_lossy(body@)
                    &&& valid_utf8(body@) ==> e.message@ == decode_utf8(body@)
                },
                None => {
                    &&& parsed matches Err(e)
                    &&& e.kind == DecodeErrorKind::Malformed
                    &&& e.message@ == MALFORMED_PREFIX@ + NOT_A_RESPONSE@
                },
            },
    {
        match D1Response::decode(document) {
            Some(response) => {
                if response.success {
                    Ok(response)
                } else {
                    Err(
                        DecodeError {
                            kind: DecodeErrorKind::BackendFailure,
                            message: lossy_text(body),
                        },
                    )
                }
            },
            None => {
                let mut message = MALFORMED_PREFIX.to_owned();
                message.append(NOT_A_RESPONSE);
                Err(DecodeError { kind: DecodeErrorKind::Malformed, message })
            },
        }
    }

    /// The bytes that the first row of the first statement result holds in
    /// the column `key`.
    ///
    /// `None` where there is no statement result, where the first has no
    /// row, where the row has no such column, and where the column's value is
    /// anything but an array of integers from 0 to 255.
    pub fn get_result(&self, key: &str) -> (bytes: Option<Vec<u8>>)
        ensures
            match bytes {
                Some(bs) => self@.get_result(key@) == Some(bs@),
                None => self@.get_result(key@) is None,
            },
            self.result@.len() == 0 ==> bytes is None,
    {
        if self.result.len() == 0 || self.result[0].results.len() == 0 {
            return None;
        }
        let row = &self.result[0].results[0];
        column_bytes(member(row, key)?)
    }

    /// Reads a response out of a JSON document, whatever its `success` says.
    /// `None` where the document is not a response.
    pub fn decode(value: &Value) -> (response: Option<D1Response>)
        ensures
            match response {
                Some(r) => D1ResponseView::decode(json_of(*value)) == Some(r@),
                None => D1ResponseView::decode(json_of(*value)) is None,
            },
    {
        let object = value.as_object()?;
        let result = D1Result::decode_all(list_member(object, "result")?)?;
        let success = flag_member(object, "success")?;
        let errors = D1Error::decode_all(list_member(object, "errors")?)?;
        let messages = D1Message::decode_all(list_member(object, "messages")?)?;
        Some(D1Response { result, success, errors, messages })
    }
}

} // verus!
