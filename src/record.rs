//! The status record and the decision taken from it.
use vstd::prelude::*;
use crate::error::MyError;
use crate::json::{int_of, json_of, parse_json, pointer_of};

verus! {

/// Whether a grid-load level lets a deferrable task run now.
pub open spec fn runnable(level: int) -> bool {
    level <= 1
}

/// The member of the record that carries the level.
pub open spec fn state_pointer() -> Seq<char> {
    "/state"@
}

/// The level that a decoded JSON integer stands for, if it is in range.
pub open spec fn level_of_int(i: Option<i64>) -> Option<i8> {
    match i {
        Some(l) => if i8::MIN <= l <= i8::MAX { Some(l as i8) } else { None },
        None => None,
    }
}

/// The level of the status record held in `b`, if `b` holds one.
pub open spec fn record_level(b: Seq<u8>) -> Option<i8> {
    match json_of(b) {
        Some(v) => match pointer_of(v, state_pointer()) {
            Some(f) => level_of_int(int_of(f)),
            None => None,
        },
        None => None,
    }
}

/// What deciding on the fetched bytes `b` gives.
pub open spec fn decision(b: Seq<u8>) -> Result<bool, MyError> {
    if b.len() == 0 {
        Err(MyError::InvalidData)
    } else {
        match record_level(b) {
            Some(l) => Ok(runnable(l as int)),
            None => Err(MyError::Decode),
        }
    }
}

/// The decoded status record: the current grid-load level, from least to most constrained.
#[derive(Debug, Clone, Copy, PartialEq, Eq, Structural)]
pub struct CurrentState {
    pub state: i8,
}

impl CurrentState {
    /// The record for a decoded `state` member; `None` or a number out of
    /// range is no record.
    pub fn from_level(level: Option<i64>) -> (r: Result<CurrentState, MyError>)
        ensures
            r == (match level_of_int(level) {
                Some(l) => Ok(CurrentState { state: l }),
                None => Err(MyError::Decode),
            }),
    {
        match level {
            Some(l) => {
                if i8::MIN as i64 <= l && l <= i8::MAX as i64 {
                    Ok(CurrentState { state: l as i8 })
                } else {
                    Err(MyError::Decode)
                }
            },
            None => Err(MyError::Decode),
        }
    }

    /// Decodes a status record from JSON bytes.
    pub fn from_json(b: &[u8]) -> (r: Result<CurrentState, MyError>)
        ensures
            r == (match record_level(b@) {
                Some(l) => Ok(CurrentState { state: l }),
                None => Err(MyError::Decode),
            }),
    {
        match parse_json(b) {
            Ok(v) => match v.pointer("/state") {
                Some(f) => CurrentState::from_level(f.as_i64()),
                None => Err(MyError::Decode),
            },
            Err(_) => Err(MyError::Decode),
        }
    }

    /// Whether this record lets a deferrable task run now.
    pub fn is_runnable(&self) -> (r: bool)
        ensures
            r == runnable(self.state as int),
    {
        self.state <= 1
    }
}

/// Decides on the bytes a fetch handed back: empty bytes are invalid data,
/// bytes that are no status record a decode failure, and otherwise the
/// record's level decides.
pub fn decide(data: &[u8]) -> (r: Result<bool, MyError>)
    ensures
        r == decision(data@),
{
    if data.len() == 0 {
        return Err(MyError::InvalidData);
    }
    match CurrentState::from_json(data) {
        Ok(cur) => Ok(cur.is_runnable()),
        Err(e) => Err(e),
    }
}

/// A level of at most one decides to run, a level of two or more not to.
pub proof fn lemma_decision_by_level(b: Seq<u8>, l: i8)
    requires
        b.len() > 0,
        record_level(b) == Some(l),
    ensures
        l <= 1 ==> decision(b) == Ok::<bool, MyError>(true),
        l >= 2 ==> decision(b) == Ok::<bool, MyError>(false),
{
}

/// The decision never turns from "do not run" to "run" as the level rises.
pub proof fn lemma_decision_monotone(b1: Seq<u8>, b2: Seq<u8>, l1: i8, l2: i8)
    requires
        b1.len() > 0,
        b2.len() > 0,
        record_level(b1) == Some(l1),
        record_level(b2) == Some(l2),
        l1 <= l2,
    ensures
        decision(b2) == Ok::<bool, MyError>(true) ==> decision(b1) == Ok::<bool, MyError>(true),
{
}

/// Empty bytes are invalid data, never a decode failure.
pub proof fn lemma_empty_is_invalid_data(b: Seq<u8>)
    requires
        b.len() == 0,
    ensures
        decision(b) == Err::<bool, MyError>(MyError::InvalidData),
        decision(b) != Err::<bool, MyError>(MyError::Decode),
{
}

/// Non-empty bytes that hold no status record are a decode failure.
pub proof fn lemma_malformed_is_decode_failure(b: Seq<u8>)
    requires
        b.len() > 0,
        record_level(b) is None,
    ensures
        decision(b) == Err::<bool, MyError>(MyError::Decode),
{
}

} // verus!
