//! Named queries against the database. Everything that reaches the database
//! goes through the mailbox of one connection actor, in the order in which it
//! was sent.

use crate::json::{Json, Lacks};
use crate::table::table;
use vstd::pervasive::unreached;
use vstd::prelude::*;

pub mod client_actor;
pub mod report_api;
pub mod report_manager;

verus! {

/// What a report is asked: which one, and with which parameters.
#[derive(Clone, Debug, PartialEq, Eq)]
pub struct QueryInfo {
    pub name: String,
    pub params: Json,
}

impl QueryInfo {
    /// `payload` holds what a report is asked: it is an object with a text
    /// under `name` and anything under `params`.
    pub open spec fn held_by(payload: Json) -> bool {
        &&& payload matches Json::Object(members)
        &&& payload.lacks("name"@, "params"@) is None
        &&& table(members@)["name"@] is Text
    }

    /// Why `payload` does not hold what a report is asked.
    pub open spec fn complaint(payload: Json) -> Seq<char> {
        match payload.lacks("name"@, "params"@) {
            Some(Lacks::Object) => "invalid type: expected an object with `name` and `params`"@,
            Some(Lacks::First) => "missing field `name`"@,
            Some(Lacks::Second) => "missing field `params`"@,
            None => "invalid type for field `name`: expected a string"@,
        }
    }

    /// Reads what a report is asked out of `payload`. Where `payload` does not
    /// hold it, it comes back as it was, with the reason.
    pub fn read(payload: Json) -> (asked: Result<QueryInfo, (Json, String)>)
        ensures
            match payload {
                Json::Object(members) if Self::held_by(payload) => {
                    &&& asked matches Ok(info)
                    &&& Json::Text(info.name) == table(members@)["name"@]
                    &&& info.params == table(members@)["params"@]
                },
                _ => {
                    &&& asked matches Err((back, said))
                    &&& back == payload
                    &&& said@ == Self::complaint(payload)
                },
            },
    {
        proof {
            reveal_strlit("name");
            reveal_strlit("params");
            assert("name"@.len() != "params"@.len());
        }
        let named = match payload.member("name") {
            Some(Json::Text(_)) => true,
            Some(_) => false,
            None => true,
        };
        if !named {
            match payload.member("params") {
                Some(_) => {
                    return Err(
                        (payload, "invalid type for field `name`: expected a string".to_owned()),
                    );
                },
                None => {
                    return Err((payload, "missing field `params`".to_owned()));
                },
            }
        }
        match payload.take_two("name", "params") {
            Ok((Json::Text(name), params)) => Ok(QueryInfo { name, params }),
            Ok(_) => unreached(),
            Err((back, Lacks::Object)) => Err(
                (back, "invalid type: expected an object with `name` and `params`".to_owned()),
            ),
            Err((back, Lacks::First)) => Err((back, "missing field `name`".to_owned())),
            Err((back, Lacks::Second)) => Err((back, "missing field `params`".to_owned())),
        }
    }
}

/// Why a report gave no rows.
#[derive(Clone, Debug, PartialEq, Eq)]
pub enum ReportError {
    /// The report was used before its statement was prepared.
    UninitializedResource,
    /// The payload does not hold the parameters that the report declares.
    ParamDecodeFailure,
    /// The database refused or failed; the text is its own.
    BackendError(String),
    /// The work of a transaction failed; the text says how.
    TransactionFailure(String),
}

impl ReportError {
    /// The failure in words.
    pub open spec fn text(&self) -> Seq<char> {
        match self {
            ReportError::UninitializedResource => "Report statement not initialized"@,
            ReportError::ParamDecodeFailure => "Parameters for query could not be parsed"@,
            ReportError::BackendError(said) => said@,
            ReportError::TransactionFailure(said) => said@,
        }
    }

    /// The failure in words.
    pub fn message(&self) -> (message: String)
        ensures
            message@ == self.text(),
    {
        match self {
            ReportError::UninitializedResource => "Report statement not initialized".to_owned(),
            ReportError::ParamDecodeFailure => "Parameters for query could not be parsed".to_owned(),
            ReportError::BackendError(said) => said.clone(),
            ReportError::TransactionFailure(said) => said.clone(),
        }
    }
}

/// A kind of value that a statement takes as a parameter.
#[derive(Clone, Copy, Debug, PartialEq, Eq)]
pub enum Type {
    Bool,
    Int4,
    Int8,
    Text,
}

/// A value bound to a parameter of a statement.
#[derive(Clone, Debug, PartialEq, Eq)]
pub enum SqlValue {
    Bool(bool),
    Int4(i32),
    Int8(i64),
    Text(String),
}

/// The handle of a prepared statement: the ticket of the message that
/// registered it.
#[derive(Clone, Copy, Debug, PartialEq, Eq)]
pub struct Statement(pub u64);

} // verus!
