//! The one environmental fact translation depends on.

use vstd::prelude::*;

verus! {

/// The outcome of asking the host for the process's current working
/// directory. The surrounding program performs the actual query and hands
/// the translator this plain value, so translation itself does no I/O.
#[derive(Debug)]
pub enum CwdQuery {
    /// The query failed (directory deleted, permission revoked, or similar).
    Unavailable,
    /// The query returned a path that valid UTF-8 text cannot represent.
    NonUtf8,
    /// The query returned this absolute path as UTF-8 text.
    Utf8(String),
}

/// The environment state a single translation runs against.
#[derive(Debug)]
pub struct Environment {
    pub cwd: CwdQuery,
}

/// The mathematical value of a `CwdQuery`.
pub enum CwdQueryModel {
    Unavailable,
    NonUtf8,
    Utf8(Seq<char>),
}

/// The mathematical value of an `Environment`.
pub struct EnvironmentModel {
    pub cwd: CwdQueryModel,
}

impl View for CwdQuery {
    type V = CwdQueryModel;

    open spec fn view(&self) -> CwdQueryModel {
        match *self {
            CwdQuery::Unavailable => CwdQueryModel::Unavailable,
            CwdQuery::NonUtf8 => CwdQueryModel::NonUtf8,
            CwdQuery::Utf8(path) => CwdQueryModel::Utf8(path@),
        }
    }
}

impl View for Environment {
    type V = EnvironmentModel;

    open spec fn view(&self) -> EnvironmentModel {
        EnvironmentModel { cwd: self.cwd@ }
    }
}

} // verus!
