//! The errors of the library.

use vstd::prelude::*;
use crate::text::push_text;

verus! {

/// The error type of `rusqlite`.
#[verifier::external_type_specification]
#[verifier::external_body]
pub struct ExSqlError(rusqlite::Error);

/// The error type of std's I/O.
#[verifier::external_type_specification]
#[verifier::external_body]
pub struct ExIoError(std::io::Error);

/// Why an operation of the tracker failed.
#[derive(Debug)]
pub enum RatariaError {
    /// The store refused or failed a statement.
    Database(rusqlite::Error),
    /// The password does not open the store.
    WrongPassword,
    /// No record has the given id.
    NotFound(String),
    /// An import file is malformed or incomplete.
    ImportError(String),
    /// The terminal or a file could not be used.
    IoError(std::io::Error),
    /// Password hashing or verification failed.
    CryptoError(String),
}

/// The message of a `rusqlite` error (its `Display`). The error is opaque
/// here, so nothing is stated of the text.
#[verifier::external_body]
fn sql_error_text(e: &rusqlite::Error) -> (r: String) {
    e.to_string()
}

/// The message of an I/O error (its `Display`). The error is opaque here, so
/// nothing is stated of the text.
#[verifier::external_body]
fn io_error_text(e: &std::io::Error) -> (r: String) {
    e.to_string()
}

/// The message shown for an error.
pub open spec fn message_spec(e: RatariaError) -> Option<Seq<char>> {
    match e {
        RatariaError::WrongPassword => Some("Senha incorreta ou banco corrompido"@),
        RatariaError::NotFound(m) => Some("Não encontrado: "@ + m@),
        RatariaError::ImportError(m) => Some("Erro de importação: "@ + m@),
        RatariaError::CryptoError(m) => Some("Erro de criptografia: "@ + m@),
        _ => None,
    }
}

impl RatariaError {
    /// The message shown for this error: a prefix naming its kind, then the
    /// detail it carries.
    pub fn message(&self) -> (r: String)
        ensures
            message_spec(*self) matches Some(m) ==> r@ == m,
            self is Database ==> "Erro no banco de dados: "@.is_prefix_of(r@),
            self is IoError ==> "Erro ao criar diretório de dados: "@.is_prefix_of(r@),
    {
        let (prefix, detail) = match self {
            RatariaError::Database(e) => ("Erro no banco de dados: ", sql_error_text(e)),
            RatariaError::WrongPassword => ("Senha incorreta ou banco corrompido", String::new()),
            RatariaError::NotFound(m) => ("Não encontrado: ", m.clone()),
            RatariaError::ImportError(m) => ("Erro de importação: ", m.clone()),
            RatariaError::IoError(e) => ("Erro ao criar diretório de dados: ", io_error_text(e)),
            RatariaError::CryptoError(m) => ("Erro de criptografia: ", m.clone()),
        };
        let mut r = prefix.to_owned();
        push_text(&mut r, detail.as_str());
        r
    }
}

} // verus!
