//! Types of the account service's GraphQL answers, and how an answer is
//! read: the first reported error wins over any data.

use vstd::prelude::*;
use crate::state::LicenciaProducto;

verus! {

/// Endpoint of the account service.
pub const API_URL: &'static str = "https://sandbox.isipass.net/api";

/// Tokens handed out at sign-in.
pub struct LoginResponse {
    pub token: String,
    pub refresh_token: String,
}

/// A GraphQL answer: data, errors, or both.
pub struct GraphQLResponse<T> {
    pub data: Option<T>,
    pub errors: Option<Vec<GraphQLError>>,
}

/// One error of a GraphQL answer.
pub struct GraphQLError {
    pub message: String,
}

/// Data of the sign-in answer.
pub struct LoginData {
    pub login: LoginResponse,
}

/// Data of the licence listing answer.
pub struct LicenciaData {
    pub licencia_producto_listado: Vec<LicenciaProducto>,
}

/// Reads a GraphQL answer: its first error when it reports any, else its
/// data, else `empty_message`.
pub fn graphql_outcome<T>(response: GraphQLResponse<T>, empty_message: &str) -> (r: Result<T, String>)
    ensures
        match response.errors {
            Some(es) if es@.len() > 0 => r matches Err(m) && m@ == es@[0].message@,
            _ => match response.data {
                Some(d) => r == Ok::<T, String>(d),
                None => r matches Err(m) && m@ == empty_message@,
            },
        },
{
    match &response.errors {
        Some(es) => {
            if es.len() > 0 {
                return Err(es[0].message.clone());
            }
        },
        None => {},
    }
    match response.data {
        Some(d) => Ok(d),
        None => Err(String::from_str(empty_message)),
    }
}

} // verus!
