//! La capa HTTP: qué provider atiende, quién puede pedir y con qué estado se
//! responde un error.

use std::sync::Arc;
use vstd::prelude::*;

use crate::catalogo::Catalogo;
use crate::client::ERPClient;
use crate::error::{ErrorV, IskandarError};
use crate::provider::ERPProvider;
use crate::texto::iguales;

verus! {

/// El estado del servidor: los providers activos y el token que se exige.
pub struct ApiState<P> {
    pub providers: Catalogo<Arc<P>>,
    pub api_token: String,
}

/// La cabecera `Authorization` que presenta quien conoce el token.
pub open spec fn cabecera_de(token: Seq<char>) -> Seq<char> {
    "Bearer "@ + token
}

impl<P: ERPProvider> ApiState<P> {
    pub fn new(providers: Catalogo<Arc<P>>, api_token: String) -> (r: ApiState<P>)
        ensures
            r.providers == providers,
            r.api_token == api_token,
    {
        ApiState { providers, api_token }
    }

    /// El cliente del provider de ese nombre.
    pub fn client(&self, nombre: &str) -> (r: Result<ERPClient<P>, IskandarError>)
        ensures
            match r {
                Ok(c) => self.providers@.contains_key(nombre@) && c.provider
                    == self.providers@[nombre@],
                Err(e) => !self.providers@.contains_key(nombre@) && e@
                    == ErrorV::UnknownProvider(nombre@),
            },
    {
        match self.providers.tomar(nombre) {
            Some(p) => Ok(ERPClient::new(p.clone())),
            None => Err(IskandarError::UnknownProvider(nombre.to_owned())),
        }
    }

    /// `true` si la cabecera `Authorization` es `Bearer` y el token.
    pub fn autoriza(&self, cabecera: Option<&str>) -> (r: bool)
        ensures
            r == (cabecera matches Some(c) && c@ == cabecera_de(self.api_token@)),
            r <==> (cabecera matches Some(c) && c@ == "Bearer "@ + self.api_token@),
    {
        match cabecera {
            Some(c) => iguales(c, "Bearer ".to_owned().concat(self.api_token.as_str()).as_str()),
            None => false,
        }
    }
}

/// El estado HTTP de un error.
pub open spec fn estado_de(e: ErrorV) -> u16 {
    match e {
        ErrorV::UnknownProvider(_) | ErrorV::NotFound(_) => 404,
        ErrorV::UnsupportedModule { .. } | ErrorV::NotImplemented(_) => 501,
        ErrorV::Validation(_) | ErrorV::Config(_) => 400,
        ErrorV::Connection(_) | ErrorV::Provider { .. } | ErrorV::Io(_) => 502,
    }
}

/// El estado HTTP de cada clase de error, traiga lo que traiga: 404 si lo que se
/// pide no existe, 501 si no se soporta, 400 si la petición está mal y 502 si
/// falló el sistema de atrás.
pub proof fn ley_estados_http(e: ErrorV)
    ensures
        match e {
            ErrorV::UnknownProvider(_) => estado_de(e) == 404,
            ErrorV::NotFound(_) => estado_de(e) == 404,
            ErrorV::UnsupportedModule { .. } => estado_de(e) == 501,
            ErrorV::NotImplemented(_) => estado_de(e) == 501,
            ErrorV::Validation(_) => estado_de(e) == 400,
            ErrorV::Config(_) => estado_de(e) == 400,
            ErrorV::Connection(_) => estado_de(e) == 502,
            ErrorV::Provider { .. } => estado_de(e) == 502,
            ErrorV::Io(_) => estado_de(e) == 502,
        },
{
}

/// La cabecera de un token es `Bearer`, un espacio y el token entero: dos tokens
/// distintos no comparten cabecera, y ninguna otra cabecera vale por ella.
pub proof fn ley_cabecera(token: Seq<char>, otro: Seq<char>)
    ensures
        cabecera_de(token).len() == token.len() + 7,
        cabecera_de(token).take(7) =~= seq!['B', 'e', 'a', 'r', 'e', 'r', ' '],
        cabecera_de(token).skip(7) =~= token,
        cabecera_de(token) == cabecera_de(otro) ==> token == otro,
{
    reveal_strlit("Bearer ");
    assert(cabecera_de(token).skip(7) =~= token);
    assert(cabecera_de(otro).skip(7) =~= otro);
}

/// El estado HTTP con el que se responde un error.
pub fn estado_http(e: &IskandarError) -> (r: u16)
    ensures
        r == estado_de(e@),
        match *e {
            IskandarError::UnknownProvider(_) => r == 404,
            IskandarError::NotFound(_) => r == 404,
            IskandarError::UnsupportedModule { .. } => r == 501,
            IskandarError::NotImplemented(_) => r == 501,
            IskandarError::Validation(_) => r == 400,
            IskandarError::Config(_) => r == 400,
            IskandarError::Connection(_) => r == 502,
            IskandarError::Provider { .. } => r == 502,
            IskandarError::Io(_) => r == 502,
        },
{
    match e {
        IskandarError::UnknownProvider(_) | IskandarError::NotFound(_) => 404,
        IskandarError::UnsupportedModule { .. } | IskandarError::NotImplemented(_) => 501,
        IskandarError::Validation(_) | IskandarError::Config(_) => 400,
        IskandarError::Connection(_) | IskandarError::Provider { .. } | IskandarError::Io(_) => 502,
    }
}

} // verus!
