//! La puerta de entrada universal: convierte un módulo ausente en un error
//! con nombre.

use std::sync::Arc;
use vstd::prelude::*;

use crate::error::{ErrorV, IskandarError};
use crate::provider::ERPProvider;

verus! {

/// Un provider visto por sus usuarios.
pub struct ERPClient<P> {
    pub provider: Arc<P>,
}

/// El error de pedir un módulo que el provider no tiene.
pub open spec fn error_modulo(provider: Seq<char>, module: Seq<char>) -> ErrorV {
    ErrorV::UnsupportedModule { provider, module }
}

/// El módulo pedido, o el error de no tenerlo.
pub open spec fn es_modulo<M>(
    r: Result<&M, IskandarError>,
    modulo: Option<&M>,
    provider: Seq<char>,
    nombre: Seq<char>,
) -> bool {
    match (r, modulo) {
        (Ok(a), Some(b)) => a == b,
        (Err(e), None) => e@ == error_modulo(provider, nombre),
        _ => false,
    }
}

impl<P: ERPProvider> ERPClient<P> {
    pub fn new(provider: Arc<P>) -> (r: ERPClient<P>)
        ensures
            r.provider == provider,
    {
        ERPClient { provider }
    }

    /// El provider (nombre, capacidades, prueba de conexión).
    pub fn provider(&self) -> (r: &P)
        ensures
            *r == *self.provider,
    {
        &*self.provider
    }

    fn modulo<'a, M>(&self, modulo: Option<&'a M>, nombre: &str) -> (r: Result<
        &'a M,
        IskandarError,
    >)
        ensures
            es_modulo(r, modulo, self.provider.nombre(), nombre@),
    {
        match modulo {
            Some(m) => Ok(m),
            None => Err(
                IskandarError::UnsupportedModule {
                    provider: self.provider.name().to_owned(),
                    module: nombre.to_owned(),
                },
            ),
        }
    }

    pub fn clientes(&self) -> (r: Result<&P::Clientes, IskandarError>)
        ensures
            es_modulo(
                r,
                self.provider.modulo_clientes(),
                self.provider.nombre(),
                "clientes"@,
            ),
            self.provider.modulo_clientes() matches Some(m) ==> (r matches Ok(a) && a == m),
            self.provider.modulo_clientes() is None ==> (r matches Err(e) && e@ == (
            ErrorV::UnsupportedModule { provider: self.provider.nombre(), module: "clientes"@ })),
    {
        self.modulo(self.provider.clientes(), "clientes")
    }

    pub fn facturas(&self) -> (r: Result<&P::Facturas, IskandarError>)
        ensures
            es_modulo(
                r,
                self.provider.modulo_facturas(),
                self.provider.nombre(),
                "facturas"@,
            ),
            self.provider.modulo_facturas() matches Some(m) ==> (r matches Ok(a) && a == m),
            self.provider.modulo_facturas() is None ==> (r matches Err(e) && e@ == (
            ErrorV::UnsupportedModule { provider: self.provider.nombre(), module: "facturas"@ })),
    {
        self.modulo(self.provider.facturas(), "facturas")
    }

    pub fn pedidos(&self) -> (r: Result<&P::Pedidos, IskandarError>)
        ensures
            es_modulo(r, self.provider.modulo_pedidos(), self.provider.nombre(), "pedidos"@),
            self.provider.modulo_pedidos() matches Some(m) ==> (r matches Ok(a) && a == m),
            self.provider.modulo_pedidos() is None ==> (r matches Err(e) && e@ == (
            ErrorV::UnsupportedModule { provider: self.provider.nombre(), module: "pedidos"@ })),
    {
        self.modulo(self.provider.pedidos(), "pedidos")
    }

    pub fn inventario(&self) -> (r: Result<&P::Inventario, IskandarError>)
        ensures
            es_modulo(
                r,
                self.provider.modulo_inventario(),
                self.provider.nombre(),
                "inventario"@,
            ),
            self.provider.modulo_inventario() matches Some(m) ==> (r matches Ok(a) && a == m),
            self.provider.modulo_inventario() is None ==> (r matches Err(e) && e@ == (
            ErrorV::UnsupportedModule { provider: self.provider.nombre(), module: "inventario"@ })),
    {
        self.modulo(self.provider.inventario(), "inventario")
    }

    pub fn compras(&self) -> (r: Result<&P::Compras, IskandarError>)
        ensures
            es_modulo(r, self.provider.modulo_compras(), self.provider.nombre(), "compras"@),
            self.provider.modulo_compras() matches Some(m) ==> (r matches Ok(a) && a == m),
            self.provider.modulo_compras() is None ==> (r matches Err(e) && e@ == (
            ErrorV::UnsupportedModule { provider: self.provider.nombre(), module: "compras"@ })),
    {
        self.modulo(self.provider.compras(), "compras")
    }

    pub fn cxc(&self) -> (r: Result<&P::Cxc, IskandarError>)
        ensures
            es_modulo(r, self.provider.modulo_cxc(), self.provider.nombre(), "cxc"@),
            self.provider.modulo_cxc() matches Some(m) ==> (r matches Ok(a) && a == m),
            self.provider.modulo_cxc() is None ==> (r matches Err(e) && e@ == (
            ErrorV::UnsupportedModule { provider: self.provider.nombre(), module: "cxc"@ })),
    {
        self.modulo(self.provider.cxc(), "cxc")
    }

    pub fn contabilidad(&self) -> (r: Result<&P::Contabilidad, IskandarError>)
        ensures
            es_modulo(
                r,
                self.provider.modulo_contabilidad(),
                self.provider.nombre(),
                "contabilidad"@,
            ),
            self.provider.modulo_contabilidad() matches Some(m) ==> (r matches Ok(a) && a == m),
            self.provider.modulo_contabilidad() is None ==> (r matches Err(e) && e@ == (
            ErrorV::UnsupportedModule { provider: self.provider.nombre(), module: "contabilidad"@ })),
    {
        self.modulo(self.provider.contabilidad(), "contabilidad")
    }

    pub fn security(&self) -> (r: Result<&P::Security, IskandarError>)
        ensures
            es_modulo(
                r,
                self.provider.modulo_security(),
                self.provider.nombre(),
                "security"@,
            ),
            self.provider.modulo_security() matches Some(m) ==> (r matches Ok(a) && a == m),
            self.provider.modulo_security() is None ==> (r matches Err(e) && e@ == (
            ErrorV::UnsupportedModule { provider: self.provider.nombre(), module: "security"@ })),
    {
        self.modulo(self.provider.security(), "security")
    }
}

/// Lo anunciado se entrega y lo demás se niega: pedir un módulo tiene éxito si
/// y solo si el provider lo anuncia.
pub proof fn ley_anunciado<M>(
    r: Result<&M, IskandarError>,
    modulo: Option<&M>,
    provider: Seq<char>,
    nombre: Seq<char>,
)
    requires
        es_modulo(r, modulo, provider, nombre),
    ensures
        r is Ok <==> modulo is Some,
        r matches Ok(m) ==> modulo == Some(m),
        r matches Err(e) ==> e@ == (ErrorV::UnsupportedModule { provider, module: nombre }),
{
}

} // verus!
