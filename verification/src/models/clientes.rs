//! Clientes (terceros del lado de la venta).

use vstd::prelude::*;

use crate::extra::Extra;
use crate::models::common::{EntidadId, IdFiscal, Moneda};

verus! {

#[derive(Debug, Clone)]
pub struct Cliente {
    pub id: EntidadId,
    pub nombre: String,
    pub id_fiscal: Option<IdFiscal>,
    pub email: Option<String>,
    pub telefono: Option<String>,
    pub moneda: Option<Moneda>,
    pub extra: Extra,
}

#[derive(Debug, Clone)]
pub struct NuevoCliente {
    pub nombre: String,
    pub id_fiscal: Option<IdFiscal>,
    pub email: Option<String>,
    pub telefono: Option<String>,
    pub extra: Extra,
}

#[derive(Debug, Clone)]
pub struct FiltroClientes {
    /// Búsqueda libre sobre nombre / identificador fiscal.
    pub texto: Option<String>,
    pub limite: Option<u32>,
    pub pagina: Option<u32>,
}

impl Default for FiltroClientes {
    fn default() -> (r: FiltroClientes)
        ensures
            r.texto is None && r.limite is None && r.pagina is None,
    {
        FiltroClientes { texto: None, limite: None, pagina: None }
    }
}

} // verus!
