//! Cuentas por cobrar: créditos (cobros) y anticipos.

use vstd::prelude::*;

use crate::decimal::Decimal;
use crate::extra::Extra;
use crate::fecha::FechaHora;
use crate::models::common::EntidadId;

verus! {

/// Aplicación de un crédito contra un cargo existente.
#[derive(Debug, Clone)]
pub struct AplicacionCargo {
    pub cargo_id: Option<EntidadId>,
    pub folio_cargo: Option<String>,
    pub importe: Decimal,
}

#[derive(Debug, Clone)]
pub struct NuevoCredito {
    /// Concepto de CxC según el catálogo del ERP.
    pub concepto_id: EntidadId,
    pub cliente_id: EntidadId,
    pub fecha: Option<FechaHora>,
    pub folio: Option<String>,
    pub descripcion: Option<String>,
    pub aplicaciones: Vec<AplicacionCargo>,
    pub extra: Extra,
}

#[derive(Debug, Clone)]
pub struct Credito {
    pub id: EntidadId,
    pub folio: String,
}

} // verus!
