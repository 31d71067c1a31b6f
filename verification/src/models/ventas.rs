//! Documentos de venta: facturas y pedidos.

use vstd::prelude::*;

use crate::decimal::Decimal;
use crate::extra::Extra;
use crate::fecha::Fecha;
use crate::models::common::{EntidadId, Moneda, Renglon};

verus! {

#[derive(Debug, Clone)]
pub struct NuevaFactura {
    pub cliente_id: EntidadId,
    /// `None` = fecha del día.
    pub fecha: Option<Fecha>,
    /// `None` = folio automático (serie por defecto del ERP).
    pub folio: Option<String>,
    pub renglones: Vec<Renglon>,
    pub moneda: Option<Moneda>,
    pub descripcion: Option<String>,
    /// Parámetros específicos del provider.
    pub extra: Extra,
}

#[derive(Debug, Clone)]
pub struct Factura {
    pub id: EntidadId,
    pub folio: String,
    pub fecha: Fecha,
    pub cliente_id: EntidadId,
    pub total: Option<Decimal>,
    pub extra: Extra,
}

#[derive(Debug, Clone)]
pub struct NuevoPedido {
    pub cliente_id: EntidadId,
    pub fecha: Option<Fecha>,
    pub folio: Option<String>,
    pub fecha_entrega: Option<Fecha>,
    pub renglones: Vec<Renglon>,
    pub descripcion: Option<String>,
    pub extra: Extra,
}

#[derive(Debug, Clone)]
pub struct Pedido {
    pub id: EntidadId,
    pub folio: String,
    pub fecha: Fecha,
    pub cliente_id: EntidadId,
    pub extra: Extra,
}

} // verus!
