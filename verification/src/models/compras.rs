//! Compras: proveedores, órdenes de compra y compras.

use vstd::prelude::*;

use crate::extra::Extra;
use crate::fecha::Fecha;
use crate::models::common::{EntidadId, IdFiscal, Renglon};

verus! {

#[derive(Debug, Clone)]
pub struct Proveedor {
    pub id: EntidadId,
    pub nombre: String,
    pub id_fiscal: Option<IdFiscal>,
    pub extra: Extra,
}

#[derive(Debug, Clone)]
pub struct NuevaOrdenCompra {
    pub proveedor_id: EntidadId,
    pub almacen_id: Option<EntidadId>,
    pub fecha: Option<Fecha>,
    pub folio: Option<String>,
    pub fecha_entrega: Option<Fecha>,
    pub renglones: Vec<Renglon>,
    pub descripcion: Option<String>,
    pub extra: Extra,
}

#[derive(Debug, Clone)]
pub struct OrdenCompra {
    pub id: EntidadId,
    pub folio: String,
}

#[derive(Debug, Clone)]
pub struct NuevaCompra {
    pub proveedor_id: EntidadId,
    pub almacen_id: Option<EntidadId>,
    /// Número de factura del proveedor (obligatorio en varios ERPs).
    pub factura_proveedor: String,
    pub fecha: Option<Fecha>,
    pub folio: Option<String>,
    pub renglones: Vec<Renglon>,
    pub descripcion: Option<String>,
    pub extra: Extra,
}

#[derive(Debug, Clone)]
pub struct Compra {
    pub id: EntidadId,
    pub folio: String,
}

} // verus!
