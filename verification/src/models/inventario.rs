//! Inventario: artículos y movimientos (entradas / salidas).

use vstd::prelude::*;

use crate::decimal::Decimal;
use crate::extra::Extra;
use crate::fecha::Fecha;
use crate::models::common::EntidadId;

verus! {

#[derive(Debug, Clone)]
pub struct Articulo {
    pub id: EntidadId,
    pub nombre: String,
    pub clave: Option<String>,
    pub precio_lista: Option<Decimal>,
    pub existencia: Option<Decimal>,
    pub extra: Extra,
}

#[derive(Debug, Clone)]
pub struct FiltroArticulos {
    pub texto: Option<String>,
    pub limite: Option<u32>,
    pub pagina: Option<u32>,
}

impl Default for FiltroArticulos {
    fn default() -> (r: FiltroArticulos)
        ensures
            r.texto is None && r.limite is None && r.pagina is None,
    {
        FiltroArticulos { texto: None, limite: None, pagina: None }
    }
}

#[derive(Debug, Clone)]
pub struct MovimientoRenglon {
    pub articulo_id: EntidadId,
    pub unidades: Decimal,
    /// `None` = costo calculado por el ERP.
    pub costo_unitario: Option<Decimal>,
}

#[derive(Debug, Clone)]
pub struct NuevaEntrada {
    pub almacen_id: EntidadId,
    pub fecha: Option<Fecha>,
    pub folio: Option<String>,
    pub descripcion: Option<String>,
    pub renglones: Vec<MovimientoRenglon>,
    pub extra: Extra,
}

#[derive(Debug, Clone)]
pub struct NuevaSalida {
    pub almacen_id: EntidadId,
    /// Para traspasos: almacén que recibe. `None` = salida simple.
    pub almacen_destino_id: Option<EntidadId>,
    pub fecha: Option<Fecha>,
    pub folio: Option<String>,
    pub descripcion: Option<String>,
    pub renglones: Vec<MovimientoRenglon>,
    pub extra: Extra,
}

#[derive(Debug, Clone)]
pub struct DocumentoInventario {
    pub id: EntidadId,
    pub folio: String,
}

} // verus!
