//! Contabilidad: pólizas.

use vstd::prelude::*;

use crate::extra::Extra;
use crate::fecha::Fecha;
use crate::models::common::EntidadId;

verus! {

#[derive(Debug, Clone)]
pub struct Poliza {
    pub id: EntidadId,
    pub fecha: Fecha,
    pub concepto: Option<String>,
    pub extra: Extra,
}

#[derive(Debug, Clone)]
pub struct FiltroPolizas {
    pub desde: Option<Fecha>,
    pub hasta: Option<Fecha>,
    pub limite: Option<u32>,
}

impl Default for FiltroPolizas {
    fn default() -> (r: FiltroPolizas)
        ensures
            r.desde is None && r.hasta is None && r.limite is None,
    {
        FiltroPolizas { desde: None, hasta: None, limite: None }
    }
}

} // verus!
