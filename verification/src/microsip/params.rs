//! Parámetros de un documento, ya resueltos a lo que espera la API nativa.

use vstd::prelude::*;

use crate::decimal::Decimal;
use crate::doble::Doble;

verus! {

/// Parámetros de un renglón de factura (`RenglonFactura`).
#[derive(Debug)]
pub struct RenglonParams {
    pub articulo_id: i32,
    pub unidades: Decimal,
    /// -1 = precio según las políticas de Microsip.
    pub precio_unitario: Decimal,
    /// -1 = descuento según las políticas de Microsip.
    pub pctje_dscto: Decimal,
    pub notas: String,
}

/// Parámetros de una factura (`NuevaFactura` y lo que la acompaña).
#[derive(Debug)]
pub struct FacturaParams {
    /// «DD/MM/AAAA».
    pub fecha: String,
    /// Vacío = folio automático sin serie.
    pub folio: String,
    pub cliente_id: i32,
    /// 0 = dirección principal del cliente.
    pub dir_consig_id: i32,
    /// 0 = almacén principal de la empresa.
    pub almacen_id: i32,
    /// «P» (porcentaje) o «I» (importe).
    pub tipo_dscto: String,
    pub descuento: Doble,
    pub orden_compra: String,
    pub descripcion: String,
    pub fletes: Doble,
    pub otros_cargos: Doble,
    /// -1 = según las políticas de comisión de vendedores.
    pub pctje_comis: Doble,
    /// 0 = condición de pago del cliente.
    pub cond_pago_id: i32,
    /// 0 = vendedor del cliente.
    pub vendedor_id: i32,
    /// 0 = sin sustitución de impuesto.
    pub impto_sustituido_id: i32,
    pub impto_sustituto_id: i32,
    /// -1 = cobro automático del total.
    pub importe_cobro: Doble,
    pub descripcion_cobro: String,
    /// Pares (nombre, valor); vacío = sin lista de parámetros.
    pub lista_parametros: Vec<(String, String)>,
    pub dir_cliente_id: Option<i32>,
    pub formas_cobro_cbb: Vec<i32>,
    pub renglones: Vec<RenglonParams>,
}

/// Aplicación de un crédito contra un cargo (`RenglonCreditoCc`).
#[derive(Debug)]
pub struct AplicacionCreditoParams {
    /// 0 = el cargo se identifica solo por su folio.
    pub cargo_id: i32,
    pub folio_cargo: String,
    pub importe: Decimal,
    /// -1 = descuento por pronto pago automático.
    pub dscto_ppag: Doble,
}

/// Parámetros de un crédito (`NuevoCreditoCc` y lo que lo acompaña).
#[derive(Debug)]
pub struct CreditoParams {
    /// 0 = concepto «Cobro».
    pub concepto_cc_id: i32,
    /// «DD/MM/AAAA HH:MM».
    pub fecha: String,
    /// Vacío = folio automático.
    pub folio: String,
    pub cliente_id: i32,
    pub descripcion: String,
    /// 0 = cobrador asignado al cliente.
    pub cobrador_id: i32,
    /// Pares (nombre, valor); vacío = sin lista de parámetros.
    pub lista_parametros: Vec<(String, String)>,
    pub aplicaciones: Vec<AplicacionCreditoParams>,
}

} // verus!
