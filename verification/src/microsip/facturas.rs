//! Facturas de Microsip: de la factura universal a los parámetros nativos, y
//! de la fila leída a la factura universal.

use vstd::prelude::*;

use crate::cadena::{formato_debug, texto_debug};
use crate::decimal::{restar, sumar, Decimal, DecimalV};
use crate::doble::{Doble, BITS_CERO, BITS_MENOS_UNO};
use crate::error::{ErrorV, IskandarError};
use crate::extra::{
    construir_lista_parametros, contenido, doble_extra, entero_extra, extra_f64, extra_i64,
    extra_string, extra_vacio, leer_doble, leer_entero, leer_lista, lista_de, pares_de,
    par_simple, sin_claves, texto_extra, textos_de, Extra, JsonV,
};
use crate::fecha::{
    fecha_de_hoy, fecha_leida, fecha_texto, formatear_fecha, leer_fecha, Fecha, FechaV,
};
use crate::garantias::extras::vale;
use crate::garantias::factura::{ley_alta_factura, paso_encabezado};
use crate::garantias::pasos::llamada;
use crate::microsip::comun::{
    entidad_id_a_i32, error_id, error_id_consulta, es_consulta, falla_de, id_consulta, numero_de,
    o_bien, o_vacio, texto_o_vacio, truncado, truncar,
};
use crate::microsip::config::{ruta, MicrosipConfig};
use crate::microsip::dll::{al_inicio, MicrosipDll};
use crate::microsip::fila::{
    fallo_texto, lecturas_de_entero, lecturas_de_texto, ley_campo_entero, ley_campo_texto,
    ley_leyo_recortado, leyo, leyo_entero, FilaV, RowReader,
};
use crate::microsip::guiones::consulta::{campos_de, consulta_cabe, Campo, CampoV, Consulta};
use crate::microsip::guiones::factura::programa_factura;
use crate::microsip::maquina::Maquina;
use crate::microsip::nativo::{Exige, Modulo, OperandoV, Regla};
use crate::microsip::params::{FacturaParams, RenglonParams};
use crate::models::common::{EntidadId, EntidadIdV, Renglon};
use crate::models::ventas::{Factura, NuevaFactura};
use crate::texto::{
    entero_a_texto, entero_texto, leer_i64, parse_i64, recortado, recortar,
};

verus! {

// ---------------------------------------------------------------------
// De la factura universal a los parámetros nativos
// ---------------------------------------------------------------------

/// Por qué el importe de cobro no tiene valor por omisión.
pub const IMPORTE_COBRO_OBLIGATORIO: &'static str = "extra.ImporteCobro es obligatorio y no tiene default seguro: -1 registra el cobro TOTAL de la factura automáticamente; no existe ningún sentinela documentado para \"sin cobro\" en una factura a crédito válida. Especifícalo explícitamente (-1 para contado total, o el importe exacto a cobrar hoy; 0 es un SUPUESTO NO VERIFICADO — no lo asumas sin probarlo contra una base de PRUEBAS).";

/// Por qué una factura sin renglones se rechaza.
pub const SIN_RENGLONES: &'static str = "una factura necesita al menos un renglón (AplicaFactura retorna error 2 = 'No se han registrado renglones en la factura' si se manda vacía)";

/// Por qué se rechaza una sustitución de impuesto a medias.
pub const IMPUESTOS_A_MEDIAS: &'static str = "extra.ImptoSustituidoId y extra.ImptoSustitutoId deben ir ambos en 0 (sin sustitución de impuesto) o ambos mayores que 0, nunca uno solo";

/// Los dos impuestos de una sustitución van en cero, o los dos son positivos.
pub open spec fn impuestos_parejos(sustituido: int, sustituto: int) -> bool {
    (sustituido == 0 && sustituto == 0) || (sustituido > 0 && sustituto > 0)
}

/// El error de una sustitución de impuesto a medias.
pub open spec fn error_impuestos(x: Extra) -> Option<ErrorV> {
    if impuestos_parejos(
        truncado(entero_extra(x, "ImptoSustituidoId"@, 0)->Ok_0 as int),
        truncado(entero_extra(x, "ImptoSustitutoId"@, 0)->Ok_0 as int),
    ) {
        None
    } else {
        Some(ErrorV::Validation(IMPUESTOS_A_MEDIAS@))
    }
}

/// Las claves de `extra` que forman la lista de parámetros de una factura.
pub open spec fn claves_factura() -> Seq<Seq<char>> {
    seq![
        "USO_CFDI"@,
        "LUGAR_EXPEDICION_ID"@,
        "FORMA_COBRO_ID"@,
        "CENTRO_COSTO_ID"@,
        "IMPUESTO_INCLUIDO"@,
    ]
}

/// El importe de cobro: obligatorio y numérico.
pub open spec fn importe_cobro(m: Extra) -> Result<Doble, ErrorV> {
    if !contenido(m).contains_key("ImporteCobro"@) {
        Err(ErrorV::Validation(IMPORTE_COBRO_OBLIGATORIO@))
    } else {
        doble_extra(m, "ImporteCobro"@, Doble { bits: BITS_CERO })
    }
}

/// El importe de cobro, sin valor por omisión: nunca se inventa un 0 ni un -1.
pub fn importe_cobro_requerido(extra: &Extra) -> (r: Result<Doble, IskandarError>)
    ensures
        crate::extra::es_resultado(r, importe_cobro(*extra)),
        !contenido(*extra).contains_key("ImporteCobro"@) ==> (r matches Err(e) && e@
            == ErrorV::Validation(
            IMPORTE_COBRO_OBLIGATORIO@,
        )),
        contenido(*extra).contains_key("ImporteCobro"@) ==> match contenido(
            *extra,
        )["ImporteCobro"@] {
            JsonV::Flotante(b) => (r matches Ok(d) && d.bits == b),
            JsonV::Natural(_) => (r matches Ok(d) && vale(contenido(*extra)["ImporteCobro"@], d)),
            JsonV::Negativo(_) => (r matches Ok(d) && vale(contenido(*extra)["ImporteCobro"@], d)),
            _ => (r matches Err(e) && e@ == ErrorV::Validation(
                "extra."@ + "ImporteCobro"@ + " debe ser "@ + "numérico"@,
            )),
        },
{
    match leer_doble(extra, "ImporteCobro") {
        Some(Some(bits)) => Ok(Doble { bits }),
        Some(None) => {
            let e = IskandarError::Validation(
                "extra.".to_owned().concat("ImporteCobro").concat(" debe ser ").concat("numérico"),
            );
            Err(e)
        },
        None => Err(IskandarError::Validation(IMPORTE_COBRO_OBLIGATORIO.to_owned())),
    }
}

/// Los enteros de una lista, truncados; lo que no es entero se salta.
pub open spec fn enteros_presentes(s: Seq<Option<i64>>) -> Seq<int>
    decreases s.len(),
{
    if s.len() == 0 {
        seq![]
    } else {
        match s.last() {
            Some(n) => enteros_presentes(s.drop_last()).push(truncado(n as int)),
            None => enteros_presentes(s.drop_last()),
        }
    }
}

/// Las formas de cobro de `extra`; ninguna si no hay un arreglo.
pub open spec fn formas_cobro(m: Extra) -> Seq<int> {
    if contenido(m).contains_key("FormasCobroCbb"@) {
        match contenido(m)["FormasCobroCbb"@].enteros() {
            Some(s) => enteros_presentes(s),
            None => seq![],
        }
    } else {
        seq![]
    }
}

/// La dirección del cliente de `extra`, si es un entero.
pub open spec fn direccion_cliente(m: Extra) -> Option<int> {
    if contenido(m).contains_key("DirClienteId"@) {
        match contenido(m)["DirClienteId"@].entero() {
            Some(n) => Some(truncado(n as int)),
            None => None,
        }
    } else {
        None
    }
}

fn leer_formas_cobro(extra: &Extra) -> (r: Vec<i32>)
    ensures
        r@.map_values(|n: i32| n as int) == formas_cobro(*extra),
{
    let mut r: Vec<i32> = Vec::new();
    proof {
        assert(r@.map_values(|n: i32| n as int) =~= seq![]);
    }
    if let Some(Some(lista)) = leer_lista(extra, "FormasCobroCbb") {
        let mut i: usize = 0;
        proof {
            assert(lista@.take(0) =~= seq![]);
        }
        while i < lista.len()
            invariant
                i <= lista@.len(),
                r@.map_values(|n: i32| n as int) == enteros_presentes(lista@.take(i as int)),
            decreases lista@.len() - i,
        {
            let ghost antes = r@;
            proof {
                assert(lista@.take(i + 1).drop_last() =~= lista@.take(i as int));
            }
            if let Some(n) = lista[i] {
                r.push(truncar(n));
                proof {
                    assert(r@.map_values(|n: i32| n as int) =~= antes.map_values(
                        |n: i32| n as int,
                    ).push(truncado(n as int)));
                }
            }
            i = i + 1;
        }
        proof {
            assert(lista@.take(i as int) =~= lista@);
        }
    }
    r
}

/// El decimal que se manda cuando el renglón no lo trae: -1, «según las
/// políticas de Microsip».
pub open spec fn o_politica(d: Option<Decimal>, r: Decimal) -> bool {
    match d {
        Some(x) => r == x,
        None => r@ == (DecimalV { mantisa: -1, escala: 0 }),
    }
}

/// Los parámetros de un renglón son los de su renglón universal.
pub open spec fn es_renglon(r: Renglon, p: RenglonParams) -> bool {
    &&& r.articulo_id@ matches EntidadIdV::Numerico(n) && p.articulo_id == truncado(n as int)
    &&& p.unidades == r.unidades
    &&& o_politica(r.precio_unitario, p.precio_unitario)
    &&& o_politica(r.descuento_pctje, p.pctje_dscto)
    &&& p.notas@ == texto_o_vacio(r.notas)
}

/// Los parámetros de un renglón.
pub fn mapear_renglon(renglon: &Renglon) -> (r: Result<RenglonParams, IskandarError>)
    ensures
        match r {
            Ok(p) => es_renglon(*renglon, p),
            Err(e) => error_id("articulo_id"@, renglon.articulo_id@) == Some(e@),
        },
        r matches Ok(p) ==> p.unidades == renglon.unidades,
        r matches Ok(p) ==> match renglon.precio_unitario {
            Some(d) => p.precio_unitario == d,
            None => p.precio_unitario@.mantisa == -1 && p.precio_unitario@.escala == 0,
        },
        r matches Ok(p) ==> match renglon.descuento_pctje {
            Some(d) => p.pctje_dscto == d,
            None => p.pctje_dscto@.mantisa == -1 && p.pctje_dscto@.escala == 0,
        },
        r matches Ok(p) ==> match renglon.notas {
            Some(t) => p.notas@ == t@,
            None => p.notas@.len() == 0,
        },
        match renglon.articulo_id@ {
            EntidadIdV::Numerico(n) => r is Ok && (r->Ok_0.articulo_id - n) % 0x1_0000_0000 == 0,
            EntidadIdV::Texto(t) => (r matches Err(e) && e@ == ErrorV::Validation(
                "articulo_id"@ + " debe ser numérico en Microsip, recibido: '"@ + t + "'"@,
            )),
        },
{
    match entidad_id_a_i32("articulo_id", &renglon.articulo_id) {
        Err(e) => Err(e),
        Ok(articulo_id) => Ok(
            RenglonParams {
                articulo_id,
                unidades: renglon.unidades,
                precio_unitario: match renglon.precio_unitario {
                    Some(p) => p,
                    None => Decimal::new(-1, 0),
                },
                pctje_dscto: match renglon.descuento_pctje {
                    Some(p) => p,
                    None => Decimal::new(-1, 0),
                },
                notas: o_vacio(&renglon.notas),
            },
        ),
    }
}

/// El error del primer renglón cuyo artículo no es numérico.
pub open spec fn error_renglones(s: Seq<Renglon>) -> Option<ErrorV>
    decreases s.len(),
{
    if s.len() == 0 {
        None
    } else {
        o_bien(error_renglones(s.drop_last()), error_id("articulo_id"@, s.last().articulo_id@))
    }
}

fn mapear_renglones(renglones: &Vec<Renglon>) -> (r: Result<Vec<RenglonParams>, IskandarError>)
    ensures
        match r {
            Ok(v) => {
                &&& error_renglones(renglones@) is None
                &&& v@.len() == renglones@.len()
                &&& forall|i: int| 0 <= i < v@.len() ==> #[trigger] es_renglon(renglones@[i], v@[i])
            },
            Err(e) => error_renglones(renglones@) == Some(e@),
        },
{
    let mut v: Vec<RenglonParams> = Vec::new();
    let mut i: usize = 0;
    while i < renglones.len()
        invariant
            i <= renglones@.len(),
            v@.len() == i,
            error_renglones(renglones@.take(i as int)) is None,
            forall|j: int| 0 <= j < i ==> #[trigger] es_renglon(renglones@[j], v@[j]),
        decreases renglones@.len() - i,
    {
        proof {
            assert(renglones@.take(i + 1).drop_last() =~= renglones@.take(i as int));
        }
        match mapear_renglon(&renglones[i]) {
            Ok(p) => {
                v.push(p);
            },
            Err(e) => {
                proof {
                    lema_error_renglones(renglones@, i + 1);
                }
                return Err(e);
            },
        }
        i = i + 1;
    }
    proof {
        assert(renglones@.take(i as int) =~= renglones@);
    }
    Ok(v)
}

proof fn lema_error_renglones(s: Seq<Renglon>, n: int)
    requires
        0 <= n <= s.len(),
        error_renglones(s.take(n)) is Some,
    ensures
        error_renglones(s) == error_renglones(s.take(n)),
    decreases s.len() - n,
{
    if n < s.len() {
        assert(s.take(n + 1).drop_last() =~= s.take(n));
        lema_error_renglones(s, n + 1);
    } else {
        assert(s.take(n) =~= s);
    }
}

/// El primer error de una factura, en el orden en que se revisa.
pub open spec fn error_factura(f: NuevaFactura) -> Option<ErrorV> {
    let x = f.extra;
    let cero = Doble { bits: BITS_CERO };
    o_bien(
        error_id("cliente_id"@, f.cliente_id@),
        o_bien(
            falla_de(entero_extra(x, "DirConsigId"@, 0)),
            o_bien(
                falla_de(entero_extra(x, "AlmacenId"@, 0)),
                o_bien(
                    falla_de(texto_extra(x, "TipoDscto"@, "P"@)),
                    o_bien(
                        falla_de(doble_extra(x, "Descuento"@, cero)),
                        o_bien(
                            falla_de(texto_extra(x, "OrdenCompra"@, ""@)),
                            o_bien(
                                falla_de(doble_extra(x, "Fletes"@, cero)),
                                o_bien(
                                    falla_de(doble_extra(x, "OtrosCargos"@, cero)),
                                    error_factura_resto(f),
                                ),
                            ),
                        ),
                    ),
                ),
            ),
        ),
    )
}

/// La segunda mitad de la revisión de una factura.
pub open spec fn error_factura_resto(f: NuevaFactura) -> Option<ErrorV> {
    let x = f.extra;
    let menos_uno = Doble { bits: BITS_MENOS_UNO };
    o_bien(
        falla_de(doble_extra(x, "PctjeComis"@, menos_uno)),
        o_bien(
            falla_de(entero_extra(x, "CondPagoId"@, 0)),
            o_bien(
                falla_de(entero_extra(x, "VendedorId"@, 0)),
                o_bien(
                    falla_de(entero_extra(x, "ImptoSustituidoId"@, 0)),
                    o_bien(
                        falla_de(entero_extra(x, "ImptoSustitutoId"@, 0)),
                        o_bien(
                            error_impuestos(x),
                            o_bien(
                                falla_de(texto_extra(x, "DescripcionCobro"@, ""@)),
                                o_bien(
                                    falla_de(importe_cobro(x)),
                                    o_bien(
                                        error_renglones(f.renglones@),
                                        if f.renglones@.len() == 0 {
                                            Some(ErrorV::Validation(SIN_RENGLONES@))
                                        } else {
                                            None
                                        },
                                    ),
                                ),
                            ),
                        ),
                    ),
                ),
            ),
        ),
    )
}

/// Los parámetros nativos de una factura: lo que trae el modelo universal, lo
/// que trae `extra`, y si falta, el valor por omisión de Microsip.
pub open spec fn es_factura(f: NuevaFactura, hoy: Fecha, p: FacturaParams) -> bool {
    let x = f.extra;
    let cero = Doble { bits: BITS_CERO };
    let menos_uno = Doble { bits: BITS_MENOS_UNO };
    &&& p.fecha@ == fecha_texto(
        match f.fecha {
            Some(d) => d@,
            None => hoy@,
        },
    )
    &&& p.folio@ == texto_o_vacio(f.folio)
    &&& f.cliente_id@ matches EntidadIdV::Numerico(n) && p.cliente_id == truncado(n as int)
    &&& p.dir_consig_id == truncado(entero_extra(x, "DirConsigId"@, 0)->Ok_0 as int)
    &&& p.almacen_id == truncado(entero_extra(x, "AlmacenId"@, 0)->Ok_0 as int)
    &&& p.tipo_dscto@ == texto_extra(x, "TipoDscto"@, "P"@)->Ok_0
    &&& p.descuento == doble_extra(x, "Descuento"@, cero)->Ok_0
    &&& p.orden_compra@ == texto_extra(x, "OrdenCompra"@, ""@)->Ok_0
    &&& p.descripcion@ == texto_o_vacio(f.descripcion)
    &&& p.fletes == doble_extra(x, "Fletes"@, cero)->Ok_0
    &&& p.otros_cargos == doble_extra(x, "OtrosCargos"@, cero)->Ok_0
    &&& p.pctje_comis == doble_extra(x, "PctjeComis"@, menos_uno)->Ok_0
    &&& p.cond_pago_id == truncado(entero_extra(x, "CondPagoId"@, 0)->Ok_0 as int)
    &&& p.vendedor_id == truncado(entero_extra(x, "VendedorId"@, 0)->Ok_0 as int)
    &&& p.impto_sustituido_id == truncado(entero_extra(x, "ImptoSustituidoId"@, 0)->Ok_0 as int)
    &&& p.impto_sustituto_id == truncado(entero_extra(x, "ImptoSustitutoId"@, 0)->Ok_0 as int)
    &&& p.importe_cobro == importe_cobro(x)->Ok_0
    &&& p.descripcion_cobro@ == texto_extra(x, "DescripcionCobro"@, ""@)->Ok_0
    &&& pares_de(p.lista_parametros@) == lista_de(x, claves_factura())
    &&& forall|i: int|
        0 <= i < p.lista_parametros@.len() ==> par_simple(x, #[trigger] p.lista_parametros@[i])
    &&& match (p.dir_cliente_id, direccion_cliente(x)) {
        (Some(a), Some(b)) => a == b,
        (None, None) => true,
        _ => false,
    }
    &&& p.formas_cobro_cbb@.map_values(|n: i32| n as int) == formas_cobro(x)
    &&& p.renglones@.len() == f.renglones@.len()
    &&& forall|i: int|
        0 <= i < p.renglones@.len() ==> #[trigger] es_renglon(f.renglones@[i], p.renglones@[i])
}

/// Los parámetros nativos de una factura, con la fecha del día si no trae la
/// suya.
pub fn mapear_nueva_factura(factura: &NuevaFactura) -> (r: Result<FacturaParams, IskandarError>)
    ensures
        match r {
            Ok(p) => error_factura(*factura) is None && exists|hoy: Fecha|
                hoy@.valida() && #[trigger] es_factura(*factura, hoy, p),
            Err(e) => error_factura(*factura) == Some(e@),
        },
{
    mapear_nueva_factura_en(factura, fecha_de_hoy())
}

/// Los parámetros nativos de una factura. `hoy` es la fecha del día, que se
/// usa si la factura no trae la suya; la moneda no tiene parámetro nativo.
pub fn mapear_nueva_factura_en(factura: &NuevaFactura, hoy: Fecha) -> (r: Result<
    FacturaParams,
    IskandarError,
>)
    ensures
        match r {
            Ok(p) => error_factura(*factura) is None && es_factura(*factura, hoy, p),
            Err(e) => error_factura(*factura) == Some(e@),
        },
{
    let cero = Doble { bits: BITS_CERO };
    let menos_uno = Doble { bits: BITS_MENOS_UNO };
    let extra = &factura.extra;
    let cliente_id = match entidad_id_a_i32("cliente_id", &factura.cliente_id) {
        Ok(n) => n,
        Err(e) => {
            return Err(e);
        },
    };
    let fecha = match &factura.fecha {
        Some(f) => formatear_fecha(f),
        None => formatear_fecha(&hoy),
    };
    let folio = o_vacio(&factura.folio);
    let descripcion = o_vacio(&factura.descripcion);
    let dir_consig_id = match extra_i64(extra, "DirConsigId", 0) {
        Ok(n) => truncar(n),
        Err(e) => {
            return Err(e);
        },
    };
    let almacen_id = match extra_i64(extra, "AlmacenId", 0) {
        Ok(n) => truncar(n),
        Err(e) => {
            return Err(e);
        },
    };
    let tipo_dscto = match extra_string(extra, "TipoDscto", "P") {
        Ok(s) => s,
        Err(e) => {
            return Err(e);
        },
    };
    let descuento = match extra_f64(extra, "Descuento", cero) {
        Ok(d) => d,
        Err(e) => {
            return Err(e);
        },
    };
    let orden_compra = match extra_string(extra, "OrdenCompra", "") {
        Ok(s) => s,
        Err(e) => {
            return Err(e);
        },
    };
    let fletes = match extra_f64(extra, "Fletes", cero) {
        Ok(d) => d,
        Err(e) => {
            return Err(e);
        },
    };
    let otros_cargos = match extra_f64(extra, "OtrosCargos", cero) {
        Ok(d) => d,
        Err(e) => {
            return Err(e);
        },
    };
    let pctje_comis = match extra_f64(extra, "PctjeComis", menos_uno) {
        Ok(d) => d,
        Err(e) => {
            return Err(e);
        },
    };
    let cond_pago_id = match extra_i64(extra, "CondPagoId", 0) {
        Ok(n) => truncar(n),
        Err(e) => {
            return Err(e);
        },
    };
    let vendedor_id = match extra_i64(extra, "VendedorId", 0) {
        Ok(n) => truncar(n),
        Err(e) => {
            return Err(e);
        },
    };
    let impto_sustituido_id = match extra_i64(extra, "ImptoSustituidoId", 0) {
        Ok(n) => truncar(n),
        Err(e) => {
            return Err(e);
        },
    };
    let impto_sustituto_id = match extra_i64(extra, "ImptoSustitutoId", 0) {
        Ok(n) => truncar(n),
        Err(e) => {
            return Err(e);
        },
    };
    if !((impto_sustituido_id == 0 && impto_sustituto_id == 0) || (impto_sustituido_id > 0
        && impto_sustituto_id > 0)) {
        return Err(IskandarError::Validation(IMPUESTOS_A_MEDIAS.to_owned()));
    }
    let descripcion_cobro = match extra_string(extra, "DescripcionCobro", "") {
        Ok(s) => s,
        Err(e) => {
            return Err(e);
        },
    };
    let importe_cobro = match importe_cobro_requerido(extra) {
        Ok(d) => d,
        Err(e) => {
            return Err(e);
        },
    };
    let claves: Vec<&'static str> = vec![
        "USO_CFDI",
        "LUGAR_EXPEDICION_ID",
        "FORMA_COBRO_ID",
        "CENTRO_COSTO_ID",
        "IMPUESTO_INCLUIDO",
    ];
    proof {
        assert(textos_de(claves@) =~= claves_factura());
    }
    let lista_parametros = construir_lista_parametros(extra, &claves);
    let dir_cliente_id: Option<i32> = match leer_entero(extra, "DirClienteId") {
        Some(Some(n)) => Some(truncar(n)),
        _ => None,
    };
    let formas_cobro_cbb = leer_formas_cobro(extra);
    let renglones = match mapear_renglones(&factura.renglones) {
        Ok(v) => v,
        Err(e) => {
            return Err(e);
        },
    };
    if renglones.len() == 0 {
        return Err(IskandarError::Validation(SIN_RENGLONES.to_owned()));
    }
    Ok(
        FacturaParams {
            fecha,
            folio,
            cliente_id,
            dir_consig_id,
            almacen_id,
            tipo_dscto,
            descuento,
            orden_compra,
            descripcion,
            fletes,
            otros_cargos,
            pctje_comis,
            cond_pago_id,
            vendedor_id,
            impto_sustituido_id,
            impto_sustituto_id,
            importe_cobro,
            descripcion_cobro,
            lista_parametros,
            dir_cliente_id,
            formas_cobro_cbb,
            renglones,
        },
    )
}

/// Ninguna factura se registra sin que quien la pide diga cuánto se cobra, ni
/// sin renglones.
pub proof fn ley_factura_completa(f: NuevaFactura)
    requires
        error_factura(f) is None,
    ensures
        contenido(f.extra).contains_key("ImporteCobro"@),
        contenido(f.extra)["ImporteCobro"@].es_numero(),
        f.renglones@.len() > 0,
        f.cliente_id@ is Numerico,
{
}

/// Los parámetros de una factura nunca llevan media sustitución de impuesto.
pub proof fn ley_impuestos_parejos(f: NuevaFactura, hoy: Fecha, p: FacturaParams)
    requires
        error_factura(f) is None,
        es_factura(f, hoy, p),
    ensures
        impuestos_parejos(p.impto_sustituido_id as int, p.impto_sustituto_id as int),
{
}

// ---------------------------------------------------------------------
// De la fila leída a la factura universal
// ---------------------------------------------------------------------

/// Escala de los montos de `DOCTOS_VE`, guardados sin punto decimal.
pub const ESCALA_MONTOS: u32 = 2;

/// Los campos que se leen de una factura.
pub open spec fn campos_factura() -> Seq<CampoV> {
    seq![
        CampoV::Entero("DOCTO_VE_ID"@, Exige::Lectura),
        CampoV::Entero("CLIENTE_ID"@, Exige::Lectura),
        CampoV::Texto("IMPORTE_NETO"@, Exige::Monto),
        CampoV::Texto("TOTAL_IMPUESTOS"@, Exige::Monto),
        CampoV::Texto("FLETES"@, Exige::Monto),
        CampoV::Texto("OTROS_CARGOS"@, Exige::Monto),
        CampoV::Texto("DSCTO_IMPORTE"@, Exige::Monto),
        CampoV::Texto("TOTAL_RETENCIONES"@, Exige::Monto),
        CampoV::Texto("FOLIO"@, Exige::Lectura),
        CampoV::Texto("FECHA"@, Exige::Lectura),
    ]
}

/// Un monto leído, en centésimas.
pub open spec fn monto(fila: FilaV, campo: Seq<char>) -> Result<i64, ErrorV> {
    match fila.texto(campo) {
        Err(e) => Err(e),
        Ok(raw) => match leer_i64(recortado(raw)) {
            Some(n) => Ok(n),
            None => Err(
                ErrorV::Validation(
                    "valor monetario no numérico en "@ + campo + ": "@ + texto_debug(raw),
                ),
            ),
        },
    }
}

/// Lee un monto guardado sin punto decimal («150000» es 1500.00).
pub fn monto_field(row: &RowReader, campo: &str) -> (r: Result<Decimal, IskandarError>)
    ensures
        match (r, monto(row@, campo@)) {
            (Ok(d), Ok(n)) => d@ == (DecimalV {
                mantisa: n as int,
                escala: ESCALA_MONTOS as int,
            }),
            (Err(e), Err(f)) => e@ == f,
            _ => false,
        },
        forall|n: i64| #[trigger]
            leyo_monto(row@, campo@, n) && !campo@.contains('\0') ==> (r matches Ok(d)
                && d@.mantisa == n && d@.escala == 2),
        forall|t: Seq<char>| #[trigger]
            leyo(row@, campo@, t) && leer_i64(t) is None && !campo@.contains('\0') ==> (r matches Err(
                e,
            ) && e@ == ErrorV::Validation(
                "valor monetario no numérico en "@ + campo@ + ": "@ + texto_debug(t),
            )),
{
    proof {
        if !campo@.contains('\0') {
            ley_monto(row@, campo@);
        }
    }
    match row.str_field(campo) {
        Err(e) => Err(e),
        Ok(raw) => match parse_i64(recortar(raw.as_str()).as_str()) {
            Some(n) => Ok(Decimal::new(n, ESCALA_MONTOS)),
            None => Err(
                IskandarError::Validation(
                    "valor monetario no numérico en ".to_owned().concat(campo).concat(": ").concat(
                        formato_debug(raw.as_str()).as_str(),
                    ),
                ),
            ),
        },
    }
}

/// Una fecha leída.
pub open spec fn fecha_de(fila: FilaV, campo: Seq<char>) -> Result<FechaV, ErrorV> {
    match fila.texto(campo) {
        Err(e) => Err(e),
        Ok(raw) => match fecha_leida(recortado(raw)) {
            Some(f) => Ok(f),
            None => Err(
                ErrorV::Validation(
                    "formato de fecha inesperado en "@ + campo + ": "@ + texto_debug(raw)
                        + " (se esperaba DD/MM/AAAA)"@,
                ),
            ),
        },
    }
}

/// Interpreta el texto leído de un campo de fecha, conocido lo que se leyó de
/// él como fecha.
pub fn fecha_o_error(campo: &str, raw: &str, leida: Option<Fecha>) -> (r: Result<
    Fecha,
    IskandarError,
>)
    ensures
        match (r, leida) {
            (Ok(f), Some(g)) => f == g,
            (Err(e), None) => e@ == ErrorV::Validation(
                "formato de fecha inesperado en "@ + campo@ + ": "@ + texto_debug(raw@)
                    + " (se esperaba DD/MM/AAAA)"@,
            ),
            _ => false,
        },
{
    match leida {
        Some(f) => Ok(f),
        None => Err(
            IskandarError::Validation(
                "formato de fecha inesperado en ".to_owned().concat(campo).concat(": ").concat(
                    formato_debug(raw).as_str(),
                ).concat(" (se esperaba DD/MM/AAAA)"),
            ),
        ),
    }
}

/// Lee una fecha en la forma «DD/MM/AAAA».
pub fn fecha_field(row: &RowReader, campo: &str) -> (r: Result<Fecha, IskandarError>)
    ensures
        match (r, fecha_de(row@, campo@)) {
            (Ok(f), Ok(v)) => f@ == v,
            (Err(e), Err(f)) => e@ == f,
            _ => false,
        },
        forall|f: FechaV|
            f.valida() && 0 <= f.anio <= 9999 && (row@.texto(campo@) matches Ok(raw) && recortado(
                raw,
            ) == #[trigger] fecha_texto(f)) ==> r is Ok && r->Ok_0@ == f,
        forall|f: FechaV|
            f.valida() && 0 <= f.anio <= 9999 && #[trigger] leyo(row@, campo@, fecha_texto(f))
                && !campo@.contains('\0') ==> r is Ok && r->Ok_0@ == f,
        forall|rc: i32| #[trigger]
            fallo_texto(row@, campo@, rc) && !campo@.contains('\0') ==> (r matches Err(e) && e@ == (
            ErrorV::Provider {
                code: rc,
                message: "error leyendo campo '"@ + campo@ + "'"@,
            })),
        forall|t: Seq<char>| #[trigger]
            leyo(row@, campo@, t) && fecha_leida(t) is None && !campo@.contains('\0') ==> (
            r matches Err(e) && e@ == ErrorV::Validation(
                "formato de fecha inesperado en "@ + campo@ + ": "@ + texto_debug(t)
                    + " (se esperaba DD/MM/AAAA)"@,
            )),
{
    proof {
        assert forall|t: Seq<char>| #[trigger] leyo(row@, campo@, t) implies recortado(t) == t by {
            ley_leyo_recortado(row@, campo@, t);
        }
        if !campo@.contains('\0') {
            ley_campo_texto(row@, campo@);
        }
    }
    match row.str_field(campo) {
        Err(e) => Err(e),
        Ok(raw) => {
            let leida = leer_fecha(recortar(raw.as_str()).as_str());
            fecha_o_error(campo, raw.as_str(), leida)
        },
    }
}

/// El total de una factura, en centésimas.
pub open spec fn total_factura(fila: FilaV) -> int {
    monto(fila, "IMPORTE_NETO"@)->Ok_0 + monto(fila, "TOTAL_IMPUESTOS"@)->Ok_0 + monto(
        fila,
        "FLETES"@,
    )->Ok_0 + monto(fila, "OTROS_CARGOS"@)->Ok_0 - monto(fila, "DSCTO_IMPORTE"@)->Ok_0 - monto(
        fila,
        "TOTAL_RETENCIONES"@,
    )->Ok_0
}

/// El primer error de una fila de factura, en el orden en que se lee; la fecha
/// es lo último.
pub open spec fn error_fila_factura(fila: FilaV) -> Option<ErrorV> {
    o_bien(error_fila_sin_fecha(fila), falla_de(fecha_de(fila, "FECHA"@)))
}

/// El primer error de los campos de una factura que no son la fecha.
pub open spec fn error_fila_sin_fecha(fila: FilaV) -> Option<ErrorV> {
    o_bien(
        falla_de(fila.entero("DOCTO_VE_ID"@)),
        o_bien(
            falla_de(fila.entero("CLIENTE_ID"@)),
            o_bien(
                falla_de(monto(fila, "IMPORTE_NETO"@)),
                o_bien(
                    falla_de(monto(fila, "TOTAL_IMPUESTOS"@)),
                    o_bien(
                        falla_de(monto(fila, "FLETES"@)),
                        o_bien(
                            falla_de(monto(fila, "OTROS_CARGOS"@)),
                            o_bien(
                                falla_de(monto(fila, "DSCTO_IMPORTE"@)),
                                o_bien(
                                    falla_de(monto(fila, "TOTAL_RETENCIONES"@)),
                                    falla_de(fila.texto("FOLIO"@)),
                                ),
                            ),
                        ),
                    ),
                ),
            ),
        ),
    )
}

/// La factura que una fila describe: el total es neto más impuestos, fletes y
/// otros cargos, menos descuento y retenciones.
pub open spec fn es_factura_leida(fila: FilaV, f: Factura) -> bool {
    &&& f.id@ == EntidadIdV::Numerico(fila.entero("DOCTO_VE_ID"@)->Ok_0 as i64)
    &&& f.cliente_id@ == EntidadIdV::Numerico(fila.entero("CLIENTE_ID"@)->Ok_0 as i64)
    &&& f.folio@ == fila.texto("FOLIO"@)->Ok_0
    &&& f.fecha@ == fecha_de(fila, "FECHA"@)->Ok_0
    &&& f.total matches Some(t) && t@ == (DecimalV {
        mantisa: total_factura(fila),
        escala: ESCALA_MONTOS as int,
    })
    &&& contenido(f.extra) == sin_claves()
}

/// La primera lectura de `campo` dio código 0 y un texto que es el entero `n`.
pub open spec fn leyo_monto(fila: FilaV, campo: Seq<char>, n: i64) -> bool {
    exists|t: Seq<char>| #[trigger] leyo(fila, campo, t) && leer_i64(t) == Some(n)
}

/// Un monto es el entero que se leyó, y un campo que no trae un entero es un
/// error que lo cita.
pub proof fn ley_monto(fila: FilaV, campo: Seq<char>)
    requires
        !campo.contains('\0'),
    ensures
        forall|n: i64| #[trigger]
            leyo_monto(fila, campo, n) ==> monto(fila, campo) == Ok::<_, ErrorV>(n),
        forall|t: Seq<char>| #[trigger]
            leyo(fila, campo, t) && leer_i64(t) is None ==> monto(fila, campo) == Err::<i64, _>(
                ErrorV::Validation(
                    "valor monetario no numérico en "@ + campo + ": "@ + texto_debug(t),
                ),
            ),
        forall|rc: i32| #[trigger]
            fallo_texto(fila, campo, rc) ==> monto(fila, campo) == Err::<i64, _>(
                ErrorV::Provider { code: rc, message: "error leyendo campo '"@ + campo + "'"@ },
            ),
{
    ley_campo_texto(fila, campo);
    assert forall|t: Seq<char>| #[trigger] leyo(fila, campo, t) implies recortado(t) == t by {
        ley_leyo_recortado(fila, campo, t);
    }
}

/// El total de una factura leída, en centésimas, es el neto más impuestos,
/// fletes y otros cargos, menos el descuento y las retenciones, valgan lo que
/// valgan.
pub proof fn ley_total_leido(
    fila: FilaV,
    f: Factura,
    a: i64,
    b: i64,
    c: i64,
    d: i64,
    e: i64,
    g: i64,
)
    requires
        error_fila_factura(fila) is None,
        es_factura_leida(fila, f),
        leyo_monto(fila, "IMPORTE_NETO"@, a),
        leyo_monto(fila, "TOTAL_IMPUESTOS"@, b),
        leyo_monto(fila, "FLETES"@, c),
        leyo_monto(fila, "OTROS_CARGOS"@, d),
        leyo_monto(fila, "DSCTO_IMPORTE"@, e),
        leyo_monto(fila, "TOTAL_RETENCIONES"@, g),
    ensures
        f.total matches Some(t) && t@.escala == 2 && t@.mantisa == a + b + c + d - e - g,
{
    lema_columnas_factura(fila);
}

/// Los demás datos de una factura leída son los de sus columnas; la fecha se
/// lee de «DD/MM/AAAA».
pub proof fn ley_factura_leida(fila: FilaV, f: Factura)
    requires
        error_fila_factura(fila) is None,
        es_factura_leida(fila, f),
    ensures
        forall|n: i32| #[trigger]
            leyo_entero(fila, "DOCTO_VE_ID"@, n) ==> f.id@ == EntidadIdV::Numerico(n as i64),
        forall|n: i32| #[trigger]
            leyo_entero(fila, "CLIENTE_ID"@, n) ==> f.cliente_id@ == EntidadIdV::Numerico(n as i64),
        forall|t: Seq<char>| #[trigger] leyo(fila, "FOLIO"@, t) ==> f.folio@ == t,
        forall|t: Seq<char>| #[trigger]
            leyo(fila, "FECHA"@, t) ==> Some(f.fecha@) == fecha_leida(t),
        contenido(f.extra) == Map::<Seq<char>, JsonV>::empty(),
{
    lema_columnas_factura(fila);
    assert forall|t: Seq<char>| #[trigger] leyo(fila, "FECHA"@, t) implies recortado(t) == t by {
        ley_leyo_recortado(fila, "FECHA"@, t);
    }
}

/// El error de una fila de factura es el de la primera columna que falla, en
/// este orden: los dos identificadores, los seis montos, el folio y la fecha.
pub proof fn ley_factura_ilegible(fila: FilaV, e: ErrorV)
    ensures
        fila.entero("DOCTO_VE_ID"@) == Err::<i32, _>(e) ==> error_fila_factura(fila) == Some(e),
        fila.entero("DOCTO_VE_ID"@) is Ok && fila.entero("CLIENTE_ID"@) == Err::<i32, _>(e)
            ==> error_fila_factura(fila)
            == Some(e),
        fila.entero("DOCTO_VE_ID"@) is Ok && fila.entero("CLIENTE_ID"@) is Ok
            && monto(fila, "IMPORTE_NETO"@) == Err::<i64, _>(e) ==> error_fila_factura(fila)
            == Some(e),
        fila.entero("DOCTO_VE_ID"@) is Ok && fila.entero("CLIENTE_ID"@) is Ok
            && monto(fila, "IMPORTE_NETO"@) is Ok
            && monto(fila, "TOTAL_IMPUESTOS"@) == Err::<i64, _>(e) ==> error_fila_factura(fila)
            == Some(e),
        fila.entero("DOCTO_VE_ID"@) is Ok && fila.entero("CLIENTE_ID"@) is Ok
            && monto(fila, "IMPORTE_NETO"@) is Ok && monto(fila, "TOTAL_IMPUESTOS"@) is Ok
            && monto(fila, "FLETES"@) == Err::<i64, _>(e) ==> error_fila_factura(fila)
            == Some(e),
        fila.entero("DOCTO_VE_ID"@) is Ok && fila.entero("CLIENTE_ID"@) is Ok
            && monto(fila, "IMPORTE_NETO"@) is Ok && monto(fila, "TOTAL_IMPUESTOS"@) is Ok
            && monto(fila, "FLETES"@) is Ok && monto(fila, "OTROS_CARGOS"@) == Err::<i64, _>(e)
            ==> error_fila_factura(fila)
            == Some(e),
        fila.entero("DOCTO_VE_ID"@) is Ok && fila.entero("CLIENTE_ID"@) is Ok
            && monto(fila, "IMPORTE_NETO"@) is Ok && monto(fila, "TOTAL_IMPUESTOS"@) is Ok
            && monto(fila, "FLETES"@) is Ok && monto(fila, "OTROS_CARGOS"@) is Ok
            && monto(fila, "DSCTO_IMPORTE"@) == Err::<i64, _>(e) ==> error_fila_factura(fila)
            == Some(e),
        fila.entero("DOCTO_VE_ID"@) is Ok && fila.entero("CLIENTE_ID"@) is Ok
            && monto(fila, "IMPORTE_NETO"@) is Ok && monto(fila, "TOTAL_IMPUESTOS"@) is Ok
            && monto(fila, "FLETES"@) is Ok && monto(fila, "OTROS_CARGOS"@) is Ok
            && monto(fila, "DSCTO_IMPORTE"@) is Ok
            && monto(fila, "TOTAL_RETENCIONES"@) == Err::<i64, _>(e) ==> error_fila_factura(fila)
            == Some(e),
        fila.entero("DOCTO_VE_ID"@) is Ok && fila.entero("CLIENTE_ID"@) is Ok
            && monto(fila, "IMPORTE_NETO"@) is Ok && monto(fila, "TOTAL_IMPUESTOS"@) is Ok
            && monto(fila, "FLETES"@) is Ok && monto(fila, "OTROS_CARGOS"@) is Ok
            && monto(fila, "DSCTO_IMPORTE"@) is Ok && monto(fila, "TOTAL_RETENCIONES"@) is Ok
            && fila.texto("FOLIO"@) == Err::<Seq<char>, _>(e) ==> error_fila_factura(fila)
            == Some(e),
        fila.entero("DOCTO_VE_ID"@) is Ok && fila.entero("CLIENTE_ID"@) is Ok
            && monto(fila, "IMPORTE_NETO"@) is Ok && monto(fila, "TOTAL_IMPUESTOS"@) is Ok
            && monto(fila, "FLETES"@) is Ok && monto(fila, "OTROS_CARGOS"@) is Ok
            && monto(fila, "DSCTO_IMPORTE"@) is Ok && monto(fila, "TOTAL_RETENCIONES"@) is Ok
            && fila.texto("FOLIO"@) is Ok && fecha_de(fila, "FECHA"@) == Err::<FechaV, _>(e)
            ==> error_fila_factura(fila)
            == Some(e),
        fila.entero("DOCTO_VE_ID"@) is Ok && fila.entero("CLIENTE_ID"@) is Ok
            && monto(fila, "IMPORTE_NETO"@) is Ok && monto(fila, "TOTAL_IMPUESTOS"@) is Ok
            && monto(fila, "FLETES"@) is Ok && monto(fila, "OTROS_CARGOS"@) is Ok
            && monto(fila, "DSCTO_IMPORTE"@) is Ok && monto(fila, "TOTAL_RETENCIONES"@) is Ok
            && fila.texto("FOLIO"@) is Ok && fecha_de(fila, "FECHA"@) is Ok
            ==> error_fila_factura(fila) is None,
{
}

proof fn lema_columnas_factura(fila: FilaV)
    ensures
        lecturas_de_entero(fila, "DOCTO_VE_ID"@),
        lecturas_de_entero(fila, "CLIENTE_ID"@),
        lecturas_de_texto(fila, "IMPORTE_NETO"@),
        lecturas_de_texto(fila, "TOTAL_IMPUESTOS"@),
        lecturas_de_texto(fila, "FLETES"@),
        lecturas_de_texto(fila, "OTROS_CARGOS"@),
        lecturas_de_texto(fila, "DSCTO_IMPORTE"@),
        lecturas_de_texto(fila, "TOTAL_RETENCIONES"@),
        lecturas_de_texto(fila, "FOLIO"@),
        lecturas_de_texto(fila, "FECHA"@),
        forall|n: i64| #[trigger]
            leyo_monto(fila, "IMPORTE_NETO"@, n) ==> monto(fila, "IMPORTE_NETO"@) == Ok::<_, ErrorV>(n),
        forall|n: i64| #[trigger]
            leyo_monto(fila, "TOTAL_IMPUESTOS"@, n) ==> monto(fila, "TOTAL_IMPUESTOS"@) == Ok::<_, ErrorV>(n),
        forall|n: i64| #[trigger]
            leyo_monto(fila, "FLETES"@, n) ==> monto(fila, "FLETES"@) == Ok::<_, ErrorV>(n),
        forall|n: i64| #[trigger]
            leyo_monto(fila, "OTROS_CARGOS"@, n) ==> monto(fila, "OTROS_CARGOS"@) == Ok::<_, ErrorV>(n),
        forall|n: i64| #[trigger]
            leyo_monto(fila, "DSCTO_IMPORTE"@, n) ==> monto(fila, "DSCTO_IMPORTE"@) == Ok::<_, ErrorV>(n),
        forall|n: i64| #[trigger]
            leyo_monto(fila, "TOTAL_RETENCIONES"@, n) ==> monto(fila, "TOTAL_RETENCIONES"@) == Ok::<_, ErrorV>(n),
{
    assert(!"DOCTO_VE_ID"@.contains('\0')) by {
        reveal_strlit("DOCTO_VE_ID");
    }
    assert(!"CLIENTE_ID"@.contains('\0')) by {
        reveal_strlit("CLIENTE_ID");
    }
    assert(!"IMPORTE_NETO"@.contains('\0')) by {
        reveal_strlit("IMPORTE_NETO");
    }
    assert(!"TOTAL_IMPUESTOS"@.contains('\0')) by {
        reveal_strlit("TOTAL_IMPUESTOS");
    }
    assert(!"FLETES"@.contains('\0')) by {
        reveal_strlit("FLETES");
    }
    assert(!"OTROS_CARGOS"@.contains('\0')) by {
        reveal_strlit("OTROS_CARGOS");
    }
    assert(!"DSCTO_IMPORTE"@.contains('\0')) by {
        reveal_strlit("DSCTO_IMPORTE");
    }
    assert(!"TOTAL_RETENCIONES"@.contains('\0')) by {
        reveal_strlit("TOTAL_RETENCIONES");
    }
    assert(!"FOLIO"@.contains('\0')) by {
        reveal_strlit("FOLIO");
    }
    assert(!"FECHA"@.contains('\0')) by {
        reveal_strlit("FECHA");
    }
    ley_campo_entero(fila, "DOCTO_VE_ID"@);
    ley_campo_entero(fila, "CLIENTE_ID"@);
    ley_campo_texto(fila, "IMPORTE_NETO"@);
    ley_campo_texto(fila, "TOTAL_IMPUESTOS"@);
    ley_campo_texto(fila, "FLETES"@);
    ley_campo_texto(fila, "OTROS_CARGOS"@);
    ley_campo_texto(fila, "DSCTO_IMPORTE"@);
    ley_campo_texto(fila, "TOTAL_RETENCIONES"@);
    ley_campo_texto(fila, "FOLIO"@);
    ley_campo_texto(fila, "FECHA"@);
    ley_monto(fila, "IMPORTE_NETO"@);
    ley_monto(fila, "TOTAL_IMPUESTOS"@);
    ley_monto(fila, "FLETES"@);
    ley_monto(fila, "OTROS_CARGOS"@);
    ley_monto(fila, "DSCTO_IMPORTE"@);
    ley_monto(fila, "TOTAL_RETENCIONES"@);
}

/// Convierte una fila de `DOCTOS_VE`.
pub fn map_factura_row(row: &RowReader) -> (r: Result<Factura, IskandarError>)
    ensures
        match r {
            Ok(f) => error_fila_factura(row@) is None && es_factura_leida(row@, f),
            Err(e) => error_fila_factura(row@) == Some(e@),
        },
        forall|d: FechaV|
            d.valida() && 0 <= d.anio <= 9999 && (row@.texto("FECHA"@) matches Ok(raw) && recortado(
                raw,
            ) == #[trigger] fecha_texto(d)) && error_fila_sin_fecha(row@) is None ==> r is Ok
                && r->Ok_0.fecha@ == d,
        forall|a: i64, b: i64, c: i64, d: i64, e: i64, g: i64|
            #[trigger] leyo_monto(row@, "IMPORTE_NETO"@, a)
                && #[trigger] leyo_monto(row@, "TOTAL_IMPUESTOS"@, b)
                && #[trigger] leyo_monto(row@, "FLETES"@, c)
                && #[trigger] leyo_monto(row@, "OTROS_CARGOS"@, d)
                && #[trigger] leyo_monto(row@, "DSCTO_IMPORTE"@, e)
                && #[trigger] leyo_monto(row@, "TOTAL_RETENCIONES"@, g) && r is Ok
                ==> (r->Ok_0.total matches Some(t) && t@.escala == 2 && t@.mantisa
                == a + b + c + d - e - g),
        forall|id: i32, cl: i32, a: i64, b: i64, c: i64, d: i64, e: i64, g: i64, fo: Seq<char>, dia: FechaV|
            #[trigger] leyo_entero(row@, "DOCTO_VE_ID"@, id)
                && #[trigger] leyo_entero(row@, "CLIENTE_ID"@, cl)
                && #[trigger] leyo_monto(row@, "IMPORTE_NETO"@, a)
                && #[trigger] leyo_monto(row@, "TOTAL_IMPUESTOS"@, b)
                && #[trigger] leyo_monto(row@, "FLETES"@, c)
                && #[trigger] leyo_monto(row@, "OTROS_CARGOS"@, d)
                && #[trigger] leyo_monto(row@, "DSCTO_IMPORTE"@, e)
                && #[trigger] leyo_monto(row@, "TOTAL_RETENCIONES"@, g)
                && #[trigger] leyo(row@, "FOLIO"@, fo)
                && #[trigger] leyo(row@, "FECHA"@, fecha_texto(dia)) && dia.valida()
                && 0 <= dia.anio <= 9999 ==> (r matches Ok(f)
                && f.id@ == EntidadIdV::Numerico(id as i64) && f.cliente_id@
                == EntidadIdV::Numerico(cl as i64) && f.folio@ == fo && f.fecha@ == dia),
{
    proof {
        lema_columnas_factura(row@);
        assert forall|t: Seq<char>| #[trigger] leyo(row@, "FECHA"@, t) implies recortado(t)
            == t by {
            ley_leyo_recortado(row@, "FECHA"@, t);
        }
    }
    let docto_id = match row.int_field("DOCTO_VE_ID") {
        Ok(n) => n,
        Err(e) => {
            return Err(e);
        },
    };
    let cliente_id = match row.int_field("CLIENTE_ID") {
        Ok(n) => n,
        Err(e) => {
            return Err(e);
        },
    };
    let importe_neto = match monto_field(row, "IMPORTE_NETO") {
        Ok(d) => d,
        Err(e) => {
            return Err(e);
        },
    };
    let total_impuestos = match monto_field(row, "TOTAL_IMPUESTOS") {
        Ok(d) => d,
        Err(e) => {
            return Err(e);
        },
    };
    let fletes = match monto_field(row, "FLETES") {
        Ok(d) => d,
        Err(e) => {
            return Err(e);
        },
    };
    let otros_cargos = match monto_field(row, "OTROS_CARGOS") {
        Ok(d) => d,
        Err(e) => {
            return Err(e);
        },
    };
    let dscto = match monto_field(row, "DSCTO_IMPORTE") {
        Ok(d) => d,
        Err(e) => {
            return Err(e);
        },
    };
    let retenciones = match monto_field(row, "TOTAL_RETENCIONES") {
        Ok(d) => d,
        Err(e) => {
            return Err(e);
        },
    };
    let bruto = sumar(sumar(sumar(importe_neto, total_impuestos), fletes), otros_cargos);
    let total = restar(restar(bruto, dscto), retenciones);
    let folio = match row.str_field("FOLIO") {
        Ok(s) => s,
        Err(e) => {
            return Err(e);
        },
    };
    let fecha = match fecha_field(row, "FECHA") {
        Ok(f) => f,
        Err(e) => {
            return Err(e);
        },
    };
    Ok(
        Factura {
            id: EntidadId::Numerico(docto_id as i64),
            folio,
            fecha,
            cliente_id: EntidadId::Numerico(cliente_id as i64),
            total: Some(total),
            extra: extra_vacio(),
        },
    )
}

// ---------------------------------------------------------------------
// El módulo de facturas
// ---------------------------------------------------------------------

/// La consulta de una factura, sin su identificador.
pub const SQL_FACTURA: &'static str = "SELECT DOCTO_VE_ID, FOLIO, FECHA, CLIENTE_ID, IMPORTE_NETO, TOTAL_IMPUESTOS, FLETES, OTROS_CARGOS, DSCTO_IMPORTE, TOTAL_RETENCIONES FROM DOCTOS_VE WHERE TIPO_DOCTO = 'F' AND DOCTO_VE_ID = ";

/// El módulo de facturas de Microsip.
#[derive(Debug)]
pub struct FacturasMicrosip {
    pub config: MicrosipConfig,
}

impl FacturasMicrosip {
    /// El alta de una factura. Los errores de validación salen antes de tocar
    /// la biblioteca nativa. Lo que después se entrega es la factura leída
    /// con el identificador que el alta dio ([`FacturasMicrosip::obtener`]).
    pub fn crear(&self, dll: &MicrosipDll, factura: &NuevaFactura) -> (r: Result<
        Maquina,
        IskandarError,
    >)
        ensures
            match r {
                Ok(m) => error_factura(*factura) is None && exists|hoy: Fecha, p: FacturaParams|
                    hoy@.valida() && #[trigger] es_factura(*factura, hoy, p) && al_inicio(
                        m,
                        programa_factura(
                            dll.estado,
                            self.config.db_path@,
                            self.config.usuario@,
                            self.config.password@,
                            ruta(self.config.metadatos_path),
                            self.config.reglas(),
                            p,
                        ),
                        dll.estado,
                    ),
                Err(e) => error_factura(*factura) == Some(e@),
            },
            r matches Ok(m) ==> exists|k: int|
                0 <= k < m.programa().pasos.len() && llamada(
                    #[trigger] m.programa().pasos[k],
                    "NuevaFactura"@,
                    19,
                    Regla::Cero(Modulo::Ventas),
                ) && (m.programa().pasos[k]->args[16] matches OperandoV::Doble(d) && contenido(
                    factura.extra,
                ).contains_key("ImporteCobro"@) && vale(
                    contenido(factura.extra)["ImporteCobro"@],
                    d,
                )),
            r matches Ok(m) ==> forall|i: int|
                0 <= i < factura.renglones@.len() ==> llamada(
                    #[trigger] m.programa().pasos[m.programa().al_fallar - 2
                        - factura.renglones@.len() + i],
                    "RenglonFactura"@,
                    5,
                    Regla::Cero(Modulo::Ventas),
                ) && m.programa().pasos[m.programa().al_fallar - 2 - factura.renglones@.len()
                    + i]->args[1] == OperandoV::Decimal(factura.renglones@[i].unidades),
    {
        match mapear_nueva_factura(factura) {
            Err(e) => Err(e),
            Ok(params) => {
                let m = dll.crear_factura(
                    self.config.db_path.as_str(),
                    self.config.usuario.as_str(),
                    self.config.password.as_str(),
                    self.config.metadatos(),
                    self.config.reglas_ventas(),
                    &params,
                );
                proof {
                    let hoy = choose|hoy: Fecha|
                        hoy@.valida() && #[trigger] es_factura(*factura, hoy, params);
                    let meta = ruta(self.config.metadatos_path);
                    ley_alta_factura(
                        *factura,
                        hoy,
                        dll.estado,
                        self.config.db_path@,
                        self.config.usuario@,
                        self.config.password@,
                        meta,
                        self.config.reglas(),
                        params,
                    );
                    let k = paso_encabezado(dll.estado, meta, params);
                    assert(llamada(
                        m.programa().pasos[k],
                        "NuevaFactura"@,
                        19,
                        Regla::Cero(Modulo::Ventas),
                    ));
                }
                Ok(m)
            },
        }
    }

    /// La consulta de una factura por su identificador.
    pub fn obtener(&self, id: &EntidadId) -> (r: Result<(Consulta, i64), IskandarError>)
        ensures
            match r {
                Ok((c, n)) => numero_de(id@) == Some(n) && es_consulta(
                    c,
                    SQL_FACTURA@ + entero_texto(n as int),
                    seq![],
                    campos_factura(),
                ) && consulta_cabe(c),
                Err(e) => numero_de(id@) is None && e@ == error_id_consulta("factura"@, id@),
            },
            id@ matches EntidadIdV::Numerico(n) ==> (r matches Ok((c, m)) && m == n && c.sql@
                == "SELECT DOCTO_VE_ID, FOLIO, FECHA, CLIENTE_ID, IMPORTE_NETO, TOTAL_IMPUESTOS, FLETES, OTROS_CARGOS, DSCTO_IMPORTE, TOTAL_RETENCIONES FROM DOCTOS_VE WHERE TIPO_DOCTO = 'F' AND DOCTO_VE_ID = "@
                + entero_texto(n as int)),
            id@ matches EntidadIdV::Texto(s) ==> match leer_i64(s) {
                Some(n) => (r matches Ok((c, m)) && m == n && c.sql@
                    == "SELECT DOCTO_VE_ID, FOLIO, FECHA, CLIENTE_ID, IMPORTE_NETO, TOTAL_IMPUESTOS, FLETES, OTROS_CARGOS, DSCTO_IMPORTE, TOTAL_RETENCIONES FROM DOCTOS_VE WHERE TIPO_DOCTO = 'F' AND DOCTO_VE_ID = "@
                    + entero_texto(n as int)),
                None => (r matches Err(e) && e@ == ErrorV::Validation(
                    "el id de "@ + "factura"@ + " debe ser numérico, recibido: '"@ + s + "'"@,
                )),
            },
            r matches Ok((c, _)) ==> c.params@.len() == 0 && c.campos@.len() == 10
                && c.campos@[0]@ == CampoV::Entero("DOCTO_VE_ID"@, Exige::Lectura)
                && c.campos@[1]@ == CampoV::Entero("CLIENTE_ID"@, Exige::Lectura)
                && c.campos@[2]@ == CampoV::Texto("IMPORTE_NETO"@, Exige::Monto)
                && c.campos@[3]@ == CampoV::Texto("TOTAL_IMPUESTOS"@, Exige::Monto)
                && c.campos@[4]@ == CampoV::Texto("FLETES"@, Exige::Monto)
                && c.campos@[5]@ == CampoV::Texto("OTROS_CARGOS"@, Exige::Monto)
                && c.campos@[6]@ == CampoV::Texto("DSCTO_IMPORTE"@, Exige::Monto)
                && c.campos@[7]@ == CampoV::Texto("TOTAL_RETENCIONES"@, Exige::Monto)
                && c.campos@[8]@ == CampoV::Texto("FOLIO"@, Exige::Lectura)
                && c.campos@[9]@ == CampoV::Texto("FECHA"@, Exige::Lectura),
    {
        match id_consulta("factura", id) {
            Err(e) => Err(e),
            Ok(n) => {
                let c = Consulta {
                    sql: SQL_FACTURA.to_owned().concat(entero_a_texto(n).as_str()),
                    params: Vec::new(),
                    campos: vec![
                        Campo::Entero("DOCTO_VE_ID".to_owned(), Exige::Lectura),
                        Campo::Entero("CLIENTE_ID".to_owned(), Exige::Lectura),
                        Campo::Texto("IMPORTE_NETO".to_owned(), Exige::Monto),
                        Campo::Texto("TOTAL_IMPUESTOS".to_owned(), Exige::Monto),
                        Campo::Texto("FLETES".to_owned(), Exige::Monto),
                        Campo::Texto("OTROS_CARGOS".to_owned(), Exige::Monto),
                        Campo::Texto("DSCTO_IMPORTE".to_owned(), Exige::Monto),
                        Campo::Texto("TOTAL_RETENCIONES".to_owned(), Exige::Monto),
                        Campo::Texto("FOLIO".to_owned(), Exige::Lectura),
                        Campo::Texto("FECHA".to_owned(), Exige::Lectura),
                    ],
                };
                proof {
                    assert(campos_de(c.campos@) =~= campos_factura());
                }
                Ok((c, n))
            },
        }
    }
}

} // verus!
