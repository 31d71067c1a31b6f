//! Cuentas por cobrar de Microsip: alta de créditos.

use vstd::prelude::*;

use crate::doble::{Doble, BITS_MENOS_UNO};
use crate::error::{ErrorV, IskandarError};
use crate::extra::{
    construir_lista_parametros, doble_extra, entero_extra, extra_f64, extra_i64, lista_de,
    par_simple, pares_de, textos_de,
};
use crate::fecha::{fecha_hora_actual, fecha_hora_texto, formatear_fecha_hora, FechaHora};
use crate::garantias::credito::ley_alta_credito;
use crate::garantias::pasos::llamada;
use crate::microsip::comun::{
    entidad_id_a_i32, error_id, es_consulta, falla_de, o_bien, o_vacio, texto_o_vacio, truncado,
    truncar,
};
use crate::microsip::config::{ruta, MicrosipConfig};
use crate::microsip::dll::{al_inicio, MicrosipDll};
use crate::microsip::fila::{fallo_entero, fallo_texto, leyo, leyo_entero, RowReader};
use crate::microsip::guiones::consulta::{campos_de, consulta_cabe, Campo, CampoV, Consulta};
use crate::microsip::guiones::credito::programa_credito;
use crate::microsip::maquina::Maquina;
use crate::microsip::nativo::{Exige, Modulo, OperandoV, Regla};
use crate::microsip::params::{AplicacionCreditoParams, CreditoParams};
use crate::models::common::{EntidadId, EntidadIdV};
use crate::models::cxc::{AplicacionCargo, Credito, NuevoCredito};
use crate::texto::{entero_a_texto, entero_texto};

verus! {

/// Por qué un crédito sin aplicaciones se rechaza.
pub const SIN_APLICACIONES: &'static str = "un crédito necesita al menos una aplicación contra un cargo (mapea a RenglonCreditoCc; AplicaCreditoCc fallaría con un crédito sin renglones)";

/// Las claves de `extra` que forman la lista de parámetros de un crédito.
pub open spec fn claves_credito() -> Seq<Seq<char>> {
    seq![
        "ES_COBRO_POR_DEPOSITAR"@,
        "FORMA_COBRO_ID"@,
        "REFERENCIA"@,
        "FECHA_APLICACION"@,
        "IMPORTE_COBRO"@,
        "CUENTA_BAN_ID"@,
        "BANCO_ORIGEN_ID"@,
        "NUM_CUENTA_ORIGEN"@,
        "ARCHIVO_CEP"@,
        "REFER_MOVTO_BA"@,
        "LUGAR_EXPEDICION_ID"@,
        "USO_CFDI"@,
        "SUCURSAL_ID"@,
    ]
}

/// El error de una aplicación cuyo cargo no es numérico.
pub open spec fn error_aplicacion(a: AplicacionCargo) -> Option<ErrorV> {
    match a.cargo_id {
        Some(id) => error_id("aplicaciones[].cargo_id"@, id@),
        None => None,
    }
}

/// Los parámetros de una aplicación: sin cargo va 0, sin folio va vacío.
pub open spec fn es_aplicacion(
    a: AplicacionCargo,
    dscto_ppag: Doble,
    p: AplicacionCreditoParams,
) -> bool {
    &&& match a.cargo_id {
        Some(id) => id@ matches EntidadIdV::Numerico(n) && p.cargo_id == truncado(n as int),
        None => p.cargo_id == 0,
    }
    &&& p.folio_cargo@ == texto_o_vacio(a.folio_cargo)
    &&& p.importe == a.importe
    &&& p.dscto_ppag == dscto_ppag
}

/// Los parámetros de una aplicación.
pub fn mapear_aplicacion(aplicacion: &AplicacionCargo, dscto_ppag: Doble) -> (r: Result<
    AplicacionCreditoParams,
    IskandarError,
>)
    ensures
        match r {
            Ok(p) => error_aplicacion(*aplicacion) is None && es_aplicacion(
                *aplicacion,
                dscto_ppag,
                p,
            ),
            Err(e) => error_aplicacion(*aplicacion) == Some(e@),
        },
        r matches Ok(p) ==> p.importe == aplicacion.importe && p.importe@.mantisa
            == aplicacion.importe@.mantisa && p.importe@.escala == aplicacion.importe@.escala
            && p.dscto_ppag == dscto_ppag,
        r matches Ok(p) ==> match aplicacion.folio_cargo {
            Some(t) => p.folio_cargo@ == t@,
            None => p.folio_cargo@.len() == 0,
        },
        aplicacion.cargo_id is None ==> (r matches Ok(p) && p.cargo_id == 0),
        aplicacion.cargo_id matches Some(id) ==> match id@ {
            EntidadIdV::Numerico(n) => r is Ok && (r->Ok_0.cargo_id - n) % 0x1_0000_0000 == 0,
            EntidadIdV::Texto(t) => (r matches Err(e) && e@ == ErrorV::Validation(
                "aplicaciones[].cargo_id"@ + " debe ser numérico en Microsip, recibido: '"@ + t
                    + "'"@,
            )),
        },
{
    let cargo_id: i32 = match &aplicacion.cargo_id {
        Some(id) => match entidad_id_a_i32("aplicaciones[].cargo_id", id) {
            Ok(n) => n,
            Err(e) => {
                return Err(e);
            },
        },
        None => 0,
    };
    Ok(
        AplicacionCreditoParams {
            cargo_id,
            folio_cargo: o_vacio(&aplicacion.folio_cargo),
            importe: aplicacion.importe,
            dscto_ppag,
        },
    )
}

/// El error de la primera aplicación cuyo cargo no es numérico.
pub open spec fn error_aplicaciones(s: Seq<AplicacionCargo>) -> Option<ErrorV>
    decreases s.len(),
{
    if s.len() == 0 {
        None
    } else {
        o_bien(error_aplicaciones(s.drop_last()), error_aplicacion(s.last()))
    }
}

proof fn lema_error_aplicaciones(s: Seq<AplicacionCargo>, n: int)
    requires
        0 <= n <= s.len(),
        error_aplicaciones(s.take(n)) is Some,
    ensures
        error_aplicaciones(s) == error_aplicaciones(s.take(n)),
    decreases s.len() - n,
{
    if n < s.len() {
        assert(s.take(n + 1).drop_last() =~= s.take(n));
        lema_error_aplicaciones(s, n + 1);
    } else {
        assert(s.take(n) =~= s);
    }
}

fn mapear_aplicaciones(aplicaciones: &Vec<AplicacionCargo>, dscto_ppag: Doble) -> (r: Result<
    Vec<AplicacionCreditoParams>,
    IskandarError,
>)
    ensures
        match r {
            Ok(v) => {
                &&& error_aplicaciones(aplicaciones@) is None
                &&& v@.len() == aplicaciones@.len()
                &&& forall|i: int|
                    0 <= i < v@.len() ==> #[trigger] es_aplicacion(
                        aplicaciones@[i],
                        dscto_ppag,
                        v@[i],
                    )
            },
            Err(e) => error_aplicaciones(aplicaciones@) == Some(e@),
        },
{
    let mut v: Vec<AplicacionCreditoParams> = Vec::new();
    let mut i: usize = 0;
    while i < aplicaciones.len()
        invariant
            i <= aplicaciones@.len(),
            v@.len() == i,
            error_aplicaciones(aplicaciones@.take(i as int)) is None,
            forall|j: int|
                0 <= j < i ==> #[trigger] es_aplicacion(aplicaciones@[j], dscto_ppag, v@[j]),
        decreases aplicaciones@.len() - i,
    {
        proof {
            assert(aplicaciones@.take(i + 1).drop_last() =~= aplicaciones@.take(i as int));
        }
        match mapear_aplicacion(&aplicaciones[i], dscto_ppag) {
            Ok(p) => {
                v.push(p);
            },
            Err(e) => {
                proof {
                    lema_error_aplicaciones(aplicaciones@, i + 1);
                }
                return Err(e);
            },
        }
        i = i + 1;
    }
    proof {
        assert(aplicaciones@.take(i as int) =~= aplicaciones@);
    }
    Ok(v)
}

/// El primer error de un crédito, en el orden en que se revisa.
pub open spec fn error_credito(c: NuevoCredito) -> Option<ErrorV> {
    let menos_uno = Doble { bits: BITS_MENOS_UNO };
    o_bien(
        error_id("cliente_id"@, c.cliente_id@),
        o_bien(
            error_id("concepto_id"@, c.concepto_id@),
            o_bien(
                falla_de(entero_extra(c.extra, "CobradorId"@, 0)),
                o_bien(
                    falla_de(doble_extra(c.extra, "DsctoPpag"@, menos_uno)),
                    o_bien(
                        if c.aplicaciones@.len() == 0 {
                            Some(ErrorV::Validation(SIN_APLICACIONES@))
                        } else {
                            None
                        },
                        error_aplicaciones(c.aplicaciones@),
                    ),
                ),
            ),
        ),
    )
}

/// Los parámetros nativos de un crédito. El descuento por pronto pago es el
/// mismo en todas las aplicaciones.
pub open spec fn es_credito(c: NuevoCredito, ahora: FechaHora, p: CreditoParams) -> bool {
    let menos_uno = Doble { bits: BITS_MENOS_UNO };
    &&& c.concepto_id@ matches EntidadIdV::Numerico(n) && p.concepto_cc_id == truncado(n as int)
    &&& p.fecha@ == fecha_hora_texto(
        match c.fecha {
            Some(d) => d@,
            None => ahora@,
        },
    )
    &&& p.folio@ == texto_o_vacio(c.folio)
    &&& c.cliente_id@ matches EntidadIdV::Numerico(n) && p.cliente_id == truncado(n as int)
    &&& p.descripcion@ == texto_o_vacio(c.descripcion)
    &&& p.cobrador_id == truncado(entero_extra(c.extra, "CobradorId"@, 0)->Ok_0 as int)
    &&& pares_de(p.lista_parametros@) == lista_de(c.extra, claves_credito())
    &&& forall|i: int|
        0 <= i < p.lista_parametros@.len() ==> par_simple(
            c.extra,
            #[trigger] p.lista_parametros@[i],
        )
    &&& p.aplicaciones@.len() == c.aplicaciones@.len()
    &&& forall|i: int|
        0 <= i < p.aplicaciones@.len() ==> #[trigger] es_aplicacion(
            c.aplicaciones@[i],
            doble_extra(c.extra, "DsctoPpag"@, menos_uno)->Ok_0,
            p.aplicaciones@[i],
        )
}

/// Los parámetros nativos de un crédito, con la fecha y hora actuales si no
/// trae las suyas.
pub fn mapear_nuevo_credito(credito: &NuevoCredito) -> (r: Result<CreditoParams, IskandarError>)
    ensures
        match r {
            Ok(p) => error_credito(*credito) is None && exists|ahora: FechaHora|
                ahora@.valida() && #[trigger] es_credito(*credito, ahora, p),
            Err(e) => error_credito(*credito) == Some(e@),
        },
{
    mapear_nuevo_credito_en(credito, fecha_hora_actual())
}

/// Los parámetros nativos de un crédito. `ahora` es la fecha y hora que se
/// usan si el crédito no trae las suyas.
pub fn mapear_nuevo_credito_en(credito: &NuevoCredito, ahora: FechaHora) -> (r: Result<
    CreditoParams,
    IskandarError,
>)
    ensures
        match r {
            Ok(p) => error_credito(*credito) is None && es_credito(*credito, ahora, p),
            Err(e) => error_credito(*credito) == Some(e@),
        },
{
    let cliente_id = match entidad_id_a_i32("cliente_id", &credito.cliente_id) {
        Ok(n) => n,
        Err(e) => {
            return Err(e);
        },
    };
    let concepto_cc_id = match entidad_id_a_i32("concepto_id", &credito.concepto_id) {
        Ok(n) => n,
        Err(e) => {
            return Err(e);
        },
    };
    let fecha = match &credito.fecha {
        Some(f) => formatear_fecha_hora(f),
        None => formatear_fecha_hora(&ahora),
    };
    let folio = o_vacio(&credito.folio);
    let descripcion = o_vacio(&credito.descripcion);
    let extra = &credito.extra;
    let cobrador_id = match extra_i64(extra, "CobradorId", 0) {
        Ok(n) => truncar(n),
        Err(e) => {
            return Err(e);
        },
    };
    let dscto_ppag = match extra_f64(extra, "DsctoPpag", Doble { bits: BITS_MENOS_UNO }) {
        Ok(d) => d,
        Err(e) => {
            return Err(e);
        },
    };
    let claves: Vec<&'static str> = vec![
        "ES_COBRO_POR_DEPOSITAR",
        "FORMA_COBRO_ID",
        "REFERENCIA",
        "FECHA_APLICACION",
        "IMPORTE_COBRO",
        "CUENTA_BAN_ID",
        "BANCO_ORIGEN_ID",
        "NUM_CUENTA_ORIGEN",
        "ARCHIVO_CEP",
        "REFER_MOVTO_BA",
        "LUGAR_EXPEDICION_ID",
        "USO_CFDI",
        "SUCURSAL_ID",
    ];
    proof {
        assert(textos_de(claves@) =~= claves_credito());
    }
    let lista_parametros = construir_lista_parametros(extra, &claves);
    if credito.aplicaciones.len() == 0 {
        return Err(IskandarError::Validation(SIN_APLICACIONES.to_owned()));
    }
    let aplicaciones = match mapear_aplicaciones(&credito.aplicaciones, dscto_ppag) {
        Ok(v) => v,
        Err(e) => {
            return Err(e);
        },
    };
    Ok(
        CreditoParams {
            concepto_cc_id,
            fecha,
            folio,
            cliente_id,
            descripcion,
            cobrador_id,
            lista_parametros,
            aplicaciones,
        },
    )
}

/// Ningún crédito se registra sin al menos una aplicación, así que el rechazo
/// del guion nunca se alcanza desde un crédito validado.
pub proof fn ley_credito_completo(c: NuevoCredito, ahora: FechaHora, p: CreditoParams)
    requires
        error_credito(c) is None,
        es_credito(c, ahora, p),
    ensures
        p.aplicaciones@.len() > 0,
        c.cliente_id@ is Numerico,
        c.concepto_id@ is Numerico,
{
}

/// Los campos que se leen de un crédito.
pub open spec fn campos_credito() -> Seq<CampoV> {
    seq![CampoV::Entero("DOCTO_CC_ID"@, Exige::Lectura), CampoV::Texto("FOLIO"@, Exige::Lectura)]
}

/// Convierte una fila de `DOCTOS_CC`.
pub fn map_credito_row(row: &RowReader) -> (r: Result<Credito, IskandarError>)
    ensures
        match r {
            Ok(c) => {
                &&& row@.entero("DOCTO_CC_ID"@) matches Ok(n) && c.id@ == EntidadIdV::Numerico(
                    n as i64,
                )
                &&& row@.texto("FOLIO"@) matches Ok(s) && c.folio@ == s
            },
            Err(e) => o_bien(
                falla_de(row@.entero("DOCTO_CC_ID"@)),
                falla_de(row@.texto("FOLIO"@)),
            ) == Some(e@),
        },
        forall|n: i32, t: Seq<char>|
            #[trigger] leyo_entero(row@, "DOCTO_CC_ID"@, n) && #[trigger] leyo(row@, "FOLIO"@, t)
                ==> (r matches Ok(c) && c.id@ == EntidadIdV::Numerico(n as i64) && c.folio@ == t),
        forall|rc: i32| #[trigger]
            fallo_entero(row@, "DOCTO_CC_ID"@, rc) ==> (r matches Err(e) && e@ == (
            ErrorV::Provider {
                code: rc,
                message: "error leyendo campo int '"@ + "DOCTO_CC_ID"@ + "'"@,
            })),
        forall|n: i32, rc: i32|
            #[trigger] leyo_entero(row@, "DOCTO_CC_ID"@, n) && #[trigger] fallo_texto(
                row@,
                "FOLIO"@,
                rc,
            ) ==> (r matches Err(e) && e@ == (ErrorV::Provider {
                code: rc,
                message: "error leyendo campo '"@ + "FOLIO"@ + "'"@,
            })),
{
    proof {
        assert(!"DOCTO_CC_ID"@.contains('\0')) by {
            reveal_strlit("DOCTO_CC_ID");
        }
        assert(!"FOLIO"@.contains('\0')) by {
            reveal_strlit("FOLIO");
        }
    }
    let docto_id = match row.int_field("DOCTO_CC_ID") {
        Ok(n) => n,
        Err(e) => {
            return Err(e);
        },
    };
    match row.str_field("FOLIO") {
        Ok(folio) => Ok(Credito { id: EntidadId::Numerico(docto_id as i64), folio }),
        Err(e) => Err(e),
    }
}

/// La consulta de un crédito, sin su identificador.
pub const SQL_CREDITO: &'static str = "SELECT DOCTO_CC_ID, FOLIO FROM DOCTOS_CC WHERE DOCTO_CC_ID = ";

/// El módulo de cuentas por cobrar de Microsip.
#[derive(Debug)]
pub struct CxcMicrosip {
    pub config: MicrosipConfig,
}

impl CxcMicrosip {
    /// El alta de un crédito. Los errores de validación salen antes de tocar
    /// la biblioteca nativa. Lo que después se entrega es el crédito leído
    /// con el identificador que el alta dio ([`CxcMicrosip::consulta`]).
    pub fn crear_credito(&self, dll: &MicrosipDll, credito: &NuevoCredito) -> (r: Result<
        Maquina,
        IskandarError,
    >)
        ensures
            match r {
                Ok(m) => error_credito(*credito) is None && exists|
                    ahora: FechaHora,
                    p: CreditoParams,
                |
                    ahora@.valida() && #[trigger] es_credito(*credito, ahora, p) && al_inicio(
                        m,
                        programa_credito(
                            dll.estado,
                            self.config.db_path@,
                            self.config.usuario@,
                            self.config.password@,
                            ruta(self.config.metadatos_path),
                            p,
                        ),
                        dll.estado,
                    ),
                Err(e) => error_credito(*credito) == Some(e@),
            },
            r matches Ok(m) ==> forall|i: int|
                0 <= i < credito.aplicaciones@.len() ==> llamada(
                    #[trigger] m.programa().pasos[m.programa().al_fallar - 2
                        - credito.aplicaciones@.len() + i],
                    "RenglonCreditoCc"@,
                    8,
                    Regla::Cero(Modulo::Cxc),
                ) && m.programa().pasos[m.programa().al_fallar - 2 - credito.aplicaciones@.len()
                    + i]->args[3] == OperandoV::Decimal(credito.aplicaciones@[i].importe),
    {
        match mapear_nuevo_credito(credito) {
            Err(e) => Err(e),
            Ok(params) => {
                let m = dll.crear_credito(
                    self.config.db_path.as_str(),
                    self.config.usuario.as_str(),
                    self.config.password.as_str(),
                    self.config.metadatos(),
                    &params,
                );
                proof {
                    let ahora = choose|ahora: FechaHora|
                        ahora@.valida() && #[trigger] es_credito(*credito, ahora, params);
                    ley_alta_credito(
                        *credito,
                        ahora,
                        dll.estado,
                        self.config.db_path@,
                        self.config.usuario@,
                        self.config.password@,
                        ruta(self.config.metadatos_path),
                        params,
                    );
                }
                Ok(m)
            },
        }
    }

    /// La consulta del crédito recién creado.
    pub fn consulta(&self, docto_id: i32) -> (c: Consulta)
        ensures
            es_consulta(
                c,
                SQL_CREDITO@ + entero_texto(docto_id as int),
                seq![],
                campos_credito(),
            ),
            consulta_cabe(c),
            c.sql@ == "SELECT DOCTO_CC_ID, FOLIO FROM DOCTOS_CC WHERE DOCTO_CC_ID = "@ + entero_texto(
                docto_id as int,
            ),
            c.params@.len() == 0,
            c.campos@.len() == 2,
            c.campos@[0]@ == CampoV::Entero("DOCTO_CC_ID"@, Exige::Lectura),
            c.campos@[1]@ == CampoV::Texto("FOLIO"@, Exige::Lectura),
    {
        let c = Consulta {
            sql: SQL_CREDITO.to_owned().concat(entero_a_texto(docto_id as i64).as_str()),
            params: Vec::new(),
            campos: vec![
                Campo::Entero("DOCTO_CC_ID".to_owned(), Exige::Lectura),
                Campo::Texto("FOLIO".to_owned(), Exige::Lectura),
            ],
        };
        proof {
            assert(campos_de(c.campos@) =~= campos_credito());
        }
        c
    }
}

} // verus!
