//! El alta de una factura: cada llamada nativa, operando por operando, y de
//! dónde sale cada operando.

use vstd::prelude::*;

use crate::doble::Doble;
use crate::error::ErrorV;
use crate::extra::{contenido, entero_extra, JsonV};
use crate::fecha::{fecha_texto, Fecha};
use crate::garantias::extras::{
    doble_o, entero_json, entero_o, es_entero_json, ley_doble_de_clave, ley_entero_de_clave,
    ley_formas_de_cobro, lema_son_pares, ley_texto_de_clave, no_entero, no_numero, no_texto,
    son_pares_de, texto_o, vale,
};
use crate::garantias::numeros::ley_bits_bajos;
use crate::garantias::pasos::{
    conexion_en, desconexion, lema_conexion_en, lema_lista_en, lista_en, llamada, localiza,
};
use crate::microsip::comun::truncado;
use crate::microsip::facturas::{
    claves_factura, error_factura, error_impuestos, error_renglones, es_factura, es_renglon,
};
use crate::microsip::guiones::factura::{
    apertura_factura, compatibilidad_ventas, direccion_factura, encabezado_factura, final_factura,
    formas_factura, programa_factura, renglon_factura, renglones_factura,
    simbolos_factura,
};
use crate::microsip::guiones::{conectar, llenar_lista, simbolos, Base};
use crate::microsip::maquina::MicrosipState;
use crate::microsip::nativo::{Modulo, OperandoV, Registro, Regla};
use crate::microsip::params::FacturaParams;
use crate::models::common::{EntidadIdV, Renglon};
use crate::models::ventas::NuevaFactura;

verus! {

/// Cuántos pasos preceden al de las reglas de Ventas: catorce símbolos, la
/// conexión, dos llamadas, y el chequeo de compatibilidad si toca hacerlo.
pub open spec fn paso_reglas(memoria: MicrosipState, metadatos: Option<Seq<char>>) -> int {
    if metadatos is Some && !memoria.compatibilidad_ventas_checada {
        34
    } else {
        24
    }
}

/// El paso del encabezado: tras las reglas y, si hay pares, la lista.
pub open spec fn paso_encabezado(
    memoria: MicrosipState,
    metadatos: Option<Seq<char>>,
    p: FacturaParams,
) -> int {
    paso_reglas(memoria, metadatos) + 1 + (if p.lista_parametros@.len() == 0 {
        0
    } else {
        p.lista_parametros@.len() + (if memoria.pl_handle is None {
            2
        } else {
            1int
        })
    })
}

/// Una factura empieza por localizar los catorce símbolos que usa y conectarse
/// a la empresa; solo entonces empieza lo que se aborta si falla.
pub proof fn ley_preludio_factura(
    memoria: MicrosipState,
    db_path: Seq<char>,
    usuario: Seq<char>,
    password: Seq<char>,
    metadatos: Option<Seq<char>>,
    reglas: (i32, i32),
    p: FacturaParams,
)
    ensures
        ({
            let pr = programa_factura(memoria, db_path, usuario, password, metadatos, reglas, p);
            let s = pr.pasos;
            &&& pr.cuerpo == 22
            &&& pr.aborta == 22
            &&& s.len() > 22
            &&& localiza(s[0], "veSetErrorHandling"@)
            &&& localiza(s[1], "SetDBVentas"@)
            &&& localiza(s[2], "ChecaCompatibilidadVentas"@)
            &&& localiza(s[3], "SetReglasVentas"@)
            &&& localiza(s[4], "NuevaFactura"@)
            &&& localiza(s[5], "DirClienteFactura"@)
            &&& localiza(s[6], "SetFormaCobroFactura"@)
            &&& localiza(s[7], "RenglonFactura"@)
            &&& localiza(s[8], "AplicaFactura"@)
            &&& localiza(s[9], "AbortaDoctoVentas"@)
            &&& localiza(s[10], "GetDoctoVeId"@)
            &&& localiza(s[11], "NewPL"@)
            &&& localiza(s[12], "PLSetParamValue"@)
            &&& localiza(s[13], "PLClear"@)
            &&& conexion_en(
                s,
                14,
                Registro::EmpresaDb,
                Registro::EmpresaTrn,
                Regla::Cero(Modulo::Basica),
                db_path,
                usuario,
                password,
            )
        }),
{
    let pr = programa_factura(memoria, db_path, usuario, password, metadatos, reglas, p);
    let s = pr.pasos;
    let sim = simbolos(simbolos_factura());
    let con = conectar(Base::Empresa, db_path, usuario, password);
    lema_largos(memoria, db_path, usuario, password, metadatos, reglas, p);
    assert(sim.len() == 14);
    assert(s.len() > 22);
    assert(s.subrange(14, 22) =~= con);
    lema_conexion_en(s, 14, Base::Empresa, db_path, usuario, password);
    assert(s.subrange(0, 14) =~= sim);
    assert forall|i: int| 0 <= i < 14 implies #[trigger] s[i] == sim[i] by {
        assert(s.subrange(0, 14)[i] == s[i]);
    }
}

/// Después se inicializa Ventas sobre la empresa, se chequea la compatibilidad
/// si hay Metadatos y no se ha chequeado, y se ponen las dos reglas de la
/// configuración en su orden.
pub proof fn ley_apertura_factura(
    memoria: MicrosipState,
    db_path: Seq<char>,
    usuario: Seq<char>,
    password: Seq<char>,
    metadatos: Option<Seq<char>>,
    reglas: (i32, i32),
    p: FacturaParams,
)
    ensures
        ({
            let pr = programa_factura(memoria, db_path, usuario, password, metadatos, reglas, p);
            let s = pr.pasos;
            let m = paso_reglas(memoria, metadatos);
            &&& s.len() > m
            &&& llamada(s[22], "veSetErrorHandling"@, 2, Regla::Ignora)
            &&& s[22]->args[0] == OperandoV::Entero(0)
            &&& s[22]->args[1] == OperandoV::Entero(0)
            &&& llamada(s[23], "SetDBVentas"@, 1, Regla::Cero(Modulo::Ventas))
            &&& s[23]->args[0] == OperandoV::Registro(Registro::EmpresaDb)
            &&& metadatos is Some && !memoria.compatibilidad_ventas_checada ==> {
                &&& conexion_en(
                    s,
                    24,
                    Registro::MetadatosDb,
                    Registro::MetadatosTrn,
                    Regla::Abre(Registro::MetadatosAbierta),
                    metadatos->Some_0,
                    usuario,
                    password,
                )
                &&& llamada(s[32], "ChecaCompatibilidadVentas"@, 1, Regla::Difiere)
                &&& s[32]->args[0] == OperandoV::Registro(Registro::MetadatosDb)
                &&& desconexion(s[33], Registro::MetadatosDb, Regla::DesconectaYVerifica)
            }
            &&& llamada(s[m], "SetReglasVentas"@, 2, Regla::Ignora)
            &&& s[m]->args[0] == OperandoV::Entero(reglas.0)
            &&& s[m]->args[1] == OperandoV::Entero(reglas.1)
        }),
{
    let pr = programa_factura(memoria, db_path, usuario, password, metadatos, reglas, p);
    let s = pr.pasos;
    let ape = apertura_factura(memoria, usuario, password, metadatos, reglas);
    let compat = compatibilidad_ventas(memoria, metadatos, usuario, password);
    let m = paso_reglas(memoria, metadatos);
    lema_largos(memoria, db_path, usuario, password, metadatos, reglas, p);
    if let Some(meta) = metadatos {
        let cm = conectar(Base::Metadatos, meta, usuario, password);
        assert(cm.len() == 8);
        if !memoria.compatibilidad_ventas_checada {
            assert(compat.len() == 10);
            assert(ape.subrange(2, 12) =~= compat);
            assert(compat.subrange(0, 8) =~= cm);
            assert(s.subrange(24, 32) =~= cm);
            lema_conexion_en(s, 24, Base::Metadatos, meta, usuario, password);
            assert(s[32] == compat[8]);
            assert(s[33] == compat[9]);
        }
    }
    assert(ape.len() == m - 22 + 1);
    assert(s[22] == ape[0]);
    assert(s[23] == ape[1]);
    assert(s[m] == ape[m - 22]);
}

/// Si la factura trae pares para la lista de parámetros, se llena justo después
/// de las reglas.
pub proof fn ley_lista_factura(
    memoria: MicrosipState,
    db_path: Seq<char>,
    usuario: Seq<char>,
    password: Seq<char>,
    metadatos: Option<Seq<char>>,
    reglas: (i32, i32),
    p: FacturaParams,
)
    ensures
        ({
            let pr = programa_factura(memoria, db_path, usuario, password, metadatos, reglas, p);
            let s = pr.pasos;
            let m = paso_reglas(memoria, metadatos);
            p.lista_parametros@.len() > 0 ==> lista_en(
                s,
                m + 1,
                Modulo::Ventas,
                memoria.pl_handle is None,
                p.lista_parametros@,
            )
        }),
{
    let pr = programa_factura(memoria, db_path, usuario, password, metadatos, reglas, p);
    let s = pr.pasos;
    let ape = apertura_factura(memoria, usuario, password, metadatos, reglas);
    let lis = llenar_lista(Modulo::Ventas, memoria, p.lista_parametros@);
    let m = paso_reglas(memoria, metadatos);
    lema_largos(memoria, db_path, usuario, password, metadatos, reglas, p);
    if p.lista_parametros@.len() > 0 {
        assert(ape.len() == m - 22 + 1);
        assert(s.subrange(m + 1, m + 1 + lis.len()) =~= lis);
        lema_lista_en(s, m + 1, Modulo::Ventas, memoria, p.lista_parametros@);
    }
}

/// El encabezado de una factura: el operando de cada posición es el parámetro
/// de ese nombre en la firma nativa de `NuevaFactura`.
pub proof fn ley_operandos_factura(
    memoria: MicrosipState,
    db_path: Seq<char>,
    usuario: Seq<char>,
    password: Seq<char>,
    metadatos: Option<Seq<char>>,
    reglas: (i32, i32),
    p: FacturaParams,
)
    ensures
        ({
            let pr = programa_factura(memoria, db_path, usuario, password, metadatos, reglas, p);
            let k = paso_encabezado(memoria, metadatos, p);
            let a = pr.pasos[k]->args;
            &&& 0 <= k < pr.al_fallar
            &&& llamada(pr.pasos[k], "NuevaFactura"@, 19, Regla::Cero(Modulo::Ventas))
            &&& a[0] == OperandoV::Texto(p.fecha@)
            &&& a[1] == OperandoV::Texto(p.folio@)
            &&& a[2] == OperandoV::Entero(p.cliente_id)
            &&& a[3] == OperandoV::Entero(p.dir_consig_id)
            &&& a[4] == OperandoV::Entero(p.almacen_id)
            &&& a[5] == OperandoV::Texto(p.tipo_dscto@)
            &&& a[6] == OperandoV::Doble(p.descuento)
            &&& a[7] == OperandoV::Ansi(p.orden_compra@)
            &&& a[8] == OperandoV::Ansi(p.descripcion@)
            &&& a[9] == OperandoV::Doble(p.fletes)
            &&& a[10] == OperandoV::Doble(p.otros_cargos)
            &&& a[11] == OperandoV::Doble(p.pctje_comis)
            &&& a[12] == OperandoV::Entero(p.cond_pago_id)
            &&& a[13] == OperandoV::Entero(p.vendedor_id)
            &&& a[14] == OperandoV::Entero(p.impto_sustituido_id)
            &&& a[15] == OperandoV::Entero(p.impto_sustituto_id)
            &&& a[16] == OperandoV::Doble(p.importe_cobro)
            &&& a[17] == OperandoV::Ansi(p.descripcion_cobro@)
            &&& a[18] == (if p.lista_parametros@.len() == 0 {
                OperandoV::Entero((-1) as i32)
            } else {
                OperandoV::Registro(Registro::Lista)
            })
        }),
{
    let pr = programa_factura(memoria, db_path, usuario, password, metadatos, reglas, p);
    let k = paso_encabezado(memoria, metadatos, p);
    lema_largos(memoria, db_path, usuario, password, metadatos, reglas, p);
    assert(pr.pasos[k] == encabezado_factura(p));
}

proof fn lema_largos(
    memoria: MicrosipState,
    db_path: Seq<char>,
    usuario: Seq<char>,
    password: Seq<char>,
    metadatos: Option<Seq<char>>,
    reglas: (i32, i32),
    p: FacturaParams,
)
    ensures
        (simbolos(simbolos_factura()) + conectar(Base::Empresa, db_path, usuario, password)).len()
            == 22,
        (apertura_factura(memoria, usuario, password, metadatos, reglas) + llenar_lista(
            Modulo::Ventas,
            memoria,
            p.lista_parametros@,
        )).len() == paso_encabezado(memoria, metadatos, p) - 22,
        apertura_factura(memoria, usuario, password, metadatos, reglas).len() == paso_reglas(
            memoria,
            metadatos,
        ) - 22 + 1,
{
    assert(simbolos(simbolos_factura()).len() == 14);
    assert(conectar(Base::Empresa, db_path, usuario, password).len() == 8);
    if let Some(meta) = metadatos {
        assert(conectar(Base::Metadatos, meta, usuario, password).len() == 8);
    }
}

/// Tras el encabezado van la dirección del cliente si se dio, cada forma de
/// cobro, cada renglón con sus cinco operandos, el identificador y la
/// aplicación; después, el aborto y la desconexión, y nada más.
pub proof fn ley_renglones_factura(
    memoria: MicrosipState,
    db_path: Seq<char>,
    usuario: Seq<char>,
    password: Seq<char>,
    metadatos: Option<Seq<char>>,
    reglas: (i32, i32),
    p: FacturaParams,
)
    ensures
        ({
            let pr = programa_factura(memoria, db_path, usuario, password, metadatos, reglas, p);
            let s = pr.pasos;
            let d = paso_encabezado(memoria, metadatos, p) + 1;
            let f = if p.dir_cliente_id is Some {
                d + 1
            } else {
                d
            };
            let r = f + p.formas_cobro_cbb@.len();
            let n = r + p.renglones@.len() + 2;
            &&& pr.al_fallar == n
            &&& pr.cierre == n + 1
            &&& s.len() == n + 2
            &&& p.dir_cliente_id matches Some(dir) ==> llamada(
                s[d],
                "DirClienteFactura"@,
                1,
                Regla::Cero(Modulo::Ventas),
            ) && s[d]->args[0] == OperandoV::Entero(dir)
            &&& forall|i: int|
                0 <= i < p.formas_cobro_cbb@.len() ==> llamada(
                    #[trigger] s[f + i],
                    "SetFormaCobroFactura"@,
                    1,
                    Regla::Cero(Modulo::Ventas),
                ) && s[f + i]->args[0] == OperandoV::Entero(p.formas_cobro_cbb@[i])
            &&& forall|i: int|
                0 <= i < p.renglones@.len() ==> {
                    &&& llamada(
                        #[trigger] s[r + i],
                        "RenglonFactura"@,
                        5,
                        Regla::Cero(Modulo::Ventas),
                    )
                    &&& s[r + i]->args[0] == OperandoV::Entero(p.renglones@[i].articulo_id)
                    &&& s[r + i]->args[1] == OperandoV::Decimal(p.renglones@[i].unidades)
                    &&& s[r + i]->args[2] == OperandoV::Decimal(p.renglones@[i].precio_unitario)
                    &&& s[r + i]->args[3] == OperandoV::Decimal(p.renglones@[i].pctje_dscto)
                    &&& s[r + i]->args[4] == OperandoV::Ansi(p.renglones@[i].notas@)
                }
            &&& llamada(s[n - 2], "GetDoctoVeId"@, 0, Regla::Documento(Modulo::Ventas))
            &&& llamada(s[n - 1], "AplicaFactura"@, 0, Regla::Cero(Modulo::Ventas))
            &&& llamada(s[n], "AbortaDoctoVentas"@, 0, Regla::Ignora)
            &&& desconexion(s[n + 1], Registro::EmpresaDb, Regla::Desconecta { estricta: false })
        }),
{
    let pr = programa_factura(memoria, db_path, usuario, password, metadatos, reglas, p);
    let s = pr.pasos;
    lema_largos(memoria, db_path, usuario, password, metadatos, reglas, p);
    let d = paso_encabezado(memoria, metadatos, p) + 1;
    let f = if p.dir_cliente_id is Some {
        d + 1
    } else {
        d
    };
    let r = f + p.formas_cobro_cbb@.len();
    let n = r + p.renglones@.len() + 2;
    assert(direccion_factura(p).len() == f - d);
    assert(formas_factura(p).len() == r - f);
    assert(renglones_factura(p).len() == n - 2 - r);
    assert(final_factura().len() == 2);
    assert(pr.al_fallar == n);
    if p.dir_cliente_id is Some {
        assert(s[d] == direccion_factura(p)[0]);
    }
    assert forall|i: int| 0 <= i < p.formas_cobro_cbb@.len() implies llamada(
        #[trigger] s[f + i],
        "SetFormaCobroFactura"@,
        1,
        Regla::Cero(Modulo::Ventas),
    ) && s[f + i]->args[0] == OperandoV::Entero(p.formas_cobro_cbb@[i]) by {
        assert(s[f + i] == formas_factura(p)[i]);
    }
    assert forall|i: int| 0 <= i < p.renglones@.len() implies #[trigger] s[r + i]
        == renglon_factura(p, i) by {
        assert(s[r + i] == renglones_factura(p)[i]);
    }
    assert(s[n - 2] == final_factura()[0]);
    assert(s[n - 1] == final_factura()[1]);
}

/// Los parámetros de una factura: cada uno sale de su dato en la factura o de
/// su clave en `extra`, y si falta lleva su valor por omisión. El importe de
/// cobro no tiene uno: es siempre el número que `extra` trae.
pub proof fn ley_parametros_factura(f: NuevaFactura, hoy: Fecha, p: FacturaParams)
    requires
        error_factura(f) is None,
        es_factura(f, hoy, p),
    ensures
        f.cliente_id@ matches EntidadIdV::Numerico(n) && (p.cliente_id - n) % 0x1_0000_0000 == 0,
        f.cliente_id@ matches EntidadIdV::Numerico(n) && (-0x8000_0000 <= n <= 0x7fff_ffff
            ==> p.cliente_id == n),
        f.fecha matches Some(d) ==> p.fecha@ == fecha_texto(d@),
        f.fecha is None ==> p.fecha@ == fecha_texto(hoy@),
        f.folio matches Some(t) ==> p.folio@ == t@,
        f.folio is None ==> p.folio@.len() == 0,
        f.descripcion matches Some(t) ==> p.descripcion@ == t@,
        f.descripcion is None ==> p.descripcion@.len() == 0,
        entero_o(f.extra, "DirConsigId"@, 0, p.dir_consig_id),
        entero_o(f.extra, "AlmacenId"@, 0, p.almacen_id),
        entero_o(f.extra, "CondPagoId"@, 0, p.cond_pago_id),
        entero_o(f.extra, "VendedorId"@, 0, p.vendedor_id),
        entero_o(f.extra, "ImptoSustituidoId"@, 0, p.impto_sustituido_id),
        entero_o(f.extra, "ImptoSustitutoId"@, 0, p.impto_sustituto_id),
        doble_o(f.extra, "Descuento"@, 0, p.descuento),
        doble_o(f.extra, "Fletes"@, 0, p.fletes),
        doble_o(f.extra, "OtrosCargos"@, 0, p.otros_cargos),
        doble_o(f.extra, "PctjeComis"@, 0xBFF0_0000_0000_0000, p.pctje_comis),
        texto_o(f.extra, "TipoDscto"@, "P"@, p.tipo_dscto@),
        texto_o(f.extra, "OrdenCompra"@, ""@, p.orden_compra@),
        texto_o(f.extra, "DescripcionCobro"@, ""@, p.descripcion_cobro@),
        contenido(f.extra).contains_key("ImporteCobro"@),
        vale(contenido(f.extra)["ImporteCobro"@], p.importe_cobro),
        (p.impto_sustituido_id == 0 && p.impto_sustituto_id == 0) || (p.impto_sustituido_id > 0
            && p.impto_sustituto_id > 0),
        p.dir_cliente_id is Some <==> contenido(f.extra).contains_key("DirClienteId"@)
            && es_entero_json(contenido(f.extra)["DirClienteId"@]),
        p.dir_cliente_id matches Some(d) ==> d == truncado(
            entero_json(contenido(f.extra)["DirClienteId"@]),
        ),
{
    ley_entero_de_clave(f.extra, "DirConsigId"@, 0);
    ley_entero_de_clave(f.extra, "AlmacenId"@, 0);
    ley_entero_de_clave(f.extra, "CondPagoId"@, 0);
    ley_entero_de_clave(f.extra, "VendedorId"@, 0);
    ley_entero_de_clave(f.extra, "ImptoSustituidoId"@, 0);
    ley_entero_de_clave(f.extra, "ImptoSustitutoId"@, 0);
    ley_doble_de_clave(f.extra, "Descuento"@, Doble { bits: 0 });
    ley_doble_de_clave(f.extra, "Fletes"@, Doble { bits: 0 });
    ley_doble_de_clave(f.extra, "OtrosCargos"@, Doble { bits: 0 });
    ley_doble_de_clave(f.extra, "PctjeComis"@, Doble { bits: 0xBFF0_0000_0000_0000 });
    ley_texto_de_clave(f.extra, "TipoDscto"@, "P"@);
    ley_texto_de_clave(f.extra, "OrdenCompra"@, ""@);
    ley_texto_de_clave(f.extra, "DescripcionCobro"@, ""@);
    ley_doble_de_clave(f.extra, "ImporteCobro"@, Doble { bits: 0 });
    if let EntidadIdV::Numerico(n) = f.cliente_id@ {
        ley_bits_bajos(n as int);
    }
}

/// Las listas de una factura: las formas de cobro son los enteros del arreglo
/// `FormasCobroCbb`, y la lista de parámetros, los pares de las cinco claves
/// fiscales que `extra` trae.
pub proof fn ley_listas_factura(f: NuevaFactura, hoy: Fecha, p: FacturaParams)
    requires
        es_factura(f, hoy, p),
    ensures
        ({
            let x = contenido(f.extra);
            let formas = p.formas_cobro_cbb@.map_values(|n: i32| n as int);
            if x.contains_key("FormasCobroCbb"@) && x["FormasCobroCbb"@] is Arreglo {
                formas == x["FormasCobroCbb"@]->Arreglo_0.filter(
                    |v: JsonV| es_entero_json(v),
                ).map_values(|v: JsonV| truncado(entero_json(v)))
            } else {
                p.formas_cobro_cbb@.len() == 0
            }
        }),
        son_pares_de(
            f.extra,
            p.lista_parametros@,
            seq![
                "USO_CFDI"@,
                "LUGAR_EXPEDICION_ID"@,
                "FORMA_COBRO_ID"@,
                "CENTRO_COSTO_ID"@,
                "IMPUESTO_INCLUIDO"@,
            ].filter(|c: Seq<char>| contenido(f.extra).contains_key(c)),
        ),
{
    ley_formas_de_cobro(f.extra);
    let formas = p.formas_cobro_cbb@.map_values(|n: i32| n as int);
    assert(formas.len() == p.formas_cobro_cbb@.len());
    let claves = seq![
        "USO_CFDI"@,
        "LUGAR_EXPEDICION_ID"@,
        "FORMA_COBRO_ID"@,
        "CENTRO_COSTO_ID"@,
        "IMPUESTO_INCLUIDO"@,
    ];
    assert(claves =~= claves_factura());
    lema_son_pares(f.extra, p.lista_parametros@, claves);
}

/// Los renglones de una factura: uno por cada renglón universal, en su orden,
/// con su artículo y sus unidades; un precio o un descuento que falta va en
/// -1, y unas notas que faltan, vacías.
pub proof fn ley_renglones_universales(f: NuevaFactura, hoy: Fecha, p: FacturaParams, i: int)
    requires
        es_factura(f, hoy, p),
        0 <= i < f.renglones@.len(),
    ensures
        p.renglones@.len() == f.renglones@.len(),
        f.renglones@[i].articulo_id@ matches EntidadIdV::Numerico(n) && (p.renglones@[i].articulo_id
            - n) % 0x1_0000_0000 == 0,
        p.renglones@[i].unidades == f.renglones@[i].unidades,
        f.renglones@[i].precio_unitario matches Some(d) ==> p.renglones@[i].precio_unitario == d,
        f.renglones@[i].precio_unitario is None ==> p.renglones@[i].precio_unitario@.mantisa == -1
            && p.renglones@[i].precio_unitario@.escala == 0,
        f.renglones@[i].descuento_pctje matches Some(d) ==> p.renglones@[i].pctje_dscto == d,
        f.renglones@[i].descuento_pctje is None ==> p.renglones@[i].pctje_dscto@.mantisa == -1
            && p.renglones@[i].pctje_dscto@.escala == 0,
        f.renglones@[i].notas matches Some(t) ==> p.renglones@[i].notas@ == t@,
        f.renglones@[i].notas is None ==> p.renglones@[i].notas@.len() == 0,
{
    assert(es_renglon(f.renglones@[i], p.renglones@[i]));
    if let EntidadIdV::Numerico(n) = f.renglones@[i].articulo_id@ {
        ley_bits_bajos(n as int);
    }
}

/// De la factura a la llamada nativa: el operando 16 de `NuevaFactura` es el
/// número que la factura trae en `ImporteCobro`, el 11 el de `PctjeComis`, y así
/// cada uno; los del renglón son los del renglón universal.
pub proof fn ley_alta_factura(
    f: NuevaFactura,
    hoy: Fecha,
    memoria: MicrosipState,
    db_path: Seq<char>,
    usuario: Seq<char>,
    password: Seq<char>,
    metadatos: Option<Seq<char>>,
    reglas: (i32, i32),
    p: FacturaParams,
)
    requires
        error_factura(f) is None,
        es_factura(f, hoy, p),
    ensures
        ({
            let pr = programa_factura(memoria, db_path, usuario, password, metadatos, reglas, p);
            let k = paso_encabezado(memoria, metadatos, p);
            let a = pr.pasos[k]->args;
            &&& 0 <= k < pr.pasos.len()
            &&& llamada(pr.pasos[k], "NuevaFactura"@, 19, Regla::Cero(Modulo::Ventas))
            &&& a[0] matches OperandoV::Texto(t) && (f.fecha matches Some(d) ==> t == fecha_texto(
                d@,
            ))
            &&& a[1] matches OperandoV::Texto(t) && (f.folio matches Some(u) ==> t == u@)
            &&& a[2] matches OperandoV::Entero(n) && f.cliente_id@ matches EntidadIdV::Numerico(c)
                && (n - c) % 0x1_0000_0000 == 0
            &&& a[3] matches OperandoV::Entero(n) && entero_o(f.extra, "DirConsigId"@, 0, n)
            &&& a[4] matches OperandoV::Entero(n) && entero_o(f.extra, "AlmacenId"@, 0, n)
            &&& a[5] matches OperandoV::Texto(t) && texto_o(f.extra, "TipoDscto"@, "P"@, t)
            &&& a[6] matches OperandoV::Doble(d) && doble_o(f.extra, "Descuento"@, 0, d)
            &&& a[7] matches OperandoV::Ansi(t) && texto_o(f.extra, "OrdenCompra"@, ""@, t)
            &&& a[8] matches OperandoV::Ansi(t) && (f.descripcion matches Some(u) ==> t == u@)
            &&& a[9] matches OperandoV::Doble(d) && doble_o(f.extra, "Fletes"@, 0, d)
            &&& a[10] matches OperandoV::Doble(d) && doble_o(f.extra, "OtrosCargos"@, 0, d)
            &&& a[11] matches OperandoV::Doble(d) && doble_o(
                f.extra,
                "PctjeComis"@,
                0xBFF0_0000_0000_0000,
                d,
            )
            &&& a[12] matches OperandoV::Entero(n) && entero_o(f.extra, "CondPagoId"@, 0, n)
            &&& a[13] matches OperandoV::Entero(n) && entero_o(f.extra, "VendedorId"@, 0, n)
            &&& a[14] matches OperandoV::Entero(n) && entero_o(f.extra, "ImptoSustituidoId"@, 0, n)
            &&& a[15] matches OperandoV::Entero(n) && entero_o(f.extra, "ImptoSustitutoId"@, 0, n)
            &&& a[16] matches OperandoV::Doble(d) && contenido(f.extra).contains_key(
                "ImporteCobro"@,
            ) && vale(contenido(f.extra)["ImporteCobro"@], d)
            &&& a[17] matches OperandoV::Ansi(t) && texto_o(f.extra, "DescripcionCobro"@, ""@, t)
        }),
        ({
            let pr = programa_factura(memoria, db_path, usuario, password, metadatos, reglas, p);
            let r = pr.al_fallar - 2 - f.renglones@.len();
            &&& f.renglones@.len() > 0
            &&& forall|i: int|
                0 <= i < f.renglones@.len() ==> {
                    &&& llamada(
                        #[trigger] pr.pasos[r + i],
                        "RenglonFactura"@,
                        5,
                        Regla::Cero(Modulo::Ventas),
                    )
                    &&& pr.pasos[r + i]->args[1] == OperandoV::Decimal(f.renglones@[i].unidades)
                    &&& f.renglones@[i].precio_unitario matches Some(d) ==> pr.pasos[r + i]->args[2]
                        == OperandoV::Decimal(d)
                    &&& f.renglones@[i].descuento_pctje matches Some(d) ==> pr.pasos[r + i]->args[3]
                        == OperandoV::Decimal(d)
                }
        }),
{
    ley_parametros_factura(f, hoy, p);
    ley_operandos_factura(memoria, db_path, usuario, password, metadatos, reglas, p);
    ley_renglones_factura(memoria, db_path, usuario, password, metadatos, reglas, p);
    let pr = programa_factura(memoria, db_path, usuario, password, metadatos, reglas, p);
    let r = pr.al_fallar - 2 - f.renglones@.len();
    assert forall|i: int| 0 <= i < f.renglones@.len() implies {
        &&& llamada(#[trigger] pr.pasos[r + i], "RenglonFactura"@, 5, Regla::Cero(Modulo::Ventas))
        &&& pr.pasos[r + i]->args[1] == OperandoV::Decimal(f.renglones@[i].unidades)
        &&& f.renglones@[i].precio_unitario matches Some(d) ==> pr.pasos[r + i]->args[2]
            == OperandoV::Decimal(d)
        &&& f.renglones@[i].descuento_pctje matches Some(d) ==> pr.pasos[r + i]->args[3]
            == OperandoV::Decimal(d)
    } by {
        ley_renglones_universales(f, hoy, p, i);
    }
}

/// Los dos impuestos de una sustitución no van ambos en cero ni ambos con un
/// identificador positivo.
pub open spec fn impuestos_a_medias(f: NuevaFactura) -> bool {
    exists|a: i32, b: i32| #[trigger]
        entero_o(f.extra, "ImptoSustituidoId"@, 0, a) && #[trigger] entero_o(
            f.extra,
            "ImptoSustitutoId"@,
            0,
            b,
        ) && !(a == 0 && b == 0) && !(a > 0 && b > 0)
}

/// Las faltas que se buscan en `extra`, en el orden en que se buscan, cada una con
/// lo que se dice de ella.
pub open spec fn faltas(f: NuevaFactura) -> Seq<(bool, Seq<char>)> {
    let x = f.extra;
    seq![
        (no_entero(x, "DirConsigId"@), "extra."@ + "DirConsigId"@ + " debe ser "@ + "entero"@),
        (no_entero(x, "AlmacenId"@), "extra."@ + "AlmacenId"@ + " debe ser "@ + "entero"@),
        (no_texto(x, "TipoDscto"@), "extra."@ + "TipoDscto"@ + " debe ser "@ + "texto"@),
        (no_numero(x, "Descuento"@), "extra."@ + "Descuento"@ + " debe ser "@ + "numérico"@),
        (no_texto(x, "OrdenCompra"@), "extra."@ + "OrdenCompra"@ + " debe ser "@ + "texto"@),
        (no_numero(x, "Fletes"@), "extra."@ + "Fletes"@ + " debe ser "@ + "numérico"@),
        (no_numero(x, "OtrosCargos"@), "extra."@ + "OtrosCargos"@ + " debe ser "@ + "numérico"@),
        (no_numero(x, "PctjeComis"@), "extra."@ + "PctjeComis"@ + " debe ser "@ + "numérico"@),
        (no_entero(x, "CondPagoId"@), "extra."@ + "CondPagoId"@ + " debe ser "@ + "entero"@),
        (no_entero(x, "VendedorId"@), "extra."@ + "VendedorId"@ + " debe ser "@ + "entero"@),
        (no_entero(x, "ImptoSustituidoId"@), "extra."@ + "ImptoSustituidoId"@ + " debe ser "@ + "entero"@),
        (no_entero(x, "ImptoSustitutoId"@), "extra."@ + "ImptoSustitutoId"@ + " debe ser "@ + "entero"@),
        (
            impuestos_a_medias(f),
            "extra.ImptoSustituidoId y extra.ImptoSustitutoId deben ir ambos en 0 (sin sustitución de impuesto) o ambos mayores que 0, nunca uno solo"@,
        ),
        (no_texto(x, "DescripcionCobro"@), "extra."@ + "DescripcionCobro"@ + " debe ser "@ + "texto"@),
        (
            !contenido(x).contains_key("ImporteCobro"@),
            "extra.ImporteCobro es obligatorio y no tiene default seguro: -1 registra el cobro TOTAL de la factura automáticamente; no existe ningún sentinela documentado para \"sin cobro\" en una factura a crédito válida. Especifícalo explícitamente (-1 para contado total, o el importe exacto a cobrar hoy; 0 es un SUPUESTO NO VERIFICADO — no lo asumas sin probarlo contra una base de PRUEBAS)."@,
        ),
        (no_numero(x, "ImporteCobro"@), "extra."@ + "ImporteCobro"@ + " debe ser "@ + "numérico"@),
    ]
}

/// Por qué se rechaza una factura: porque su cliente no es un número o, si lo es,
/// por la primera falta que haya en `extra`.
pub proof fn ley_rechazo_por_extra(f: NuevaFactura, i: int)
    ensures
        f.cliente_id@ matches EntidadIdV::Texto(s) ==> error_factura(f) == Some(
            ErrorV::Validation(
                "cliente_id"@ + " debe ser numérico en Microsip, recibido: '"@ + s + "'"@,
            ),
        ),
        f.cliente_id@ is Numerico && 0 <= i < faltas(f).len() && faltas(f)[i].0 && (forall|j: int|
            0 <= j < i ==> !(#[trigger] faltas(f)[j]).0) ==> error_factura(f) == Some(
            ErrorV::Validation(faltas(f)[i].1),
        ),
{
    let x = f.extra;
    let t = faltas(f);
    assert(t.len() == 16);
    assert(t[0].0 == no_entero(x, "DirConsigId"@));
    assert(t[1].0 == no_entero(x, "AlmacenId"@));
    assert(t[2].0 == no_texto(x, "TipoDscto"@));
    assert(t[3].0 == no_numero(x, "Descuento"@));
    assert(t[4].0 == no_texto(x, "OrdenCompra"@));
    assert(t[5].0 == no_numero(x, "Fletes"@));
    assert(t[6].0 == no_numero(x, "OtrosCargos"@));
    assert(t[7].0 == no_numero(x, "PctjeComis"@));
    assert(t[8].0 == no_entero(x, "CondPagoId"@));
    assert(t[9].0 == no_entero(x, "VendedorId"@));
    assert(t[10].0 == no_entero(x, "ImptoSustituidoId"@));
    assert(t[11].0 == no_entero(x, "ImptoSustitutoId"@));
    assert(t[12].0 == impuestos_a_medias(f));
    assert(t[13].0 == no_texto(x, "DescripcionCobro"@));
    assert(t[14].0 == !contenido(x).contains_key("ImporteCobro"@));
    assert(t[15].0 == no_numero(x, "ImporteCobro"@));
    ley_entero_de_clave(f.extra, "DirConsigId"@, 0);
    ley_entero_de_clave(f.extra, "AlmacenId"@, 0);
    ley_texto_de_clave(f.extra, "TipoDscto"@, "P"@);
    ley_doble_de_clave(f.extra, "Descuento"@, Doble { bits: 0 });
    ley_texto_de_clave(f.extra, "OrdenCompra"@, ""@);
    ley_doble_de_clave(f.extra, "Fletes"@, Doble { bits: 0 });
    ley_doble_de_clave(f.extra, "OtrosCargos"@, Doble { bits: 0 });
    ley_doble_de_clave(f.extra, "PctjeComis"@, Doble { bits: 0xBFF0_0000_0000_0000 });
    ley_entero_de_clave(f.extra, "CondPagoId"@, 0);
    ley_entero_de_clave(f.extra, "VendedorId"@, 0);
    ley_entero_de_clave(f.extra, "ImptoSustituidoId"@, 0);
    ley_entero_de_clave(f.extra, "ImptoSustitutoId"@, 0);
    ley_texto_de_clave(f.extra, "DescripcionCobro"@, ""@);
    ley_doble_de_clave(f.extra, "ImporteCobro"@, Doble { bits: 0 });
    if !no_entero(f.extra, "ImptoSustituidoId"@) && !no_entero(f.extra, "ImptoSustitutoId"@) {
        lema_impuestos(f);
    }
}

/// Sin faltas en `extra`, una factura se rechaza por su primer renglón cuyo
/// artículo no es un número, o por no tener renglones; si no, se acepta.
pub proof fn ley_rechazo_por_renglones(f: NuevaFactura)
    requires
        f.cliente_id@ is Numerico,
        forall|j: int| 0 <= j < faltas(f).len() ==> !(#[trigger] faltas(f)[j]).0,
    ensures
        forall|i: int, s: Seq<char>|
            0 <= i < f.renglones@.len() && f.renglones@[i].articulo_id@ == EntidadIdV::Texto(s) && (
            forall|j: int| 0 <= j < i ==> (#[trigger] f.renglones@[j]).articulo_id@ is Numerico)
                ==> error_factura(f) == Some(#[trigger] falta_articulo(i, s)),
        (forall|i: int|
            0 <= i < f.renglones@.len() ==> (#[trigger] f.renglones@[i]).articulo_id@ is Numerico)
            ==> error_factura(f) == (if f.renglones@.len() == 0 {
            Some(
                ErrorV::Validation(
                    "una factura necesita al menos un renglón (AplicaFactura retorna error 2 = 'No se han registrado renglones en la factura' si se manda vacía)"@,
                ),
            )
        } else {
            None
        }),
{
    let x = f.extra;
    let t = faltas(f);
    assert(t.len() == 16);
    assert(t[0].0 == no_entero(x, "DirConsigId"@));
    assert(t[1].0 == no_entero(x, "AlmacenId"@));
    assert(t[2].0 == no_texto(x, "TipoDscto"@));
    assert(t[3].0 == no_numero(x, "Descuento"@));
    assert(t[4].0 == no_texto(x, "OrdenCompra"@));
    assert(t[5].0 == no_numero(x, "Fletes"@));
    assert(t[6].0 == no_numero(x, "OtrosCargos"@));
    assert(t[7].0 == no_numero(x, "PctjeComis"@));
    assert(t[8].0 == no_entero(x, "CondPagoId"@));
    assert(t[9].0 == no_entero(x, "VendedorId"@));
    assert(t[10].0 == no_entero(x, "ImptoSustituidoId"@));
    assert(t[11].0 == no_entero(x, "ImptoSustitutoId"@));
    assert(t[12].0 == impuestos_a_medias(f));
    assert(t[13].0 == no_texto(x, "DescripcionCobro"@));
    assert(t[14].0 == !contenido(x).contains_key("ImporteCobro"@));
    assert(t[15].0 == no_numero(x, "ImporteCobro"@));
    ley_entero_de_clave(f.extra, "DirConsigId"@, 0);
    ley_entero_de_clave(f.extra, "AlmacenId"@, 0);
    ley_texto_de_clave(f.extra, "TipoDscto"@, "P"@);
    ley_doble_de_clave(f.extra, "Descuento"@, Doble { bits: 0 });
    ley_texto_de_clave(f.extra, "OrdenCompra"@, ""@);
    ley_doble_de_clave(f.extra, "Fletes"@, Doble { bits: 0 });
    ley_doble_de_clave(f.extra, "OtrosCargos"@, Doble { bits: 0 });
    ley_doble_de_clave(f.extra, "PctjeComis"@, Doble { bits: 0xBFF0_0000_0000_0000 });
    ley_entero_de_clave(f.extra, "CondPagoId"@, 0);
    ley_entero_de_clave(f.extra, "VendedorId"@, 0);
    ley_entero_de_clave(f.extra, "ImptoSustituidoId"@, 0);
    ley_entero_de_clave(f.extra, "ImptoSustitutoId"@, 0);
    ley_texto_de_clave(f.extra, "DescripcionCobro"@, ""@);
    ley_doble_de_clave(f.extra, "ImporteCobro"@, Doble { bits: 0 });
    if !no_entero(f.extra, "ImptoSustituidoId"@) && !no_entero(f.extra, "ImptoSustitutoId"@) {
        lema_impuestos(f);
    }
    assert forall|i: int, s: Seq<char>|
        0 <= i < f.renglones@.len() && f.renglones@[i].articulo_id@ == EntidadIdV::Texto(s) && (
        forall|j: int| 0 <= j < i ==> (#[trigger] f.renglones@[j]).articulo_id@ is Numerico) implies
        error_renglones(f.renglones@) == Some(#[trigger] falta_articulo(i, s)) by {
        lema_articulos(f.renglones@, i);
    }
    if forall|i: int|
        0 <= i < f.renglones@.len() ==> (#[trigger] f.renglones@[i]).articulo_id@ is Numerico {
        lema_articulos(f.renglones@, f.renglones@.len() as int);
    }
}

/// El rechazo de un renglón cuyo artículo es un texto; no depende de cuál sea el
/// renglón.
pub open spec fn falta_articulo(i: int, s: Seq<char>) -> ErrorV {
    ErrorV::Validation("articulo_id"@ + " debe ser numérico en Microsip, recibido: '"@ + s + "'"@)
}

proof fn lema_articulos(s: Seq<Renglon>, i: int)
    requires
        0 <= i <= s.len(),
        forall|j: int| 0 <= j < i ==> (#[trigger] s[j]).articulo_id@ is Numerico,
    ensures
        i == s.len() ==> error_renglones(s) is None,
        i < s.len() ==> (s[i].articulo_id@ matches EntidadIdV::Texto(t) ==> error_renglones(s)
            == Some(falta_articulo(i, t))),
    decreases s.len(),
{
    if s.len() > 0 {
        let t = s.drop_last();
        assert forall|j: int| 0 <= j < t.len() implies (#[trigger] t[j]) == s[j] by {
        }
        if i == s.len() {
            assert(s[i - 1].articulo_id@ is Numerico);
            lema_articulos(t, i - 1);
        } else {
            lema_articulos(t, i);
        }
    }
}

proof fn lema_impuestos(f: NuevaFactura)
    requires
        !no_entero(f.extra, "ImptoSustituidoId"@),
        !no_entero(f.extra, "ImptoSustitutoId"@),
    ensures
        impuestos_a_medias(f) <==> error_impuestos(f.extra) is Some,
{
    ley_entero_de_clave(f.extra, "ImptoSustituidoId"@, 0);
    ley_entero_de_clave(f.extra, "ImptoSustitutoId"@, 0);
    let n = entero_extra(f.extra, "ImptoSustituidoId"@, 0)->Ok_0 as int;
    let m = entero_extra(f.extra, "ImptoSustitutoId"@, 0)->Ok_0 as int;
    ley_bits_bajos(n);
    ley_bits_bajos(m);
    let a = truncado(n) as i32;
    let b = truncado(m) as i32;
    assert(entero_o(f.extra, "ImptoSustituidoId"@, 0, a));
    assert(entero_o(f.extra, "ImptoSustitutoId"@, 0, b));
}

} // verus!
