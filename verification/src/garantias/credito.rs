//! El alta de un crédito: cada llamada nativa, operando por operando, y de
//! dónde sale cada operando.

use vstd::prelude::*;

use crate::doble::Doble;
use crate::error::ErrorV;
use crate::extra::contenido;
use crate::fecha::{fecha_hora_texto, FechaHora};
use crate::garantias::extras::{
    doble_o, entero_o, lema_son_pares, ley_doble_de_clave, ley_entero_de_clave, no_entero,
    no_numero, son_pares_de,
};
use crate::garantias::numeros::ley_bits_bajos;
use crate::garantias::pasos::{
    conexion_en, desconexion, lema_conexion_en, lema_lista_en, lista_en, llamada, localiza,
};
use crate::microsip::cxc::{
    claves_credito, error_aplicaciones, error_credito, es_aplicacion, es_credito,
};
use crate::microsip::guiones::credito::{
    apertura_credito, cierre_credito, conexion_metadatos, encabezado_credito, final_credito,
    programa_credito, renglon_credito, renglones_credito, simbolos_credito,
};
use crate::microsip::guiones::{conectar, llenar_lista, simbolos, Base};
use crate::microsip::maquina::MicrosipState;
use crate::microsip::nativo::{Modulo, OperandoV, PasoV, Registro, Regla};
use crate::microsip::params::CreditoParams;
use crate::models::common::EntidadIdV;
use crate::models::cxc::{AplicacionCargo, NuevoCredito};

verus! {

/// El primer paso de Cxc: tras doce símbolos, la conexión a la empresa y, si
/// hay Metadatos, la suya.
pub open spec fn paso_cxc(metadatos: Option<Seq<char>>) -> int {
    if metadatos is Some {
        28
    } else {
        20
    }
}

/// El paso que sigue al uso de Metadatos.
pub open spec fn paso_lista_credito(memoria: MicrosipState, metadatos: Option<Seq<char>>) -> int {
    paso_cxc(metadatos) + 2 + (if metadatos is None {
        0int
    } else if memoria.compatibilidad_cxc_checada {
        1
    } else {
        2
    })
}

/// El paso del encabezado de un crédito: tras la lista, si hay pares.
pub open spec fn paso_encabezado_credito(
    memoria: MicrosipState,
    metadatos: Option<Seq<char>>,
    p: CreditoParams,
) -> int {
    paso_lista_credito(memoria, metadatos) + (if p.lista_parametros@.len() == 0 {
        0
    } else {
        p.lista_parametros@.len() + (if memoria.pl_handle is None {
            2
        } else {
            1int
        })
    })
}

/// Cuántos pasos ocupan las aplicaciones: uno por cada una, o el rechazo si no
/// hay ninguna.
pub open spec fn pasos_aplicaciones(p: CreditoParams) -> int {
    if p.aplicaciones@.len() == 0 {
        1
    } else {
        p.aplicaciones@.len() as int
    }
}

proof fn lema_largos(
    memoria: MicrosipState,
    db_path: Seq<char>,
    usuario: Seq<char>,
    password: Seq<char>,
    metadatos: Option<Seq<char>>,
    p: CreditoParams,
)
    ensures
        (simbolos(simbolos_credito()) + conectar(Base::Empresa, db_path, usuario, password)).len()
            == 20,
        conexion_metadatos(metadatos, usuario, password).len() == paso_cxc(metadatos) - 20,
        apertura_credito(memoria, metadatos is Some).len() == paso_lista_credito(memoria, metadatos)
            - paso_cxc(metadatos),
        llenar_lista(Modulo::Cxc, memoria, p.lista_parametros@).len() == paso_encabezado_credito(
            memoria,
            metadatos,
            p,
        ) - paso_lista_credito(memoria, metadatos),
        renglones_credito(p).len() == pasos_aplicaciones(p),
        final_credito().len() == 2,
{
    assert(simbolos(simbolos_credito()).len() == 12);
    assert(conectar(Base::Empresa, db_path, usuario, password).len() == 8);
    if let Some(meta) = metadatos {
        assert(conectar(Base::Metadatos, meta, usuario, password).len() == 8);
    }
}

/// Un crédito empieza por localizar los doce símbolos que usa, conectarse a la
/// empresa y, si hay Metadatos, a Metadatos; hasta que las dos conexiones están
/// no hay nada que abortar.
pub proof fn ley_preludio_credito(
    memoria: MicrosipState,
    db_path: Seq<char>,
    usuario: Seq<char>,
    password: Seq<char>,
    metadatos: Option<Seq<char>>,
    p: CreditoParams,
)
    ensures
        ({
            let pr = programa_credito(memoria, db_path, usuario, password, metadatos, p);
            let s = pr.pasos;
            &&& pr.cuerpo == 20
            &&& pr.aborta == paso_cxc(metadatos)
            &&& s.len() > paso_cxc(metadatos)
            &&& localiza(s[0], "ccSetErrorHandling"@)
            &&& localiza(s[1], "SetDBCxc"@)
            &&& localiza(s[2], "SetDBMetadatos"@)
            &&& localiza(s[3], "ChecaCompatibilidadCxc"@)
            &&& localiza(s[4], "NuevoCreditoCc"@)
            &&& localiza(s[5], "RenglonCreditoCc"@)
            &&& localiza(s[6], "AplicaCreditoCc"@)
            &&& localiza(s[7], "AbortaDoctoCxc"@)
            &&& localiza(s[8], "GetDoctoCCId"@)
            &&& localiza(s[9], "NewPL"@)
            &&& localiza(s[10], "PLSetParamValue"@)
            &&& localiza(s[11], "PLClear"@)
            &&& conexion_en(
                s,
                12,
                Registro::EmpresaDb,
                Registro::EmpresaTrn,
                Regla::Cero(Modulo::Basica),
                db_path,
                usuario,
                password,
            )
            &&& metadatos matches Some(meta) ==> conexion_en(
                s,
                20,
                Registro::MetadatosDb,
                Registro::MetadatosTrn,
                Regla::Abre(Registro::MetadatosAbierta),
                meta,
                usuario,
                password,
            )
        }),
{
    let pr = programa_credito(memoria, db_path, usuario, password, metadatos, p);
    let s = pr.pasos;
    lema_largos(memoria, db_path, usuario, password, metadatos, p);
    let sim = simbolos(simbolos_credito());
    assert(sim.len() == 12);
    assert(s.len() > paso_cxc(metadatos));
    assert(s.subrange(12, 20) =~= conectar(Base::Empresa, db_path, usuario, password));
    lema_conexion_en(s, 12, Base::Empresa, db_path, usuario, password);
    if let Some(meta) = metadatos {
        assert(s.subrange(20, 28) =~= conectar(Base::Metadatos, meta, usuario, password));
        lema_conexion_en(s, 20, Base::Metadatos, meta, usuario, password);
    }
    assert(s.subrange(0, 12) =~= sim);
    assert forall|i: int| 0 <= i < 12 implies #[trigger] s[i] == sim[i] by {
        assert(s.subrange(0, 12)[i] == s[i]);
    }
}

/// Después se inicializa Cxc sobre la empresa y, si hay Metadatos, se chequea
/// la compatibilidad la primera vez y se le entrega Metadatos siempre. Si hay
/// pares, enseguida se llena la lista de parámetros.
pub proof fn ley_apertura_credito(
    memoria: MicrosipState,
    db_path: Seq<char>,
    usuario: Seq<char>,
    password: Seq<char>,
    metadatos: Option<Seq<char>>,
    p: CreditoParams,
)
    ensures
        ({
            let pr = programa_credito(memoria, db_path, usuario, password, metadatos, p);
            let s = pr.pasos;
            let c = paso_cxc(metadatos);
            let l = paso_lista_credito(memoria, metadatos);
            &&& s.len() > l
            &&& llamada(s[c], "ccSetErrorHandling"@, 2, Regla::Ignora)
            &&& s[c]->args[0] == OperandoV::Entero(0)
            &&& s[c]->args[1] == OperandoV::Entero(0)
            &&& llamada(s[c + 1], "SetDBCxc"@, 1, Regla::Cero(Modulo::Cxc))
            &&& s[c + 1]->args[0] == OperandoV::Registro(Registro::EmpresaDb)
            &&& metadatos is Some ==> {
                &&& llamada(s[l - 1], "SetDBMetadatos"@, 1, Regla::Cero(Modulo::Cxc))
                &&& s[l - 1]->args[0] == OperandoV::Registro(Registro::MetadatosDb)
            }
            &&& metadatos is Some && !memoria.compatibilidad_cxc_checada ==> {
                &&& llamada(s[l - 2], "ChecaCompatibilidadCxc"@, 1, Regla::CompatibleCxc)
                &&& s[l - 2]->args[0] == OperandoV::Registro(Registro::MetadatosDb)
            }
            &&& p.lista_parametros@.len() > 0 ==> lista_en(
                s,
                l,
                Modulo::Cxc,
                memoria.pl_handle is None,
                p.lista_parametros@,
            )
        }),
{
    let pr = programa_credito(memoria, db_path, usuario, password, metadatos, p);
    let s = pr.pasos;
    lema_largos(memoria, db_path, usuario, password, metadatos, p);
    let ape = apertura_credito(memoria, metadatos is Some);
    let lis = llenar_lista(Modulo::Cxc, memoria, p.lista_parametros@);
    let c = paso_cxc(metadatos);
    let l = paso_lista_credito(memoria, metadatos);
    assert(s.subrange(c, l) =~= ape);
    assert forall|i: int| 0 <= i < l - c implies #[trigger] ape[i] == s[c + i] by {
        assert(s.subrange(c, l)[i] == s[c + i]);
    }
    assert(ape[0] == s[c]);
    assert(ape[l - c - 1] == s[l - 1]);
    if metadatos is Some && !memoria.compatibilidad_cxc_checada {
        assert(ape[2] == s[l - 2]);
    }
    if p.lista_parametros@.len() > 0 {
        assert(s.subrange(l, l + lis.len()) =~= lis);
        lema_lista_en(s, l, Modulo::Cxc, memoria, p.lista_parametros@);
    }
}

/// El encabezado de un crédito: el operando de cada posición es el parámetro de
/// ese nombre en la firma nativa de `NuevoCreditoCc`.
pub proof fn ley_operandos_credito(
    memoria: MicrosipState,
    db_path: Seq<char>,
    usuario: Seq<char>,
    password: Seq<char>,
    metadatos: Option<Seq<char>>,
    p: CreditoParams,
)
    ensures
        ({
            let pr = programa_credito(memoria, db_path, usuario, password, metadatos, p);
            let s = pr.pasos;
            let k = paso_encabezado_credito(memoria, metadatos, p);
            let a = s[k]->args;
            &&& 0 <= k < pr.al_fallar
            &&& llamada(s[k], "NuevoCreditoCc"@, 7, Regla::Cero(Modulo::Cxc))
            &&& a[0] == OperandoV::Entero(p.concepto_cc_id)
            &&& a[1] == OperandoV::Texto(p.fecha@)
            &&& a[2] == OperandoV::Texto(p.folio@)
            &&& a[3] == OperandoV::Entero(p.cliente_id)
            &&& a[4] == OperandoV::Ansi(p.descripcion@)
            &&& a[5] == OperandoV::Entero(p.cobrador_id)
            &&& a[6] == (if p.lista_parametros@.len() == 0 {
                OperandoV::Entero((-1) as i32)
            } else {
                OperandoV::Registro(Registro::Lista)
            })
        }),
{
    let pr = programa_credito(memoria, db_path, usuario, password, metadatos, p);
    let s = pr.pasos;
    lema_largos(memoria, db_path, usuario, password, metadatos, p);
    let k = paso_encabezado_credito(memoria, metadatos, p);
    assert(s[k] == encabezado_credito(p));
}

/// Tras el encabezado va cada aplicación con sus ocho operandos (o el rechazo,
/// si no hay ninguna), el identificador y la aplicación del documento; después,
/// el aborto y las desconexiones, y nada más.
pub proof fn ley_renglones_credito(
    memoria: MicrosipState,
    db_path: Seq<char>,
    usuario: Seq<char>,
    password: Seq<char>,
    metadatos: Option<Seq<char>>,
    p: CreditoParams,
)
    ensures
        ({
            let pr = programa_credito(memoria, db_path, usuario, password, metadatos, p);
            let s = pr.pasos;
            let r = paso_encabezado_credito(memoria, metadatos, p) + 1;
            let n = r + pasos_aplicaciones(p) + 2;
            &&& pr.al_fallar == n
            &&& pr.cierre == n + 1
            &&& s.len() == (if metadatos is Some {
                n + 3
            } else {
                n + 2
            })
            &&& p.aplicaciones@.len() == 0 ==> s[r] == PasoV::Rechaza(
                "un crédito necesita al menos una aplicación contra un cargo (RenglonCreditoCc no se llamaría nunca; AplicaCreditoCc fallaría con un crédito sin renglones)"@,
            )
            &&& forall|i: int|
                0 <= i < p.aplicaciones@.len() ==> {
                    &&& llamada(#[trigger] s[r + i], "RenglonCreditoCc"@, 8, Regla::Cero(Modulo::Cxc))
                    &&& s[r + i]->args[0] == OperandoV::Texto("R"@)
                    &&& s[r + i]->args[1] == OperandoV::Entero(p.aplicaciones@[i].cargo_id)
                    &&& s[r + i]->args[2] == OperandoV::Texto(p.aplicaciones@[i].folio_cargo@)
                    &&& s[r + i]->args[3] == OperandoV::Decimal(p.aplicaciones@[i].importe)
                    &&& s[r + i]->args[4] == OperandoV::Doble(Doble { bits: 0 })
                    &&& s[r + i]->args[5] == OperandoV::Doble(Doble { bits: 0 })
                    &&& s[r + i]->args[6] == OperandoV::Doble(Doble { bits: 0 })
                    &&& s[r + i]->args[7] == OperandoV::Doble(p.aplicaciones@[i].dscto_ppag)
                }
            &&& llamada(s[n - 2], "GetDoctoCCId"@, 0, Regla::Documento(Modulo::Cxc))
            &&& llamada(s[n - 1], "AplicaCreditoCc"@, 0, Regla::Cero(Modulo::Cxc))
            &&& llamada(s[n], "AbortaDoctoCxc"@, 0, Regla::Ignora)
            &&& metadatos is Some ==> desconexion(
                s[n + 1],
                Registro::MetadatosDb,
                Regla::DesconectaAbierta(Registro::MetadatosAbierta),
            )
            &&& desconexion(
                s[s.len() - 1],
                Registro::EmpresaDb,
                Regla::Desconecta { estricta: false },
            )
        }),
{
    let pr = programa_credito(memoria, db_path, usuario, password, metadatos, p);
    let s = pr.pasos;
    lema_largos(memoria, db_path, usuario, password, metadatos, p);
    let r = paso_encabezado_credito(memoria, metadatos, p) + 1;
    let n = r + pasos_aplicaciones(p) + 2;
    assert(pr.al_fallar == n);
    let cie = cierre_credito(metadatos is Some);
    assert(cie.len() == (if metadatos is Some {
        2int
    } else {
        1int
    }));
    if p.aplicaciones@.len() == 0 {
        assert(s[r] == renglones_credito(p)[0]);
    }
    assert forall|i: int| 0 <= i < p.aplicaciones@.len() implies #[trigger] s[r + i]
        == renglon_credito(p, i) by {
        assert(s[r + i] == renglones_credito(p)[i]);
    }
    assert(s[n - 2] == final_credito()[0]);
    assert(s[n - 1] == final_credito()[1]);
    assert(s[n + 1] == cie[0]);
    assert(s[s.len() - 1] == cie[cie.len() - 1]);
}

/// Los parámetros de un crédito: cada uno sale de su dato en el crédito o de su
/// clave en `extra`, y si falta lleva su valor por omisión.
pub proof fn ley_parametros_credito(c: NuevoCredito, ahora: FechaHora, p: CreditoParams)
    requires
        error_credito(c) is None,
        es_credito(c, ahora, p),
    ensures
        c.concepto_id@ matches EntidadIdV::Numerico(n) && (p.concepto_cc_id - n) % 0x1_0000_0000
            == 0,
        c.cliente_id@ matches EntidadIdV::Numerico(n) && (p.cliente_id - n) % 0x1_0000_0000 == 0,
        c.fecha matches Some(d) ==> p.fecha@ == fecha_hora_texto(d@),
        c.fecha is None ==> p.fecha@ == fecha_hora_texto(ahora@),
        c.folio matches Some(t) ==> p.folio@ == t@,
        c.folio is None ==> p.folio@.len() == 0,
        c.descripcion matches Some(t) ==> p.descripcion@ == t@,
        c.descripcion is None ==> p.descripcion@.len() == 0,
        entero_o(c.extra, "CobradorId"@, 0, p.cobrador_id),
        p.aplicaciones@.len() == c.aplicaciones@.len(),
        p.aplicaciones@.len() > 0,
        son_pares_de(
            c.extra,
            p.lista_parametros@,
            seq![
                "ES_COBRO_POR_DEPOSITAR"@,
                "FORMA_COBRO_ID"@,
                "REFERENCIA"@,
                "FECHA_APLICACION"@,
                "IMPORTE_COBRO"@,
                "CUENTA_BAN_ID"@,
                "BANCO_ORIGEN_ID"@,
                "NUM_CUENTA_ORIGEN"@,
                "ARCHIVO_CEP"@,
                "REFER_MOVTO_BA"@,
                "LUGAR_EXPEDICION_ID"@,
                "USO_CFDI"@,
                "SUCURSAL_ID"@,
            ].filter(|k: Seq<char>| contenido(c.extra).contains_key(k)),
        ),
{
    ley_entero_de_clave(c.extra, "CobradorId"@, 0);
    if let EntidadIdV::Numerico(n) = c.cliente_id@ {
        ley_bits_bajos(n as int);
    }
    if let EntidadIdV::Numerico(n) = c.concepto_id@ {
        ley_bits_bajos(n as int);
    }
    let claves = seq![
        "ES_COBRO_POR_DEPOSITAR"@,
        "FORMA_COBRO_ID"@,
        "REFERENCIA"@,
        "FECHA_APLICACION"@,
        "IMPORTE_COBRO"@,
        "CUENTA_BAN_ID"@,
        "BANCO_ORIGEN_ID"@,
        "NUM_CUENTA_ORIGEN"@,
        "ARCHIVO_CEP"@,
        "REFER_MOVTO_BA"@,
        "LUGAR_EXPEDICION_ID"@,
        "USO_CFDI"@,
        "SUCURSAL_ID"@,
    ];
    assert(claves =~= claves_credito());
    lema_son_pares(c.extra, p.lista_parametros@, claves);
}

/// Cada aplicación de un crédito paga su importe entero, ni más ni menos, contra
/// su cargo: sin identificador de cargo va 0, sin folio va vacío, y el descuento
/// por pronto pago es el de `extra`, o -1.
pub proof fn ley_aplicaciones_universales(
    c: NuevoCredito,
    ahora: FechaHora,
    p: CreditoParams,
    i: int,
)
    requires
        error_credito(c) is None,
        es_credito(c, ahora, p),
        0 <= i < c.aplicaciones@.len(),
    ensures
        p.aplicaciones@.len() == c.aplicaciones@.len(),
        p.aplicaciones@[i].importe == c.aplicaciones@[i].importe,
        p.aplicaciones@[i].importe@.mantisa == c.aplicaciones@[i].importe@.mantisa,
        p.aplicaciones@[i].importe@.escala == c.aplicaciones@[i].importe@.escala,
        c.aplicaciones@[i].cargo_id matches Some(id) ==> (id@ matches EntidadIdV::Numerico(n) && (
        p.aplicaciones@[i].cargo_id - n) % 0x1_0000_0000 == 0),
        c.aplicaciones@[i].cargo_id is None ==> p.aplicaciones@[i].cargo_id == 0,
        c.aplicaciones@[i].folio_cargo matches Some(t) ==> p.aplicaciones@[i].folio_cargo@ == t@,
        c.aplicaciones@[i].folio_cargo is None ==> p.aplicaciones@[i].folio_cargo@.len() == 0,
        doble_o(c.extra, "DsctoPpag"@, 0xBFF0_0000_0000_0000, p.aplicaciones@[i].dscto_ppag),
{
    ley_doble_de_clave(c.extra, "DsctoPpag"@, Doble { bits: 0xBFF0_0000_0000_0000 });
    assert(es_aplicacion(
        c.aplicaciones@[i],
        crate::extra::doble_extra(
            c.extra,
            "DsctoPpag"@,
            Doble { bits: 0xBFF0_0000_0000_0000 },
        )->Ok_0,
        p.aplicaciones@[i],
    ));
    if let Some(id) = c.aplicaciones@[i].cargo_id {
        if let EntidadIdV::Numerico(n) = id@ {
            ley_bits_bajos(n as int);
        }
    }
}

/// Del crédito a las llamadas nativas: el importe de cada `RenglonCreditoCc` es
/// exactamente el de su aplicación, y cada otro operando, su dato.
pub proof fn ley_alta_credito(
    c: NuevoCredito,
    ahora: FechaHora,
    memoria: MicrosipState,
    db_path: Seq<char>,
    usuario: Seq<char>,
    password: Seq<char>,
    metadatos: Option<Seq<char>>,
    p: CreditoParams,
)
    requires
        error_credito(c) is None,
        es_credito(c, ahora, p),
    ensures
        ({
            let pr = programa_credito(memoria, db_path, usuario, password, metadatos, p);
            let k = paso_encabezado_credito(memoria, metadatos, p);
            let a = pr.pasos[k]->args;
            &&& 0 <= k < pr.pasos.len()
            &&& llamada(pr.pasos[k], "NuevoCreditoCc"@, 7, Regla::Cero(Modulo::Cxc))
            &&& a[0] matches OperandoV::Entero(n) && c.concepto_id@ matches EntidadIdV::Numerico(m)
                && (n - m) % 0x1_0000_0000 == 0
            &&& a[1] matches OperandoV::Texto(t) && (c.fecha matches Some(d) ==> t
                == fecha_hora_texto(d@))
            &&& a[2] matches OperandoV::Texto(t) && (c.folio matches Some(u) ==> t == u@)
            &&& a[3] matches OperandoV::Entero(n) && c.cliente_id@ matches EntidadIdV::Numerico(m)
                && (n - m) % 0x1_0000_0000 == 0
            &&& a[4] matches OperandoV::Ansi(t) && (c.descripcion matches Some(u) ==> t == u@)
            &&& a[5] matches OperandoV::Entero(n) && entero_o(c.extra, "CobradorId"@, 0, n)
        }),
        ({
            let pr = programa_credito(memoria, db_path, usuario, password, metadatos, p);
            let r = pr.al_fallar - 2 - c.aplicaciones@.len();
            &&& c.aplicaciones@.len() > 0
            &&& r == paso_encabezado_credito(memoria, metadatos, p) + 1
            &&& forall|i: int|
                0 <= i < c.aplicaciones@.len() ==> {
                    &&& llamada(
                        #[trigger] pr.pasos[r + i],
                        "RenglonCreditoCc"@,
                        8,
                        Regla::Cero(Modulo::Cxc),
                    )
                    &&& pr.pasos[r + i]->args[0] == OperandoV::Texto("R"@)
                    &&& pr.pasos[r + i]->args[1] matches OperandoV::Entero(n) && (
                    c.aplicaciones@[i].cargo_id is None ==> n == 0)
                    &&& pr.pasos[r + i]->args[3] == OperandoV::Decimal(c.aplicaciones@[i].importe)
                    &&& pr.pasos[r + i]->args[7] matches OperandoV::Doble(d) && doble_o(
                        c.extra,
                        "DsctoPpag"@,
                        0xBFF0_0000_0000_0000,
                        d,
                    )
                }
        }),
{
    ley_parametros_credito(c, ahora, p);
    ley_operandos_credito(memoria, db_path, usuario, password, metadatos, p);
    ley_renglones_credito(memoria, db_path, usuario, password, metadatos, p);
    let pr = programa_credito(memoria, db_path, usuario, password, metadatos, p);
    let r = pr.al_fallar - 2 - c.aplicaciones@.len();
    assert forall|i: int| 0 <= i < c.aplicaciones@.len() implies {
        &&& llamada(#[trigger] pr.pasos[r + i], "RenglonCreditoCc"@, 8, Regla::Cero(Modulo::Cxc))
        &&& pr.pasos[r + i]->args[0] == OperandoV::Texto("R"@)
        &&& pr.pasos[r + i]->args[1] matches OperandoV::Entero(n) && (c.aplicaciones@[i].cargo_id
            is None ==> n == 0)
        &&& pr.pasos[r + i]->args[3] == OperandoV::Decimal(c.aplicaciones@[i].importe)
        &&& pr.pasos[r + i]->args[7] matches OperandoV::Doble(d) && doble_o(
            c.extra,
            "DsctoPpag"@,
            0xBFF0_0000_0000_0000,
            d,
        )
    } by {
        ley_aplicaciones_universales(c, ahora, p, i);
    }
}

/// El rechazo de una aplicación cuyo cargo es un texto; no depende de cuál sea
/// la aplicación.
pub open spec fn falta_cargo(i: int, s: Seq<char>) -> ErrorV {
    ErrorV::Validation(
        "aplicaciones[].cargo_id"@ + " debe ser numérico en Microsip, recibido: '"@ + s + "'"@,
    )
}

/// La aplicación no nombra su cargo por un texto.
pub open spec fn cargo_aceptable(a: AplicacionCargo) -> bool {
    a.cargo_id matches Some(id) ==> id@ is Numerico
}

/// Por qué se rechaza un crédito: la primera de estas faltas que tenga, con su
/// mensaje. Si no tiene ninguna, se acepta.
pub proof fn ley_rechazo_credito(c: NuevoCredito)
    ensures
        c.cliente_id@ matches EntidadIdV::Texto(s) ==> error_credito(c) == Some(
            ErrorV::Validation(
                "cliente_id"@ + " debe ser numérico en Microsip, recibido: '"@ + s + "'"@,
            ),
        ),
        c.cliente_id@ is Numerico ==> (c.concepto_id@ matches EntidadIdV::Texto(s)
            ==> error_credito(c) == Some(
            ErrorV::Validation(
                "concepto_id"@ + " debe ser numérico en Microsip, recibido: '"@ + s + "'"@,
            ),
        )),
        c.cliente_id@ is Numerico && c.concepto_id@ is Numerico && no_entero(
            c.extra,
            "CobradorId"@,
        ) ==> error_credito(c) == Some(
            ErrorV::Validation("extra."@ + "CobradorId"@ + " debe ser "@ + "entero"@),
        ),
        c.cliente_id@ is Numerico && c.concepto_id@ is Numerico && !no_entero(
            c.extra,
            "CobradorId"@,
        ) && no_numero(c.extra, "DsctoPpag"@) ==> error_credito(c) == Some(
            ErrorV::Validation("extra."@ + "DsctoPpag"@ + " debe ser "@ + "numérico"@),
        ),
        c.cliente_id@ is Numerico && c.concepto_id@ is Numerico && !no_entero(
            c.extra,
            "CobradorId"@,
        ) && !no_numero(c.extra, "DsctoPpag"@) ==> {
            &&& c.aplicaciones@.len() == 0 ==> error_credito(c) == Some(
                ErrorV::Validation(
                    "un crédito necesita al menos una aplicación contra un cargo (mapea a RenglonCreditoCc; AplicaCreditoCc fallaría con un crédito sin renglones)"@,
                ),
            )
            &&& forall|i: int, s: Seq<char>|
                0 <= i < c.aplicaciones@.len() && (c.aplicaciones@[i].cargo_id matches Some(id)
                    && id@ == EntidadIdV::Texto(s)) && (forall|j: int|
                    0 <= j < i ==> cargo_aceptable(#[trigger] c.aplicaciones@[j])) ==> error_credito(
                    c,
                ) == Some(#[trigger] falta_cargo(i, s))
            &&& c.aplicaciones@.len() > 0 && (forall|i: int|
                0 <= i < c.aplicaciones@.len() ==> cargo_aceptable(#[trigger] c.aplicaciones@[i]))
                ==> error_credito(c) is None
        },
{
    ley_entero_de_clave(c.extra, "CobradorId"@, 0);
    ley_doble_de_clave(c.extra, "DsctoPpag"@, Doble { bits: 0xBFF0_0000_0000_0000 });
    assert forall|i: int, s: Seq<char>|
        0 <= i < c.aplicaciones@.len() && (c.aplicaciones@[i].cargo_id matches Some(id) && id@
            == EntidadIdV::Texto(s)) && (forall|j: int|
            0 <= j < i ==> cargo_aceptable(#[trigger] c.aplicaciones@[j])) implies
        error_aplicaciones(c.aplicaciones@) == Some(#[trigger] falta_cargo(i, s)) by {
        lema_cargos(c.aplicaciones@, i);
    }
    if forall|i: int|
        0 <= i < c.aplicaciones@.len() ==> cargo_aceptable(#[trigger] c.aplicaciones@[i]) {
        lema_cargos(c.aplicaciones@, c.aplicaciones@.len() as int);
    }
}

proof fn lema_cargos(s: Seq<AplicacionCargo>, i: int)
    requires
        0 <= i <= s.len(),
        forall|j: int| 0 <= j < i ==> cargo_aceptable(#[trigger] s[j]),
    ensures
        i == s.len() ==> error_aplicaciones(s) is None,
        i < s.len() ==> (s[i].cargo_id matches Some(id) ==> (id@ matches EntidadIdV::Texto(t)
            ==> error_aplicaciones(s) == Some(falta_cargo(i, t)))),
    decreases s.len(),
{
    if s.len() > 0 {
        let t = s.drop_last();
        assert forall|j: int| 0 <= j < t.len() implies (#[trigger] t[j]) == s[j] by {
        }
        if i == s.len() {
            assert(cargo_aceptable(s[i - 1]));
            lema_cargos(t, i - 1);
        } else {
            lema_cargos(t, i);
        }
    }
}

} // verus!
