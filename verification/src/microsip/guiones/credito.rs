//! El alta de un crédito de cuentas por cobrar.

use vstd::prelude::*;

use crate::doble::{Doble, BITS_CERO};
use crate::microsip::corridas::es_llamada;
use crate::microsip::exito::{
    abre_en, documento_en, escribe, hubo_que_abortar, ley_exito, ley_falla, ley_memoria, recibio_documento,
};
use crate::microsip::guiones::nombres::lema_nombres;
use crate::microsip::guiones::{
    agregar_conexion, agregar_desconexion, agregar_lista, agregar_simbolos, chequea_compatibilidad,
    con_lista, conectar, crea_lista, de_cierre, desconectar, lema_conectar_lineal,
    lema_desconectar_posible, lema_lista_lineal, lema_lista_nueva, lema_sin_args_posible, lema_suma_lineal,
    lema_tramos_lineales, lineal, llenar_lista, operando_lista, recto, simbolos, tramos,
    vista_opcion, Base,
};
use crate::microsip::leyes::{ley_inicio_coherente, ley_primera_falla, sin_estrictos};
use crate::microsip::maquina::{
    error_de_operandos, error_de_paso, Fase, MicrosipState, Programa,
};
use crate::microsip::nativo::{
    llama, Guion, Modulo, OperandoV, Operandos, Paso, PasoV, Registro, Registros, Regla, RespuestaV,
};
use crate::microsip::params::CreditoParams;

verus! {

/// Los símbolos que un crédito localiza antes de conectarse.
pub open spec fn simbolos_credito() -> Seq<Seq<char>> {
    seq![
        "ccSetErrorHandling"@,
        "SetDBCxc"@,
        "SetDBMetadatos"@,
        "ChecaCompatibilidadCxc"@,
        "NuevoCreditoCc"@,
        "RenglonCreditoCc"@,
        "AplicaCreditoCc"@,
        "AbortaDoctoCxc"@,
        "GetDoctoCCId"@,
        "NewPL"@,
        "PLSetParamValue"@,
        "PLClear"@,
    ]
}

/// La conexión a Metadatos, abierta durante todo el crédito. Si no se puede
/// abrir, el crédito falla y la empresa se cierra igual.
pub open spec fn conexion_metadatos(
    metadatos: Option<Seq<char>>,
    usuario: Seq<char>,
    password: Seq<char>,
) -> Seq<PasoV> {
    match metadatos {
        Some(meta) => conectar(Base::Metadatos, meta, usuario, password),
        None => seq![],
    }
}

/// El uso de Metadatos: el chequeo de compatibilidad se hace una vez por
/// proceso; `SetDBMetadatos`, siempre.
pub open spec fn uso_metadatos(memoria: MicrosipState, hay_metadatos: bool) -> Seq<PasoV> {
    let db = seq![OperandoV::Registro(Registro::MetadatosDb)];
    if !hay_metadatos {
        seq![]
    } else if memoria.compatibilidad_cxc_checada {
        seq![llama("SetDBMetadatos"@, db, Regla::Cero(Modulo::Cxc))]
    } else {
        seq![
            llama("ChecaCompatibilidadCxc"@, db, Regla::CompatibleCxc),
            llama("SetDBMetadatos"@, db, Regla::Cero(Modulo::Cxc)),
        ]
    }
}

/// El encabezado de un crédito.
pub open spec fn encabezado_credito(p: CreditoParams) -> PasoV {
    llama(
        "NuevoCreditoCc"@,
        seq![
            OperandoV::Entero(p.concepto_cc_id),
            OperandoV::Texto(p.fecha@),
            OperandoV::Texto(p.folio@),
            OperandoV::Entero(p.cliente_id),
            OperandoV::Ansi(p.descripcion@),
            OperandoV::Entero(p.cobrador_id),
            operando_lista(p.lista_parametros@),
        ],
        Regla::Cero(Modulo::Cxc),
    )
}

/// La aplicación `i` de un crédito, siempre por importe explícito («R») y con
/// los impuestos y retenciones descontinuados en cero.
pub open spec fn renglon_credito(p: CreditoParams, i: int) -> PasoV {
    let a = p.aplicaciones@[i];
    let cero = OperandoV::Doble(Doble { bits: BITS_CERO });
    llama(
        "RenglonCreditoCc"@,
        seq![
            OperandoV::Texto("R"@),
            OperandoV::Entero(a.cargo_id),
            OperandoV::Texto(a.folio_cargo@),
            OperandoV::Decimal(a.importe),
            cero,
            cero,
            cero,
            OperandoV::Doble(a.dscto_ppag),
        ],
        Regla::Cero(Modulo::Cxc),
    )
}

/// El motivo por el que se rechaza un crédito sin aplicaciones.
pub const SIN_APLICACIONES: &'static str = "un crédito necesita al menos una aplicación contra un cargo (RenglonCreditoCc no se llamaría nunca; AplicaCreditoCc fallaría con un crédito sin renglones)";

/// Las aplicaciones; sin ninguna, el crédito se rechaza.
pub open spec fn renglones_credito(p: CreditoParams) -> Seq<PasoV> {
    if p.aplicaciones@.len() == 0 {
        seq![PasoV::Rechaza(SIN_APLICACIONES@)]
    } else {
        Seq::new(p.aplicaciones@.len(), |i: int| renglon_credito(p, i))
    }
}

/// El final de un crédito: su identificador se pide mientras sigue en
/// proceso, es decir, antes de aplicarlo.
pub open spec fn final_credito() -> Seq<PasoV> {
    seq![
        llama("GetDoctoCCId"@, seq![], Regla::Documento(Modulo::Cxc)),
        llama("AplicaCreditoCc"@, seq![], Regla::Cero(Modulo::Cxc)),
    ]
}

/// Lo que inicializa el módulo de Cxc.
pub open spec fn apertura_credito(memoria: MicrosipState, hay_metadatos: bool) -> Seq<PasoV> {
    seq![
        llama(
            "ccSetErrorHandling"@,
            seq![OperandoV::Entero(0), OperandoV::Entero(0)],
            Regla::Ignora,
        ),
        llama(
            "SetDBCxc"@,
            seq![OperandoV::Registro(Registro::EmpresaDb)],
            Regla::Cero(Modulo::Cxc),
        ),
    ] + uso_metadatos(memoria, hay_metadatos)
}

/// El cuerpo del alta de un crédito.
pub open spec fn cuerpo_credito(
    memoria: MicrosipState,
    usuario: Seq<char>,
    password: Seq<char>,
    metadatos: Option<Seq<char>>,
    p: CreditoParams,
) -> Seq<PasoV> {
    conexion_metadatos(metadatos, usuario, password) + apertura_credito(
        memoria,
        metadatos is Some,
    ) + llenar_lista(
        Modulo::Cxc,
        memoria,
        p.lista_parametros@,
    ) + seq![encabezado_credito(p)] + renglones_credito(p) + final_credito()
}

/// El cierre: Metadatos, si llegó a abrirse, y después la empresa.
pub open spec fn cierre_credito(hay_metadatos: bool) -> Seq<PasoV> {
    if hay_metadatos {
        seq![
            desconectar(Base::Metadatos, Regla::DesconectaAbierta(Registro::MetadatosAbierta)),
            desconectar(Base::Empresa, Regla::Desconecta { estricta: false }),
        ]
    } else {
        seq![desconectar(Base::Empresa, Regla::Desconecta { estricta: false })]
    }
}

/// El programa del alta de un crédito. Mientras se abre Metadatos no hay nada
/// que abortar: una falla ahí va directo al cierre.
pub open spec fn programa_credito(
    memoria: MicrosipState,
    db_path: Seq<char>,
    usuario: Seq<char>,
    password: Seq<char>,
    metadatos: Option<Seq<char>>,
    p: CreditoParams,
) -> Programa {
    let preludio = simbolos(simbolos_credito()) + conectar(
        Base::Empresa,
        db_path,
        usuario,
        password,
    );
    Programa {
        aborta: (preludio + conexion_metadatos(metadatos, usuario, password)).len() as int,
        ..tramos(
            preludio,
            cuerpo_credito(memoria, usuario, password, metadatos, p),
            seq![llama("AbortaDoctoCxc"@, seq![], Regla::Ignora)],
            cierre_credito(metadatos is Some),
        )
    }
}

fn agregar_apertura_credito(g: &mut Guion, memoria: &MicrosipState, hay_metadatos: bool)
    ensures
        final(g)@ == old(g)@ + apertura_credito(*memoria, hay_metadatos),
{
    let ghost antes = g@;
    g.llama("ccSetErrorHandling", Operandos::vacio().entero(0).entero(0), Regla::Ignora);
    g.llama(
        "SetDBCxc",
        Operandos::vacio().registro(Registro::EmpresaDb),
        Regla::Cero(Modulo::Cxc),
    );
    if hay_metadatos {
        if !memoria.compatibilidad_cxc_checada {
            g.llama(
                "ChecaCompatibilidadCxc",
                Operandos::vacio().registro(Registro::MetadatosDb),
                Regla::CompatibleCxc,
            );
        }
        g.llama(
            "SetDBMetadatos",
            Operandos::vacio().registro(Registro::MetadatosDb),
            Regla::Cero(Modulo::Cxc),
        );
    }
    proof {
        assert(g@ =~~= antes + apertura_credito(*memoria, hay_metadatos));
    }
}

fn agregar_encabezado_credito(g: &mut Guion, p: &CreditoParams)
    ensures
        final(g)@ == old(g)@.push(encabezado_credito(*p)),
{
    let ops = Operandos::vacio().entero(p.concepto_cc_id).texto(p.fecha.as_str()).texto(
        p.folio.as_str(),
    ).entero(p.cliente_id).ansi(p.descripcion.as_str()).entero(p.cobrador_id);
    g.llama("NuevoCreditoCc", con_lista(ops, &p.lista_parametros), Regla::Cero(Modulo::Cxc));
    proof {
        assert(g@ =~~= old(g)@.push(encabezado_credito(*p)));
    }
}

fn agregar_renglones_credito(g: &mut Guion, p: &CreditoParams)
    ensures
        final(g)@ == old(g)@ + renglones_credito(*p),
{
    let ghost antes = g@;
    let ghost todo = renglones_credito(*p);
    if p.aplicaciones.len() == 0 {
        g.paso(Paso::Rechaza(SIN_APLICACIONES));
        proof {
            assert(g@ =~~= antes + todo);
        }
        return ;
    }
    let mut i: usize = 0;
    proof {
        assert(g@ =~~= antes + todo.take(0));
    }
    let cero = Doble { bits: BITS_CERO };
    while i < p.aplicaciones.len()
        invariant
            i <= p.aplicaciones@.len(),
            p.aplicaciones@.len() > 0,
            cero == (Doble { bits: BITS_CERO }),
            todo == renglones_credito(*p),
            g@ == antes + todo.take(i as int),
        decreases p.aplicaciones@.len() - i,
    {
        let a = &p.aplicaciones[i];
        g.llama(
            "RenglonCreditoCc",
            Operandos::vacio().texto("R").entero(a.cargo_id).texto(a.folio_cargo.as_str()).decimal(
                a.importe,
            ).doble(cero).doble(cero).doble(cero).doble(a.dscto_ppag),
            Regla::Cero(Modulo::Cxc),
        );
        i = i + 1;
        proof {
            assert(g@ =~~= antes + todo.take(i as int));
        }
    }
    proof {
        assert(todo.take(i as int) =~= todo);
    }
}

/// El guion del alta de un crédito, con el inicio de cada tramo después del
/// preludio.
pub fn guion_credito(
    memoria: &MicrosipState,
    db_path: &str,
    usuario: &str,
    password: &str,
    metadatos: Option<&str>,
    p: &CreditoParams,
) -> (r: (Guion, usize, usize, usize, usize))
    ensures
        (Programa {
            pasos: r.0@,
            cuerpo: r.1 as int,
            aborta: r.2 as int,
            al_fallar: r.3 as int,
            cierre: r.4 as int,
        }) == programa_credito(
            *memoria,
            db_path@,
            usuario@,
            password@,
            vista_opcion(metadatos),
            *p,
        ),
{
    let mut g = Guion::nuevo();
    let nombres: Vec<&'static str> = vec![
        "ccSetErrorHandling",
        "SetDBCxc",
        "SetDBMetadatos",
        "ChecaCompatibilidadCxc",
        "NuevoCreditoCc",
        "RenglonCreditoCc",
        "AplicaCreditoCc",
        "AbortaDoctoCxc",
        "GetDoctoCCId",
        "NewPL",
        "PLSetParamValue",
        "PLClear",
    ];
    proof {
        assert(crate::extra::textos_de(nombres@) =~= simbolos_credito());
    }
    agregar_simbolos(&mut g, nombres);
    agregar_conexion(&mut g, Base::Empresa, db_path, usuario, password);
    let ghost preludio = simbolos(simbolos_credito()) + conectar(
        Base::Empresa,
        db_path@,
        usuario@,
        password@,
    );
    proof {
        assert(g@ =~= preludio);
    }
    let cuerpo: usize = g.pasos.len();
    if let Some(meta) = metadatos {
        agregar_conexion(&mut g, Base::Metadatos, meta, usuario, password);
    }
    let aborta: usize = g.pasos.len();
    let hay_metadatos = metadatos.is_some();
    agregar_apertura_credito(&mut g, memoria, hay_metadatos);
    agregar_lista(&mut g, Modulo::Cxc, memoria, &p.lista_parametros);
    agregar_encabezado_credito(&mut g, p);
    agregar_renglones_credito(&mut g, p);
    g.llama("GetDoctoCCId", Operandos::vacio(), Regla::Documento(Modulo::Cxc));
    g.llama("AplicaCreditoCc", Operandos::vacio(), Regla::Cero(Modulo::Cxc));
    let ghost medio = cuerpo_credito(
        *memoria,
        usuario@,
        password@,
        vista_opcion(metadatos),
        *p,
    );
    proof {
        assert(g@ =~= preludio + medio);
    }
    let al_fallar: usize = g.pasos.len();
    g.llama("AbortaDoctoCxc", Operandos::vacio(), Regla::Ignora);
    let cierre: usize = g.pasos.len();
    if hay_metadatos {
        agregar_desconexion(
            &mut g,
            Base::Metadatos,
            Regla::DesconectaAbierta(Registro::MetadatosAbierta),
        );
    }
    agregar_desconexion(&mut g, Base::Empresa, Regla::Desconecta { estricta: false });
    proof {
        assert(g@ =~= preludio + medio + seq![
            llama("AbortaDoctoCxc"@, seq![], Regla::Ignora),
        ] + cierre_credito(hay_metadatos));
    }
    (g, cuerpo, aborta, al_fallar, cierre)
}

/// El programa de un crédito es válido, se puede abortar y cerrar siempre, y
/// ninguna desconexión cambia su resultado.
pub proof fn ley_credito_valido(
    memoria: MicrosipState,
    db_path: Seq<char>,
    usuario: Seq<char>,
    password: Seq<char>,
    metadatos: Option<Seq<char>>,
    p: CreditoParams,
)
    ensures
        ({
            let pr = programa_credito(memoria, db_path, usuario, password, metadatos, p);
            pr.valido() && pr.cierre_posible() && sin_estrictos(pr) && recto(pr)
        }),
{
    let pr = programa_credito(memoria, db_path, usuario, password, metadatos, p);
    let conexion = conectar(Base::Empresa, db_path, usuario, password);
    let conexion_meta = conexion_metadatos(metadatos, usuario, password);
    lema_conectar_lineal(Base::Empresa, db_path, usuario, password);
    if let Some(meta) = metadatos {
        lema_conectar_lineal(Base::Metadatos, meta, usuario, password);
    }
    lema_suma_lineal(simbolos(simbolos_credito()), conexion);
    let apertura_modulo = apertura_credito(memoria, metadatos is Some);
    lema_suma_lineal(conexion_meta, apertura_modulo);
    let apertura = conexion_meta + apertura_modulo;
    let lista = llenar_lista(Modulo::Cxc, memoria, p.lista_parametros@);
    lema_lista_lineal(Modulo::Cxc, memoria, p.lista_parametros@);
    lema_suma_lineal(apertura, lista);
    let a = apertura + lista;
    lema_suma_lineal(a, seq![encabezado_credito(p)]);
    let b = a + seq![encabezado_credito(p)];
    lema_suma_lineal(b, renglones_credito(p));
    lema_suma_lineal(b + renglones_credito(p), final_credito());
    lema_tramos_lineales(
        simbolos(simbolos_credito()) + conexion,
        cuerpo_credito(memoria, usuario, password, metadatos, p),
        seq![llama("AbortaDoctoCxc"@, seq![], Regla::Ignora)],
        cierre_credito(metadatos is Some),
    );
    let q = tramos(
        simbolos(simbolos_credito()) + conexion,
        cuerpo_credito(memoria, usuario, password, metadatos, p),
        seq![llama("AbortaDoctoCxc"@, seq![], Regla::Ignora)],
        cierre_credito(metadatos is Some),
    );
    assert forall|i: int| 0 <= i < pr.pasos.len() implies #[trigger] pr.paso_valido(i) by {
        assert(q.paso_valido(i));
        assert(lineal(q.pasos[i]) || de_cierre(q.pasos[i]));
    }
    assert forall|i: int| 0 <= i < pr.pasos.len() implies lineal(#[trigger] pr.pasos[i])
        || de_cierre(pr.pasos[i]) by {
        assert(lineal(q.pasos[i]) || de_cierre(q.pasos[i]));
    }
    lema_sin_args_posible("AbortaDoctoCxc"@, Regla::Ignora);
    lema_desconectar_posible(Base::Empresa, Regla::Desconecta { estricta: false });
    lema_desconectar_posible(
        Base::Metadatos,
        Regla::DesconectaAbierta(Registro::MetadatosAbierta),
    );
    assert(pr.cierre_posible());
    assert forall|k: int| 0 <= k < pr.pasos.len() implies !#[trigger] pr.es_estricto(k) by {
    }
}

/// El orden de un crédito: encabezado, aplicaciones en su orden (o el rechazo
/// si no hay ninguna), identificador mientras el documento sigue en proceso,
/// y solo entonces la aplicación. Tras el cuerpo, el aborto y el cierre de
/// las conexiones, Metadatos primero.
pub proof fn ley_credito_orden(
    memoria: MicrosipState,
    db_path: Seq<char>,
    usuario: Seq<char>,
    password: Seq<char>,
    metadatos: Option<Seq<char>>,
    p: CreditoParams,
)
    ensures
        ({
            let pr = programa_credito(memoria, db_path, usuario, password, metadatos, p);
            let n = pr.al_fallar;
            let primero = n - 2 - renglones_credito(p).len();
            &&& pr.pasos[n - 1] == llama("AplicaCreditoCc"@, seq![], Regla::Cero(Modulo::Cxc))
            &&& pr.pasos[n - 2] == llama("GetDoctoCCId"@, seq![], Regla::Documento(Modulo::Cxc))
            &&& forall|i: int|
                0 <= i < p.aplicaciones@.len() ==> pr.pasos[primero + i]
                    == #[trigger] renglon_credito(p, i)
            &&& p.aplicaciones@.len() == 0 ==> pr.pasos[n - 3] == PasoV::Rechaza(SIN_APLICACIONES@)
            &&& pr.cuerpo < primero
            &&& pr.pasos[primero - 1] == encabezado_credito(p)
            &&& pr.pasos[n] == llama("AbortaDoctoCxc"@, seq![], Regla::Ignora)
            &&& pr.cierre == n + 1
            &&& pr.pasos.skip(n + 1) == cierre_credito(metadatos is Some)
        }),
{
    let pr = programa_credito(memoria, db_path, usuario, password, metadatos, p);
    let n = pr.al_fallar;
    let primero = n - 2 - renglones_credito(p).len();
    assert(pr.pasos[primero - 1] == encabezado_credito(p));
    assert(pr.cuerpo < primero);
    assert forall|i: int| 0 <= i < p.aplicaciones@.len() implies pr.pasos[primero + i]
        == #[trigger] renglon_credito(p, i) by {
        assert(renglones_credito(p)[i] == renglon_credito(p, i));
    }
    assert(pr.pasos.skip(n + 1) =~= cierre_credito(metadatos is Some));
}

/// Lo que se hace una sola vez por proceso: el programa crea la lista de
/// parámetros si y solo si la necesita y no existe, y chequea la
/// compatibilidad si y solo si hay Metadatos y no se ha chequeado.
pub proof fn ley_credito_una_vez(
    memoria: MicrosipState,
    db_path: Seq<char>,
    usuario: Seq<char>,
    password: Seq<char>,
    metadatos: Option<Seq<char>>,
    p: CreditoParams,
)
    ensures
        ({
            let pr = programa_credito(memoria, db_path, usuario, password, metadatos, p);
            &&& (exists|k: int|
                0 <= k < pr.pasos.len() && crea_lista(#[trigger] pr.pasos[k])) <==> (
            memoria.pl_handle is None && p.lista_parametros@.len() > 0)
            &&& (exists|k: int|
                0 <= k < pr.pasos.len() && chequea_compatibilidad(#[trigger] pr.pasos[k])) <==> (
            !memoria.compatibilidad_cxc_checada && metadatos is Some)
        }),
{
    let pr = programa_credito(memoria, db_path, usuario, password, metadatos, p);
    let conexion = conexion_metadatos(metadatos, usuario, password);
    let apertura = conexion + apertura_credito(memoria, metadatos is Some);
    let lista = llenar_lista(Modulo::Cxc, memoria, p.lista_parametros@);
    lema_lista_nueva(Modulo::Cxc, memoria, p.lista_parametros@);
    if memoria.pl_handle is None && p.lista_parametros@.len() > 0 {
        assert(pr.pasos[pr.cuerpo + apertura.len()] == lista[0]);
    }
    if metadatos is Some && !memoria.compatibilidad_cxc_checada {
        let k = conexion.len() + 2;
        assert(apertura[k as int] == pr.pasos[pr.cuerpo + k]);
        assert(chequea_compatibilidad(pr.pasos[pr.cuerpo + k]));
    }
    assert forall|k: int|
        0 <= k < pr.pasos.len() && crea_lista(#[trigger] pr.pasos[k]) implies memoria.pl_handle
        is None && p.lista_parametros@.len() > 0 by {
        let j = k - pr.cuerpo - apertura.len();
        if 0 <= j < lista.len() {
            assert(pr.pasos[k] == lista[j]);
        }
    }
    assert forall|k: int|
        0 <= k < pr.pasos.len() && chequea_compatibilidad(
            #[trigger] pr.pasos[k],
        ) implies !memoria.compatibilidad_cxc_checada && metadatos is Some by {
        let j = k - pr.cuerpo - apertura.len();
        if 0 <= j < lista.len() {
            assert(pr.pasos[k] == lista[j]);
        }
    }
}

/// El paso en el que un crédito con Metadatos abre su conexión.
pub open spec fn paso_abre(pr: Programa) -> int {
    pr.cuerpo + 7
}

proof fn lema_credito_abre(
    memoria: MicrosipState,
    db_path: Seq<char>,
    usuario: Seq<char>,
    password: Seq<char>,
    metadatos: Option<Seq<char>>,
    p: CreditoParams,
)
    requires
        metadatos is Some,
    ensures
        ({
            let pr = programa_credito(memoria, db_path, usuario, password, metadatos, p);
            &&& abre_en(pr, paso_abre(pr))
            &&& pr.pasos[paso_abre(pr)] == conectar(
                Base::Metadatos,
                metadatos->0,
                usuario,
                password,
            )[7]
        }),
{
    let pr = programa_credito(memoria, db_path, usuario, password, metadatos, p);
    let k = paso_abre(pr);
    let conexion = conectar(Base::Metadatos, metadatos->0, usuario, password);
    let lista = llenar_lista(Modulo::Cxc, memoria, p.lista_parametros@);
    lema_conectar_lineal(Base::Metadatos, metadatos->0, usuario, password);
    assert(pr.pasos[k] == conexion[7]);
    assert forall|i: int| 0 <= i < pr.pasos.len() && i != k implies !escribe(
        #[trigger] pr.pasos[i],
        Registro::MetadatosAbierta,
    ) by {
    }
}

/// Solo la desconexión de Metadatos se salta, y solo si no se abrió.
pub(crate) proof fn lema_credito_omite(
    memoria: MicrosipState,
    db_path: Seq<char>,
    usuario: Seq<char>,
    password: Seq<char>,
    metadatos: Option<Seq<char>>,
    p: CreditoParams,
    regs: Registros,
)
    ensures
        ({
            let pr = programa_credito(memoria, db_path, usuario, password, metadatos, p);
            forall|k: int|
                0 <= k < pr.pasos.len() ==> (#[trigger] pr.omitido(regs, k) <==> metadatos is Some
                    && k == pr.cierre && regs.metadatos_abierta == 0)
        }),
{
    let pr = programa_credito(memoria, db_path, usuario, password, metadatos, p);
    ley_credito_valido(memoria, db_path, usuario, password, metadatos, p);
    assert forall|k: int| 0 <= k < pr.pasos.len() implies (#[trigger] pr.omitido(regs, k)
        <==> metadatos is Some && k == pr.cierre && regs.metadatos_abierta == 0) by {
        assert(pr.paso_valido(k));
        if k >= pr.cierre {
            assert(pr.pasos[k] == cierre_credito(metadatos is Some)[k - pr.cierre]);
        }
    }
}

proof fn lema_credito_documento(
    memoria: MicrosipState,
    db_path: Seq<char>,
    usuario: Seq<char>,
    password: Seq<char>,
    metadatos: Option<Seq<char>>,
    p: CreditoParams,
)
    ensures
        ({
            let pr = programa_credito(memoria, db_path, usuario, password, metadatos, p);
            documento_en(pr, pr.al_fallar - 2)
        }),
{
    let pr = programa_credito(memoria, db_path, usuario, password, metadatos, p);
    ley_credito_orden(memoria, db_path, usuario, password, metadatos, p);
    let k = pr.al_fallar - 2;
    assert forall|i: int| 0 <= i < pr.pasos.len() && i != k implies !escribe(
        #[trigger] pr.pasos[i],
        Registro::Documento,
    ) by {
    }
}

/// Un alta de un crédito que termina sin falla aplicó el documento (intentó todos
/// los pasos hasta `AplicaCreditoCc`), no lo abortó, cerró la conexión, y su
/// resultado es el identificador que `GetDoctoCCId` entregó.
pub proof fn ley_credito_exito(
    memoria: MicrosipState,
    db_path: Seq<char>,
    usuario: Seq<char>,
    password: Seq<char>,
    metadatos: Option<Seq<char>>,
    p: CreditoParams,
    rs: Seq<RespuestaV>,
)
    requires
        ({
            let pr = programa_credito(memoria, db_path, usuario, password, metadatos, p);
            let e = pr.inicio(memoria);
            pr.corresponden(e, rs) && pr.correr(e, rs).fase == Fase::Fin && pr.correr(e, rs).falla
                is None
        }),
    ensures
        ({
            let pr = programa_credito(memoria, db_path, usuario, password, metadatos, p);
            let e = pr.inicio(memoria);
            &&& forall|j: int|
                0 <= j < pr.pasos.len() ==> (#[trigger] pr.intento(e, rs, j) <==> j
                    != pr.al_fallar)
            &&& recibio_documento(
                pr,
                e,
                rs,
                pr.al_fallar - 2,
                pr.correr(e, rs).regs.documento,
            )
        }),
{
    let pr = programa_credito(memoria, db_path, usuario, password, metadatos, p);
    ley_credito_valido(memoria, db_path, usuario, password, metadatos, p);
    ley_credito_orden(memoria, db_path, usuario, password, metadatos, p);
    let k = pr.al_fallar - 2;
    lema_credito_documento(memoria, db_path, usuario, password, metadatos, p);
    if metadatos is Some {
        lema_credito_abre(memoria, db_path, usuario, password, metadatos, p);
    }
    ley_exito(pr, memoria, rs, k);
    lema_credito_omite(
        memoria,
        db_path,
        usuario,
        password,
        metadatos,
        p,
        pr.correr(pr.inicio(memoria), rs).regs,
    );
}

/// Un alta de un crédito que falla no deja un documento a medias. O falló antes
/// de conectarse a la empresa, y no se intentó nada más; o se cerraron las
/// conexiones que se abrieron, y se intentó `AbortaDoctoCxc` si y solo si ya se
/// había intentado algún paso del módulo de Cxc. El error es siempre el
/// original.
pub proof fn ley_credito_falla(
    memoria: MicrosipState,
    db_path: Seq<char>,
    usuario: Seq<char>,
    password: Seq<char>,
    metadatos: Option<Seq<char>>,
    p: CreditoParams,
    rs: Seq<RespuestaV>,
)
    requires
        ({
            let pr = programa_credito(memoria, db_path, usuario, password, metadatos, p);
            let e = pr.inicio(memoria);
            pr.corresponden(e, rs) && pr.correr(e, rs).fase == Fase::Fin && pr.correr(e, rs).falla
                is Some
        }),
    ensures
        ({
            let pr = programa_credito(memoria, db_path, usuario, password, metadatos, p);
            let e = pr.inicio(memoria);
            let s = pr.correr(e, rs);
            &&& {
                ||| forall|k: int|
                    pr.cuerpo <= k < pr.pasos.len() ==> !#[trigger] pr.intento(e, rs, k)
                ||| forall|k: int|
                    pr.cierre <= k < pr.pasos.len() ==> #[trigger] pr.intento(e, rs, k) || (
                    metadatos is Some && k == pr.cierre && s.regs.metadatos_abierta == 0)
            }
            &&& pr.intento(e, rs, pr.al_fallar) <==> hubo_que_abortar(pr, e, rs)
            &&& pr.aborta == paso_modulo(pr, metadatos is Some)
        }),
        ({
            let pr = programa_credito(memoria, db_path, usuario, password, metadatos, p);
            let e = pr.inicio(memoria);
            forall|n: int|
                0 <= n <= rs.len() && (#[trigger] pr.correr(e, rs.take(n))).falla is Some
                    ==> pr.correr(e, rs).falla == pr.correr(e, rs.take(n)).falla
        }),
{
    let pr = programa_credito(memoria, db_path, usuario, password, metadatos, p);
    let e = pr.inicio(memoria);
    ley_credito_valido(memoria, db_path, usuario, password, metadatos, p);
    lema_conectar_lineal(Base::Empresa, db_path, usuario, password);
    ley_falla(pr, memoria, rs);
    if let Some(meta) = metadatos {
        lema_conectar_lineal(Base::Metadatos, meta, usuario, password);
    }
    assert(pr.cierre == pr.al_fallar + 1);
    assert(pr.pasos[pr.aborta] == apertura_credito(memoria, metadatos is Some)[0]);
    reveal_with_fuel(error_de_operandos, 3);
    assert(error_de_paso(pr.pasos[pr.aborta]) is None);
    if hubo_que_abortar(pr, e, rs) {
        let k = choose|k: int| pr.aborta <= k < pr.al_fallar && #[trigger] pr.intento(e, rs, k);
        assert(pr.correr(e, rs).pc >= pr.cuerpo);
    }
    lema_credito_omite(
        memoria,
        db_path,
        usuario,
        password,
        metadatos,
        p,
        pr.correr(e, rs).regs,
    );
    ley_inicio_coherente(pr, memoria);
    assert forall|n: int|
        0 <= n <= rs.len() && (#[trigger] pr.correr(e, rs.take(n))).falla is Some implies pr.correr(
        e,
        rs,
    ).falla == pr.correr(e, rs.take(n)).falla by {
        ley_primera_falla(pr, e, rs, n);
    }
}

/// La lista de parámetros se crea una vez: si el proceso ya la tiene, ningún
/// alta de un crédito la cambia, y los chequeos hechos siguen hechos.
pub proof fn ley_credito_memoria(
    memoria: MicrosipState,
    db_path: Seq<char>,
    usuario: Seq<char>,
    password: Seq<char>,
    metadatos: Option<Seq<char>>,
    p: CreditoParams,
    rs: Seq<RespuestaV>,
)
    requires
        ({
            let pr = programa_credito(memoria, db_path, usuario, password, metadatos, p);
            pr.corresponden(pr.inicio(memoria), rs)
        }),
    ensures
        ({
            let pr = programa_credito(memoria, db_path, usuario, password, metadatos, p);
            let fin = pr.correr(pr.inicio(memoria), rs).memoria;
            &&& memoria.pl_handle is Some ==> fin.pl_handle == memoria.pl_handle
            &&& memoria.compatibilidad_ventas_checada ==> fin.compatibilidad_ventas_checada
            &&& memoria.compatibilidad_cxc_checada ==> fin.compatibilidad_cxc_checada
        }),
{
    let pr = programa_credito(memoria, db_path, usuario, password, metadatos, p);
    ley_credito_valido(memoria, db_path, usuario, password, metadatos, p);
    ley_credito_una_vez(memoria, db_path, usuario, password, metadatos, p);
    ley_inicio_coherente(pr, memoria);
    ley_memoria(pr, pr.inicio(memoria), rs);
}

/// El paso donde empieza el módulo: después de abrir Metadatos, si los hay.
pub open spec fn paso_modulo(pr: Programa, hay_metadatos: bool) -> int {
    pr.cuerpo + (if hay_metadatos {
        8int
    } else {
        0int
    })
}

/// El paso donde empieza la lista de parámetros.
pub open spec fn paso_lista(pr: Programa, memoria: MicrosipState, hay_metadatos: bool) -> int {
    paso_modulo(pr, hay_metadatos) + apertura_credito(memoria, hay_metadatos).len()
}

/// Qué paso hace cada llamada.
pub(crate) proof fn lema_credito_llamadas(
    memoria: MicrosipState,
    db_path: Seq<char>,
    usuario: Seq<char>,
    password: Seq<char>,
    metadatos: Option<Seq<char>>,
    p: CreditoParams,
    k: int,
)
    requires
        0 <= k < programa_credito(memoria, db_path, usuario, password, metadatos, p).pasos.len(),
    ensures
        ({
            let pr = programa_credito(memoria, db_path, usuario, password, metadatos, p);
            let hay = metadatos is Some;
            let chequea = hay && !memoria.compatibilidad_cxc_checada;
            let lista = llenar_lista(Modulo::Cxc, memoria, p.lista_parametros@);
            let m = paso_modulo(pr, hay);
            let l = paso_lista(pr, memoria, hay);
            let paso = pr.pasos[k];
            &&& pr.cuerpo == 20
            &&& es_llamada(paso, "DBConnect"@) ==> k == pr.cuerpo - 1 || (hay && k == paso_abre(pr))
            &&& es_llamada(paso, "ChecaCompatibilidadCxc"@) <==> chequea && k == m + 2
            &&& (paso matches PasoV::Llama { regla: Regla::CompatibleCxc, .. }) <==> chequea && k
                == m + 2
            &&& es_llamada(paso, "SetDBMetadatos"@) <==> hay && k == l - 1
            &&& !es_llamada(paso, "ChecaCompatibilidadVentas"@)
            &&& !(paso matches PasoV::Llama { regla: Regla::DesconectaYVerifica, .. })
            &&& es_llamada(paso, "NewPL"@) <==> crea_lista(paso)
            &&& crea_lista(paso) ==> k == l
            &&& es_llamada(paso, "PLClear"@) || es_llamada(paso, "PLSetParamValue"@) ==> l <= k < l
                + lista.len()
            &&& es_llamada(paso, "NuevoCreditoCc"@) <==> k == l + lista.len()
            &&& l <= k < l + lista.len() ==> paso == lista[k - l]
            &&& k == l + lista.len() ==> paso == encabezado_credito(p)
            &&& es_llamada(paso, "AplicaCreditoCc"@) <==> k == pr.al_fallar - 1
            &&& k == pr.cuerpo - 1 ==> paso == conectar(
                Base::Empresa,
                db_path,
                usuario,
                password,
            )[7]
            &&& hay && k == paso_abre(pr) ==> paso == conectar(
                Base::Metadatos,
                metadatos->0,
                usuario,
                password,
            )[7]
            &&& hay && k == pr.cierre ==> paso == desconectar(
                Base::Metadatos,
                Regla::DesconectaAbierta(Registro::MetadatosAbierta),
            )
            &&& es_llamada(paso, "DBDisconnect"@) ==> k >= pr.cierre
            &&& k == pr.pasos.len() - 1 ==> paso == desconectar(
                Base::Empresa,
                Regla::Desconecta { estricta: false },
            )
            &&& pr.pasos.len() == pr.cierre + (if hay {
                2int
            } else {
                1int
            })
            &&& escribe(paso, Registro::EmpresaDb) ==> k == pr.cuerpo - 3
            &&& escribe(paso, Registro::MetadatosDb) ==> k == paso_abre(pr) - 2
            &&& escribe(paso, Registro::MetadatosAbierta) ==> k == paso_abre(pr)
            &&& escribe(paso, Registro::Lista) ==> crea_lista(paso)
        }),
{
    let pr = programa_credito(memoria, db_path, usuario, password, metadatos, p);
    let hay = metadatos is Some;
    let apertura = apertura_credito(memoria, hay);
    let lista = llenar_lista(Modulo::Cxc, memoria, p.lista_parametros@);
    let m = paso_modulo(pr, hay);
    let l = m + apertura.len();
    let renglones = renglones_credito(p);
    lema_nombres();
    lema_lista_nueva(Modulo::Cxc, memoria, p.lista_parametros@);
    lema_conectar_lineal(Base::Empresa, db_path, usuario, password);
    if let Some(meta) = metadatos {
        lema_conectar_lineal(Base::Metadatos, meta, usuario, password);
    }
    if k < pr.cuerpo {
    } else if k < m {
        assert(pr.pasos[k] == conectar(Base::Metadatos, metadatos->0, usuario, password)[k
            - pr.cuerpo]);
    } else if k < l {
        assert(pr.pasos[k] == apertura[k - m]);
    } else if k < l + lista.len() {
        assert(pr.pasos[k] == lista[k - l]);
    } else if k < l + lista.len() + 1 {
    } else if k < pr.al_fallar - 2 {
        assert(pr.pasos[k] == renglones[k - l - lista.len() - 1]);
    }
}

} // verus!
