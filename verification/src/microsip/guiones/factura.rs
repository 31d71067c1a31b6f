//! El alta de una factura.

use vstd::prelude::*;

use crate::microsip::corridas::es_llamada;
use crate::microsip::exito::{
    documento_en, escribe, ley_exito, ley_falla, ley_memoria, recibio_documento,
};
use crate::microsip::guiones::nombres::lema_nombres;
use crate::microsip::guiones::{
    agregar_conexion, agregar_desconexion, agregar_lista, agregar_simbolos, con_lista, conectar,
    desconectar, lema_conectar_lineal, lema_desconectar_posible, lema_lista_lineal,
    chequea_compatibilidad, crea_lista, lema_lista_nueva, lema_sin_args_posible, lema_suma_lineal, lema_tramos_lineales, llenar_lista, operando_lista,
    recto, simbolos, todos_lineales, tramos, vista_opcion, Base,
};
use crate::microsip::leyes::{ley_inicio_coherente, ley_primera_falla, sin_estrictos};
use crate::microsip::maquina::{Fase, MicrosipState, Programa};
use crate::microsip::nativo::{
    llama, Guion, Modulo, OperandoV, Operandos, PasoV, Registro, Regla, RespuestaV,
};
use crate::microsip::params::FacturaParams;

verus! {

/// Los símbolos que una factura localiza antes de conectarse.
pub open spec fn simbolos_factura() -> Seq<Seq<char>> {
    seq![
        "veSetErrorHandling"@,
        "SetDBVentas"@,
        "ChecaCompatibilidadVentas"@,
        "SetReglasVentas"@,
        "NuevaFactura"@,
        "DirClienteFactura"@,
        "SetFormaCobroFactura"@,
        "RenglonFactura"@,
        "AplicaFactura"@,
        "AbortaDoctoVentas"@,
        "GetDoctoVeId"@,
        "NewPL"@,
        "PLSetParamValue"@,
        "PLClear"@,
    ]
}

/// El chequeo de compatibilidad de Ventas: una vez por proceso, por una
/// conexión aparte a Metadatos que se cierra antes de juzgar el código.
pub open spec fn compatibilidad_ventas(
    memoria: MicrosipState,
    metadatos: Option<Seq<char>>,
    usuario: Seq<char>,
    password: Seq<char>,
) -> Seq<PasoV> {
    match metadatos {
        Some(meta) if !memoria.compatibilidad_ventas_checada => conectar(
            Base::Metadatos,
            meta,
            usuario,
            password,
        ) + seq![
            llama(
                "ChecaCompatibilidadVentas"@,
                seq![OperandoV::Registro(Registro::MetadatosDb)],
                Regla::Difiere,
            ),
            desconectar(Base::Metadatos, Regla::DesconectaYVerifica),
        ],
        _ => seq![],
    }
}

/// El encabezado de una factura.
pub open spec fn encabezado_factura(p: FacturaParams) -> PasoV {
    llama(
        "NuevaFactura"@,
        seq![
            OperandoV::Texto(p.fecha@),
            OperandoV::Texto(p.folio@),
            OperandoV::Entero(p.cliente_id),
            OperandoV::Entero(p.dir_consig_id),
            OperandoV::Entero(p.almacen_id),
            OperandoV::Texto(p.tipo_dscto@),
            OperandoV::Doble(p.descuento),
            OperandoV::Ansi(p.orden_compra@),
            OperandoV::Ansi(p.descripcion@),
            OperandoV::Doble(p.fletes),
            OperandoV::Doble(p.otros_cargos),
            OperandoV::Doble(p.pctje_comis),
            OperandoV::Entero(p.cond_pago_id),
            OperandoV::Entero(p.vendedor_id),
            OperandoV::Entero(p.impto_sustituido_id),
            OperandoV::Entero(p.impto_sustituto_id),
            OperandoV::Doble(p.importe_cobro),
            OperandoV::Ansi(p.descripcion_cobro@),
            operando_lista(p.lista_parametros@),
        ],
        Regla::Cero(Modulo::Ventas),
    )
}

/// El renglón `i` de una factura.
pub open spec fn renglon_factura(p: FacturaParams, i: int) -> PasoV {
    let r = p.renglones@[i];
    llama(
        "RenglonFactura"@,
        seq![
            OperandoV::Entero(r.articulo_id),
            OperandoV::Decimal(r.unidades),
            OperandoV::Decimal(r.precio_unitario),
            OperandoV::Decimal(r.pctje_dscto),
            OperandoV::Ansi(r.notas@),
        ],
        Regla::Cero(Modulo::Ventas),
    )
}

/// La dirección del cliente, si se dio.
pub open spec fn direccion_factura(p: FacturaParams) -> Seq<PasoV> {
    match p.dir_cliente_id {
        Some(d) => seq![
            llama("DirClienteFactura"@, seq![OperandoV::Entero(d)], Regla::Cero(Modulo::Ventas)),
        ],
        None => seq![],
    }
}

/// Las formas de cobro.
pub open spec fn formas_factura(p: FacturaParams) -> Seq<PasoV> {
    Seq::new(
        p.formas_cobro_cbb@.len(),
        |i: int|
            llama(
                "SetFormaCobroFactura"@,
                seq![OperandoV::Entero(p.formas_cobro_cbb@[i])],
                Regla::Cero(Modulo::Ventas),
            ),
    )
}

/// Los renglones.
pub open spec fn renglones_factura(p: FacturaParams) -> Seq<PasoV> {
    Seq::new(p.renglones@.len(), |i: int| renglon_factura(p, i))
}

/// El final de una factura: su identificador se pide mientras sigue en
/// proceso, es decir, antes de aplicarla.
pub open spec fn final_factura() -> Seq<PasoV> {
    seq![
        llama("GetDoctoVeId"@, seq![], Regla::Documento(Modulo::Ventas)),
        llama("AplicaFactura"@, seq![], Regla::Cero(Modulo::Ventas)),
    ]
}

/// Lo que inicializa el módulo de Ventas.
pub open spec fn apertura_factura(
    memoria: MicrosipState,
    usuario: Seq<char>,
    password: Seq<char>,
    metadatos: Option<Seq<char>>,
    reglas: (i32, i32),
) -> Seq<PasoV> {
    seq![
        llama(
            "veSetErrorHandling"@,
            seq![OperandoV::Entero(0), OperandoV::Entero(0)],
            Regla::Ignora,
        ),
        llama(
            "SetDBVentas"@,
            seq![OperandoV::Registro(Registro::EmpresaDb)],
            Regla::Cero(Modulo::Ventas),
        ),
    ] + compatibilidad_ventas(memoria, metadatos, usuario, password) + seq![
        llama(
            "SetReglasVentas"@,
            seq![OperandoV::Entero(reglas.0), OperandoV::Entero(reglas.1)],
            Regla::Ignora,
        ),
    ]
}

/// El cuerpo del alta de una factura.
pub open spec fn cuerpo_factura(
    memoria: MicrosipState,
    usuario: Seq<char>,
    password: Seq<char>,
    metadatos: Option<Seq<char>>,
    reglas: (i32, i32),
    p: FacturaParams,
) -> Seq<PasoV> {
    apertura_factura(memoria, usuario, password, metadatos, reglas) + llenar_lista(
        Modulo::Ventas,
        memoria,
        p.lista_parametros@,
    ) + seq![encabezado_factura(p)] + direccion_factura(p) + formas_factura(p)
        + renglones_factura(p) + final_factura()
}

/// El programa del alta de una factura.
pub open spec fn programa_factura(
    memoria: MicrosipState,
    db_path: Seq<char>,
    usuario: Seq<char>,
    password: Seq<char>,
    metadatos: Option<Seq<char>>,
    reglas: (i32, i32),
    p: FacturaParams,
) -> Programa {
    tramos(
        simbolos(simbolos_factura()) + conectar(Base::Empresa, db_path, usuario, password),
        cuerpo_factura(memoria, usuario, password, metadatos, reglas, p),
        seq![llama("AbortaDoctoVentas"@, seq![], Regla::Ignora)],
        seq![desconectar(Base::Empresa, Regla::Desconecta { estricta: false })],
    )
}

fn agregar_apertura_factura(
    g: &mut Guion,
    memoria: &MicrosipState,
    usuario: &str,
    password: &str,
    metadatos: Option<&str>,
    reglas: (i32, i32),
)
    ensures
        final(g)@ == old(g)@ + apertura_factura(
            *memoria,
            usuario@,
            password@,
            vista_opcion(metadatos),
            reglas,
        ),
{
    let ghost antes = g@;
    g.llama("veSetErrorHandling", Operandos::vacio().entero(0).entero(0), Regla::Ignora);
    g.llama(
        "SetDBVentas",
        Operandos::vacio().registro(Registro::EmpresaDb),
        Regla::Cero(Modulo::Ventas),
    );
    if let Some(meta) = metadatos {
        if !memoria.compatibilidad_ventas_checada {
            agregar_conexion(g, Base::Metadatos, meta, usuario, password);
            g.llama(
                "ChecaCompatibilidadVentas",
                Operandos::vacio().registro(Registro::MetadatosDb),
                Regla::Difiere,
            );
            agregar_desconexion(g, Base::Metadatos, Regla::DesconectaYVerifica);
        }
    }
    g.llama(
        "SetReglasVentas",
        Operandos::vacio().entero(reglas.0).entero(reglas.1),
        Regla::Ignora,
    );
    proof {
        assert(g@ =~~= antes + apertura_factura(
            *memoria,
            usuario@,
            password@,
            vista_opcion(metadatos),
            reglas,
        ));
    }
}

fn agregar_encabezado_factura(g: &mut Guion, p: &FacturaParams)
    ensures
        final(g)@ == old(g)@.push(encabezado_factura(*p)),
{
    let ops = Operandos::vacio().texto(p.fecha.as_str()).texto(p.folio.as_str()).entero(
        p.cliente_id,
    ).entero(p.dir_consig_id).entero(p.almacen_id).texto(p.tipo_dscto.as_str()).doble(
        p.descuento,
    ).ansi(p.orden_compra.as_str()).ansi(p.descripcion.as_str()).doble(p.fletes).doble(
        p.otros_cargos,
    ).doble(p.pctje_comis).entero(p.cond_pago_id).entero(p.vendedor_id).entero(
        p.impto_sustituido_id,
    ).entero(p.impto_sustituto_id).doble(p.importe_cobro).ansi(p.descripcion_cobro.as_str());
    g.llama("NuevaFactura", con_lista(ops, &p.lista_parametros), Regla::Cero(Modulo::Ventas));
    proof {
        assert(g@ =~~= old(g)@.push(encabezado_factura(*p)));
    }
}

fn agregar_formas_factura(g: &mut Guion, p: &FacturaParams)
    ensures
        final(g)@ == old(g)@ + formas_factura(*p),
{
    let ghost antes = g@;
    let ghost todo = formas_factura(*p);
    let mut i: usize = 0;
    proof {
        assert(g@ =~~= antes + todo.take(0));
    }
    while i < p.formas_cobro_cbb.len()
        invariant
            i <= p.formas_cobro_cbb@.len(),
            todo == formas_factura(*p),
            g@ == antes + todo.take(i as int),
        decreases p.formas_cobro_cbb@.len() - i,
    {
        g.llama(
            "SetFormaCobroFactura",
            Operandos::vacio().entero(p.formas_cobro_cbb[i]),
            Regla::Cero(Modulo::Ventas),
        );
        i = i + 1;
        proof {
            assert(g@ =~~= antes + todo.take(i as int));
        }
    }
    proof {
        assert(todo.take(i as int) =~= todo);
    }
}

fn agregar_renglones_factura(g: &mut Guion, p: &FacturaParams)
    ensures
        final(g)@ == old(g)@ + renglones_factura(*p),
{
    let ghost antes = g@;
    let ghost todo = renglones_factura(*p);
    let mut i: usize = 0;
    proof {
        assert(g@ =~~= antes + todo.take(0));
    }
    while i < p.renglones.len()
        invariant
            i <= p.renglones@.len(),
            todo == renglones_factura(*p),
            g@ == antes + todo.take(i as int),
        decreases p.renglones@.len() - i,
    {
        let r = &p.renglones[i];
        g.llama(
            "RenglonFactura",
            Operandos::vacio().entero(r.articulo_id).decimal(r.unidades).decimal(
                r.precio_unitario,
            ).decimal(r.pctje_dscto).ansi(r.notas.as_str()),
            Regla::Cero(Modulo::Ventas),
        );
        i = i + 1;
        proof {
            assert(g@ =~~= antes + todo.take(i as int));
        }
    }
    proof {
        assert(todo.take(i as int) =~= todo);
    }
}

/// El guion del alta de una factura, con el inicio de cada tramo después del
/// preludio.
pub fn guion_factura(
    memoria: &MicrosipState,
    db_path: &str,
    usuario: &str,
    password: &str,
    metadatos: Option<&str>,
    reglas: (i32, i32),
    p: &FacturaParams,
) -> (r: (Guion, usize, usize, usize))
    ensures
        (Programa {
            pasos: r.0@,
            cuerpo: r.1 as int,
            aborta: r.1 as int,
            al_fallar: r.2 as int,
            cierre: r.3 as int,
        }) == programa_factura(
            *memoria,
            db_path@,
            usuario@,
            password@,
            vista_opcion(metadatos),
            reglas,
            *p,
        ),
{
    let mut g = Guion::nuevo();
    let nombres: Vec<&'static str> = vec![
        "veSetErrorHandling",
        "SetDBVentas",
        "ChecaCompatibilidadVentas",
        "SetReglasVentas",
        "NuevaFactura",
        "DirClienteFactura",
        "SetFormaCobroFactura",
        "RenglonFactura",
        "AplicaFactura",
        "AbortaDoctoVentas",
        "GetDoctoVeId",
        "NewPL",
        "PLSetParamValue",
        "PLClear",
    ];
    proof {
        assert(crate::extra::textos_de(nombres@) =~= simbolos_factura());
    }
    agregar_simbolos(&mut g, nombres);
    agregar_conexion(&mut g, Base::Empresa, db_path, usuario, password);
    let ghost preludio = simbolos(simbolos_factura()) + conectar(
        Base::Empresa,
        db_path@,
        usuario@,
        password@,
    );
    proof {
        assert(g@ =~~= preludio);
    }
    let cuerpo: usize = g.pasos.len();
    agregar_apertura_factura(&mut g, memoria, usuario, password, metadatos, reglas);
    agregar_lista(&mut g, Modulo::Ventas, memoria, &p.lista_parametros);
    agregar_encabezado_factura(&mut g, p);
    if let Some(d) = p.dir_cliente_id {
        g.llama(
            "DirClienteFactura",
            Operandos::vacio().entero(d),
            Regla::Cero(Modulo::Ventas),
        );
    }
    agregar_formas_factura(&mut g, p);
    agregar_renglones_factura(&mut g, p);
    g.llama("GetDoctoVeId", Operandos::vacio(), Regla::Documento(Modulo::Ventas));
    g.llama("AplicaFactura", Operandos::vacio(), Regla::Cero(Modulo::Ventas));
    let ghost medio = cuerpo_factura(
        *memoria,
        usuario@,
        password@,
        vista_opcion(metadatos),
        reglas,
        *p,
    );
    proof {
        assert(g@ =~~= preludio + medio);
    }
    let al_fallar: usize = g.pasos.len();
    g.llama("AbortaDoctoVentas", Operandos::vacio(), Regla::Ignora);
    let cierre: usize = g.pasos.len();
    agregar_desconexion(&mut g, Base::Empresa, Regla::Desconecta { estricta: false });
    proof {
        assert(g@ =~~= preludio + medio + seq![
            llama("AbortaDoctoVentas"@, seq![], Regla::Ignora),
        ] + seq![desconectar(Base::Empresa, Regla::Desconecta { estricta: false })]);
    }
    (g, cuerpo, al_fallar, cierre)
}

pub(crate) proof fn lema_factura_lineal(
    memoria: MicrosipState,
    db_path: Seq<char>,
    usuario: Seq<char>,
    password: Seq<char>,
    metadatos: Option<Seq<char>>,
    reglas: (i32, i32),
    p: FacturaParams,
)
    ensures
        programa_factura(memoria, db_path, usuario, password, metadatos, reglas, p).valido(),
        recto(programa_factura(memoria, db_path, usuario, password, metadatos, reglas, p)),
{
    let conexion = conectar(Base::Empresa, db_path, usuario, password);
    lema_conectar_lineal(Base::Empresa, db_path, usuario, password);
    lema_suma_lineal(simbolos(simbolos_factura()), conexion);
    let compat = compatibilidad_ventas(memoria, metadatos, usuario, password);
    if let Some(meta) = metadatos {
        lema_conectar_lineal(Base::Metadatos, meta, usuario, password);
    }
    assert(todos_lineales(compat));
    let apertura = apertura_factura(memoria, usuario, password, metadatos, reglas);
    assert(todos_lineales(apertura));
    let lista = llenar_lista(Modulo::Ventas, memoria, p.lista_parametros@);
    lema_lista_lineal(Modulo::Ventas, memoria, p.lista_parametros@);
    let a = apertura + lista;
    lema_suma_lineal(apertura, lista);
    let b = a + seq![encabezado_factura(p)];
    lema_suma_lineal(a, seq![encabezado_factura(p)]);
    let c = b + direccion_factura(p);
    lema_suma_lineal(b, direccion_factura(p));
    let d = c + formas_factura(p);
    lema_suma_lineal(c, formas_factura(p));
    let e = d + renglones_factura(p);
    lema_suma_lineal(d, renglones_factura(p));
    lema_suma_lineal(e, final_factura());
    lema_tramos_lineales(
        simbolos(simbolos_factura()) + conexion,
        cuerpo_factura(memoria, usuario, password, metadatos, reglas, p),
        seq![llama("AbortaDoctoVentas"@, seq![], Regla::Ignora)],
        seq![desconectar(Base::Empresa, Regla::Desconecta { estricta: false })],
    );
}

/// El programa de una factura es válido, se puede abortar y cerrar siempre, y
/// ninguna desconexión cambia su resultado.
pub proof fn ley_factura_valida(
    memoria: MicrosipState,
    db_path: Seq<char>,
    usuario: Seq<char>,
    password: Seq<char>,
    metadatos: Option<Seq<char>>,
    reglas: (i32, i32),
    p: FacturaParams,
)
    ensures
        ({
            let pr = programa_factura(memoria, db_path, usuario, password, metadatos, reglas, p);
            pr.valido() && pr.cierre_posible() && sin_estrictos(pr)
        }),
{
    let pr = programa_factura(memoria, db_path, usuario, password, metadatos, reglas, p);
    lema_factura_lineal(memoria, db_path, usuario, password, metadatos, reglas, p);
    lema_sin_args_posible("AbortaDoctoVentas"@, Regla::Ignora);
    lema_desconectar_posible(Base::Empresa, Regla::Desconecta { estricta: false });
    assert(pr.cierre_posible());
    assert forall|k: int| 0 <= k < pr.pasos.len() implies !#[trigger] pr.es_estricto(k) by {
    }
}

/// El orden de una factura: el cuerpo registra el encabezado, después todos
/// los renglones en su orden, pide el identificador mientras el documento
/// sigue en proceso y solo entonces lo aplica. Tras el cuerpo van el aborto y
/// el cierre de la conexión.
pub proof fn ley_factura_orden(
    memoria: MicrosipState,
    db_path: Seq<char>,
    usuario: Seq<char>,
    password: Seq<char>,
    metadatos: Option<Seq<char>>,
    reglas: (i32, i32),
    p: FacturaParams,
)
    ensures
        ({
            let pr = programa_factura(memoria, db_path, usuario, password, metadatos, reglas, p);
            let n = pr.al_fallar;
            let primero = n - 2 - p.renglones@.len();
            &&& pr.pasos[n - 1] == llama("AplicaFactura"@, seq![], Regla::Cero(Modulo::Ventas))
            &&& pr.pasos[n - 2] == llama("GetDoctoVeId"@, seq![], Regla::Documento(Modulo::Ventas))
            &&& forall|i: int|
                0 <= i < p.renglones@.len() ==> pr.pasos[primero + i] == #[trigger] renglon_factura(
                    p,
                    i,
                )
            &&& exists|k: int| pr.cuerpo <= k < primero && pr.pasos[k] == encabezado_factura(p)
            &&& pr.cierre == n + 1
            &&& pr.pasos[n] == llama("AbortaDoctoVentas"@, seq![], Regla::Ignora)
            &&& pr.pasos.len() == n + 2
            &&& pr.pasos[n + 1] == desconectar(
                Base::Empresa,
                Regla::Desconecta { estricta: false },
            )
        }),
{
    let pr = programa_factura(memoria, db_path, usuario, password, metadatos, reglas, p);
    let n = pr.al_fallar;
    let primero = n - 2 - p.renglones@.len();
    let k = pr.cuerpo + apertura_factura(memoria, usuario, password, metadatos, reglas).len()
        + llenar_lista(Modulo::Ventas, memoria, p.lista_parametros@).len();
    assert(pr.pasos[k] == encabezado_factura(p));
    assert(pr.cuerpo <= k < primero);
    assert forall|i: int| 0 <= i < p.renglones@.len() implies pr.pasos[primero + i]
        == #[trigger] renglon_factura(p, i) by {
        assert(renglones_factura(p)[i] == renglon_factura(p, i));
    }
}

/// Lo que se hace una sola vez por proceso: el programa crea la lista de
/// parámetros si y solo si la necesita y no existe, y chequea la
/// compatibilidad si y solo si hay Metadatos y no se ha chequeado.
pub proof fn ley_factura_una_vez(
    memoria: MicrosipState,
    db_path: Seq<char>,
    usuario: Seq<char>,
    password: Seq<char>,
    metadatos: Option<Seq<char>>,
    reglas: (i32, i32),
    p: FacturaParams,
)
    ensures
        ({
            let pr = programa_factura(memoria, db_path, usuario, password, metadatos, reglas, p);
            &&& (exists|k: int|
                0 <= k < pr.pasos.len() && crea_lista(#[trigger] pr.pasos[k])) <==> (
            memoria.pl_handle is None && p.lista_parametros@.len() > 0)
            &&& (exists|k: int|
                0 <= k < pr.pasos.len() && chequea_compatibilidad(#[trigger] pr.pasos[k])) <==> (
            !memoria.compatibilidad_ventas_checada && metadatos is Some)
        }),
{
    let pr = programa_factura(memoria, db_path, usuario, password, metadatos, reglas, p);
    let apertura = apertura_factura(memoria, usuario, password, metadatos, reglas);
    let lista = llenar_lista(Modulo::Ventas, memoria, p.lista_parametros@);
    lema_lista_nueva(Modulo::Ventas, memoria, p.lista_parametros@);
    if memoria.pl_handle is None && p.lista_parametros@.len() > 0 {
        assert(pr.pasos[pr.cuerpo + apertura.len()] == lista[0]);
    }
    if let Some(meta) = metadatos {
        if !memoria.compatibilidad_ventas_checada {
            assert(conectar(Base::Metadatos, meta, usuario, password).len() == 8);
            assert(apertura[10] == pr.pasos[pr.cuerpo + 10]);
            assert(chequea_compatibilidad(pr.pasos[pr.cuerpo + 10]));
        }
    }
    assert forall|k: int|
        0 <= k < pr.pasos.len() && crea_lista(#[trigger] pr.pasos[k]) implies memoria.pl_handle
        is None && p.lista_parametros@.len() > 0 by {
        let j = k - pr.cuerpo - apertura.len();
        if 0 <= j < lista.len() {
            assert(pr.pasos[k] == lista[j]);
        }
    }
    assert forall|k: int|
        0 <= k < pr.pasos.len() && chequea_compatibilidad(
            #[trigger] pr.pasos[k],
        ) implies !memoria.compatibilidad_ventas_checada && metadatos is Some by {
    }
}

/// Un alta de una factura que termina sin falla aplicó el documento (intentó todos
/// los pasos hasta `AplicaFactura`), no lo abortó, cerró la conexión, y su
/// resultado es el identificador que `GetDoctoVeId` entregó.
pub proof fn ley_factura_exito(
    memoria: MicrosipState,
    db_path: Seq<char>,
    usuario: Seq<char>,
    password: Seq<char>,
    metadatos: Option<Seq<char>>,
    reglas: (i32, i32),
    p: FacturaParams,
    rs: Seq<RespuestaV>,
)
    requires
        ({
            let pr = programa_factura(memoria, db_path, usuario, password, metadatos, reglas, p);
            let e = pr.inicio(memoria);
            pr.corresponden(e, rs) && pr.correr(e, rs).fase == Fase::Fin && pr.correr(e, rs).falla
                is None
        }),
    ensures
        ({
            let pr = programa_factura(memoria, db_path, usuario, password, metadatos, reglas, p);
            let e = pr.inicio(memoria);
            &&& forall|j: int|
                0 <= j < pr.pasos.len() ==> (#[trigger] pr.intento(e, rs, j) <==> j
                    != pr.al_fallar)
            &&& recibio_documento(
                pr,
                e,
                rs,
                pr.al_fallar - 2,
                pr.correr(e, rs).regs.documento,
            )
        }),
{
    let pr = programa_factura(memoria, db_path, usuario, password, metadatos, reglas, p);
    ley_factura_valida(memoria, db_path, usuario, password, metadatos, reglas, p);
    lema_factura_lineal(memoria, db_path, usuario, password, metadatos, reglas, p);
    ley_factura_orden(memoria, db_path, usuario, password, metadatos, reglas, p);
    let k = pr.al_fallar - 2;
    assert forall|i: int| 0 <= i < pr.pasos.len() && i != k implies !escribe(
        #[trigger] pr.pasos[i],
        Registro::Documento,
    ) by {
    }
    assert(documento_en(pr, k));
    ley_exito(pr, memoria, rs, k);
}

/// Un alta de una factura que falla no deja un documento a medias: o falló antes
/// de conectarse a la empresa, o se intentó `AbortaDoctoVentas` y se cerraron las
/// conexiones. En ambos casos el error es el original.
pub proof fn ley_factura_falla(
    memoria: MicrosipState,
    db_path: Seq<char>,
    usuario: Seq<char>,
    password: Seq<char>,
    metadatos: Option<Seq<char>>,
    reglas: (i32, i32),
    p: FacturaParams,
    rs: Seq<RespuestaV>,
)
    requires
        ({
            let pr = programa_factura(memoria, db_path, usuario, password, metadatos, reglas, p);
            let e = pr.inicio(memoria);
            pr.corresponden(e, rs) && pr.correr(e, rs).fase == Fase::Fin && pr.correr(e, rs).falla
                is Some
        }),
    ensures
        ({
            let pr = programa_factura(memoria, db_path, usuario, password, metadatos, reglas, p);
            let e = pr.inicio(memoria);
            ||| forall|k: int| pr.cuerpo <= k < pr.pasos.len() ==> !#[trigger] pr.intento(e, rs, k)
            ||| forall|k: int| pr.al_fallar <= k < pr.pasos.len() ==> #[trigger] pr.intento(
                e,
                rs,
                k,
            )
        }),
        ({
            let pr = programa_factura(memoria, db_path, usuario, password, metadatos, reglas, p);
            let e = pr.inicio(memoria);
            forall|n: int|
                0 <= n <= rs.len() && (#[trigger] pr.correr(e, rs.take(n))).falla is Some
                    ==> pr.correr(e, rs).falla == pr.correr(e, rs.take(n)).falla
        }),
{
    let pr = programa_factura(memoria, db_path, usuario, password, metadatos, reglas, p);
    let e = pr.inicio(memoria);
    ley_factura_valida(memoria, db_path, usuario, password, metadatos, reglas, p);
    lema_conectar_lineal(Base::Empresa, db_path, usuario, password);
    ley_falla(pr, memoria, rs);
    ley_inicio_coherente(pr, memoria);
    assert forall|n: int|
        0 <= n <= rs.len() && (#[trigger] pr.correr(e, rs.take(n))).falla is Some implies pr.correr(
        e,
        rs,
    ).falla == pr.correr(e, rs.take(n)).falla by {
        ley_primera_falla(pr, e, rs, n);
    }
}

/// La lista de parámetros se crea una vez: si el proceso ya la tiene, ningún
/// alta de una factura la cambia, y los chequeos hechos siguen hechos.
pub proof fn ley_factura_memoria(
    memoria: MicrosipState,
    db_path: Seq<char>,
    usuario: Seq<char>,
    password: Seq<char>,
    metadatos: Option<Seq<char>>,
    reglas: (i32, i32),
    p: FacturaParams,
    rs: Seq<RespuestaV>,
)
    requires
        ({
            let pr = programa_factura(memoria, db_path, usuario, password, metadatos, reglas, p);
            pr.corresponden(pr.inicio(memoria), rs)
        }),
    ensures
        ({
            let pr = programa_factura(memoria, db_path, usuario, password, metadatos, reglas, p);
            let fin = pr.correr(pr.inicio(memoria), rs).memoria;
            &&& memoria.pl_handle is Some ==> fin.pl_handle == memoria.pl_handle
            &&& memoria.compatibilidad_ventas_checada ==> fin.compatibilidad_ventas_checada
            &&& memoria.compatibilidad_cxc_checada ==> fin.compatibilidad_cxc_checada
        }),
{
    let pr = programa_factura(memoria, db_path, usuario, password, metadatos, reglas, p);
    ley_factura_valida(memoria, db_path, usuario, password, metadatos, reglas, p);
    ley_factura_una_vez(memoria, db_path, usuario, password, metadatos, reglas, p);
    ley_inicio_coherente(pr, memoria);
    ley_memoria(pr, pr.inicio(memoria), rs);
}

/// El paso que abre la conexión a Metadatos, si la hay.
pub open spec fn paso_metadatos(pr: Programa) -> int {
    pr.cuerpo + 9
}

/// El paso donde empieza la lista de parámetros.
pub open spec fn paso_lista(
    pr: Programa,
    memoria: MicrosipState,
    usuario: Seq<char>,
    password: Seq<char>,
    metadatos: Option<Seq<char>>,
    reglas: (i32, i32),
) -> int {
    pr.cuerpo + apertura_factura(memoria, usuario, password, metadatos, reglas).len()
}

/// Qué paso hace cada llamada.
pub(crate) proof fn lema_factura_llamadas(
    memoria: MicrosipState,
    db_path: Seq<char>,
    usuario: Seq<char>,
    password: Seq<char>,
    metadatos: Option<Seq<char>>,
    reglas: (i32, i32),
    p: FacturaParams,
    k: int,
)
    requires
        0 <= k < programa_factura(
            memoria,
            db_path,
            usuario,
            password,
            metadatos,
            reglas,
            p,
        ).pasos.len(),
    ensures
        ({
            let pr = programa_factura(memoria, db_path, usuario, password, metadatos, reglas, p);
            let chequea = metadatos is Some && !memoria.compatibilidad_ventas_checada;
            let lista = llenar_lista(Modulo::Ventas, memoria, p.lista_parametros@);
            let l = paso_lista(pr, memoria, usuario, password, metadatos, reglas);
            let paso = pr.pasos[k];
            &&& pr.cuerpo == 22
            &&& l == pr.cuerpo + (if chequea {
                13int
            } else {
                3int
            })
            &&& es_llamada(paso, "DBConnect"@) ==> k == pr.cuerpo - 1 || (chequea && k
                == paso_metadatos(pr))
            &&& es_llamada(paso, "ChecaCompatibilidadVentas"@) <==> chequea && k
                == paso_metadatos(pr) + 1
            &&& (paso matches PasoV::Llama { regla: Regla::DesconectaYVerifica, .. }) ==> chequea
                && k == paso_metadatos(pr) + 2
            &&& !es_llamada(paso, "ChecaCompatibilidadCxc"@)
            &&& !(paso matches PasoV::Llama { regla: Regla::CompatibleCxc, .. })
            &&& es_llamada(paso, "NewPL"@) <==> crea_lista(paso)
            &&& crea_lista(paso) ==> k == l
            &&& es_llamada(paso, "PLClear"@) || es_llamada(paso, "PLSetParamValue"@) ==> l <= k < l
                + lista.len()
            &&& es_llamada(paso, "NuevaFactura"@) <==> k == l + lista.len()
            &&& l <= k < l + lista.len() ==> paso == lista[k - l]
            &&& k == l + lista.len() ==> paso == encabezado_factura(p)
            &&& k == pr.cuerpo - 1 ==> paso == conectar(
                Base::Empresa,
                db_path,
                usuario,
                password,
            )[7]
            &&& chequea && k == paso_metadatos(pr) ==> paso == conectar(
                Base::Metadatos,
                metadatos->0,
                usuario,
                password,
            )[7]
            &&& chequea && k == paso_metadatos(pr) + 1 ==> paso == llama(
                "ChecaCompatibilidadVentas"@,
                seq![OperandoV::Registro(Registro::MetadatosDb)],
                Regla::Difiere,
            )
            &&& chequea && k == paso_metadatos(pr) + 2 ==> paso == desconectar(
                Base::Metadatos,
                Regla::DesconectaYVerifica,
            )
            &&& escribe(paso, Registro::EmpresaDb) ==> k == pr.cuerpo - 3
            &&& escribe(paso, Registro::MetadatosDb) ==> k == paso_metadatos(pr) - 2
            &&& escribe(paso, Registro::Lista) ==> crea_lista(paso)
            &&& escribe(paso, Registro::Compatibilidad) ==> k == paso_metadatos(pr) + 1
        }),
{
    let pr = programa_factura(memoria, db_path, usuario, password, metadatos, reglas, p);
    let apertura = apertura_factura(memoria, usuario, password, metadatos, reglas);
    let lista = llenar_lista(Modulo::Ventas, memoria, p.lista_parametros@);
    let l = pr.cuerpo + apertura.len();
    lema_nombres();
    lema_lista_nueva(Modulo::Ventas, memoria, p.lista_parametros@);
    lema_conectar_lineal(Base::Empresa, db_path, usuario, password);
    if let Some(meta) = metadatos {
        lema_conectar_lineal(Base::Metadatos, meta, usuario, password);
    }
    if k < pr.cuerpo {
    } else if k < l {
        assert(pr.pasos[k] == apertura[k - pr.cuerpo]);
    } else if k < l + lista.len() {
        assert(pr.pasos[k] == lista[k - l]);
    }
}

} // verus!
