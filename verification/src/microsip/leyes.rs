//! Lo que vale de toda ejecución de un guion, pase lo que pase afuera.

use vstd::prelude::*;

use crate::error::ErrorV;
use crate::microsip::maquina::{error_de_paso, EstadoV, Fase, MicrosipState, Programa};
use crate::microsip::nativo::{PasoV, Registros, Regla, RespuestaV};

verus! {

impl Programa {
    /// Los pasos que siguen al cuerpo siempre se pueden intentar.
    pub open spec fn cierre_posible(self) -> bool {
        forall|k: int|
            self.al_fallar <= k < self.pasos.len() ==> error_de_paso(#[trigger] self.pasos[k])
                is None
    }

    /// Antes del tramo de falla no hay falla; en él, la hay.
    pub open spec fn coherente(self, e: EstadoV) -> bool {
        &&& self.en_curso(e)
        &&& e.falla is Some ==> e.fase == Fase::Fin || e.pc >= self.al_fallar
        &&& self.al_fallar <= e.pc < self.cierre && e.fase != Fase::Fin ==> e.falla is Some
    }

    /// El estado tras una sucesión de respuestas.
    pub open spec fn correr(self, e: EstadoV, rs: Seq<RespuestaV>) -> EstadoV
        decreases rs.len(),
    {
        if rs.len() == 0 {
            e
        } else {
            self.recibir(self.correr(e, rs.drop_last()), rs.last())
        }
    }

    /// Cada respuesta es de la clase que su acción pedía.
    pub open spec fn corresponden(self, e: EstadoV, rs: Seq<RespuestaV>) -> bool
        decreases rs.len(),
    {
        rs.len() > 0 ==> self.corresponden(e, rs.drop_last()) && self.corresponde(
            self.correr(e, rs.drop_last()),
            rs.last(),
        )
    }

    /// Durante la ejecución se intentó el paso `k`.
    pub open spec fn intento(self, e: EstadoV, rs: Seq<RespuestaV>, k: int) -> bool {
        exists|i: int|
            0 <= i <= rs.len() && {
                let s = #[trigger] self.correr(e, rs.take(i));
                s.pc == k && s.fase == Fase::Ejecuta
            }
    }
}

/// Qué pasos se saltan.
pub(crate) proof fn lema_saltar(p: Programa, regs: Registros, pc: int)
    requires
        p.valido(),
        0 <= pc <= p.pasos.len(),
    ensures
        pc <= p.saltar(regs, pc) <= p.pasos.len(),
        forall|k: int| pc <= k < p.saltar(regs, pc) ==> #[trigger] p.omitido(regs, k),
        p.saltar(regs, pc) < p.pasos.len() ==> !p.omitido(regs, p.saltar(regs, pc)),
        pc < p.cierre ==> p.saltar(regs, pc) == pc,
    decreases p.pasos.len() - pc,
{
    if pc < p.pasos.len() {
        assert(p.paso_valido(pc));
        if p.omitido(regs, pc) {
            lema_saltar(p, regs, pc + 1);
        }
    }
}

/// Llegar a un paso: se queda en el primero que no se salta, o se termina.
pub open spec fn llegada(p: Programa, s: EstadoV, destino: int) -> bool {
    &&& s.pc == p.saltar(s.regs, destino)
    &&& s.fase == (if s.pc == p.pasos.len() {
        Fase::Fin
    } else {
        Fase::Ejecuta
    })
}

pub(crate) proof fn lema_entrar(p: Programa, e: EstadoV, pc: int)
    requires
        p.valido(),
        p.cierre_posible(),
        0 <= pc <= p.pasos.len(),
        pc < p.al_fallar ==> e.falla is None,
        p.al_fallar <= pc < p.cierre ==> e.falla is Some,
    ensures
        ({
            let s = p.entrar(e, pc);
            &&& p.coherente(s)
            &&& !(s.fase is Mensaje)
            &&& s.regs == e.regs
            &&& s.memoria == e.memoria
            &&& s.fila == e.fila
            &&& pc >= p.al_fallar ==> s.falla == e.falla && llegada(p, s, pc)
            &&& p.cuerpo <= pc < p.al_fallar ==> (s.falla is None ==> s.pc == pc && s.fase
                == Fase::Ejecuta)
            &&& p.cuerpo <= pc < p.al_fallar ==> (s.falla is Some ==> error_de_paso(p.pasos[pc])
                is Some && llegada(p, s, p.destino_falla(pc)))
            &&& pc < p.cuerpo && s.falla is Some ==> s.fase == Fase::Fin && s.pc == pc
            &&& pc < p.cuerpo && s.falla is None ==> s.pc == pc && s.fase == Fase::Ejecuta
        }),
    decreases p.pasos.len() - pc,
{
    lema_saltar(p, e.regs, pc);
    if pc < p.pasos.len() {
        assert(p.paso_valido(pc));
        if p.omitido(e.regs, pc) {
            lema_entrar(p, e, pc + 1);
        } else if let Some(err) = error_de_paso(p.pasos[pc]) {
            if p.cuerpo <= pc {
                let f = EstadoV { falla: p.falla_tras(e.falla, pc, err), ..e };
                assert(p.entrar(e, pc) == p.entrar(f, p.destino_falla(pc)));
                lema_entrar(p, f, p.destino_falla(pc));
            }
        }
    }
}

/// Toda ejecución empieza coherente.
pub proof fn ley_inicio_coherente(p: Programa, memoria: MicrosipState)
    requires
        p.valido(),
        p.cierre_posible(),
        p.al_fallar == 0 ==> p.cierre == 0,
    ensures
        p.coherente(p.inicio(memoria)),
        p.inicio(memoria).memoria == memoria,
{
    let r = match memoria.pl_handle {
        Some(h) => crate::microsip::nativo::Registros::en_cero().con_valor(
            crate::microsip::nativo::Registro::Lista,
            h,
        ),
        None => crate::microsip::nativo::Registros::en_cero(),
    };
    let z = EstadoV {
        pc: 0,
        fase: Fase::Ejecuta,
        regs: r,
        memoria,
        falla: None,
        fila: crate::microsip::fila::FilaV::vacia(),
    };
    lema_entrar(p, z, 0);
}

/// Se llegó a donde lleva la falla del paso `desde`.
pub open spec fn caida(p: Programa, s: EstadoV, desde: int) -> bool {
    s.falla is Some && llegada(p, s, p.destino_falla(desde))
}

/// Qué puede pasar con una respuesta, según el tramo en que se recibe.
pub open spec fn transicion(p: Programa, e: EstadoV, s: EstadoV) -> bool {
    // Sigue pendiente el mismo paso, a la espera de un mensaje.
    ||| s.pc == e.pc && s.fase is Mensaje && s.falla == e.falla && s.regs == e.regs
    // Preludio: o avanza, o termina con la falla.
    ||| e.pc < p.cuerpo && s.falla is Some && s.fase == Fase::Fin && s.pc < p.cuerpo
    ||| e.pc < p.cuerpo && s.falla is None && llegada(p, s, p.destino_exito(e.pc))
    ||| e.pc + 1 == p.cuerpo < p.al_fallar && caida(p, s, p.cuerpo) && error_de_paso(
        p.pasos[p.cuerpo],
    ) is Some
    // Cuerpo: sigue en él, pasa al cierre, o falla y pasa a donde toca.
    ||| p.cuerpo <= e.pc < p.al_fallar && s.falla is None && p.cuerpo <= s.pc < p.al_fallar
        && s.fase == Fase::Ejecuta && (e.pc >= p.aborta ==> s.pc >= p.aborta)
    ||| p.cuerpo <= e.pc < p.al_fallar && s.falla is None && llegada(p, s, p.cierre)
    ||| p.cuerpo <= e.pc < p.al_fallar && caida(p, s, e.pc)
    ||| p.cuerpo <= e.pc < p.aborta && e.pc + 1 < p.al_fallar && caida(p, s, e.pc + 1)
        && error_de_paso(p.pasos[e.pc + 1]) is Some
    // Después del cuerpo se avanza paso a paso.
    ||| e.pc >= p.al_fallar && llegada(p, s, e.pc + 1) && s.regs == e.regs && (e.falla is Some
        || !p.es_estricto(e.pc) ==> s.falla == e.falla)
}

proof fn lema_fallar(p: Programa, e: EstadoV, err: ErrorV)
    requires
        p.valido(),
        p.cierre_posible(),
        p.coherente(e),
        e.fase != Fase::Fin,
    ensures
        p.coherente(p.fallar(e, err)),
        transicion(p, e, p.fallar(e, err)),
        p.fallar(e, err).memoria == e.memoria,
        e.pc < p.al_fallar ==> p.fallar(e, err).falla == Some(err),
{
    if e.pc >= p.cuerpo {
        let f = EstadoV { falla: p.falla_tras(e.falla, e.pc, err), ..e };
        lema_entrar(p, f, p.destino_falla(e.pc));
    }
    lema_saltar(p, e.regs, e.pc);
}

proof fn lema_avanzar(p: Programa, e: EstadoV)
    requires
        p.valido(),
        p.cierre_posible(),
        p.coherente(e),
        e.fase != Fase::Fin,
    ensures
        p.coherente(p.avanzar(e)),
        transicion(p, e, p.avanzar(e)),
        !(p.avanzar(e).fase is Mensaje),
        p.avanzar(e).memoria == e.memoria,
{
    lema_entrar(p, e, p.destino_exito(e.pc));
    lema_saltar(p, e.regs, p.destino_exito(e.pc));
}

/// Una respuesta mantiene la coherencia y mueve la ejecución solo como dice
/// [`transicion`]; la memoria del proceso nunca olvida un chequeo hecho, y la
/// lista de parámetros no cambia salvo en el paso que la crea.
pub proof fn ley_recibir(p: Programa, e: EstadoV, r: RespuestaV)
    requires
        p.valido(),
        p.cierre_posible(),
        p.coherente(e),
        p.corresponde(e, r),
    ensures
        p.coherente(p.recibir(e, r)),
        transicion(p, e, p.recibir(e, r)),
        e.memoria.compatibilidad_ventas_checada
            ==> p.recibir(e, r).memoria.compatibilidad_ventas_checada,
        e.memoria.compatibilidad_cxc_checada
            ==> p.recibir(e, r).memoria.compatibilidad_cxc_checada,
        !(p.pasos[e.pc] matches PasoV::Llama { regla: Regla::ListaNueva(_), .. }) ==> p.recibir(
            e,
            r,
        ).memoria.pl_handle == e.memoria.pl_handle,
{
    reveal(Programa::recibir);
    assert(p.paso_valido(e.pc));
    let s = p.recibir(e, r);
    // Los cuatro caminos posibles: avanzar, saltar, fallar o pedir mensaje.
    match e.fase {
        Fase::Fin => {},
        Fase::Mensaje { modulo, codigo } => {
            lema_verificar(p, e);
            match r {
                RespuestaV::Mensaje(m) => {
                    lema_fallar(
                        p,
                        e,
                        crate::microsip::maquina::error_nativo(p.pasos[e.pc], modulo, codigo, m),
                    );
                },
                _ => {},
            }
        },
        Fase::Ejecuta => {
            lema_verificar(p, e);
            match (p.pasos[e.pc], r) {
                (PasoV::Resuelve { simbolo, .. }, RespuestaV::NoResuelto(m)) => {
                    lema_fallar(p, e, crate::microsip::maquina::error_simbolo(simbolo, m));
                },
                (PasoV::Resuelve { .. }, _) => {
                    lema_avanzar(p, e);
                },
                (PasoV::EntregaFila, RespuestaV::FilaRechazada(err)) => {
                    lema_fallar(p, e, err);
                },
                (PasoV::EntregaFila, _) => {
                    let f = EstadoV { fila: crate::microsip::fila::FilaV::vacia(), ..e };
                    lema_avanzar(p, f);
                    assert(s == p.avanzar(f));
                },
                (PasoV::Llama { funcion, .. }, RespuestaV::NoResuelto(m)) => {
                    lema_fallar(p, e, crate::microsip::maquina::error_simbolo(funcion, m));
                },
                (PasoV::Llama { .. }, RespuestaV::NoConvertido(err)) => {
                    lema_fallar(p, e, err);
                },
                (PasoV::Llama { regla, .. }, RespuestaV::Codigo(c)) => {
                    lema_codigo(p, e, regla, c);
                },
                (PasoV::Llama { regla, args, .. }, RespuestaV::Texto { rc, bufer }) => {
                    let f = EstadoV {
                        fila: crate::microsip::fila::FilaV {
                            textos: e.fila.textos.push((args[1]->Texto_0, rc, bufer)),
                            ..e.fila
                        },
                        ..e
                    };
                    lema_avanzar(p, f);
                    lema_entrar(p, f, regla->LeeTexto_entrega as int);
                    assert(s == p.avanzar(f) || s == p.entrar(
                        f,
                        regla->LeeTexto_entrega as int,
                    ));
                },
                (PasoV::Llama { regla, args, .. }, RespuestaV::Entero { rc, valor }) => {
                    if regla is Documento {
                        let f = EstadoV {
                            regs: e.regs.con_valor(
                                crate::microsip::nativo::Registro::Documento,
                                valor,
                            ),
                            ..e
                        };
                        lema_avanzar(p, f);
                    } else {
                        let f = EstadoV {
                            fila: crate::microsip::fila::FilaV {
                                enteros: e.fila.enteros.push((args[1]->Texto_0, rc, valor)),
                                ..e.fila
                            },
                            ..e
                        };
                        lema_avanzar(p, f);
                        lema_entrar(p, f, regla->LeeEntero_entrega as int);
                        assert(s == p.avanzar(f) || s == p.entrar(
                            f,
                            regla->LeeEntero_entrega as int,
                        ));
                    }
                },
                _ => {},
            }
        },
    }
}

proof fn lema_verificar(p: Programa, e: EstadoV)
    requires
        p.valido(),
        p.cierre_posible(),
        p.coherente(e),
        e.fase != Fase::Fin,
    ensures
        p.coherente(p.verificar(e)),
        transicion(p, e, p.verificar(e)),
        e.memoria.compatibilidad_ventas_checada
            ==> p.verificar(e).memoria.compatibilidad_ventas_checada,
        p.verificar(e).memoria.compatibilidad_cxc_checada == e.memoria.compatibilidad_cxc_checada,
        p.verificar(e).memoria.pl_handle == e.memoria.pl_handle,
{
    let f = EstadoV {
        memoria: MicrosipState { compatibilidad_ventas_checada: true, ..e.memoria },
        ..e
    };
    lema_avanzar(p, f);
}

proof fn lema_codigo(p: Programa, e: EstadoV, regla: Regla, c: i32)
    requires
        p.valido(),
        p.cierre_posible(),
        p.coherente(e),
        e.fase != Fase::Fin,
        p.pasos[e.pc] matches PasoV::Llama { regla: r, .. } && r == regla,
        !(regla is Documento || regla is LeeTexto || regla is LeeEntero),
    ensures
        p.coherente(p.tras_codigo(e, regla, c)),
        transicion(p, e, p.tras_codigo(e, regla, c)),
        e.memoria.compatibilidad_ventas_checada
            ==> p.tras_codigo(e, regla, c).memoria.compatibilidad_ventas_checada,
        e.memoria.compatibilidad_cxc_checada
            ==> p.tras_codigo(e, regla, c).memoria.compatibilidad_cxc_checada,
        !(regla is ListaNueva) ==> p.tras_codigo(e, regla, c).memoria.pl_handle
            == e.memoria.pl_handle,
{
    assert(p.paso_valido(e.pc));
    lema_avanzar(p, e);
    lema_verificar(p, e);
    lema_fallar(p, e, crate::microsip::maquina::error_desconectada());
    match regla {
        Regla::Handle { registro, .. } => {
            lema_avanzar(p, EstadoV { regs: e.regs.con_valor(registro, c), ..e });
        },
        Regla::ListaNueva(_) => {
            lema_avanzar(
                p,
                EstadoV {
                    regs: e.regs.con_valor(crate::microsip::nativo::Registro::Lista, c),
                    memoria: MicrosipState { pl_handle: Some(c), ..e.memoria },
                    ..e
                },
            );
        },
        Regla::Abre(registro) => {
            lema_avanzar(p, EstadoV { regs: e.regs.con_valor(registro, 1), ..e });
        },
        Regla::Difiere => {
            lema_avanzar(
                p,
                EstadoV {
                    regs: e.regs.con_valor(crate::microsip::nativo::Registro::Compatibilidad, c),
                    ..e
                },
            );
        },
        Regla::CompatibleCxc => {
            lema_avanzar(
                p,
                EstadoV {
                    memoria: MicrosipState { compatibilidad_cxc_checada: true, ..e.memoria },
                    ..e
                },
            );
        },
        Regla::FinDeDatos { fin } => {
            lema_entrar(p, e, fin as int);
        },
        Regla::Siguiente { inicio } => {
            lema_entrar(p, e, inicio as int);
        },
        _ => {},
    }
}

/// La coherencia se mantiene en toda la ejecución.
pub proof fn ley_correr_coherente(p: Programa, e: EstadoV, rs: Seq<RespuestaV>)
    requires
        p.valido(),
        p.cierre_posible(),
        p.coherente(e),
        p.corresponden(e, rs),
    ensures
        p.coherente(p.correr(e, rs)),
    decreases rs.len(),
{
    if rs.len() > 0 {
        ley_correr_coherente(p, e, rs.drop_last());
        ley_recibir(p, p.correr(e, rs.drop_last()), rs.last());
    }
}

/// El error original es el que se propaga: una vez que el guion falló,
/// ninguna respuesta posterior (ni la del aborto ni las del cierre) cambia
/// la falla.
pub proof fn ley_error_original(p: Programa, e: EstadoV, rs: Seq<RespuestaV>)
    requires
        p.valido(),
        p.cierre_posible(),
        p.coherente(e),
        p.corresponden(e, rs),
        e.falla is Some,
    ensures
        p.correr(e, rs).falla == e.falla,
    decreases rs.len(),
{
    if rs.len() > 0 {
        ley_error_original(p, e, rs.drop_last());
        ley_correr_coherente(p, e, rs.drop_last());
        let s = p.correr(e, rs.drop_last());
        ley_recibir(p, s, rs.last());
        assert(s.fase != Fase::Fin);
        assert(s.pc >= p.al_fallar);
    }
}

/// La primera falla de una ejecución es la que queda.
pub proof fn ley_primera_falla(p: Programa, e: EstadoV, rs: Seq<RespuestaV>, n: int)
    requires
        p.valido(),
        p.cierre_posible(),
        p.coherente(e),
        p.corresponden(e, rs),
        0 <= n <= rs.len(),
        p.correr(e, rs.take(n)).falla is Some,
    ensures
        p.correr(e, rs).falla == p.correr(e, rs.take(n)).falla,
    decreases rs.len() - n,
{
    if n == rs.len() {
        assert(rs.take(n) =~= rs);
    } else {
        lema_corresponden_prefijo(p, e, rs, n);
        lema_corresponden_prefijo(p, e, rs, n + 1);
        assert(rs.take(n + 1).drop_last() =~= rs.take(n));
        let s = p.correr(e, rs.take(n));
        ley_correr_coherente(p, e, rs.take(n));
        ley_recibir(p, s, rs[n]);
        assert(rs.take(n + 1).last() == rs[n]);
        assert(s.fase != Fase::Fin);
        assert(s.pc >= p.al_fallar);
        ley_primera_falla(p, e, rs, n + 1);
    }
}

pub(crate) proof fn lema_corresponden_prefijo(p: Programa, e: EstadoV, rs: Seq<RespuestaV>, n: int)
    requires
        p.corresponden(e, rs),
        0 <= n <= rs.len(),
    ensures
        p.corresponden(e, rs.take(n)),
    decreases rs.len(),
{
    if n == rs.len() {
        assert(rs.take(n) =~= rs);
    } else {
        assert(rs.drop_last().take(n) =~= rs.take(n));
        lema_corresponden_prefijo(p, e, rs.drop_last(), n);
    }
}

/// Se aborta si y solo si hay qué abortar y se falla: desde `aborta`, la
/// respuesta que hace fallar un paso del cuerpo deja pendiente el primer paso
/// del tramo de falla, y a ese tramo no se llega sin falla.
pub proof fn ley_aborta_si_falla(p: Programa, e: EstadoV, r: RespuestaV)
    requires
        p.valido(),
        p.cierre_posible(),
        p.coherente(e),
        p.corresponde(e, r),
        p.aborta <= e.pc < p.al_fallar < p.cierre,
    ensures
        ({
            let s = p.recibir(e, r);
            s.falla is Some <==> (s.pc == p.al_fallar && s.fase == Fase::Ejecuta)
        }),
{
    ley_recibir(p, e, r);
    lema_saltar(p, p.recibir(e, r).regs, p.al_fallar);
    lema_saltar(p, p.recibir(e, r).regs, p.cierre);
}

/// Antes de que haya qué abortar no se aborta: la respuesta que hace fallar un
/// paso del cuerpo anterior a `aborta` lleva directo al cierre.
pub proof fn ley_falla_sin_abortar(p: Programa, e: EstadoV, r: RespuestaV)
    requires
        p.valido(),
        p.cierre_posible(),
        p.coherente(e),
        p.corresponde(e, r),
        p.cuerpo <= e.pc < p.aborta,
        p.aborta < p.al_fallar ==> error_de_paso(p.pasos[p.aborta]) is None,
        p.recibir(e, r).falla is Some,
    ensures
        llegada(p, p.recibir(e, r), p.cierre),
        p.recibir(e, r).pc >= p.cierre,
{
    ley_recibir(p, e, r);
    lema_saltar(p, p.recibir(e, r).regs, p.cierre);
}

/// Una falla del preludio termina la ejecución en el acto.
pub proof fn ley_preludio_termina(p: Programa, e: EstadoV, r: RespuestaV)
    requires
        p.valido(),
        p.cierre_posible(),
        p.coherente(e),
        p.corresponde(e, r),
        e.pc + 1 < p.cuerpo,
        p.recibir(e, r).falla is Some,
    ensures
        p.recibir(e, r).fase == Fase::Fin,
{
    ley_recibir(p, e, r);
}

pub(crate) proof fn lema_intento_prefijo(p: Programa, e: EstadoV, rs: Seq<RespuestaV>, k: int)
    requires
        rs.len() > 0,
        p.intento(e, rs.drop_last(), k),
    ensures
        p.intento(e, rs, k),
{
    let t = rs.drop_last();
    let i = choose|i: int|
        0 <= i <= t.len() && {
            let s = #[trigger] p.correr(e, t.take(i));
            s.pc == k && s.fase == Fase::Ejecuta
        };
    assert(t.take(i) =~= rs.take(i));
    assert(0 <= i <= rs.len());
    let s = p.correr(e, rs.take(i));
    assert(s.pc == k);
}

pub(crate) proof fn lema_intento_ahora(p: Programa, e: EstadoV, rs: Seq<RespuestaV>)
    requires
        p.correr(e, rs).fase == Fase::Ejecuta,
    ensures
        p.intento(e, rs, p.correr(e, rs).pc),
{
    assert(rs.take(rs.len() as int) =~= rs);
    let s = p.correr(e, rs.take(rs.len() as int));
    assert(s.pc == p.correr(e, rs).pc);
}

/// Ningún paso del guion se salta.
pub open spec fn sin_omisiones(p: Programa) -> bool {
    forall|regs: Registros, k: int| 0 <= k < p.pasos.len() ==> !#[trigger] p.omitido(regs, k)
}

/// Ninguna desconexión del guion es estricta.
pub open spec fn sin_estrictos(p: Programa) -> bool {
    forall|k: int| 0 <= k < p.pasos.len() ==> !#[trigger] p.es_estricto(k)
}

proof fn lema_cierre(p: Programa, e: EstadoV, rs: Seq<RespuestaV>)
    requires
        p.valido(),
        p.cierre_posible(),
        p.coherente(e),
        p.corresponden(e, rs),
        e.fase == Fase::Ejecuta,
        p.cuerpo <= e.pc < p.al_fallar,
    ensures
        ({
            let s = p.correr(e, rs);
            &&& s.pc >= p.cuerpo
            &&& e.pc >= p.aborta ==> s.pc >= p.aborta
            &&& s.fase == Fase::Fin ==> s.pc == p.pasos.len()
            &&& s.fase is Mensaje ==> p.intento(e, rs, s.pc)
            &&& forall|k: int|
                p.cierre <= k < s.pc ==> #[trigger] p.intento(e, rs, k) || p.omitido(s.regs, k)
            &&& e.pc >= p.aborta && s.falla is Some && sin_estrictos(p) ==> forall|k: int|
                p.al_fallar <= k < s.pc ==> #[trigger] p.intento(e, rs, k) || p.omitido(s.regs, k)
        }),
    decreases rs.len(),
{
    let s = p.correr(e, rs);
    if rs.len() > 0 {
        let t = rs.drop_last();
        lema_cierre(p, e, t);
        ley_correr_coherente(p, e, t);
        let a = p.correr(e, t);
        ley_recibir(p, a, rs.last());
        assert(a.fase != Fase::Fin);
        if a.fase == Fase::Ejecuta {
            lema_intento_ahora(p, e, t);
        }
        assert(p.intento(e, t, a.pc));
        lema_intento_prefijo(p, e, rs, a.pc);
        lema_saltar(p, s.regs, p.cierre);
        lema_saltar(p, s.regs, p.al_fallar);
        if a.pc < p.pasos.len() {
            lema_saltar(p, s.regs, a.pc + 1);
        }
        assert forall|k: int| p.cierre <= k < s.pc implies #[trigger] p.intento(e, rs, k)
            || p.omitido(s.regs, k) by {
            if k < a.pc {
                assert(p.intento(e, t, k) || p.omitido(a.regs, k));
                if p.intento(e, t, k) {
                    lema_intento_prefijo(p, e, rs, k);
                }
            }
        }
        if e.pc >= p.aborta && s.falla is Some && sin_estrictos(p) {
            assert(!p.es_estricto(a.pc));
            assert forall|k: int| p.al_fallar <= k < s.pc implies #[trigger] p.intento(e, rs, k)
                || p.omitido(s.regs, k) by {
                if k < a.pc {
                    assert(p.intento(e, t, k) || p.omitido(a.regs, k));
                    if p.intento(e, t, k) {
                        lema_intento_prefijo(p, e, rs, k);
                    }
                }
            }
        }
    }
}

/// Las conexiones se cierran pase lo que pase: una ejecución que entró al
/// cuerpo solo termina después de haber intentado todos los pasos del cierre
/// (menos los de conexiones que no se abrieron), y si falló cuando ya había qué
/// abortar, también todos los del tramo de falla.
pub proof fn ley_cierre_siempre(p: Programa, e: EstadoV, rs: Seq<RespuestaV>)
    requires
        p.valido(),
        p.cierre_posible(),
        p.coherente(e),
        p.corresponden(e, rs),
        e.fase == Fase::Ejecuta,
        p.cuerpo <= e.pc < p.al_fallar,
        p.correr(e, rs).fase == Fase::Fin,
    ensures
        ({
            let s = p.correr(e, rs);
            &&& forall|k: int|
                p.cierre <= k < p.pasos.len() ==> #[trigger] p.intento(e, rs, k) || p.omitido(
                    s.regs,
                    k,
                )
            &&& e.pc >= p.aborta && s.falla is Some && sin_estrictos(p) ==> forall|k: int|
                p.al_fallar <= k < p.pasos.len() ==> #[trigger] p.intento(e, rs, k) || p.omitido(
                    s.regs,
                    k,
                )
        }),
{
    lema_cierre(p, e, rs);
}

} // verus!
