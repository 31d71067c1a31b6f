//! Lo que significa que un guion termine, sin falla o con ella, y lo que el
//! proceso recuerda después.

use vstd::prelude::*;

use crate::error::ErrorV;
use crate::microsip::guiones::{crea_lista, de_cierre, lineal, recto};
use crate::microsip::leyes::{
    lema_entrar, lema_intento_ahora, lema_intento_prefijo, lema_saltar, ley_correr_coherente,
    ley_inicio_coherente, ley_recibir, sin_estrictos,
};
use crate::microsip::maquina::{error_de_paso, EstadoV, Fase, MicrosipState, Programa};
use crate::microsip::nativo::{PasoV, Registro, Regla, RespuestaV};

verus! {

/// El paso cambia un registro.
pub open spec fn escribe(p: PasoV, reg: Registro) -> bool {
    match p {
        PasoV::Llama { regla: Regla::Handle { registro, .. }, .. } => registro == reg,
        PasoV::Llama { regla: Regla::Abre(registro), .. } => registro == reg,
        PasoV::Llama { regla: Regla::ListaNueva(_), .. } => reg == Registro::Lista,
        PasoV::Llama { regla: Regla::Difiere, .. } => reg == Registro::Compatibilidad,
        PasoV::Llama { regla: Regla::Documento(_), .. } => reg == Registro::Documento,
        _ => false,
    }
}

/// El registro se cambia en el paso `k` y en ningún otro.
pub open spec fn solo_escribe(p: Programa, k: int, reg: Registro) -> bool {
    &&& 0 <= k < p.al_fallar
    &&& escribe(p.pasos[k], reg)
    &&& forall|i: int|
        0 <= i < p.pasos.len() && i != k ==> !escribe(#[trigger] p.pasos[i], reg)
}

/// El identificador del documento se pide en el paso `k` y en ningún otro.
pub open spec fn documento_en(p: Programa, k: int) -> bool {
    &&& solo_escribe(p, k, Registro::Documento)
    &&& p.pasos[k] matches PasoV::Llama { regla: Regla::Documento(_), .. }
}

/// La conexión a Metadatos que se cierra al final se abre en el paso `k` y en
/// ningún otro.
pub open spec fn abre_en(p: Programa, k: int) -> bool {
    &&& solo_escribe(p, k, Registro::MetadatosAbierta)
    &&& p.pasos[k] matches PasoV::Llama { regla: Regla::Abre(_), .. }
}

/// A dónde se pasa desde el paso `pc` sin falla.
pub open spec fn siguiente(p: Programa, pc: int) -> int {
    if pc < p.al_fallar {
        p.destino_exito(pc)
    } else {
        pc + 1
    }
}

/// Pasar a un paso no cambia ni los registros ni la memoria.
pub(crate) proof fn lema_entrar_conserva(p: Programa, e: EstadoV, pc: int)
    ensures
        p.entrar(e, pc).memoria == e.memoria,
        p.entrar(e, pc).regs == e.regs,
        !(p.entrar(e, pc).fase is Mensaje),
    decreases
            if pc <= p.pasos.len() {
                p.pasos.len() - pc
            } else {
                0
            },
{
    if 0 <= pc < p.pasos.len() {
        if p.omitido(e.regs, pc) {
            lema_entrar_conserva(p, e, pc + 1);
        } else if let Some(err) = error_de_paso(p.pasos[pc]) {
            if p.cuerpo <= pc && p.destino_falla(pc) > pc {
                let f = EstadoV { falla: p.falla_tras(e.falla, pc, err), ..e };
                lema_entrar_conserva(p, f, p.destino_falla(pc));
            }
        }
    }
}

/// Una respuesta solo cambia los registros que su paso escribe.
pub(crate) proof fn lema_registro(p: Programa, e: EstadoV, r: RespuestaV, reg: Registro)
    requires
        !escribe(p.pasos[e.pc], reg),
    ensures
        p.recibir(e, r).regs.valor(reg) == e.regs.valor(reg),
{
    reveal(Programa::recibir);
    assert forall|f: EstadoV, d: int|
        (#[trigger] p.entrar(f, d)).regs == f.regs by {
        lema_entrar_conserva(p, f, d);
    }
}

pub(crate) proof fn lema_entrar_limpio(p: Programa, e: EstadoV, pc: int)
    requires
        p.valido(),
        p.cierre_posible(),
        0 <= pc <= p.pasos.len(),
        p.entrar(e, pc).falla is None,
        e.falla is None,
    ensures
        p.entrar(e, pc).pc == p.saltar(e.regs, pc),
        p.entrar(e, pc).regs == e.regs,
        p.entrar(e, pc).fila == e.fila,
    decreases p.pasos.len() - pc,
{
    lema_saltar(p, e.regs, pc);
    if pc < p.pasos.len() {
        assert(p.paso_valido(pc));
        if p.omitido(e.regs, pc) {
            lema_entrar_limpio(p, e, pc + 1);
        } else if let Some(err) = error_de_paso(p.pasos[pc]) {
            if p.cuerpo <= pc && pc < p.al_fallar {
                let f = EstadoV { falla: p.falla_tras(e.falla, pc, err), ..e };
                assert(p.entrar(e, pc) == p.entrar(f, p.destino_falla(pc)));
                lema_entrar(p, f, p.destino_falla(pc));
            }
        }
    }
}

/// Fallar sin que quede falla: solo después del cuerpo, y se sigue.
pub(crate) proof fn lema_fallar_limpio(p: Programa, f: EstadoV, err: ErrorV)
    requires
        p.valido(),
        p.cierre_posible(),
        p.coherente(f),
        f.fase != Fase::Fin,
        f.falla is None,
        p.fallar(f, err).falla is None,
    ensures
        f.pc >= p.al_fallar,
        p.fallar(f, err).pc == p.saltar(f.regs, f.pc + 1),
        p.fallar(f, err).regs == f.regs,
{
    let g = EstadoV { falla: p.falla_tras(f.falla, f.pc, err), ..f };
    if f.pc >= p.al_fallar {
        lema_entrar(p, g, f.pc + 1);
    } else if f.pc >= p.cuerpo {
        lema_entrar(p, g, p.destino_falla(f.pc));
    }
}

/// El paso pendiente sin falla: o se espera un mensaje, o se pasó al
/// siguiente.
pub(crate) proof fn lema_paso(p: Programa, e: EstadoV, r: RespuestaV)
    requires
        p.valido(),
        p.cierre_posible(),
        p.coherente(e),
        p.corresponde(e, r),
        lineal(p.pasos[e.pc]) || de_cierre(p.pasos[e.pc]),
        e.falla is None,
        p.recibir(e, r).falla is None,
    ensures
        ({
            let s = p.recibir(e, r);
            &&& s.fase is Mensaje ==> s.pc == e.pc && s.regs == e.regs
            &&& !(s.fase is Mensaje) ==> s.pc == p.saltar(s.regs, siguiente(p, e.pc))
            &&& !(s.fase is Mensaje) && e.pc < p.al_fallar && !(p.pasos[e.pc] matches PasoV::Llama {
                regla: Regla::DesconectaYVerifica,
                ..
            }) ==> e.fase == Fase::Ejecuta
            &&& (p.pasos[e.pc] matches PasoV::Llama { regla: Regla::Documento(_), .. }) && !(s.fase
                is Mensaje) && e.pc < p.al_fallar ==> e.fase == Fase::Ejecuta && r == (
            RespuestaV::Entero { rc: 0, valor: s.regs.documento })
            &&& (p.pasos[e.pc] matches PasoV::Llama { regla: Regla::Abre(reg), .. } ==> (!(s.fase
                is Mensaje) && e.pc < p.al_fallar ==> e.fase == Fase::Ejecuta && r
                == RespuestaV::Codigo(0) && s.regs.valor(reg) == 1))
        }),
{
    reveal(Programa::recibir);
    ley_recibir(p, e, r);
    assert(p.paso_valido(e.pc));
    let s = p.recibir(e, r);
    let d = p.destino_exito(e.pc);
    assert forall|f: EstadoV, c: int|
        (#[trigger] p.entrar(f, c)).regs == f.regs && !(p.entrar(f, c).fase is Mensaje) by {
        lema_entrar_conserva(p, f, c);
    }
    assert forall|f: EstadoV|
        f.falla is None && f.pc == e.pc && (#[trigger] p.avanzar(f)).falla is None implies p.avanzar(
        f,
    ).pc == p.saltar(f.regs, d) && p.avanzar(f).regs == f.regs by {
        lema_entrar_limpio(p, f, d);
    }
    assert forall|err: ErrorV|
        (#[trigger] p.fallar(e, err)).falla is None implies e.pc >= p.al_fallar && p.fallar(
        e,
        err,
    ).pc == p.saltar(e.regs, e.pc + 1) && p.fallar(e, err).regs == e.regs by {
        lema_fallar_limpio(p, e, err);
    }
}

pub(crate) proof fn lema_falla_queda(p: Programa, e: EstadoV, r: RespuestaV)
    requires
        p.valido(),
        p.cierre_posible(),
        p.coherente(e),
        p.corresponde(e, r),
        e.falla is Some,
    ensures
        p.recibir(e, r).falla is Some,
{
    ley_recibir(p, e, r);
}

/// Lo que vale de una ejecución sin falla hasta el momento.
pub open spec fn limpia(p: Programa, e: EstadoV, rs: Seq<RespuestaV>, k: int) -> bool {
    let s = p.correr(e, rs);
    &&& s.fase is Mensaje ==> p.intento(e, rs, s.pc)
    &&& forall|j: int|
        0 <= j < s.pc && !(p.al_fallar <= j < p.cierre) ==> #[trigger] p.intento(e, rs, j)
            || p.omitido(s.regs, j)
    &&& forall|j: int| p.al_fallar <= j < p.cierre ==> !#[trigger] p.intento(e, rs, j)
    &&& forall|q: int| #[trigger] abre_en(p, q) && s.pc > q ==> s.regs.metadatos_abierta == 1
    &&& documento_en(p, k) && s.pc > k ==> recibio_documento(p, e, rs, k, s.regs.documento)
}

/// En algún momento el paso `k` recibió con éxito el identificador `id`.
pub open spec fn recibio_documento(
    p: Programa,
    e: EstadoV,
    rs: Seq<RespuestaV>,
    k: int,
    id: i32,
) -> bool {
    exists|i: int|
        0 <= i < rs.len() && {
            let s = #[trigger] p.correr(e, rs.take(i));
            s.pc == k && s.fase == Fase::Ejecuta && rs[i] == (RespuestaV::Entero {
                rc: 0,
                valor: id,
            })
        }
}

pub(crate) proof fn lema_recorrido(p: Programa, e: EstadoV, rs: Seq<RespuestaV>, k: int)
    requires
        p.valido(),
        p.cierre_posible(),
        recto(p),
        p.coherente(e),
        p.corresponden(e, rs),
        !(e.fase is Mensaje),
        e.falla is None ==> e.pc == 0,
        p.al_fallar > 0,
        p.correr(e, rs).falla is None,
    ensures
        limpia(p, e, rs, k),
    decreases rs.len(),
{
    let s = p.correr(e, rs);
    if rs.len() == 0 {
        assert forall|j: int| p.al_fallar <= j < p.cierre implies !#[trigger] p.intento(
            e,
            rs,
            j,
        ) by {
            assert forall|i: int| 0 <= i <= rs.len() implies (#[trigger] p.correr(
                e,
                rs.take(i),
            )).pc == 0 by {
                assert(rs.take(i) =~= rs);
            }
        }
    } else {
        let t = rs.drop_last();
        let a = p.correr(e, t);
        let r = rs.last();
        ley_correr_coherente(p, e, t);
        if a.falla is Some {
            lema_falla_queda(p, a, r);
        }
        lema_recorrido(p, e, t, k);
        assert(lineal(p.pasos[a.pc]) || de_cierre(p.pasos[a.pc]));
        ley_recibir(p, a, r);
        lema_paso(p, a, r);
        if a.fase == Fase::Ejecuta {
            lema_intento_ahora(p, e, t);
        }
        assert(p.intento(e, t, a.pc));
        lema_intento_prefijo(p, e, rs, a.pc);
        lema_saltar(p, s.regs, siguiente(p, a.pc));
        assert forall|j: int|
            0 <= j < s.pc && !(p.al_fallar <= j < p.cierre) implies #[trigger] p.intento(e, rs, j)
            || p.omitido(s.regs, j) by {
            assert(p.paso_valido(j));
            if j < a.pc {
                assert(p.intento(e, t, j) || p.omitido(a.regs, j));
                if p.intento(e, t, j) {
                    lema_intento_prefijo(p, e, rs, j);
                }
            }
        }
        assert forall|q: int| #[trigger] abre_en(p, q) && s.pc > q implies s.regs.metadatos_abierta
            == 1 by {
            if a.pc != q {
                lema_registro(p, a, r, Registro::MetadatosAbierta);
            }
        }
        assert forall|j: int| p.al_fallar <= j < p.cierre implies !#[trigger] p.intento(
            e,
            rs,
            j,
        ) by {
            if p.intento(e, rs, j) {
                let i = choose|i: int|
                    0 <= i <= rs.len() && {
                        let u = #[trigger] p.correr(e, rs.take(i));
                        u.pc == j && u.fase == Fase::Ejecuta
                    };
                if i == rs.len() {
                    assert(rs.take(i) =~= rs);
                } else {
                    assert(rs.take(i) =~= t.take(i));
                    let u = p.correr(e, t.take(i));
                    assert(p.intento(e, t, j));
                }
            }
        }
        if documento_en(p, k) && s.pc > k {
            if a.pc == k {
                assert(rs.take(t.len() as int) =~= t);
                let u = p.correr(e, rs.take(t.len() as int));
                assert(u == a);
                assert(rs[t.len() as int] == r);
            } else {
                lema_registro(p, a, r, Registro::Documento);
                let i = choose|i: int|
                    0 <= i < t.len() && {
                        let u = #[trigger] p.correr(e, t.take(i));
                        u.pc == k && u.fase == Fase::Ejecuta && t[i] == (RespuestaV::Entero {
                            rc: 0,
                            valor: a.regs.documento,
                        })
                    };
                assert(t.take(i) =~= rs.take(i));
                let u = p.correr(e, rs.take(i));
                assert(rs[i] == t[i]);
            }
        }
    }
}

/// El éxito no deja nada sin hacer: si un guion lineal termina sin falla,
/// intentó todos los pasos del preludio, del cuerpo y del cierre (menos los de
/// conexiones que no se abrieron), y ninguno del tramo de falla; y si pide el identificador de un documento en un solo
/// paso, su resultado es el que ese paso recibió.
pub proof fn ley_exito(p: Programa, memoria: MicrosipState, rs: Seq<RespuestaV>, k: int)
    requires
        p.valido(),
        p.cierre_posible(),
        recto(p),
        p.al_fallar > 0,
        p.corresponden(p.inicio(memoria), rs),
        p.correr(p.inicio(memoria), rs).fase == Fase::Fin,
        p.correr(p.inicio(memoria), rs).falla is None,
    ensures
        ({
            let e = p.inicio(memoria);
            let s = p.correr(e, rs);
            &&& forall|j: int|
                0 <= j < p.pasos.len() && !(p.al_fallar <= j < p.cierre) ==> #[trigger] p.intento(
                    e,
                    rs,
                    j,
                ) || p.omitido(s.regs, j)
            &&& forall|j: int| p.al_fallar <= j < p.cierre ==> !#[trigger] p.intento(e, rs, j)
            &&& forall|q: int| #[trigger] abre_en(p, q) ==> s.regs.metadatos_abierta == 1
            &&& documento_en(p, k) ==> recibio_documento(p, e, rs, k, s.regs.documento)
        }),
{
    let e = p.inicio(memoria);
    ley_inicio_coherente(p, memoria);
    lema_inicio(p, memoria);
    lema_recorrido(p, e, rs, k);
    ley_correr_coherente(p, e, rs);
    lema_fin(p, e, rs);
}

pub(crate) proof fn lema_inicio(p: Programa, memoria: MicrosipState)
    requires
        p.valido(),
        p.cierre_posible(),
        p.al_fallar > 0,
    ensures
        !(p.inicio(memoria).fase is Mensaje),
        p.inicio(memoria).falla is None ==> p.inicio(memoria).pc == 0 && p.inicio(memoria).fase
            == Fase::Ejecuta,
        p.cuerpo > 0 ==> p.inicio(memoria).pc == 0,
{
    let regs = match memoria.pl_handle {
        Some(h) => crate::microsip::nativo::Registros::en_cero().con_valor(Registro::Lista, h),
        None => crate::microsip::nativo::Registros::en_cero(),
    };
    let z = EstadoV {
        pc: 0,
        fase: Fase::Ejecuta,
        regs,
        memoria,
        falla: None,
        fila: crate::microsip::fila::FilaV::vacia(),
    };
    lema_entrar(p, z, 0);
}

/// Sin falla solo se termina al final del guion.
pub(crate) proof fn lema_fin(p: Programa, e: EstadoV, rs: Seq<RespuestaV>)
    requires
        p.valido(),
        p.cierre_posible(),
        p.coherente(e),
        p.corresponden(e, rs),
        e.falla is None ==> e.fase == Fase::Ejecuta,
    ensures
        ({
            let s = p.correr(e, rs);
            s.falla is None && s.fase == Fase::Fin ==> s.pc == p.pasos.len()
        }),
    decreases rs.len(),
{
    if rs.len() > 0 {
        let t = rs.drop_last();
        lema_fin(p, e, t);
        ley_correr_coherente(p, e, t);
        ley_recibir(p, p.correr(e, t), rs.last());
    }
}

// ---------------------------------------------------------------------
// Con falla
// ---------------------------------------------------------------------

/// Ya se había intentado algo que abortar.
pub open spec fn hubo_que_abortar(p: Programa, e: EstadoV, rs: Seq<RespuestaV>) -> bool {
    exists|k: int| p.aborta <= k < p.al_fallar && #[trigger] p.intento(e, rs, k)
}

/// Se falló con algo que abortar: se intentan el tramo de falla y el cierre.
spec fn cae_abortando(p: Programa, e: EstadoV, rs: Seq<RespuestaV>) -> bool {
    let s = p.correr(e, rs);
    &&& forall|k: int|
        p.al_fallar <= k < s.pc ==> #[trigger] p.intento(e, rs, k) || p.omitido(s.regs, k)
    &&& hubo_que_abortar(p, e, rs) || (p.aborta < p.al_fallar && error_de_paso(p.pasos[p.aborta])
        is Some)
}

/// Se falló sin nada que abortar: se intenta el cierre, y nada del tramo de
/// falla.
spec fn cae_sin_abortar(p: Programa, e: EstadoV, rs: Seq<RespuestaV>) -> bool {
    let s = p.correr(e, rs);
    &&& p.cuerpo < p.aborta
    &&& s.pc >= p.cierre
    &&& forall|k: int| p.aborta <= k < p.cierre ==> !#[trigger] p.intento(e, rs, k)
    &&& forall|k: int|
        p.cierre <= k < s.pc ==> #[trigger] p.intento(e, rs, k) || p.omitido(s.regs, k)
}

/// Lo que vale de una ejecución, falle o no, hasta el momento.
spec fn ordenada(p: Programa, e: EstadoV, rs: Seq<RespuestaV>) -> bool {
    let s = p.correr(e, rs);
    &&& s.fase is Mensaje ==> p.intento(e, rs, s.pc)
    &&& s.pc < p.cuerpo ==> forall|k: int| p.cuerpo <= k ==> !#[trigger] p.intento(e, rs, k)
    &&& s.pc < p.aborta ==> forall|k: int| p.aborta <= k ==> !#[trigger] p.intento(e, rs, k)
    &&& s.falla is Some && s.pc >= p.cuerpo ==> s.pc >= p.al_fallar && (cae_abortando(p, e, rs)
        || cae_sin_abortar(p, e, rs))
    &&& s.fase == Fase::Fin && s.pc >= p.cuerpo ==> s.pc == p.pasos.len()
}

/// Lo intentado es lo de antes más el paso pendiente.
proof fn lema_intento_parte(p: Programa, e: EstadoV, rs: Seq<RespuestaV>, k: int)
    requires
        p.intento(e, rs, k),
    ensures
        (p.correr(e, rs).pc == k && p.correr(e, rs).fase == Fase::Ejecuta) || (rs.len() > 0
            && p.intento(e, rs.drop_last(), k)),
{
    let i = choose|i: int|
        0 <= i <= rs.len() && {
            let u = #[trigger] p.correr(e, rs.take(i));
            u.pc == k && u.fase == Fase::Ejecuta
        };
    if i == rs.len() {
        assert(rs.take(i) =~= rs);
    } else {
        let t = rs.drop_last();
        assert(rs.take(i) =~= t.take(i));
        let u = p.correr(e, t.take(i));
    }
}

/// Lo que se había intentado de un tramo, con el paso pendiente, sigue
/// intentado.
proof fn lema_tramo_intentado(p: Programa, e: EstadoV, rs: Seq<RespuestaV>, desde: int)
    requires
        rs.len() > 0,
        p.correr(e, rs).regs == p.correr(e, rs.drop_last()).regs,
        p.valido(),
        0 <= desde <= p.correr(e, rs.drop_last()).pc < p.pasos.len(),
        p.intento(e, rs.drop_last(), p.correr(e, rs.drop_last()).pc),
        p.correr(e, rs).pc == p.correr(e, rs.drop_last()).pc || p.correr(e, rs).pc == p.saltar(
            p.correr(e, rs).regs,
            p.correr(e, rs.drop_last()).pc + 1,
        ),
        forall|k: int|
            desde <= k < p.correr(e, rs.drop_last()).pc ==> #[trigger] p.intento(
                e,
                rs.drop_last(),
                k,
            ) || p.omitido(p.correr(e, rs.drop_last()).regs, k),
    ensures
        forall|k: int|
            desde <= k < p.correr(e, rs).pc ==> #[trigger] p.intento(e, rs, k) || p.omitido(
                p.correr(e, rs).regs,
                k,
            ),
{
    let t = rs.drop_last();
    let a = p.correr(e, t);
    let s = p.correr(e, rs);
    lema_saltar(p, s.regs, a.pc + 1);
    lema_intento_prefijo(p, e, rs, a.pc);
    assert forall|k: int| desde <= k < s.pc implies #[trigger] p.intento(e, rs, k) || p.omitido(
        s.regs,
        k,
    ) by {
        if k < a.pc {
            assert(p.intento(e, t, k) || p.omitido(a.regs, k));
            if p.intento(e, t, k) {
                lema_intento_prefijo(p, e, rs, k);
            }
        }
    }
}

proof fn lema_ordenada(p: Programa, e: EstadoV, rs: Seq<RespuestaV>)
    requires
        p.valido(),
        p.cierre_posible(),
        sin_estrictos(p),
        p.coherente(e),
        p.corresponden(e, rs),
        !(e.fase is Mensaje),
        e.pc == 0 < p.cuerpo,
    ensures
        ordenada(p, e, rs),
    decreases rs.len(),
{
    let s = p.correr(e, rs);
    if rs.len() == 0 {
        assert forall|k: int| p.cuerpo <= k implies !#[trigger] p.intento(e, rs, k) by {
            if p.intento(e, rs, k) {
                lema_intento_parte(p, e, rs, k);
            }
        }
    } else {
        let t = rs.drop_last();
        let a = p.correr(e, t);
        let r = rs.last();
        lema_ordenada(p, e, t);
        ley_correr_coherente(p, e, t);
        ley_recibir(p, a, r);
        assert(a.fase != Fase::Fin);
        assert(!p.es_estricto(a.pc));
        if a.fase == Fase::Ejecuta {
            lema_intento_ahora(p, e, t);
        }
        assert(p.intento(e, t, a.pc));
        lema_intento_prefijo(p, e, rs, a.pc);
        lema_saltar(p, s.regs, p.cierre);
        lema_saltar(p, s.regs, p.al_fallar);
        lema_saltar(p, s.regs, a.pc + 1);
        assert forall|k: int| #[trigger] p.intento(e, rs, k) implies p.intento(e, t, k) || (s.pc
            == k && s.fase == Fase::Ejecuta) by {
            lema_intento_parte(p, e, rs, k);
        }
        if s.falla is Some && s.pc >= p.cuerpo {
            if a.pc >= p.al_fallar {
                if hubo_que_abortar(p, e, t) {
                    let k = choose|k: int|
                        p.aborta <= k < p.al_fallar && #[trigger] p.intento(e, t, k);
                    lema_intento_prefijo(p, e, rs, k);
                }
                if cae_abortando(p, e, t) {
                    lema_tramo_intentado(p, e, rs, p.al_fallar);
                } else {
                    lema_tramo_intentado(p, e, rs, p.cierre);
                }
            } else if a.pc >= p.aborta {
                assert(p.intento(e, rs, a.pc));
                assert(hubo_que_abortar(p, e, rs));
            }
        }
    }
}

/// Nada queda a medias. Si un guion falla antes de entrar al cuerpo, no intentó
/// ningún paso de él ni de lo que sigue. Si falla después, intentó todos los
/// pasos del cierre, menos los de conexiones que no se abrieron; y los del
/// tramo de falla, todos si ya había intentado algo que abortar y ninguno si
/// no.
pub proof fn ley_falla(p: Programa, memoria: MicrosipState, rs: Seq<RespuestaV>)
    requires
        p.valido(),
        p.cierre_posible(),
        sin_estrictos(p),
        p.cuerpo > 0,
        p.corresponden(p.inicio(memoria), rs),
        p.correr(p.inicio(memoria), rs).fase == Fase::Fin,
        p.correr(p.inicio(memoria), rs).falla is Some,
    ensures
        ({
            let e = p.inicio(memoria);
            let s = p.correr(e, rs);
            &&& s.pc < p.cuerpo ==> forall|k: int|
                p.cuerpo <= k < p.pasos.len() ==> !#[trigger] p.intento(e, rs, k)
            &&& s.pc >= p.cuerpo ==> forall|k: int|
                p.cierre <= k < p.pasos.len() ==> #[trigger] p.intento(e, rs, k) || p.omitido(
                    s.regs,
                    k,
                )
            &&& s.pc >= p.cuerpo && (hubo_que_abortar(p, e, rs) || p.aborta == p.cuerpo)
                ==> forall|k: int|
                p.al_fallar <= k < p.cierre ==> #[trigger] p.intento(e, rs, k)
            &&& !hubo_que_abortar(p, e, rs) && (p.aborta < p.al_fallar ==> error_de_paso(
                p.pasos[p.aborta],
            ) is None) ==> forall|k: int|
                p.al_fallar <= k < p.cierre ==> !#[trigger] p.intento(e, rs, k)
        }),
{
    let e = p.inicio(memoria);
    let s = p.correr(e, rs);
    ley_inicio_coherente(p, memoria);
    lema_inicio(p, memoria);
    lema_ordenada(p, e, rs);
    assert forall|k: int| p.al_fallar <= k < p.cierre implies !p.omitido(s.regs, k) by {
        assert(p.paso_valido(k));
    }
    if s.pc >= p.cuerpo && hubo_que_abortar(p, e, rs) {
        let k = choose|k: int| p.aborta <= k < p.al_fallar && #[trigger] p.intento(e, rs, k);
        assert(!cae_sin_abortar(p, e, rs));
    }
    if s.pc >= p.cuerpo && (hubo_que_abortar(p, e, rs) || p.aborta == p.cuerpo) {
        assert(cae_abortando(p, e, rs));
        assert forall|k: int| p.al_fallar <= k < p.cierre implies #[trigger] p.intento(
            e,
            rs,
            k,
        ) by {
            assert(!p.omitido(s.regs, k));
        }
    }
}

// ---------------------------------------------------------------------
// Lo que el proceso recuerda
// ---------------------------------------------------------------------

/// Un chequeo hecho no se olvida, y sin un paso que cree la lista de
/// parámetros la del proceso no cambia.
pub proof fn ley_memoria(p: Programa, e: EstadoV, rs: Seq<RespuestaV>)
    requires
        p.valido(),
        p.cierre_posible(),
        p.coherente(e),
        p.corresponden(e, rs),
    ensures
        e.memoria.compatibilidad_ventas_checada ==> p.correr(
            e,
            rs,
        ).memoria.compatibilidad_ventas_checada,
        e.memoria.compatibilidad_cxc_checada ==> p.correr(
            e,
            rs,
        ).memoria.compatibilidad_cxc_checada,
        (forall|k: int| 0 <= k < p.pasos.len() ==> !crea_lista(#[trigger] p.pasos[k])) ==> p.correr(
            e,
            rs,
        ).memoria.pl_handle == e.memoria.pl_handle,
    decreases rs.len(),
{
    if rs.len() > 0 {
        let t = rs.drop_last();
        ley_memoria(p, e, t);
        ley_correr_coherente(p, e, t);
        let a = p.correr(e, t);
        ley_recibir(p, a, rs.last());
        assert(a.fase != Fase::Fin);
        if forall|k: int| 0 <= k < p.pasos.len() ==> !crea_lista(#[trigger] p.pasos[k]) {
            assert(!crea_lista(p.pasos[a.pc]));
        }
    }
}

/// Un chequeo solo se da por hecho cuando salió bien: el de Ventas, con el
/// código diferido en cero; el de Cxc, con la respuesta cero de su paso.
pub proof fn ley_chequeo_con_exito(p: Programa, e: EstadoV, r: RespuestaV)
    requires
        p.valido(),
        p.cierre_posible(),
        p.coherente(e),
        p.corresponde(e, r),
    ensures
        !e.memoria.compatibilidad_ventas_checada && p.recibir(
            e,
            r,
        ).memoria.compatibilidad_ventas_checada ==> e.regs.compatibilidad == 0 && (p.pasos[e.pc]
            matches PasoV::Llama { regla: Regla::DesconectaYVerifica, .. }),
        !e.memoria.compatibilidad_cxc_checada && p.recibir(
            e,
            r,
        ).memoria.compatibilidad_cxc_checada ==> r == RespuestaV::Codigo(0) && (p.pasos[e.pc]
            matches PasoV::Llama { regla: Regla::CompatibleCxc, .. }),
{
    reveal(Programa::recibir);
    assert(p.paso_valido(e.pc));
    assert forall|f: EstadoV, d: int|
        (#[trigger] p.entrar(f, d)).memoria == f.memoria by {
        lema_entrar_conserva(p, f, d);
    }
}

} // verus!
