//! Lo que vale, respuesta a respuesta, de una ejecución.

use vstd::prelude::*;

use crate::microsip::exito::{escribe, lema_registro};
use crate::microsip::guiones::{de_cierre, lineal, recto};
use crate::microsip::leyes::{lema_corresponden_prefijo, ley_correr_coherente, ley_recibir};
use crate::microsip::maquina::{error_de_paso, EstadoV, Fase, Programa};
use crate::microsip::nativo::{AccionV, PasoV, Registro, RespuestaV};

verus! {

impl Programa {
    /// El estado después de las primeras `i` respuestas.
    pub open spec fn en(self, e: EstadoV, rs: Seq<RespuestaV>, i: int) -> EstadoV {
        self.correr(e, rs.take(i))
    }

    /// La respuesta `i` fue a una llamada a esa función.
    pub open spec fn invoca(
        self,
        e: EstadoV,
        rs: Seq<RespuestaV>,
        i: int,
        funcion: Seq<char>,
    ) -> bool {
        &&& 0 <= i < rs.len()
        &&& self.accion(self.en(e, rs, i)) matches AccionV::Llamar { funcion: f, .. } && f
            == funcion
    }

    /// Una llamada a esa función respondió ese código.
    pub open spec fn respondio(
        self,
        e: EstadoV,
        rs: Seq<RespuestaV>,
        funcion: Seq<char>,
        codigo: i32,
    ) -> bool {
        exists|i: int|
            #[trigger] self.invoca(e, rs, i, funcion) && rs[i] == RespuestaV::Codigo(codigo)
    }

    /// Algún paso llama a esa función.
    pub open spec fn llama_a(self, funcion: Seq<char>) -> bool {
        exists|k: int| 0 <= k < self.pasos.len() && es_llamada(#[trigger] self.pasos[k], funcion)
    }
}

/// El paso es una llamada a esa función.
pub open spec fn es_llamada(p: PasoV, funcion: Seq<char>) -> bool {
    p matches PasoV::Llama { funcion: f, .. } && f == funcion
}

/// Cada respuesta lleva de un estado al siguiente.
pub(crate) proof fn lema_en(p: Programa, e: EstadoV, rs: Seq<RespuestaV>, i: int)
    requires
        p.valido(),
        p.cierre_posible(),
        p.coherente(e),
        p.corresponden(e, rs),
        0 <= i < rs.len(),
    ensures
        p.en(e, rs, i + 1) == p.recibir(p.en(e, rs, i), rs[i]),
        p.corresponde(p.en(e, rs, i), rs[i]),
        p.coherente(p.en(e, rs, i)),
        p.coherente(p.en(e, rs, i + 1)),
        p.en(e, rs, i).fase != Fase::Fin,
        p.en(e, rs, i).pc < p.pasos.len(),
{
    lema_corresponden_prefijo(p, e, rs, i);
    lema_corresponden_prefijo(p, e, rs, i + 1);
    assert(rs.take(i + 1).drop_last() =~= rs.take(i));
    assert(rs.take(i + 1).last() == rs[i]);
    ley_correr_coherente(p, e, rs.take(i));
    ley_correr_coherente(p, e, rs.take(i + 1));
}

/// El primer y el último estado.
pub(crate) proof fn lema_extremos(p: Programa, e: EstadoV, rs: Seq<RespuestaV>)
    ensures
        p.en(e, rs, 0) == e,
        p.en(e, rs, rs.len() as int) == p.correr(e, rs),
{
    assert(rs.take(0) =~= seq![]);
    assert(rs.take(rs.len() as int) =~= rs);
}

pub(crate) proof fn lema_entrar_crece(p: Programa, e: EstadoV, pc: int)
    requires
        p.valido(),
        0 <= pc <= p.pasos.len(),
    ensures
        p.entrar(e, pc).pc >= pc,
    decreases p.pasos.len() - pc,
{
    if pc < p.pasos.len() {
        if p.omitido(e.regs, pc) {
            lema_entrar_crece(p, e, pc + 1);
        } else if let Some(err) = error_de_paso(p.pasos[pc]) {
            if p.cuerpo <= pc {
                let f = EstadoV { falla: p.falla_tras(e.falla, pc, err), ..e };
                lema_entrar_crece(p, f, p.destino_falla(pc));
            }
        }
    }
}

/// En un guion recto el paso pendiente nunca retrocede, y al pasar a otro
/// avanza.
pub(crate) proof fn lema_crece(p: Programa, e: EstadoV, r: RespuestaV)
    requires
        p.valido(),
        p.cierre_posible(),
        recto(p),
        p.coherente(e),
        p.corresponde(e, r),
    ensures
        p.recibir(e, r).pc >= e.pc,
        p.recibir(e, r).fase == Fase::Ejecuta ==> p.recibir(e, r).pc > e.pc,
{
    reveal(Programa::recibir);
    ley_recibir(p, e, r);
    assert(p.paso_valido(e.pc));
    assert(lineal(p.pasos[e.pc]) || de_cierre(p.pasos[e.pc]));
    assert forall|f: EstadoV|
        f.pc == e.pc implies #[trigger] p.avanzar(f).pc > e.pc by {
        lema_entrar_crece(p, f, p.destino_exito(e.pc));
    }
    assert forall|err: crate::error::ErrorV|
        (#[trigger] p.fallar(e, err)).pc >= e.pc && (p.fallar(e, err).fase == Fase::Ejecuta
            ==> p.fallar(e, err).pc > e.pc) by {
        if e.pc >= p.cuerpo {
            let f = EstadoV { falla: p.falla_tras(e.falla, e.pc, err), ..e };
            lema_entrar_crece(p, f, p.destino_falla(e.pc));
        }
    }
}

/// Entre dos respuestas el paso pendiente no retrocede, y dos pasos que se
/// intentan en momentos distintos son distintos.
pub(crate) proof fn lema_crecen(p: Programa, e: EstadoV, rs: Seq<RespuestaV>, i: int, j: int)
    requires
        p.valido(),
        p.cierre_posible(),
        recto(p),
        p.coherente(e),
        p.corresponden(e, rs),
        0 <= i <= j <= rs.len(),
    ensures
        p.en(e, rs, i).pc <= p.en(e, rs, j).pc,
        i < j && p.en(e, rs, j).fase == Fase::Ejecuta ==> p.en(e, rs, i).pc < p.en(e, rs, j).pc,
    decreases j - i,
{
    if i < j {
        lema_crecen(p, e, rs, i, j - 1);
        lema_en(p, e, rs, j - 1);
        lema_crece(p, p.en(e, rs, j - 1), rs[j - 1]);
    }
}

/// Un registro que ningún paso escribe desde `desde` no cambia después.
pub(crate) proof fn lema_registro_estable(
    p: Programa,
    e: EstadoV,
    rs: Seq<RespuestaV>,
    i: int,
    j: int,
    reg: Registro,
)
    requires
        p.valido(),
        p.cierre_posible(),
        recto(p),
        p.coherente(e),
        p.corresponden(e, rs),
        0 <= i <= j <= rs.len(),
        forall|k: int|
            p.en(e, rs, i).pc <= k < p.pasos.len() ==> !escribe(#[trigger] p.pasos[k], reg),
    ensures
        p.en(e, rs, j).regs.valor(reg) == p.en(e, rs, i).regs.valor(reg),
    decreases j - i,
{
    if i < j {
        lema_registro_estable(p, e, rs, i, j - 1, reg);
        lema_crecen(p, e, rs, i, j - 1);
        lema_en(p, e, rs, j - 1);
        let a = p.en(e, rs, j - 1);
        assert(!escribe(p.pasos[a.pc], reg));
        lema_registro(p, a, rs[j - 1], reg);
    }
}

/// Un paso intentado tiene su momento.
pub(crate) proof fn lema_momento(p: Programa, e: EstadoV, rs: Seq<RespuestaV>, k: int) -> (i: int)
    requires
        p.intento(e, rs, k),
        p.correr(e, rs).fase != Fase::Ejecuta,
    ensures
        0 <= i < rs.len(),
        p.en(e, rs, i).pc == k,
        p.en(e, rs, i).fase == Fase::Ejecuta,
{
    let i = choose|i: int|
        0 <= i <= rs.len() && {
            let s = #[trigger] p.correr(e, rs.take(i));
            s.pc == k && s.fase == Fase::Ejecuta
        };
    lema_extremos(p, e, rs);
    i
}

} // verus!
