//! Lo que vale de una sucesión de altas sobre la misma biblioteca.

use vstd::prelude::*;
use vstd::utf8::*;

use crate::cadena::windows_1252;
use crate::error::ErrorV;
use crate::microsip::conexiones::{lema_accion_cierre, lema_tras_chequeo};
use crate::microsip::corridas::{
    es_llamada, lema_crece, lema_crecen, lema_en, lema_entrar_crece, lema_extremos, lema_momento,
};
use crate::microsip::exito::{
    escribe, lema_entrar_conserva, lema_falla_queda, lema_fallar_limpio, lema_inicio, lema_paso, lema_recorrido,
    lema_registro, ley_chequeo_con_exito, siguiente,
};
use crate::microsip::fila::FilaV;
use crate::microsip::guiones::credito::{
    lema_credito_llamadas, ley_credito_exito, ley_credito_una_vez, ley_credito_valido,
    paso_lista as paso_lista_credito, paso_modulo, programa_credito,
};
use crate::microsip::guiones::factura::{
    lema_factura_lineal, lema_factura_llamadas, ley_factura_una_vez, ley_factura_valida,
    paso_lista, paso_metadatos, programa_factura,
};
use crate::microsip::guiones::{
    crea_lista, de_cierre, lineal, llenar_lista, operando_lista, recto, Base,
};
use crate::microsip::leyes::{
    lema_corresponden_prefijo, lema_entrar, lema_saltar, ley_inicio_coherente, ley_primera_falla, ley_recibir,
};
use crate::microsip::maquina::{argumentos, error_nativo, EstadoV, Fase, MicrosipState, Programa};
use crate::microsip::nativo::{
    AccionV, ArgumentoV, Modulo, OperandoV, PasoV, Registro, Registros, Regla, RespuestaV,
};
use crate::microsip::params::{CreditoParams, FacturaParams};

verus! {

// ---------------------------------------------------------------------
// Dentro de un alta
// ---------------------------------------------------------------------

/// Los pasos que llaman a `ChecaCompatibilidadCxc` y a `NewPL` son los que
/// anotan su resultado, y la lista no se toca de otro modo.
spec fn notas_fieles(p: Programa) -> bool {
    forall|k: int|
        0 <= k < p.pasos.len() ==> {
            let paso = #[trigger] p.pasos[k];
            &&& es_llamada(paso, "ChecaCompatibilidadCxc"@) <==> (paso matches PasoV::Llama {
                regla: Regla::CompatibleCxc,
                ..
            })
            &&& es_llamada(paso, "NewPL"@) <==> crea_lista(paso)
            &&& escribe(paso, Registro::Lista) ==> crea_lista(paso)
        }
}

/// Lo que el proceso recuerda de `ChecaCompatibilidadCxc` es si respondió 0.
proof fn lema_nota_cxc(p: Programa, e: EstadoV, rs: Seq<RespuestaV>, n: int)
    requires
        p.valido(),
        p.cierre_posible(),
        notas_fieles(p),
        p.coherente(e),
        p.corresponden(e, rs),
        0 <= n <= rs.len(),
    ensures
        p.en(e, rs, n).memoria.compatibilidad_cxc_checada <==> (
        e.memoria.compatibilidad_cxc_checada || exists|i: int|
            i < n && #[trigger] p.invoca(e, rs, i, "ChecaCompatibilidadCxc"@) && rs[i]
                == RespuestaV::Codigo(0)),
    decreases n,
{
    lema_extremos(p, e, rs);
    if n > 0 {
        let i = n - 1;
        lema_nota_cxc(p, e, rs, i);
        lema_en(p, e, rs, i);
        let a = p.en(e, rs, i);
        let b = p.en(e, rs, n);
        ley_recibir(p, a, rs[i]);
        ley_chequeo_con_exito(p, a, rs[i]);
        if b.memoria.compatibilidad_cxc_checada && !a.memoria.compatibilidad_cxc_checada {
            assert(es_llamada(p.pasos[a.pc], "ChecaCompatibilidadCxc"@));
            assert(a.fase == Fase::Ejecuta);
            assert(p.invoca(e, rs, i, "ChecaCompatibilidadCxc"@));
        }
        if p.invoca(e, rs, i, "ChecaCompatibilidadCxc"@) && rs[i] == RespuestaV::Codigo(0) {
            reveal(Programa::recibir);
            assert forall|f: EstadoV, d: int|
                (#[trigger] p.entrar(f, d)).memoria == f.memoria by {
                lema_entrar_conserva(p, f, d);
            }
            assert(es_llamada(p.pasos[a.pc], "ChecaCompatibilidadCxc"@));
            assert(b.memoria.compatibilidad_cxc_checada);
        }
        if a.memoria.compatibilidad_cxc_checada && !e.memoria.compatibilidad_cxc_checada {
            let q = choose|q: int|
                q < i && #[trigger] p.invoca(e, rs, q, "ChecaCompatibilidadCxc"@) && rs[q]
                    == RespuestaV::Codigo(0);
            assert(p.invoca(e, rs, q, "ChecaCompatibilidadCxc"@));
        }
    }
}

/// Una llamada a `NewPL` entregó la lista `h` antes de la respuesta `n`.
spec fn lista_creada(p: Programa, e: EstadoV, rs: Seq<RespuestaV>, n: int, h: i32) -> bool {
    h > 0 && exists|i: int|
        i < n && #[trigger] p.invoca(e, rs, i, "NewPL"@) && rs[i] == RespuestaV::Codigo(h)
}

/// La lista que el proceso recuerda es la que está en el registro.
pub open spec fn lista_al_dia(s: EstadoV) -> bool {
    s.memoria.pl_handle matches Some(h) ==> s.regs.lista == h && h > 0
}

proof fn lema_nota_lista(p: Programa, e: EstadoV, rs: Seq<RespuestaV>, n: int)
    requires
        p.valido(),
        p.cierre_posible(),
        recto(p),
        notas_fieles(p),
        p.coherente(e),
        p.corresponden(e, rs),
        0 <= n <= rs.len(),
        lista_al_dia(e),
    ensures
        lista_al_dia(p.en(e, rs, n)),
        forall|h: i32|
            p.en(e, rs, n).memoria.pl_handle == Some(h) && e.memoria.pl_handle != Some(h)
                ==> #[trigger] lista_creada(p, e, rs, n, h),
    decreases n,
{
    lema_extremos(p, e, rs);
    if n > 0 {
        let i = n - 1;
        lema_nota_lista(p, e, rs, i);
        lema_en(p, e, rs, i);
        let a = p.en(e, rs, i);
        let b = p.en(e, rs, n);
        ley_recibir(p, a, rs[i]);
        assert(p.paso_valido(a.pc));
        if crea_lista(p.pasos[a.pc]) {
            reveal(Programa::recibir);
            assert forall|f: EstadoV, d: int|
                (#[trigger] p.entrar(f, d)).memoria == f.memoria && p.entrar(f, d).regs
                    == f.regs by {
                lema_entrar_conserva(p, f, d);
            }
            assert(es_llamada(p.pasos[a.pc], "NewPL"@));
            if b.memoria.pl_handle != a.memoria.pl_handle {
                assert(p.invoca(e, rs, i, "NewPL"@));
            }
        } else {
            lema_registro(p, a, rs[i], Registro::Lista);
        }
        assert forall|h: i32|
            b.memoria.pl_handle == Some(h) && e.memoria.pl_handle
                != Some(h) implies #[trigger] lista_creada(p, e, rs, n, h) by {
            if a.memoria.pl_handle == Some(h) {
                assert(lista_creada(p, e, rs, i, h));
                let q = choose|q: int|
                    q < i && #[trigger] p.invoca(e, rs, q, "NewPL"@) && rs[q]
                        == RespuestaV::Codigo(h);
                assert(p.invoca(e, rs, q, "NewPL"@));
            } else {
                assert(p.invoca(e, rs, i, "NewPL"@) && rs[i] == RespuestaV::Codigo(h));
            }
        }
    }
}

/// Recibida la lista, es la del proceso hasta el final del alta.
proof fn lema_lista_queda(p: Programa, e: EstadoV, rs: Seq<RespuestaV>, i: int, n: int, h: i32)
    requires
        p.valido(),
        p.cierre_posible(),
        recto(p),
        notas_fieles(p),
        p.coherente(e),
        p.corresponden(e, rs),
        0 <= i < n <= rs.len(),
        h > 0,
        p.invoca(e, rs, i, "NewPL"@),
        rs[i] == RespuestaV::Codigo(h),
        forall|k: int, q: int|
            0 <= k < p.pasos.len() && 0 <= q < p.pasos.len() && crea_lista(#[trigger] p.pasos[k])
                && crea_lista(#[trigger] p.pasos[q]) ==> k == q,
    ensures
        p.en(e, rs, n).memoria.pl_handle == Some(h),
    decreases n,
{
    lema_en(p, e, rs, n - 1);
    let a = p.en(e, rs, n - 1);
    ley_recibir(p, a, rs[n - 1]);
    assert(p.paso_valido(a.pc));
    if n - 1 == i {
        reveal(Programa::recibir);
        assert forall|f: EstadoV, d: int| (#[trigger] p.entrar(f, d)).memoria == f.memoria by {
            lema_entrar_conserva(p, f, d);
        }
        assert(es_llamada(p.pasos[a.pc], "NewPL"@));
        assert(crea_lista(p.pasos[a.pc]));
    } else {
        lema_lista_queda(p, e, rs, i, n - 1, h);
        lema_en(p, e, rs, i);
        let u = p.en(e, rs, i);
        assert(crea_lista(p.pasos[u.pc]));
        lema_avanza_lista(p, u, h);
        lema_crecen(p, e, rs, i + 1, n - 1);
        assert(a.pc > u.pc);
    }
}

proof fn lema_avanza_lista(p: Programa, u: EstadoV, h: i32)
    requires
        p.valido(),
        p.cierre_posible(),
        recto(p),
        p.coherente(u),
        u.fase == Fase::Ejecuta,
        crea_lista(p.pasos[u.pc]),
        h > 0,
    ensures
        p.recibir(u, RespuestaV::Codigo(h)).pc > u.pc,
{
    reveal(Programa::recibir);
    ley_recibir(p, u, RespuestaV::Codigo(h));
    lema_crece(p, u, RespuestaV::Codigo(h));
    assert(p.paso_valido(u.pc));
    let m = p.pasos[u.pc]->regla->ListaNueva_0;
    let f = EstadoV {
        regs: u.regs.con_valor(Registro::Lista, h),
        memoria: MicrosipState { pl_handle: Some(h), ..u.memoria },
        ..u
    };
    lema_entrar_crece(p, f, p.destino_exito(u.pc));
    assert(p.recibir(u, RespuestaV::Codigo(h)) == p.avanzar(f));
}

/// Lo que sigue a la respuesta de `ChecaCompatibilidadVentas` en un alta que
/// termina.
proof fn lema_chequeo_ventas(
    memoria: MicrosipState,
    db_path: Seq<char>,
    usuario: Seq<char>,
    password: Seq<char>,
    metadatos: Option<Seq<char>>,
    reglas: (i32, i32),
    p: FacturaParams,
    rs: Seq<RespuestaV>,
    i: int,
    rc: i32,
)
    requires
        ({
            let pr = programa_factura(memoria, db_path, usuario, password, metadatos, reglas, p);
            let e = pr.inicio(memoria);
            &&& pr.corresponden(e, rs)
            &&& pr.correr(e, rs).fase == Fase::Fin
            &&& pr.invoca(e, rs, i, "ChecaCompatibilidadVentas"@)
            &&& rs[i] == RespuestaV::Codigo(rc)
        }),
    ensures
        ({
            let pr = programa_factura(memoria, db_path, usuario, password, metadatos, reglas, p);
            let e = pr.inicio(memoria);
            let s = pr.correr(e, rs);
            &&& pr.cerro(e, rs, i + 1, pr.en(e, rs, i).regs.metadatos_db)
            &&& rc == 0 ==> s.memoria.compatibilidad_ventas_checada
            &&& rc != 0 ==> (s.falla matches Some(ErrorV::Provider { code, .. }) && code == rc)
        }),
{
    let pr = programa_factura(memoria, db_path, usuario, password, metadatos, reglas, p);
    let e = pr.inicio(memoria);
    let s = pr.correr(e, rs);
    ley_factura_valida(memoria, db_path, usuario, password, metadatos, reglas, p);
    ley_inicio_coherente(pr, memoria);
    lema_extremos(pr, e, rs);
    lema_tras_chequeo(memoria, db_path, usuario, password, metadatos, reglas, p, rs, i);
    let b = pr.en(e, rs, i + 1);
    assert(i + 1 < rs.len());
    lema_accion_cierre(pr, b, Base::Metadatos, Regla::DesconectaYVerifica);
    lema_en(pr, e, rs, i + 1);
    lema_factura_llamadas(memoria, db_path, usuario, password, metadatos, reglas, p, b.pc);
    let c = pr.en(e, rs, i + 2);
    assert forall|f: EstadoV, d: int| (#[trigger] pr.entrar(f, d)).memoria == f.memoria by {
        lema_entrar_conserva(pr, f, d);
    }
    assert(b.pc < pr.al_fallar) by {
        assert(pr.paso_valido(b.pc));
    }
    lema_verifica(pr, b, rs[i + 1]);
    let v = if c.fase is Mensaje && c.fase->modulo == Modulo::Basica {
        i + 3
    } else {
        i + 2
    };
    if v == i + 3 {
        assert(i + 2 < rs.len());
        lema_en(pr, e, rs, i + 2);
        lema_verifica(pr, c, rs[i + 2]);
    }
    let w = pr.en(e, rs, v);
    if rc == 0 {
        assert(w.memoria.compatibilidad_ventas_checada);
        lema_no_olvida(pr, e, rs, v, rs.len() as int);
    } else {
        assert(w.fase == (Fase::Mensaje { modulo: Modulo::Ventas, codigo: rc }));
        assert(v < rs.len());
        lema_en(pr, e, rs, v);
        lema_verifica(pr, w, rs[v]);
        ley_primera_falla(pr, e, rs, v + 1);
    }
}

/// Qué da una respuesta en el paso que desconecta y verifica.
proof fn lema_verifica(p: Programa, e: EstadoV, r: RespuestaV)
    requires
        p.valido(),
        p.cierre_posible(),
        p.coherente(e),
        p.corresponde(e, r),
        p.aborta <= e.pc < p.al_fallar,
        p.pasos[e.pc] matches PasoV::Llama { regla: Regla::DesconectaYVerifica, .. },
    ensures
        ({
            let s = p.recibir(e, r);
            let rc = e.regs.compatibilidad;
            // Desconectar puede fallar sin que importe: primero se pide su mensaje.
            let basica = e.fase == Fase::Ejecuta && (r matches RespuestaV::Codigo(c) && c != 0);
            let juzga = (e.fase == Fase::Ejecuta && !basica) || (e.fase is Mensaje && e.fase->modulo
                == Modulo::Basica);
            &&& basica ==> s.fase is Mensaje && s.fase->modulo == Modulo::Basica && s.pc == e.pc
                && s.regs == e.regs && s.memoria == e.memoria
            &&& juzga && rc == 0 ==> s.memoria.compatibilidad_ventas_checada && !(s.fase is Mensaje)
            &&& juzga && rc != 0 ==> s.fase == (Fase::Mensaje {
                modulo: Modulo::Ventas,
                codigo: rc,
            }) && s.pc == e.pc && s.regs == e.regs && s.memoria == e.memoria
            &&& e.fase is Mensaje && e.fase->modulo != Modulo::Basica ==> (s.falla matches Some(
                ErrorV::Provider { code, .. },
            ) && code == e.fase->codigo)
        }),
{
    reveal(Programa::recibir);
    ley_recibir(p, e, r);
    assert forall|f: EstadoV, d: int|
        (#[trigger] p.entrar(f, d)).memoria == f.memoria && !(p.entrar(f, d).fase is Mensaje) by {
        lema_entrar_conserva(p, f, d);
    }
    if e.fase is Mensaje && e.fase->modulo != Modulo::Basica {
        let err = error_nativo(
            p.pasos[e.pc],
            e.fase->modulo,
            e.fase->codigo,
            r->Mensaje_0,
        );
        let f = EstadoV { falla: Some(err), ..e };
        lema_entrar(p, f, p.al_fallar);
        assert(p.recibir(e, r) == p.entrar(f, p.al_fallar));
    }
}

proof fn lema_no_olvida(p: Programa, e: EstadoV, rs: Seq<RespuestaV>, i: int, j: int)
    requires
        p.valido(),
        p.cierre_posible(),
        p.coherente(e),
        p.corresponden(e, rs),
        0 <= i <= j <= rs.len(),
        p.en(e, rs, i).memoria.compatibilidad_ventas_checada,
    ensures
        p.en(e, rs, j).memoria.compatibilidad_ventas_checada,
    decreases j - i,
{
    if i < j {
        lema_no_olvida(p, e, rs, i, j - 1);
        lema_en(p, e, rs, j - 1);
        ley_recibir(p, p.en(e, rs, j - 1), rs[j - 1]);
    }
}

/// Lo que el proceso recuerda de `ChecaCompatibilidadVentas` viene de una
/// respuesta 0.
proof fn lema_nota_ventas(
    memoria: MicrosipState,
    db_path: Seq<char>,
    usuario: Seq<char>,
    password: Seq<char>,
    metadatos: Option<Seq<char>>,
    reglas: (i32, i32),
    p: FacturaParams,
    rs: Seq<RespuestaV>,
    n: int,
)
    requires
        ({
            let pr = programa_factura(memoria, db_path, usuario, password, metadatos, reglas, p);
            pr.corresponden(pr.inicio(memoria), rs) && 0 <= n <= rs.len()
        }),
    ensures
        ({
            let pr = programa_factura(memoria, db_path, usuario, password, metadatos, reglas, p);
            let e = pr.inicio(memoria);
            let s = pr.en(e, rs, n);
            &&& s.pc == paso_metadatos(pr) + 2 && s.falla is None && metadatos is Some
                && !memoria.compatibilidad_ventas_checada ==> exists|i: int|
                i < n && #[trigger] pr.invoca(e, rs, i, "ChecaCompatibilidadVentas"@) && rs[i]
                    == RespuestaV::Codigo(s.regs.compatibilidad)
            &&& s.memoria.compatibilidad_ventas_checada && !memoria.compatibilidad_ventas_checada
                ==> exists|i: int|
                i < n && #[trigger] pr.invoca(e, rs, i, "ChecaCompatibilidadVentas"@) && rs[i]
                    == RespuestaV::Codigo(0)
        }),
    decreases n,
{
    let pr = programa_factura(memoria, db_path, usuario, password, metadatos, reglas, p);
    let e = pr.inicio(memoria);
    let s = pr.en(e, rs, n);
    let d = paso_metadatos(pr) + 2;
    let chequeo = "ChecaCompatibilidadVentas"@;
    ley_factura_valida(memoria, db_path, usuario, password, metadatos, reglas, p);
    lema_factura_lineal(memoria, db_path, usuario, password, metadatos, reglas, p);
    ley_inicio_coherente(pr, memoria);
    lema_extremos(pr, e, rs);
    lema_inicio(pr, memoria);
    if n > 0 {
        let i = n - 1;
        lema_nota_ventas(memoria, db_path, usuario, password, metadatos, reglas, p, rs, i);
        lema_en(pr, e, rs, i);
        let a = pr.en(e, rs, i);
        ley_recibir(pr, a, rs[i]);
        ley_chequeo_con_exito(pr, a, rs[i]);
        lema_factura_llamadas(memoria, db_path, usuario, password, metadatos, reglas, p, a.pc);
        if s.pc == d && s.falla is None && metadatos is Some
            && !memoria.compatibilidad_ventas_checada {
            if a.falla is Some {
                lema_falla_queda(pr, a, rs[i]);
            }
            lema_paso(pr, a, rs[i]);
            lema_saltar(pr, s.regs, siguiente(pr, a.pc));
            assert(pr.paso_valido(d));
            if a.pc == d {
                assert(s.regs.compatibilidad == a.regs.compatibilidad) by {
                    lema_registro(pr, a, rs[i], Registro::Compatibilidad);
                }
                let q = choose|q: int|
                    q < i && #[trigger] pr.invoca(e, rs, q, chequeo) && rs[q]
                        == RespuestaV::Codigo(a.regs.compatibilidad);
                assert(pr.invoca(e, rs, q, chequeo));
            } else {
                assert(a.pc == d - 1);
                lema_difiere(pr, a, rs[i]);
                assert(pr.invoca(e, rs, i, chequeo));
            }
        }
        if s.memoria.compatibilidad_ventas_checada && !memoria.compatibilidad_ventas_checada {
            if a.memoria.compatibilidad_ventas_checada {
                let q = choose|q: int|
                    q < i && #[trigger] pr.invoca(e, rs, q, chequeo) && rs[q]
                        == RespuestaV::Codigo(0);
                assert(pr.invoca(e, rs, q, chequeo));
            } else {
                assert(a.pc == d);
                assert(a.falla is None);
                let q = choose|q: int|
                    q < i && #[trigger] pr.invoca(e, rs, q, chequeo) && rs[q]
                        == RespuestaV::Codigo(a.regs.compatibilidad);
                assert(pr.invoca(e, rs, q, chequeo));
            }
        }
    }
}

proof fn lema_difiere(p: Programa, e: EstadoV, r: RespuestaV)
    requires
        p.valido(),
        p.cierre_posible(),
        p.coherente(e),
        p.corresponde(e, r),
        e.pc < p.al_fallar,
        e.falla is None,
        p.pasos[e.pc] matches PasoV::Llama { regla: Regla::Difiere, .. },
        p.recibir(e, r).falla is None,
    ensures
        e.fase == Fase::Ejecuta,
        r == RespuestaV::Codigo(p.recibir(e, r).regs.compatibilidad),
{
    reveal(Programa::recibir);
    assert forall|f: EstadoV, d: int| (#[trigger] p.entrar(f, d)).regs == f.regs by {
        lema_entrar_conserva(p, f, d);
    }
    assert forall|err: ErrorV| (#[trigger] p.fallar(e, err)).falla is None implies false by {
        lema_fallar_limpio(p, e, err);
    }
}

// ---------------------------------------------------------------------
// Una sucesión de altas
// ---------------------------------------------------------------------

/// A qué bases se conecta un alta, y con qué credencial.
pub struct AccesoV {
    pub db_path: Seq<char>,
    pub usuario: Seq<char>,
    pub password: Seq<char>,
    pub metadatos: Option<Seq<char>>,
}

/// Un alta sobre la biblioteca.
pub enum AltaV {
    Factura { acceso: AccesoV, reglas: (i32, i32), p: FacturaParams },
    Credito { acceso: AccesoV, p: CreditoParams },
}

/// Un alta con las respuestas que recibió.
pub struct LlamadaV {
    pub alta: AltaV,
    pub rs: Seq<RespuestaV>,
}

impl AltaV {
    pub open spec fn acceso(self) -> AccesoV {
        match self {
            AltaV::Factura { acceso, .. } => acceso,
            AltaV::Credito { acceso, .. } => acceso,
        }
    }

    pub open spec fn pares(self) -> Seq<(String, String)> {
        match self {
            AltaV::Factura { p, .. } => p.lista_parametros@,
            AltaV::Credito { p, .. } => p.lista_parametros@,
        }
    }

    /// La función que registra el encabezado.
    pub open spec fn encabezado(self) -> Seq<char> {
        match self {
            AltaV::Factura { .. } => "NuevaFactura"@,
            AltaV::Credito { .. } => "NuevoCreditoCc"@,
        }
    }

    /// El programa del alta, según lo que el proceso recuerda.
    #[verifier::opaque]
    pub open spec fn programa(self, memoria: MicrosipState) -> Programa {
        match self {
            AltaV::Factura { acceso, reglas, p } => programa_factura(
                memoria,
                acceso.db_path,
                acceso.usuario,
                acceso.password,
                acceso.metadatos,
                reglas,
                p,
            ),
            AltaV::Credito { acceso, p } => programa_credito(
                memoria,
                acceso.db_path,
                acceso.usuario,
                acceso.password,
                acceso.metadatos,
                p,
            ),
        }
    }
}

/// Lo que recuerda una biblioteca recién cargada (`MicrosipDll::nueva`).
pub open spec fn recien_cargada() -> MicrosipState {
    MicrosipState {
        compatibilidad_ventas_checada: false,
        compatibilidad_cxc_checada: false,
        pl_handle: None,
    }
}

/// Lo que recuerda la biblioteca tras una sucesión de altas: cada una empieza
/// con lo que dejó la anterior, como hacen `MicrosipDll::crear_factura`,
/// `MicrosipDll::crear_credito` y `MicrosipDll::terminar`.
pub open spec fn memoria_tras(s: Seq<LlamadaV>) -> MicrosipState
    decreases s.len(),
{
    if s.len() == 0 {
        recien_cargada()
    } else {
        let m = memoria_tras(s.drop_last());
        let p = s.last().alta.programa(m);
        p.correr(p.inicio(m), s.last().rs).memoria
    }
}

/// Lo que recuerda la biblioteca al empezar el alta `k`.
pub open spec fn memoria_en(s: Seq<LlamadaV>, k: int) -> MicrosipState {
    memoria_tras(s.take(k))
}

/// El programa del alta `k`.
pub open spec fn programa_en(s: Seq<LlamadaV>, k: int) -> Programa {
    s[k].alta.programa(memoria_en(s, k))
}

/// El estado en que empieza el alta `k`.
pub open spec fn inicio_en(s: Seq<LlamadaV>, k: int) -> EstadoV {
    programa_en(s, k).inicio(memoria_en(s, k))
}

/// El estado en que termina el alta `k`.
pub open spec fn final_en(s: Seq<LlamadaV>, k: int) -> EstadoV {
    programa_en(s, k).correr(inicio_en(s, k), s[k].rs)
}

/// El alta `k` recibió lo que pedía y terminó.
pub open spec fn termino(s: Seq<LlamadaV>, k: int) -> bool {
    programa_en(s, k).corresponden(inicio_en(s, k), s[k].rs) && final_en(s, k).fase == Fase::Fin
}

/// Una sucesión de altas sobre una biblioteca recién cargada, cada una
/// terminada antes de empezar la siguiente.
pub open spec fn sesion(s: Seq<LlamadaV>) -> bool {
    forall|k: int| 0 <= k < s.len() ==> #[trigger] termino(s, k)
}

/// En el alta `k` esa función respondió ese código.
pub open spec fn respondio_en(s: Seq<LlamadaV>, k: int, funcion: Seq<char>, codigo: i32) -> bool {
    programa_en(s, k).respondio(inicio_en(s, k), s[k].rs, funcion, codigo)
}

/// En el alta `k`, `NewPL` entregó la lista `h`.
pub open spec fn entrego_lista(s: Seq<LlamadaV>, k: int, h: i32) -> bool {
    h > 0 && respondio_en(s, k, "NewPL"@, h)
}

/// Un alta, por lo que deja recordado.
proof fn lema_alta(alta: AltaV, m: MicrosipState, rs: Seq<RespuestaV>)
    requires
        ({
            let p = alta.programa(m);
            let e = p.inicio(m);
            p.corresponden(e, rs) && p.correr(e, rs).fase == Fase::Fin
        }),
        m.pl_handle matches Some(h) ==> h > 0,
    ensures
        ({
            let p = alta.programa(m);
            let e = p.inicio(m);
            let f = p.correr(e, rs).memoria;
            &&& p.valido() && p.cierre_posible() && recto(p) && notas_fieles(p)
            &&& p.coherente(e) && lista_al_dia(e) && e.memoria == m && e.pc == 0
            &&& f.compatibilidad_ventas_checada <==> m.compatibilidad_ventas_checada || p.respondio(
                e,
                rs,
                "ChecaCompatibilidadVentas"@,
                0,
            )
            &&& f.compatibilidad_cxc_checada <==> m.compatibilidad_cxc_checada || p.respondio(
                e,
                rs,
                "ChecaCompatibilidadCxc"@,
                0,
            )
            &&& f.pl_handle matches Some(h) ==> h > 0
            &&& forall|h: i32|
                h > 0 && #[trigger] p.respondio(e, rs, "NewPL"@, h) ==> m.pl_handle is None
                    && f.pl_handle == Some(h)
            &&& forall|h: i32|
                f.pl_handle == Some(h) && m.pl_handle != Some(h) ==> #[trigger] p.respondio(
                    e,
                    rs,
                    "NewPL"@,
                    h,
                )
            &&& m.pl_handle is Some ==> f.pl_handle == m.pl_handle
        }),
{
    reveal(AltaV::programa);
    let p = alta.programa(m);
    let e = p.inicio(m);
    let f = p.correr(e, rs).memoria;
    let n = rs.len() as int;
    let a = alta.acceso();
    let l = lema_alta_valida(alta, m);
    lema_extremos(p, e, rs);
    lema_nota_cxc(p, e, rs, n);
    lema_nota_lista(p, e, rs, n);
    crate::microsip::exito::ley_memoria(p, e, rs);
    match alta {
        AltaV::Factura { acceso, reglas, p: params } => {
            lema_nota_ventas(
                m,
                a.db_path,
                a.usuario,
                a.password,
                a.metadatos,
                reglas,
                params,
                rs,
                n,
            );
            if p.respondio(e, rs, "ChecaCompatibilidadVentas"@, 0) {
                let i = choose|i: int|
                    #[trigger] p.invoca(e, rs, i, "ChecaCompatibilidadVentas"@) && rs[i]
                        == RespuestaV::Codigo(0);
                lema_chequeo_ventas(
                    m,
                    a.db_path,
                    a.usuario,
                    a.password,
                    a.metadatos,
                    reglas,
                    params,
                    rs,
                    i,
                    0,
                );
            }
        },
        AltaV::Credito { acceso, p: params } => {
            lema_ventas_intacta(p, e, rs, n, alta, m);
        },
    }
    assert forall|h: i32|
        h > 0 && #[trigger] p.respondio(e, rs, "NewPL"@, h) implies m.pl_handle is None
        && f.pl_handle == Some(h) by {
        let i = choose|i: int|
            #[trigger] p.invoca(e, rs, i, "NewPL"@) && rs[i] == RespuestaV::Codigo(h);
        lema_en(p, e, rs, i);
        assert(crea_lista(p.pasos[p.en(e, rs, i).pc]));
        lema_lista_queda(p, e, rs, i, n, h);
    }
    assert forall|h: i32|
        f.pl_handle == Some(h) && m.pl_handle != Some(h) implies #[trigger] p.respondio(
        e,
        rs,
        "NewPL"@,
        h,
    ) by {
        assert(lista_creada(p, e, rs, n, h));
    }
}

/// El programa de un alta es como debe, y crea la lista en un solo paso, si
/// el proceso no la tiene.
proof fn lema_alta_valida(alta: AltaV, m: MicrosipState) -> (l: int)
    requires
        m.pl_handle matches Some(h) ==> h > 0,
    ensures
        ({
            let p = alta.programa(m);
            let e = p.inicio(m);
            &&& p.valido() && p.cierre_posible() && recto(p) && notas_fieles(p)
            &&& p.coherente(e) && lista_al_dia(e) && e.memoria == m && e.pc == 0
            &&& forall|k: int|
                0 <= k < p.pasos.len() && crea_lista(#[trigger] p.pasos[k]) ==> k == l
                    && m.pl_handle is None
        }),
{
    reveal(AltaV::programa);
    let p = alta.programa(m);
    let e = p.inicio(m);
    let a = alta.acceso();
    let l = match alta {
        AltaV::Factura { acceso, reglas, p: params } => {
            ley_factura_valida(
                m,
                a.db_path,
                a.usuario,
                a.password,
                a.metadatos,
                reglas,
                params,
            );
            lema_factura_lineal(
                m,
                a.db_path,
                a.usuario,
                a.password,
                a.metadatos,
                reglas,
                params,
            );
            ley_factura_una_vez(
                m,
                a.db_path,
                a.usuario,
                a.password,
                a.metadatos,
                reglas,
                params,
            );
            paso_lista(
                p,
                m,
                a.usuario,
                a.password,
                a.metadatos,
                reglas,
            )
        },
        AltaV::Credito { acceso, p: params } => {
            ley_credito_valido(m, a.db_path, a.usuario, a.password, a.metadatos, params);
            ley_credito_una_vez(m, a.db_path, a.usuario, a.password, a.metadatos, params);
            paso_lista_credito(p, m, a.metadatos is Some)
        },
    };
    assert forall|k: int| 0 <= k < p.pasos.len() implies ({
        let paso = #[trigger] p.pasos[k];
        &&& es_llamada(paso, "ChecaCompatibilidadCxc"@) <==> (paso matches PasoV::Llama {
            regla: Regla::CompatibleCxc,
            ..
        })
        &&& es_llamada(paso, "NewPL"@) <==> crea_lista(paso)
        &&& escribe(paso, Registro::Lista) ==> crea_lista(paso)
        &&& crea_lista(paso) ==> k == l && m.pl_handle is None
        &&& p.cuerpo > 0
    }) by {
        match alta {
            AltaV::Factura { acceso, reglas, p: params } => {
                lema_factura_llamadas(
                    m,
                    a.db_path,
                    a.usuario,
                    a.password,
                    a.metadatos,
                    reglas,
                    params,
                    k,
                );
            },
            AltaV::Credito { acceso, p: params } => {
                lema_credito_llamadas(
                    m,
                    a.db_path,
                    a.usuario,
                    a.password,
                    a.metadatos,
                    params,
                    k,
                );
            },
        }
    }
    assert(p.pasos.len() > 0);
    assert(p.cuerpo > 0) by {
        let paso = p.pasos[0];
    }
    ley_inicio_coherente(p, m);
    lema_inicio(p, m);
    lema_inicio_lista(p, m);
    l
}

proof fn lema_inicio_lista(p: Programa, m: MicrosipState)
    ensures
        p.inicio(m).regs.lista == (match m.pl_handle {
            Some(h) => h,
            None => 0,
        }),
{
    let regs = match m.pl_handle {
        Some(h) => Registros::en_cero().con_valor(Registro::Lista, h),
        None => Registros::en_cero(),
    };
    let z = EstadoV {
        pc: 0,
        fase: Fase::Ejecuta,
        regs,
        memoria: m,
        falla: None,
        fila: FilaV::vacia(),
    };
    lema_entrar_conserva(p, z, 0);
}

/// Un crédito no cambia lo que se recuerda de Ventas.
proof fn lema_ventas_intacta(
    p: Programa,
    e: EstadoV,
    rs: Seq<RespuestaV>,
    n: int,
    alta: AltaV,
    m: MicrosipState,
)
    requires
        alta is Credito,
        p == alta.programa(m),
        e == p.inicio(m),
        p.valido(),
        p.cierre_posible(),
        p.coherente(e),
        e.memoria == m,
        p.corresponden(e, rs),
        0 <= n <= rs.len(),
    ensures
        p.en(e, rs, n).memoria.compatibilidad_ventas_checada == m.compatibilidad_ventas_checada,
        forall|i: int| i < n ==> !#[trigger] p.invoca(e, rs, i, "ChecaCompatibilidadVentas"@),
    decreases n,
{
    reveal(AltaV::programa);
    lema_extremos(p, e, rs);
    if n > 0 {
        lema_ventas_intacta(p, e, rs, n - 1, alta, m);
        lema_en(p, e, rs, n - 1);
        let a = p.en(e, rs, n - 1);
        ley_recibir(p, a, rs[n - 1]);
        ley_chequeo_con_exito(p, a, rs[n - 1]);
        let x = alta.acceso();
        lema_credito_llamadas(
            m,
            x.db_path,
            x.usuario,
            x.password,
            x.metadatos,
            alta->Credito_p,
            a.pc,
        );
    }
}

/// Lo que se recuerda al empezar el alta `k`, contado por lo que respondieron
/// las anteriores.
proof fn lema_sesion(s: Seq<LlamadaV>, k: int)
    requires
        sesion(s),
        0 <= k <= s.len(),
    ensures
        ({
            let m = memoria_en(s, k);
            &&& m.compatibilidad_ventas_checada <==> exists|j: int|
                0 <= j < k && #[trigger] respondio_en(s, j, "ChecaCompatibilidadVentas"@, 0)
            &&& m.compatibilidad_cxc_checada <==> exists|j: int|
                0 <= j < k && #[trigger] respondio_en(s, j, "ChecaCompatibilidadCxc"@, 0)
            &&& m.pl_handle matches Some(h) ==> h > 0
            &&& forall|h: i32|
                m.pl_handle == Some(h) ==> exists|j: int|
                    0 <= j < k && #[trigger] entrego_lista(s, j, h)
            &&& forall|j: int, h: i32|
                0 <= j < k && #[trigger] entrego_lista(s, j, h) ==> m.pl_handle == Some(h)
            &&& forall|j: int, q: int, h: i32, g: i32|
                0 <= j < k && 0 <= q < k && #[trigger] entrego_lista(s, j, h)
                    && #[trigger] entrego_lista(s, q, g) ==> j == q && h == g
        }),
    decreases k,
{
    if k == 0 {
        assert(s.take(0) =~= seq![]);
    } else {
        let i = k - 1;
        lema_sesion(s, i);
        assert(s.take(k).drop_last() =~= s.take(i));
        assert(s.take(k).last() == s[i]);
        assert(termino(s, i));
        let m = memoria_en(s, i);
        let f = memoria_en(s, k);
        lema_alta(s[i].alta, m, s[i].rs);
        assert(f == final_en(s, i).memoria);
        if f.compatibilidad_ventas_checada {
            if m.compatibilidad_ventas_checada {
                let j = choose|j: int|
                    0 <= j < i && #[trigger] respondio_en(s, j, "ChecaCompatibilidadVentas"@, 0);
                assert(respondio_en(s, j, "ChecaCompatibilidadVentas"@, 0));
            } else {
                assert(respondio_en(s, i, "ChecaCompatibilidadVentas"@, 0));
            }
        }
        if f.compatibilidad_cxc_checada {
            if m.compatibilidad_cxc_checada {
                let j = choose|j: int|
                    0 <= j < i && #[trigger] respondio_en(s, j, "ChecaCompatibilidadCxc"@, 0);
                assert(respondio_en(s, j, "ChecaCompatibilidadCxc"@, 0));
            } else {
                assert(respondio_en(s, i, "ChecaCompatibilidadCxc"@, 0));
            }
        }
        assert forall|h: i32| f.pl_handle == Some(h) implies exists|j: int|
            0 <= j < k && #[trigger] entrego_lista(s, j, h) by {
            if m.pl_handle == Some(h) {
                let j = choose|j: int| 0 <= j < i && #[trigger] entrego_lista(s, j, h);
                assert(entrego_lista(s, j, h));
            } else {
                assert(entrego_lista(s, i, h));
            }
        }
        assert forall|j: int, h: i32| 0 <= j < k && #[trigger] entrego_lista(s, j, h) implies
            f.pl_handle == Some(h) by {
            if j == i {
                assert(respondio_en(s, i, "NewPL"@, h));
            }
        }
        assert forall|j: int, q: int, h: i32, g: i32|
            0 <= j < k && 0 <= q < k && #[trigger] entrego_lista(s, j, h)
                && #[trigger] entrego_lista(s, q, g) implies j == q && h == g by {
            assert(f.pl_handle == Some(h) && f.pl_handle == Some(g));
            if j == i && q < i {
                assert(respondio_en(s, i, "NewPL"@, h));
                assert(m.pl_handle == Some(g));
            }
            if q == i && j < i {
                assert(respondio_en(s, i, "NewPL"@, g));
                assert(m.pl_handle == Some(h));
            }
        }
    }
}

/// Qué altas chequean la compatibilidad de Ventas.
proof fn lema_alta_chequea(alta: AltaV, m: MicrosipState)
    ensures
        alta.programa(m).llama_a("ChecaCompatibilidadVentas"@) <==> alta is Factura
            && alta.acceso().metadatos is Some && !m.compatibilidad_ventas_checada,
{
    reveal(AltaV::programa);
    let p = alta.programa(m);
    let a = alta.acceso();
    match alta {
        AltaV::Factura { acceso, reglas, p: params } => {
            lema_lugar_positivo(alta, m);
            assert forall|q: int| 0 <= q < p.pasos.len() implies (es_llamada(
                #[trigger] p.pasos[q],
                "ChecaCompatibilidadVentas"@,
            ) <==> a.metadatos is Some && !m.compatibilidad_ventas_checada && q == paso_metadatos(p)
                + 1) && lugar_lista(alta, m) == p.cuerpo + (if a.metadatos is Some
                && !m.compatibilidad_ventas_checada {
                13int
            } else {
                3int
            }) by {
                lema_factura_llamadas(
                    m,
                    a.db_path,
                    a.usuario,
                    a.password,
                    a.metadatos,
                    reglas,
                    params,
                    q,
                );
            }
            if a.metadatos is Some && !m.compatibilidad_ventas_checada {
                assert(p.pasos.len() > 0);
                assert(lugar_lista(alta, m) == p.cuerpo + 13) by {
                    let paso = p.pasos[0];
                }
                assert(es_llamada(p.pasos[paso_metadatos(p) + 1], "ChecaCompatibilidadVentas"@));
            }
        },
        AltaV::Credito { acceso, p: params } => {
            assert forall|q: int| 0 <= q < p.pasos.len() implies !es_llamada(
                #[trigger] p.pasos[q],
                "ChecaCompatibilidadVentas"@,
            ) by {
                lema_credito_llamadas(
                    m,
                    a.db_path,
                    a.usuario,
                    a.password,
                    a.metadatos,
                    params,
                    q,
                );
            }
        },
    }
}

/// Lo que sigue al chequeo, en cualquier alta que lo hace y termina.
proof fn lema_alta_tras_chequeo(alta: AltaV, m: MicrosipState, rs: Seq<RespuestaV>, i: int)
    requires
        alta is Factura,
        ({
            let p = alta.programa(m);
            let e = p.inicio(m);
            &&& p.corresponden(e, rs)
            &&& p.correr(e, rs).fase == Fase::Fin
            &&& p.invoca(e, rs, i, "ChecaCompatibilidadVentas"@)
        }),
    ensures
        ({
            let p = alta.programa(m);
            let e = p.inicio(m);
            &&& rs[i] is Codigo
            &&& p.cerro(e, rs, i + 1, p.en(e, rs, i).regs.metadatos_db)
            &&& rs[i]->Codigo_0 != 0 ==> (p.correr(e, rs).falla matches Some(
                ErrorV::Provider { code, .. },
            ) && code == rs[i]->Codigo_0)
        }),
{
    reveal(AltaV::programa);
    let a = alta.acceso();
    let reglas = alta->reglas;
    let params = alta->Factura_p;
    lema_tras_chequeo(
        m,
        a.db_path,
        a.usuario,
        a.password,
        a.metadatos,
        reglas,
        params,
        rs,
        i,
    );
    lema_chequeo_ventas(
        m,
        a.db_path,
        a.usuario,
        a.password,
        a.metadatos,
        reglas,
        params,
        rs,
        i,
        rs[i]->Codigo_0,
    );
}

/// La compatibilidad de Ventas se chequea hasta que una vez sale bien: una
/// factura llama a `ChecaCompatibilidadVentas` si y solo si hay Metadatos y
/// ninguna llamada anterior a esa función respondió 0; un crédito, nunca.
/// Sin Metadatos se omite sin contar como hecho. Tras la respuesta, sea la que
/// sea, lo siguiente es desconectar Metadatos; y si no fue 0, el alta falla con
/// ese código.
pub proof fn ley_sesion_ventas(s: Seq<LlamadaV>, k: int)
    requires
        sesion(s),
        0 <= k < s.len(),
    ensures
        ({
            let p = programa_en(s, k);
            let e = inicio_en(s, k);
            let rs = s[k].rs;
            let f = final_en(s, k);
            &&& p.llama_a("ChecaCompatibilidadVentas"@) <==> s[k].alta is Factura
                && s[k].alta.acceso().metadatos is Some && forall|j: int|
                0 <= j < k ==> !#[trigger] respondio_en(s, j, "ChecaCompatibilidadVentas"@, 0)
            &&& !p.llama_a("ChecaCompatibilidadVentas"@) ==> f.memoria.compatibilidad_ventas_checada
                == memoria_en(s, k).compatibilidad_ventas_checada
            &&& forall|i: int|
                #[trigger] p.invoca(e, rs, i, "ChecaCompatibilidadVentas"@) ==> rs[i] is Codigo
                    && p.cerro(e, rs, i + 1, p.en(e, rs, i).regs.metadatos_db) && (rs[i]->Codigo_0
                    != 0 ==> (f.falla matches Some(ErrorV::Provider { code, .. }) && code
                    == rs[i]->Codigo_0))
        }),
{
    let p = programa_en(s, k);
    let e = inicio_en(s, k);
    let rs = s[k].rs;
    let m = memoria_en(s, k);
    let alta = s[k].alta;
    lema_sesion(s, k);
    assert(termino(s, k));
    lema_alta(alta, m, rs);
    lema_alta_chequea(alta, m);
    assert forall|i: int|
        #[trigger] p.invoca(e, rs, i, "ChecaCompatibilidadVentas"@) implies rs[i] is Codigo
        && p.cerro(e, rs, i + 1, p.en(e, rs, i).regs.metadatos_db) && (rs[i]->Codigo_0 != 0 ==> (
    final_en(s, k).falla matches Some(ErrorV::Provider { code, .. }) && code
        == rs[i]->Codigo_0)) by {
        lema_en(p, e, rs, i);
        assert(es_llamada(p.pasos[p.en(e, rs, i).pc], "ChecaCompatibilidadVentas"@));
        lema_alta_tras_chequeo(alta, m, rs, i);
    }
    if !p.llama_a("ChecaCompatibilidadVentas"@) {
        assert forall|i: int| !#[trigger] p.invoca(
            e,
            rs,
            i,
            "ChecaCompatibilidadVentas"@,
        ) by {
            if p.invoca(e, rs, i, "ChecaCompatibilidadVentas"@) {
                lema_en(p, e, rs, i);
                assert(es_llamada(p.pasos[p.en(e, rs, i).pc], "ChecaCompatibilidadVentas"@));
            }
        }
    }
}

/// La compatibilidad de Cxc y los Metadatos de un crédito: sin Metadatos no se
/// llama ni a `ChecaCompatibilidadCxc` ni a `SetDBMetadatos`; con ellos,
/// `SetDBMetadatos` se llama en cada crédito, y el chequeo solo mientras
/// ninguna llamada anterior a esa función haya respondido 0, haya pasado lo
/// que haya pasado con Ventas. Mientras el crédito no falle, ninguna conexión
/// se cierra antes de `AplicaCreditoCc`.
pub proof fn ley_sesion_cxc(s: Seq<LlamadaV>, k: int)
    requires
        sesion(s),
        0 <= k < s.len(),
        s[k].alta is Credito,
    ensures
        ({
            let p = programa_en(s, k);
            let e = inicio_en(s, k);
            let rs = s[k].rs;
            let hay = s[k].alta.acceso().metadatos is Some;
            &&& p.llama_a("SetDBMetadatos"@) <==> hay
            &&& p.llama_a("ChecaCompatibilidadCxc"@) <==> hay && forall|j: int|
                0 <= j < k ==> !#[trigger] respondio_en(s, j, "ChecaCompatibilidadCxc"@, 0)
            &&& hay && final_en(s, k).falla is None ==> exists|i: int|
                #[trigger] p.invoca(e, rs, i, "SetDBMetadatos"@)
            &&& forall|i: int|
                #[trigger] p.invoca(e, rs, i, "DBDisconnect"@) && p.en(e, rs, i).falla is None
                    ==> exists|q: int| q < i && #[trigger] p.invoca(e, rs, q, "AplicaCreditoCc"@)
        }),
{
    let p = programa_en(s, k);
    let e = inicio_en(s, k);
    let rs = s[k].rs;
    let m = memoria_en(s, k);
    let alta = s[k].alta;
    let a = alta.acceso();
    lema_sesion(s, k);
    assert(termino(s, k));
    lema_alta(alta, m, rs);
    lema_credito_metadatos(alta, m);
    lema_inicio(p, m);
    lema_cierra_tras_aplicar(p, e, rs);
    if a.metadatos is Some && final_en(s, k).falla is None {
        let c = lema_credito_asigna(alta, m, rs);
        assert(p.intento(e, rs, c));
        let i = lema_momento(p, e, rs, c);
        assert(p.invoca(e, rs, i, "SetDBMetadatos"@));
    }
}

/// Qué llama un crédito según haya Metadatos y lo que se recuerde.
proof fn lema_credito_metadatos(alta: AltaV, m: MicrosipState)
    requires
        alta is Credito,
    ensures
        ({
            let p = alta.programa(m);
            let hay = alta.acceso().metadatos is Some;
            &&& p.llama_a("SetDBMetadatos"@) <==> hay
            &&& p.llama_a("ChecaCompatibilidadCxc"@) <==> hay && !m.compatibilidad_cxc_checada
            &&& p.al_fallar > 0
            &&& es_llamada(p.pasos[p.al_fallar - 1], "AplicaCreditoCc"@)
            &&& forall|q: int|
                0 <= q < p.pasos.len() && es_llamada(#[trigger] p.pasos[q], "DBDisconnect"@) ==> q
                    >= p.cierre
        }),
{
    reveal(AltaV::programa);
    let p = alta.programa(m);
    let a = alta.acceso();
    let params = alta->Credito_p;
    let hay = a.metadatos is Some;
    let chequea = hay && !m.compatibilidad_cxc_checada;
    let modulo = paso_modulo(p, hay);
    let l = paso_lista_credito(p, m, hay);
    lema_lugar_positivo(alta, m);
    assert forall|q: int| 0 <= q < p.pasos.len() implies (es_llamada(
        #[trigger] p.pasos[q],
        "SetDBMetadatos"@,
    ) <==> hay && q == l - 1) && (es_llamada(p.pasos[q], "ChecaCompatibilidadCxc"@) <==> chequea
        && q == modulo + 2) && (es_llamada(p.pasos[q], "AplicaCreditoCc"@) <==> q == p.al_fallar
        - 1) && (es_llamada(p.pasos[q], "DBDisconnect"@) ==> q >= p.cierre) by {
        lema_credito_llamadas(m, a.db_path, a.usuario, a.password, a.metadatos, params, q);
    }
    if hay {
        assert(es_llamada(p.pasos[l - 1], "SetDBMetadatos"@));
    }
    if chequea {
        assert(es_llamada(p.pasos[modulo + 2], "ChecaCompatibilidadCxc"@));
    }
    assert(es_llamada(p.pasos[p.al_fallar - 1], "AplicaCreditoCc"@));
}

/// En un crédito con Metadatos que no falla, `SetDBMetadatos` se llamó.
proof fn lema_credito_asigna(alta: AltaV, m: MicrosipState, rs: Seq<RespuestaV>) -> (c: int)
    requires
        alta is Credito,
        alta.acceso().metadatos is Some,
        ({
            let p = alta.programa(m);
            let e = p.inicio(m);
            p.corresponden(e, rs) && p.correr(e, rs).fase == Fase::Fin && p.correr(e, rs).falla
                is None
        }),
    ensures
        alta.programa(m).intento(alta.programa(m).inicio(m), rs, c),
        es_llamada(alta.programa(m).pasos[c], "SetDBMetadatos"@),
{
    reveal(AltaV::programa);
    let p = alta.programa(m);
    let a = alta.acceso();
    let params = alta->Credito_p;
    let c = paso_lista_credito(p, m, true) - 1;
    lema_lugar_positivo(alta, m);
    lema_credito_llamadas(m, a.db_path, a.usuario, a.password, a.metadatos, params, c);
    ley_credito_exito(m, a.db_path, a.usuario, a.password, a.metadatos, params, rs);
    c
}

/// Sin falla, nada se desconecta antes del último paso del cuerpo.
proof fn lema_cierra_tras_aplicar(p: Programa, e: EstadoV, rs: Seq<RespuestaV>)
    requires
        p.valido(),
        p.cierre_posible(),
        recto(p),
        p.coherente(e),
        p.corresponden(e, rs),
        !(e.fase is Mensaje),
        e.pc == 0,
        p.al_fallar > 0,
        es_llamada(p.pasos[p.al_fallar - 1], "AplicaCreditoCc"@),
        forall|q: int|
            0 <= q < p.pasos.len() && es_llamada(#[trigger] p.pasos[q], "DBDisconnect"@) ==> q
                >= p.cierre,
    ensures
        forall|i: int|
            #[trigger] p.invoca(e, rs, i, "DBDisconnect"@) && p.en(e, rs, i).falla is None
                ==> exists|q: int| q < i && #[trigger] p.invoca(e, rs, q, "AplicaCreditoCc"@),
{
    assert forall|i: int|
        #[trigger] p.invoca(e, rs, i, "DBDisconnect"@) && p.en(e, rs, i).falla is None implies exists|
        q: int,
    |
        q < i && #[trigger] p.invoca(e, rs, q, "AplicaCreditoCc"@) by {
        lema_en(p, e, rs, i);
        let u = p.en(e, rs, i);
        let t = rs.take(i);
        lema_corresponden_prefijo(p, e, rs, i);
        lema_recorrido(p, e, t, 0);
        let n = p.al_fallar - 1;
        assert(es_llamada(p.pasos[u.pc], "DBDisconnect"@));
        assert(p.paso_valido(n));
        assert(p.intento(e, t, n));
        let q = choose|q: int|
            0 <= q <= t.len() && {
                let x = #[trigger] p.correr(e, t.take(q));
                x.pc == n && x.fase == Fase::Ejecuta
            };
        assert(t.take(q) =~= rs.take(q));
        assert(q < i) by {
            if q == i {
                assert(rs.take(q) =~= t);
            }
        }
        assert(p.invoca(e, rs, q, "AplicaCreditoCc"@));
    }
}

// ---------------------------------------------------------------------
// La lista de parámetros
// ---------------------------------------------------------------------

/// La llamada que limpia la lista `h`.
pub open spec fn limpia_lista(h: i32) -> AccionV {
    AccionV::Llamar { funcion: "PLClear"@, args: seq![ArgumentoV::Entero(h)] }
}

/// La llamada que pone un par en la lista `h`.
pub open spec fn pone_par(h: i32, par: (String, String)) -> AccionV {
    AccionV::Llamar {
        funcion: "PLSetParamValue"@,
        args: seq![
            ArgumentoV::Entero(h),
            ArgumentoV::Texto(encode_utf8(par.0@)),
            ArgumentoV::Texto(windows_1252(par.1@)),
        ],
    }
}

/// En un guion recto sin falla, `d` respuestas antes se intentaba el paso `d`
/// lugares antes.
proof fn lema_atras(p: Programa, e: EstadoV, rs: Seq<RespuestaV>, i: int, d: int)
    requires
        p.valido(),
        p.cierre_posible(),
        recto(p),
        p.coherente(e),
        p.corresponden(e, rs),
        e.pc == 0,
        0 <= i <= rs.len(),
        0 <= d <= p.en(e, rs, i).pc < p.al_fallar,
        p.en(e, rs, i).fase == Fase::Ejecuta,
        p.en(e, rs, i).falla is None,
        forall|k: int|
            p.en(e, rs, i).pc - d <= k < p.en(e, rs, i).pc ==> !crea_lista(#[trigger] p.pasos[k])
                && !(p.pasos[k] matches PasoV::Llama { regla: Regla::DesconectaYVerifica, .. }),
    ensures
        0 <= i - d,
        p.en(e, rs, i - d).pc == p.en(e, rs, i).pc - d,
        p.en(e, rs, i - d).fase == Fase::Ejecuta,
        p.en(e, rs, i - d).falla is None,
        p.en(e, rs, i - d).memoria.pl_handle == p.en(e, rs, i).memoria.pl_handle,
    decreases d,
{
    lema_extremos(p, e, rs);
    if d > 0 {
        lema_atras(p, e, rs, i, d - 1);
        let j = i - (d - 1);
        let b = p.en(e, rs, j);
        assert(j > 0);
        lema_en(p, e, rs, j - 1);
        let a = p.en(e, rs, j - 1);
        ley_recibir(p, a, rs[j - 1]);
        if a.falla is Some {
            lema_falla_queda(p, a, rs[j - 1]);
        }
        assert(lineal(p.pasos[a.pc]) || de_cierre(p.pasos[a.pc]));
        lema_crece(p, a, rs[j - 1]);
        lema_paso(p, a, rs[j - 1]);
        lema_saltar(p, b.regs, siguiente(p, a.pc));
        assert(a.pc == b.pc - 1);
        assert(!crea_lista(p.pasos[a.pc]));
    }
}

/// Una sola lista de parámetros por proceso: `NewPL` entrega un handle a lo
/// más una vez en toda la sucesión de altas, sean facturas o créditos. Cuando
/// un alta llega a su encabezado, si no tiene parámetros manda -1 y no llama a
/// ninguna función de la lista; si los tiene, manda esa lista `h`, y justo
/// antes la limpió y puso en ella cada par, una vez y en orden.
pub proof fn ley_sesion_lista(s: Seq<LlamadaV>, k: int, i: int)
    requires
        sesion(s),
        0 <= k < s.len(),
        programa_en(s, k).invoca(inicio_en(s, k), s[k].rs, i, s[k].alta.encabezado()),
    ensures
        forall|j: int, q: int, h: i32, g: i32|
            0 <= j < s.len() && 0 <= q < s.len() && #[trigger] entrego_lista(s, j, h)
                && #[trigger] entrego_lista(s, q, g) ==> j == q && h == g,
        ({
            let p = programa_en(s, k);
            let e = inicio_en(s, k);
            let rs = s[k].rs;
            let pares = s[k].alta.pares();
            let n = pares.len() as int;
            let args = p.accion(p.en(e, rs, i))->args;
            &&& n == 0 ==> args.last() == ArgumentoV::Entero((-1) as i32) && !p.llama_a("NewPL"@)
                && !p.llama_a("PLClear"@) && !p.llama_a("PLSetParamValue"@)
            &&& n > 0 ==> exists|h: i32, j: int|
                {
                    &&& 0 <= j <= k && #[trigger] entrego_lista(s, j, h)
                    &&& args.last() == ArgumentoV::Entero(h)
                    &&& 0 <= i - n - 1
                    &&& p.accion(p.en(e, rs, i - n - 1)) == limpia_lista(h)
                    &&& forall|q: int|
                        0 <= q < n ==> p.accion(#[trigger] p.en(e, rs, i - n + q)) == pone_par(
                            h,
                            pares[q],
                        )
                }
        }),
{
    let p = programa_en(s, k);
    let e = inicio_en(s, k);
    let rs = s[k].rs;
    let m = memoria_en(s, k);
    let alta = s[k].alta;
    let a = alta.acceso();
    let pares = alta.pares();
    let n = pares.len() as int;
    let u = p.en(e, rs, i);
    lema_sesion(s, s.len() as int);
    lema_sesion(s, k);
    lema_sesion(s, k + 1);
    assert(termino(s, k));
    lema_alta(alta, m, rs);
    lema_en(p, e, rs, i);
    lema_nota_lista(p, e, rs, i);
    let l = lema_lugar_lista(alta, m, u.pc);
    let modulo = modulo_de(alta);
    let lista = llenar_lista(modulo, m, pares);
    assert forall|q: int| 0 <= q < p.pasos.len() implies lugar_de(
        p,
        l,
        lista,
        #[trigger] p.pasos[q],
        q,
    ) by {
        let x = lema_lugar_lista(alta, m, q);
    }
    assert(u.pc == l + lista.len());
    assert(u.falla is None);
    if n > 0 {
        lema_lugar_positivo(alta, m);
        lema_atras_lista(p, e, rs, i, l, modulo, m, pares);
        let c = p.en(e, rs, i - (n + 1));
        assert(c.falla is None && c.pc == u.pc - (n + 1));
        assert(lista.len() == n + (if m.pl_handle is None {
            2int
        } else {
            1int
        }));
        lema_tiene_lista(alta, m, rs, i - (n + 1));
        let h = u.memoria.pl_handle->0;
        lema_lista_usada(p, e, rs, i, l, modulo, m, pares, h);
        // La lista es la que quedó al final del alta.
        lema_lista_final(p, e, rs, i, l, h);
        assert(s.take(k + 1).drop_last() =~= s.take(k));
        assert(s.take(k + 1).last() == s[k]);
        assert(memoria_en(s, k + 1) == final_en(s, k).memoria);
        let j = choose|j: int| 0 <= j < k + 1 && #[trigger] entrego_lista(s, j, h);
        assert(entrego_lista(s, j, h));
    } else {
        assert forall|q: int| 0 <= q < p.pasos.len() implies !es_llamada(
            #[trigger] p.pasos[q],
            "NewPL"@,
        ) && !es_llamada(p.pasos[q], "PLClear"@) && !es_llamada(
            p.pasos[q],
            "PLSetParamValue"@,
        ) by {
            assert(lugar_de(p, l, lista, p.pasos[q], q));
        }
    }
}

spec fn modulo_de(alta: AltaV) -> Modulo {
    if alta is Factura {
        Modulo::Ventas
    } else {
        Modulo::Cxc
    }
}

/// Lo que un paso es según esté antes de la lista, en ella o después.
spec fn lugar_de(p: Programa, l: int, lista: Seq<PasoV>, paso: PasoV, q: int) -> bool {
    &&& l <= q < l + lista.len() ==> paso == lista[q - l]
    &&& es_llamada(paso, "NewPL"@) || es_llamada(paso, "PLClear"@) || es_llamada(
        paso,
        "PLSetParamValue"@,
    ) ==> l <= q < l + lista.len()
    &&& crea_lista(paso) ==> q == l
}

/// Los pasos de la lista se intentaron uno tras otro justo antes.
proof fn lema_atras_lista(
    p: Programa,
    e: EstadoV,
    rs: Seq<RespuestaV>,
    i: int,
    l: int,
    modulo: Modulo,
    m: MicrosipState,
    pares: Seq<(String, String)>,
)
    requires
        p.valido(),
        p.cierre_posible(),
        recto(p),
        p.coherente(e),
        p.corresponden(e, rs),
        e.pc == 0,
        0 <= i < rs.len(),
        0 < l,
        pares.len() > 0,
        p.en(e, rs, i).pc == l + llenar_lista(modulo, m, pares).len() < p.al_fallar,
        p.en(e, rs, i).fase == Fase::Ejecuta,
        p.en(e, rs, i).falla is None,
        forall|q: int|
            0 <= q < p.pasos.len() ==> lugar_de(
                p,
                l,
                llenar_lista(modulo, m, pares),
                #[trigger] p.pasos[q],
                q,
            ),
    ensures
        0 <= i - pares.len() - 1,
        forall|d: int|
            1 <= d <= pares.len() + 1 ==> {
                let w = #[trigger] p.en(e, rs, i - d);
                &&& w.pc == p.en(e, rs, i).pc - d
                &&& w.fase == Fase::Ejecuta
                &&& w.falla is None
                &&& w.memoria.pl_handle == p.en(e, rs, i).memoria.pl_handle
            },
{
    let u = p.en(e, rs, i);
    let lista = llenar_lista(modulo, m, pares);
    let n = pares.len() as int;
    assert(lista.len() == n + (if m.pl_handle is None {
        2int
    } else {
        1int
    }));
    assert forall|q: int| u.pc - (n + 1) <= q < u.pc implies !crea_lista(#[trigger] p.pasos[q])
        && !(p.pasos[q] matches PasoV::Llama { regla: Regla::DesconectaYVerifica, .. }) by {
        assert(lugar_de(p, l, lista, p.pasos[q], q));
        assert(p.pasos[q] == lista[q - l]);
    }
    assert forall|d: int| 1 <= d <= n + 1 implies ({
        let w = #[trigger] p.en(e, rs, i - d);
        &&& w.pc == u.pc - d
        &&& w.fase == Fase::Ejecuta
        &&& w.falla is None
        &&& w.memoria.pl_handle == u.memoria.pl_handle
    }) by {
        lema_atras(p, e, rs, i, d);
    }
    lema_atras(p, e, rs, i, n + 1);
}

/// Lo que esos pasos llamaron.
proof fn lema_lista_usada(
    p: Programa,
    e: EstadoV,
    rs: Seq<RespuestaV>,
    i: int,
    l: int,
    modulo: Modulo,
    m: MicrosipState,
    pares: Seq<(String, String)>,
    h: i32,
)
    requires
        p.valido(),
        p.cierre_posible(),
        recto(p),
        notas_fieles(p),
        lista_al_dia(e),
        p.coherente(e),
        p.corresponden(e, rs),
        0 <= i < rs.len(),
        0 < l,
        pares.len() > 0,
        0 <= i - pares.len() - 1,
        p.en(e, rs, i).pc == l + llenar_lista(modulo, m, pares).len() < p.al_fallar,
        p.en(e, rs, i).fase == Fase::Ejecuta,
        p.en(e, rs, i).memoria.pl_handle == Some(h),
        p.pasos[p.en(e, rs, i).pc] matches PasoV::Llama { args, .. } && args.len() > 0
            && args.last() == operando_lista(pares),
        forall|d: int|
            1 <= d <= pares.len() + 1 ==> {
                let w = #[trigger] p.en(e, rs, i - d);
                &&& w.pc == p.en(e, rs, i).pc - d
                &&& w.fase == Fase::Ejecuta
                &&& w.falla is None
                &&& w.memoria.pl_handle == p.en(e, rs, i).memoria.pl_handle
            },
        forall|q: int|
            0 <= q < p.pasos.len() ==> lugar_de(
                p,
                l,
                llenar_lista(modulo, m, pares),
                #[trigger] p.pasos[q],
                q,
            ),
    ensures
        p.accion(p.en(e, rs, i))->args.last() == ArgumentoV::Entero(h),
        p.accion(p.en(e, rs, i - pares.len() - 1)) == limpia_lista(h),
        forall|q: int|
            0 <= q < pares.len() ==> p.accion(#[trigger] p.en(e, rs, i - pares.len() + q))
                == pone_par(h, pares[q]),
{
    let u = p.en(e, rs, i);
    let lista = llenar_lista(modulo, m, pares);
    let n = pares.len() as int;
    lema_nota_lista(p, e, rs, i);
    let c = p.en(e, rs, i - (n + 1));
    lema_nota_lista(p, e, rs, i - (n + 1));
    assert(lugar_de(p, l, lista, p.pasos[c.pc], c.pc));
    assert(argumentos(seq![OperandoV::Registro(Registro::Lista)], c.regs) =~= seq![
        ArgumentoV::Entero(h),
    ]);
    assert(p.accion(c) == limpia_lista(h));
    assert forall|q: int| 0 <= q < n implies p.accion(#[trigger] p.en(e, rs, i - pares.len() + q))
        == pone_par(h, pares[q]) by {
        let w = p.en(e, rs, i - (n - q));
        lema_nota_lista(p, e, rs, i - (n - q));
        assert(lugar_de(p, l, lista, p.pasos[w.pc], w.pc));
        assert(argumentos(
            seq![
                OperandoV::Registro(Registro::Lista),
                OperandoV::Texto(pares[q].0@),
                OperandoV::Ansi(pares[q].1@),
            ],
            w.regs,
        ) =~= seq![
            ArgumentoV::Entero(h),
            ArgumentoV::Texto(encode_utf8(pares[q].0@)),
            ArgumentoV::Texto(windows_1252(pares[q].1@)),
        ]);
    }
}

/// Dónde están la lista y el encabezado de un alta.
proof fn lema_lugar_lista(alta: AltaV, m: MicrosipState, q: int) -> (l: int)
    requires
        0 <= q < alta.programa(m).pasos.len(),
    ensures
        ({
            let p = alta.programa(m);
            let pares = alta.pares();
            let lista = llenar_lista(modulo_de(alta), m, pares);
            let paso = p.pasos[q];
            &&& l == lugar_lista(alta, m)
            &&& l + lista.len() < p.al_fallar
            &&& es_llamada(paso, alta.encabezado()) <==> q == l + lista.len()
            &&& l <= q < l + lista.len() ==> paso == lista[q - l]
            &&& es_llamada(paso, "NewPL"@) || es_llamada(paso, "PLClear"@) || es_llamada(
                paso,
                "PLSetParamValue"@,
            ) ==> l <= q < l + lista.len()
            &&& crea_lista(paso) ==> q == l && es_llamada(paso, "NewPL"@)
            &&& q == l + lista.len() ==> (paso matches PasoV::Llama { args, .. } && args.len() > 0
                && args.last() == operando_lista(pares))
        }),
{
    reveal(AltaV::programa);
    let a = alta.acceso();
    match alta {
        AltaV::Factura { acceso, reglas, p: params } => {
            lema_factura_llamadas(
                m,
                a.db_path,
                a.usuario,
                a.password,
                a.metadatos,
                reglas,
                params,
                q,
            );
        },
        AltaV::Credito { acceso, p: params } => {
            lema_credito_llamadas(m, a.db_path, a.usuario, a.password, a.metadatos, params, q);
        },
    }
    lugar_lista(alta, m)
}

spec fn lugar_lista(alta: AltaV, m: MicrosipState) -> int {
    let a = alta.acceso();
    match alta {
        AltaV::Factura { acceso, reglas, p } => paso_lista(
            alta.programa(m),
            m,
            a.usuario,
            a.password,
            a.metadatos,
            reglas,
        ),
        AltaV::Credito { .. } => paso_lista_credito(
            alta.programa(m),
            m,
            a.metadatos is Some,
        ),
    }
}

/// Pasado el lugar donde la lista se crea, el proceso la tiene.
proof fn lema_tiene_lista(alta: AltaV, m: MicrosipState, rs: Seq<RespuestaV>, n: int)
    requires
        ({
            let p = alta.programa(m);
            let e = p.inicio(m);
            &&& p.corresponden(e, rs)
            &&& 0 <= n <= rs.len()
            &&& p.en(e, rs, n).falla is None
            &&& p.en(e, rs, n).pc > lugar_lista(alta, m) || (p.en(e, rs, n).pc == lugar_lista(
                alta,
                m,
            ) && m.pl_handle is Some)
        }),
        m.pl_handle matches Some(h) ==> h > 0,
        alta.pares().len() > 0,
    ensures
        alta.programa(m).en(alta.programa(m).inicio(m), rs, n).memoria.pl_handle is Some,
    decreases n,
{
    let p = alta.programa(m);
    let e = p.inicio(m);
    let unica = lema_alta_valida(alta, m);
    lema_extremos(p, e, rs);
    let l = lugar_lista(alta, m);
    lema_lugar_positivo(alta, m);
    if m.pl_handle is Some {
        lema_sin_crear(p, e, rs, n);
    } else {
        assert(n > 0);
        lema_en(p, e, rs, n - 1);
        let a = p.en(e, rs, n - 1);
        let b = p.en(e, rs, n);
        ley_recibir(p, a, rs[n - 1]);
        if a.falla is Some {
            lema_falla_queda(p, a, rs[n - 1]);
        }
        let x = lema_lugar_lista(alta, m, a.pc);
        if a.pc > l {
            lema_tiene_lista(alta, m, rs, n - 1);
        } else {
            assert(lineal(p.pasos[a.pc]) || de_cierre(p.pasos[a.pc]));
            assert(p.paso_valido(a.pc));
            lema_paso(p, a, rs[n - 1]);
            lema_saltar(p, b.regs, siguiente(p, a.pc));
            assert(a.pc == l);
            assert(crea_lista(p.pasos[a.pc]));
            reveal(Programa::recibir);
            assert forall|f: EstadoV, d: int|
                (#[trigger] p.entrar(f, d)).memoria == f.memoria by {
                lema_entrar_conserva(p, f, d);
            }
        }
    }
}

proof fn lema_lugar_positivo(alta: AltaV, m: MicrosipState)
    ensures
        0 < lugar_lista(alta, m) < alta.programa(m).al_fallar,
        alta.programa(m).al_fallar < alta.programa(m).pasos.len(),
{
    reveal(AltaV::programa);
    assert(alta.programa(m).pasos.len() > 0);
    let l = lema_lugar_lista(alta, m, 0);
    match alta {
        AltaV::Factura { .. } => {},
        AltaV::Credito { .. } => {},
    }
}

proof fn lema_sin_crear(p: Programa, e: EstadoV, rs: Seq<RespuestaV>, n: int)
    requires
        p.valido(),
        p.cierre_posible(),
        p.coherente(e),
        p.corresponden(e, rs),
        0 <= n <= rs.len(),
        forall|k: int| 0 <= k < p.pasos.len() ==> !crea_lista(#[trigger] p.pasos[k]),
    ensures
        p.en(e, rs, n).memoria.pl_handle == e.memoria.pl_handle,
    decreases n,
{
    lema_extremos(p, e, rs);
    if n > 0 {
        lema_sin_crear(p, e, rs, n - 1);
        lema_en(p, e, rs, n - 1);
        let a = p.en(e, rs, n - 1);
        ley_recibir(p, a, rs[n - 1]);
        assert(!crea_lista(p.pasos[a.pc]));
    }
}

/// Después de su lugar la lista ya no cambia.
proof fn lema_lista_final(p: Programa, e: EstadoV, rs: Seq<RespuestaV>, i: int, l: int, h: i32)
    requires
        p.valido(),
        p.cierre_posible(),
        recto(p),
        p.coherente(e),
        p.corresponden(e, rs),
        0 <= i <= rs.len(),
        p.en(e, rs, i).pc > l,
        p.en(e, rs, i).memoria.pl_handle == Some(h),
        forall|k: int| 0 <= k < p.pasos.len() && crea_lista(#[trigger] p.pasos[k]) ==> k == l,
    ensures
        p.correr(e, rs).memoria.pl_handle == Some(h),
    decreases rs.len() - i,
{
    lema_extremos(p, e, rs);
    if i < rs.len() {
        lema_en(p, e, rs, i);
        let a = p.en(e, rs, i);
        ley_recibir(p, a, rs[i]);
        lema_crece(p, a, rs[i]);
        assert(!crea_lista(p.pasos[a.pc]));
        lema_lista_final(p, e, rs, i + 1, l, h);
    }
}

} // verus!
