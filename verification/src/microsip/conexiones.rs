//! Toda conexión que se abre se cierra.

use vstd::prelude::*;

use crate::microsip::corridas::{
    lema_crecen, lema_en, lema_extremos, lema_momento, lema_registro_estable,
};
use crate::microsip::exito::{escribe, lema_registro, ley_exito, ley_falla};
use crate::microsip::guiones::credito::{
    lema_credito_llamadas, lema_credito_omite, ley_credito_valido, paso_abre, programa_credito,
};
use crate::microsip::guiones::factura::{
    lema_factura_lineal, lema_factura_llamadas, ley_factura_orden, ley_factura_valida,
    paso_metadatos, programa_factura,
};
use crate::microsip::guiones::{conectar, desconectar, lema_desconectar_posible, recto, Base};
use crate::microsip::leyes::{lema_entrar, lema_saltar, ley_inicio_coherente};
use crate::microsip::maquina::{
    argumentos, error_de_operandos, error_de_paso, EstadoV, Fase, MicrosipState, Programa,
};
use crate::microsip::nativo::{
    AccionV, ArgumentoV, Modulo, OperandoV, PasoV, Registro, Regla, RespuestaV,
};
use crate::microsip::params::{CreditoParams, FacturaParams};

verus! {

impl Programa {
    /// La respuesta `i` dio por abierta la conexión de handle `h`.
    pub open spec fn abrio(self, e: EstadoV, rs: Seq<RespuestaV>, i: int, h: i32) -> bool {
        &&& self.invoca(e, rs, i, "DBConnect"@)
        &&& self.accion(self.en(e, rs, i))->args[0] == ArgumentoV::Entero(h)
        &&& rs[i] == RespuestaV::Codigo(0)
    }

    /// La respuesta `j` fue a la desconexión del handle `h`.
    pub open spec fn cerro(self, e: EstadoV, rs: Seq<RespuestaV>, j: int, h: i32) -> bool {
        &&& 0 <= j < rs.len()
        &&& self.accion(self.en(e, rs, j)) == (AccionV::Llamar {
            funcion: "DBDisconnect"@,
            args: seq![ArgumentoV::Entero(h)],
        })
    }
}

/// La acción de un paso de desconexión.
pub(crate) proof fn lema_accion_cierre(p: Programa, s: EstadoV, base: Base, regla: Regla)
    requires
        s.fase == Fase::Ejecuta,
        p.pasos[s.pc] == desconectar(base, regla),
    ensures
        p.accion(s) == (AccionV::Llamar {
            funcion: "DBDisconnect"@,
            args: seq![ArgumentoV::Entero(s.regs.valor(base.db()))],
        }),
{
    assert(argumentos(seq![OperandoV::Registro(base.db())], s.regs) =~= seq![
        ArgumentoV::Entero(s.regs.valor(base.db())),
    ]);
}

/// Un paso de cierre que se intentó después de abrir la conexión cierra esa
/// conexión.
proof fn lema_cierra(
    p: Programa,
    e: EstadoV,
    rs: Seq<RespuestaV>,
    i: int,
    k: int,
    base: Base,
    regla: Regla,
) -> (j: int)
    requires
        p.valido(),
        p.cierre_posible(),
        recto(p),
        p.coherente(e),
        p.corresponden(e, rs),
        p.correr(e, rs).fase == Fase::Fin,
        0 <= i < rs.len(),
        p.en(e, rs, i).pc < k < p.pasos.len(),
        p.pasos[k] == desconectar(base, regla),
        p.intento(e, rs, k),
        forall|q: int|
            p.en(e, rs, i).pc <= q < p.pasos.len() ==> !escribe(#[trigger] p.pasos[q], base.db()),
    ensures
        i < j,
        p.cerro(e, rs, j, p.en(e, rs, i).regs.valor(base.db())),
{
    let j = lema_momento(p, e, rs, k);
    if j <= i {
        lema_crecen(p, e, rs, j, i);
    }
    lema_registro_estable(p, e, rs, i, j, base.db());
    lema_accion_cierre(p, p.en(e, rs, j), base, regla);
    j
}

/// El handle con que se conecta un paso.
proof fn lema_handle(
    p: Programa,
    s: EstadoV,
    base: Base,
    path: Seq<char>,
    usuario: Seq<char>,
    password: Seq<char>,
)
    requires
        s.fase == Fase::Ejecuta,
        p.pasos[s.pc] == conectar(base, path, usuario, password)[7],
    ensures
        p.accion(s)->args[0] == ArgumentoV::Entero(s.regs.valor(base.db())),
{
}

/// Las conexiones de un crédito se cierran pase lo que pase: a cada
/// `DBConnect` que tuvo éxito en un alta que terminó le sigue el intento de
/// desconectar ese mismo handle.
pub proof fn ley_credito_conexiones(
    memoria: MicrosipState,
    db_path: Seq<char>,
    usuario: Seq<char>,
    password: Seq<char>,
    metadatos: Option<Seq<char>>,
    p: CreditoParams,
    rs: Seq<RespuestaV>,
    i: int,
    h: i32,
)
    requires
        ({
            let pr = programa_credito(memoria, db_path, usuario, password, metadatos, p);
            let e = pr.inicio(memoria);
            pr.corresponden(e, rs) && pr.correr(e, rs).fase == Fase::Fin && pr.abrio(e, rs, i, h)
        }),
    ensures
        ({
            let pr = programa_credito(memoria, db_path, usuario, password, metadatos, p);
            exists|j: int| i < j && #[trigger] pr.cerro(pr.inicio(memoria), rs, j, h)
        }),
{
    let pr = programa_credito(memoria, db_path, usuario, password, metadatos, p);
    let e = pr.inicio(memoria);
    let s = pr.correr(e, rs);
    ley_credito_valido(memoria, db_path, usuario, password, metadatos, p);
    ley_inicio_coherente(pr, memoria);
    lema_en(pr, e, rs, i);
    lema_extremos(pr, e, rs);
    let a = pr.en(e, rs, i);
    let b = pr.en(e, rs, i + 1);
    let n = pr.pasos.len() - 1;
    assert forall|k: int| 0 <= k < pr.pasos.len() implies (escribe(
        #[trigger] pr.pasos[k],
        Registro::EmpresaDb,
    ) ==> k == pr.cuerpo - 3) && (escribe(pr.pasos[k], Registro::MetadatosDb) ==> k == paso_abre(pr)
        - 2) && (escribe(pr.pasos[k], Registro::MetadatosAbierta) ==> k == paso_abre(pr)) by {
        lema_credito_llamadas(memoria, db_path, usuario, password, metadatos, p, k);
    }
    lema_credito_llamadas(memoria, db_path, usuario, password, metadatos, p, a.pc);
    lema_credito_llamadas(memoria, db_path, usuario, password, metadatos, p, n);
    lema_credito_llamadas(memoria, db_path, usuario, password, metadatos, p, pr.cierre);
    assert(a.falla is None);
    lema_avanza_al_abrir(pr, a);
    lema_crecen(pr, e, rs, i + 1, rs.len() as int);
    assert(s.pc >= pr.cuerpo);
    lema_credito_omite(memoria, db_path, usuario, password, metadatos, p, s.regs);
    if s.falla is None {
        ley_exito(pr, memoria, rs, 0);
    } else {
        ley_falla(pr, memoria, rs);
    }
    if a.pc == pr.cuerpo - 1 {
        lema_handle(pr, a, Base::Empresa, db_path, usuario, password);
        assert(!pr.omitido(s.regs, n));
        assert(pr.intento(e, rs, n));
        let j = lema_cierra(
            pr,
            e,
            rs,
            i,
            n,
            Base::Empresa,
            Regla::Desconecta { estricta: false },
        );
        assert(pr.cerro(e, rs, j, h));
    } else {
        lema_handle(pr, a, Base::Metadatos, metadatos->0, usuario, password);
        assert(b.regs.metadatos_abierta == 1);
        lema_registro_estable(pr, e, rs, i + 1, rs.len() as int, Registro::MetadatosAbierta);
        assert(!pr.omitido(s.regs, pr.cierre));
        assert(pr.intento(e, rs, pr.cierre));
        let j = lema_cierra(
            pr,
            e,
            rs,
            i,
            pr.cierre,
            Base::Metadatos,
            Regla::DesconectaAbierta(Registro::MetadatosAbierta),
        );
        assert(pr.cerro(e, rs, j, h));
    }
}

/// El chequeo de compatibilidad de Ventas: tras su respuesta, sea la que sea,
/// lo que sigue es desconectar Metadatos.
pub(crate) proof fn lema_tras_chequeo(
    memoria: MicrosipState,
    db_path: Seq<char>,
    usuario: Seq<char>,
    password: Seq<char>,
    metadatos: Option<Seq<char>>,
    reglas: (i32, i32),
    p: FacturaParams,
    rs: Seq<RespuestaV>,
    i: int,
)
    requires
        ({
            let pr = programa_factura(memoria, db_path, usuario, password, metadatos, reglas, p);
            let e = pr.inicio(memoria);
            pr.corresponden(e, rs) && pr.invoca(e, rs, i, "ChecaCompatibilidadVentas"@)
        }),
    ensures
        ({
            let pr = programa_factura(memoria, db_path, usuario, password, metadatos, reglas, p);
            let e = pr.inicio(memoria);
            let b = pr.en(e, rs, i + 1);
            &&& rs[i] is Codigo
            &&& pr.en(e, rs, i).pc == paso_metadatos(pr) + 1
            &&& b.pc == paso_metadatos(pr) + 2
            &&& b.fase == Fase::Ejecuta
            &&& b.falla is None
            &&& b.memoria == pr.en(e, rs, i).memoria
            &&& b.regs.compatibilidad == rs[i]->Codigo_0
            &&& b.regs.metadatos_db == pr.en(e, rs, i).regs.metadatos_db
            &&& pr.pasos[b.pc] == desconectar(Base::Metadatos, Regla::DesconectaYVerifica)
        }),
{
    let pr = programa_factura(memoria, db_path, usuario, password, metadatos, reglas, p);
    let e = pr.inicio(memoria);
    ley_factura_valida(memoria, db_path, usuario, password, metadatos, reglas, p);
    ley_factura_orden(memoria, db_path, usuario, password, metadatos, reglas, p);
    ley_inicio_coherente(pr, memoria);
    lema_en(pr, e, rs, i);
    let a = pr.en(e, rs, i);
    let d = paso_metadatos(pr) + 2;
    lema_factura_llamadas(memoria, db_path, usuario, password, metadatos, reglas, p, a.pc);
    lema_factura_llamadas(memoria, db_path, usuario, password, metadatos, reglas, p, d);
    reveal(Programa::recibir);
    lema_desconectar_posible(Base::Metadatos, Regla::DesconectaYVerifica);
    assert(pr.paso_valido(d));
    assert(rs[i] is Codigo);
    let f = EstadoV {
        regs: a.regs.con_valor(Registro::Compatibilidad, rs[i]->Codigo_0),
        ..a
    };
    assert(d < pr.al_fallar);
    assert(a.falla is None);
    lema_entrar(pr, f, d);
}

/// Las conexiones de una factura se cierran pase lo que pase: a cada
/// `DBConnect` que tuvo éxito en un alta que terminó le sigue el intento de
/// desconectar ese mismo handle.
pub proof fn ley_factura_conexiones(
    memoria: MicrosipState,
    db_path: Seq<char>,
    usuario: Seq<char>,
    password: Seq<char>,
    metadatos: Option<Seq<char>>,
    reglas: (i32, i32),
    p: FacturaParams,
    rs: Seq<RespuestaV>,
    i: int,
    h: i32,
)
    requires
        ({
            let pr = programa_factura(memoria, db_path, usuario, password, metadatos, reglas, p);
            let e = pr.inicio(memoria);
            pr.corresponden(e, rs) && pr.correr(e, rs).fase == Fase::Fin && pr.abrio(e, rs, i, h)
        }),
    ensures
        ({
            let pr = programa_factura(memoria, db_path, usuario, password, metadatos, reglas, p);
            exists|j: int| i < j && #[trigger] pr.cerro(pr.inicio(memoria), rs, j, h)
        }),
{
    let pr = programa_factura(memoria, db_path, usuario, password, metadatos, reglas, p);
    let e = pr.inicio(memoria);
    let s = pr.correr(e, rs);
    ley_factura_valida(memoria, db_path, usuario, password, metadatos, reglas, p);
    lema_factura_lineal(memoria, db_path, usuario, password, metadatos, reglas, p);
    ley_factura_orden(memoria, db_path, usuario, password, metadatos, reglas, p);
    ley_inicio_coherente(pr, memoria);
    lema_en(pr, e, rs, i);
    lema_extremos(pr, e, rs);
    let a = pr.en(e, rs, i);
    let b = pr.en(e, rs, i + 1);
    let n = pr.pasos.len() - 1;
    lema_factura_llamadas(memoria, db_path, usuario, password, metadatos, reglas, p, a.pc);
    assert(a.falla is None);
    lema_avanza_al_abrir(pr, a);
    lema_crecen(pr, e, rs, i + 1, rs.len() as int);
    if a.pc == pr.cuerpo - 1 {
        assert(s.pc >= pr.cuerpo);
        assert forall|k: int| 0 <= k < pr.pasos.len() implies (escribe(
            #[trigger] pr.pasos[k],
            Registro::EmpresaDb,
        ) ==> k == pr.cuerpo - 3) by {
            lema_factura_llamadas(memoria, db_path, usuario, password, metadatos, reglas, p, k);
        }
        if s.falla is None {
            ley_exito(pr, memoria, rs, 0);
        } else {
            ley_falla(pr, memoria, rs);
        }
        lema_handle(pr, a, Base::Empresa, db_path, usuario, password);
        assert(!pr.omitido(s.regs, n));
        assert(pr.intento(e, rs, n));
        let j = lema_cierra(
            pr,
            e,
            rs,
            i,
            n,
            Base::Empresa,
            Regla::Desconecta { estricta: false },
        );
        assert(pr.cerro(e, rs, j, h));
    } else {
        let d = paso_metadatos(pr) + 1;
        lema_handle(pr, a, Base::Metadatos, metadatos->0, usuario, password);
        lema_factura_llamadas(memoria, db_path, usuario, password, metadatos, reglas, p, d);
        lema_registro(pr, a, rs[i], Registro::MetadatosDb);
        reveal_with_fuel(error_de_operandos, 3);
        assert(error_de_paso(pr.pasos[d]) is None);
        assert(b.pc == d && b.fase == Fase::Ejecuta);
        assert(i + 1 < rs.len());
        assert(pr.invoca(e, rs, i + 1, "ChecaCompatibilidadVentas"@));
        lema_tras_chequeo(
            memoria,
            db_path,
            usuario,
            password,
            metadatos,
            reglas,
            p,
            rs,
            i + 1,
        );
        assert(i + 2 < rs.len());
        lema_accion_cierre(
            pr,
            pr.en(e, rs, i + 2),
            Base::Metadatos,
            Regla::DesconectaYVerifica,
        );
        assert(pr.cerro(e, rs, i + 2, h));
    }
}

/// Tras abrir una conexión se entra al paso siguiente, o al tramo de falla.
proof fn lema_avanza_al_abrir(p: Programa, a: EstadoV)
    requires
        p.valido(),
        p.cierre_posible(),
        p.coherente(a),
        a.fase == Fase::Ejecuta,
        a.pc + 1 < p.al_fallar,
        a.falla is None,
        p.pasos[a.pc] matches PasoV::Llama { regla, .. } && (regla is Abre || regla == Regla::Cero(
            Modulo::Basica,
        )),
    ensures
        ({
            let b = p.recibir(a, RespuestaV::Codigo(0));
            &&& b.pc > a.pc
            &&& p.pasos[a.pc] matches PasoV::Llama { regla: Regla::Abre(reg), .. } ==> b.regs.valor(
                reg,
            ) == 1
            &&& b.falla is None ==> b.pc == a.pc + 1 && b.fase == Fase::Ejecuta
            &&& error_de_paso(p.pasos[a.pc + 1]) is None ==> b.falla is None
        }),
{
    reveal(Programa::recibir);
    let d = a.pc + 1;
    assert(p.paso_valido(d));
    match p.pasos[a.pc] {
        PasoV::Llama { regla: Regla::Abre(reg), .. } => {
            let f = EstadoV { regs: a.regs.con_valor(reg, 1), ..a };
            lema_entrar(p, f, d);
            lema_saltar(p, f.regs, p.al_fallar);
        },
        _ => {
            lema_entrar(p, a, d);
            lema_saltar(p, a.regs, p.al_fallar);
        },
    }
}

} // verus!
