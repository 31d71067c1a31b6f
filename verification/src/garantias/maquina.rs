//! La máquina que ejecuta un guion: qué argumentos entrega, qué cuenta como
//! éxito de cada llamada, qué se guarda y con qué error se falla.

use vstd::prelude::*;

use crate::cadena::{texto_de_bufer, texto_debug, windows_1252};
use crate::error::ErrorV;
use crate::microsip::fila::FilaV;
use crate::microsip::maquina::{
    error_de_operandos, error_de_paso, error_nativo, EstadoV, Fase, MicrosipState, Programa,
};
use crate::microsip::nativo::{
    AccionV, ArgumentoV, Exige, Modulo, OperandoV, PasoV, Registro, Registros, Regla, RespuestaV,
};
use crate::texto::{entero_texto, leer_i64, recortado};

verus! {

/// Cada registro guarda lo último que se puso en él; poner uno no cambia los
/// demás.
pub proof fn ley_registros(regs: Registros, a: Registro, b: Registro, v: i32)
    ensures
        regs.con_valor(a, v).valor(a) == v,
        a != b ==> regs.con_valor(a, v).valor(b) == regs.valor(b),
        Registros::en_cero().valor(a) == 0,
        regs.valor(Registro::Documento) == regs.documento,
        regs.valor(Registro::Lista) == regs.lista,
        regs.valor(Registro::Compatibilidad) == regs.compatibilidad,
{
}

/// Una llamada entrega un argumento por operando, en su orden: los números como
/// están, los registros por lo que guardan, los textos en UTF-8 y los textos
/// ANSI en Windows-1252.
pub proof fn ley_argumentos(pr: Programa, e: EstadoV, i: int)
    requires
        0 <= e.pc < pr.pasos.len(),
        e.fase == Fase::Ejecuta,
        pr.pasos[e.pc] is Llama,
        0 <= i < pr.pasos[e.pc]->args.len(),
    ensures
        pr.accion(e) matches AccionV::Llamar { funcion, args } && funcion
            == pr.pasos[e.pc]->funcion && args.len() == pr.pasos[e.pc]->args.len() && match (
            pr.pasos[e.pc]->args[i],
            args[i],
        ) {
            (OperandoV::Entero(n), ArgumentoV::Entero(m)) => m == n,
            (OperandoV::Doble(d), ArgumentoV::Doble(f)) => f == d,
            (OperandoV::Decimal(d), ArgumentoV::Decimal(f)) => f == d,
            (OperandoV::Registro(r), ArgumentoV::Entero(m)) => m == e.regs.valor(r),
            (OperandoV::Texto(s), ArgumentoV::Texto(b)) => b == vstd::utf8::encode_utf8(s),
            (OperandoV::Ansi(s), ArgumentoV::Texto(b)) => b == windows_1252(s),
            _ => false,
        },
{
}

/// Lo que se pide en cada momento: localizar el símbolo del paso, entregar la
/// fila, pedir el mensaje al módulo cuya llamada falló, o terminar.
pub proof fn ley_acciones(pr: Programa, e: EstadoV)
    requires
        0 <= e.pc < pr.pasos.len(),
    ensures
        e.fase == Fase::Fin ==> pr.accion(e) is Terminar,
        e.fase matches Fase::Mensaje { modulo, codigo } ==> pr.accion(e) == AccionV::PedirMensaje(
            modulo,
        ),
        e.fase == Fase::Ejecuta ==> (pr.pasos[e.pc] matches PasoV::Resuelve { simbolo, previos }
            ==> pr.accion(e) == AccionV::Resolver(simbolo)),
        e.fase == Fase::Ejecuta && pr.pasos[e.pc] is EntregaFila ==> pr.accion(e) is EntregarFila,
{
}

/// Ningún texto de los operandos trae un NUL.
pub open spec fn sin_nul(ops: Seq<OperandoV>) -> bool {
    forall|i: int|
        0 <= i < ops.len() ==> match #[trigger] ops[i] {
            OperandoV::Texto(s) => !s.contains('\0'),
            OperandoV::Ansi(s) => !s.contains('\0'),
            _ => true,
        }
}

/// El paso `d` se puede intentar: sus textos no traen NUL y, si cierra una
/// conexión que se anota, está abierta.
pub open spec fn intentable(pr: Programa, regs: Registros, d: int) -> bool {
    0 <= d < pr.pasos.len() && match pr.pasos[d] {
        PasoV::Resuelve { previos, .. } => sin_nul(previos),
        PasoV::Llama { previos, args, regla, .. } => sin_nul(previos) && sin_nul(args) && match regla {
            Regla::DesconectaAbierta(r) => regs.valor(r) != 0,
            _ => true,
        },
        PasoV::EntregaFila => true,
        PasoV::Rechaza(_) => false,
    }
}

proof fn lema_sin_nul(ops: Seq<OperandoV>)
    requires
        sin_nul(ops),
    ensures
        error_de_operandos(ops) is None,
    decreases ops.len(),
{
    if ops.len() > 0 {
        let t = ops.drop_first();
        assert forall|i: int| 0 <= i < t.len() implies match #[trigger] t[i] {
            OperandoV::Texto(s) => !s.contains('\0'),
            OperandoV::Ansi(s) => !s.contains('\0'),
            _ => true,
        } by {
            assert(t[i] == ops[i + 1]);
        }
        lema_sin_nul(t);
        assert(match ops[0] {
            OperandoV::Texto(s) => !s.contains('\0'),
            OperandoV::Ansi(s) => !s.contains('\0'),
            _ => true,
        });
    }
}

proof fn lema_intentable(pr: Programa, e: EstadoV, d: int)
    ensures
        intentable(pr, e.regs, d) ==> pr.entrar(e, d) == (EstadoV { pc: d, fase: Fase::Ejecuta, ..e }),
        d >= pr.pasos.len() ==> pr.entrar(e, d) == (EstadoV {
            pc: pr.pasos.len() as int,
            fase: Fase::Fin,
            ..e
        }),
{
    if intentable(pr, e.regs, d) {
        match pr.pasos[d] {
            PasoV::Resuelve { previos, .. } => {
                lema_sin_nul(previos);
            },
            PasoV::Llama { previos, args, .. } => {
                lema_sin_nul(previos);
                lema_sin_nul(args);
            },
            _ => {},
        }
    }
}

/// El primer texto con NUL de unos operandos es el que el error cita.
pub proof fn ley_nul_citado(ops: Seq<OperandoV>, i: int, s: Seq<char>)
    requires
        0 <= i < ops.len(),
        ops[i] == OperandoV::Texto(s) || ops[i] == OperandoV::Ansi(s),
        s.contains('\0'),
        sin_nul(ops.take(i)),
    ensures
        error_de_operandos(ops) == Some(
            ErrorV::Validation("string con NUL interno: "@ + texto_debug(s)),
        ),
    decreases i,
{
    if i > 0 {
        let t = ops.drop_first();
        assert(t[i - 1] == ops[i]);
        assert(ops.take(i)[0] == ops[0]);
        assert forall|j: int| 0 <= j < i - 1 implies match #[trigger] t.take(i - 1)[j] {
            OperandoV::Texto(s) => !s.contains('\0'),
            OperandoV::Ansi(s) => !s.contains('\0'),
            _ => true,
        } by {
            assert(t.take(i - 1)[j] == ops.take(i)[j + 1]);
        }
        ley_nul_citado(t, i - 1, s);
    }
}

/// Después del paso `k` con éxito se pasa al paso `d` sin falla nueva, con esos
/// registros, esa memoria y esa fila; si no hay paso `d`, se termina.
pub open spec fn pasa_a(
    pr: Programa,
    e: EstadoV,
    f: EstadoV,
    d: int,
    regs: Registros,
    memoria: MicrosipState,
    fila: FilaV,
) -> bool {
    (intentable(pr, regs, d) || d >= pr.pasos.len()) ==> {
        &&& f.regs == regs
        &&& f.memoria == memoria
        &&& f.fila == fila
        &&& f.falla == e.falla
        &&& d < pr.pasos.len() ==> f.pc == d && f.fase == Fase::Ejecuta
        &&& d >= pr.pasos.len() ==> f.pc == pr.pasos.len() && f.fase == Fase::Fin
    }
}

/// El paso que sigue a `k`: el siguiente, salvo que el cuerpo se acabe, cuando se
/// va al cierre sin abortar.
pub open spec fn siguiente(pr: Programa, k: int) -> int {
    if k == pr.al_fallar - 1 {
        pr.cierre
    } else {
        k + 1
    }
}

/// La llamada falló con `codigo`: se pide el mensaje a `modulo` y nada más
/// cambia.
pub open spec fn pide_mensaje(e: EstadoV, f: EstadoV, modulo: Modulo, codigo: i32) -> bool {
    &&& f.fase == (Fase::Mensaje { modulo, codigo })
    &&& f.pc == e.pc
    &&& f.regs == e.regs
    &&& f.memoria == e.memoria
    &&& f.falla == e.falla
    &&& f.fila == e.fila
}

/// El guion falló en el paso actual con `err`: antes del cuerpo termina ahí; en
/// el cuerpo va a abortar, o derecho al cierre si aún no hay qué abortar.
pub open spec fn falla_con(pr: Programa, e: EstadoV, f: EstadoV, err: ErrorV) -> bool {
    &&& e.pc < pr.cuerpo ==> f.fase == Fase::Fin && f.falla == Some(err)
    &&& pr.cuerpo <= e.pc < pr.aborta && intentable(pr, e.regs, pr.cierre) ==> f.falla == Some(err)
        && f.fase == Fase::Ejecuta && f.pc == pr.cierre
    &&& pr.aborta <= e.pc < pr.al_fallar && intentable(pr, e.regs, pr.al_fallar) ==> f.falla
        == Some(err) && f.fase == Fase::Ejecuta && f.pc == pr.al_fallar
    &&& e.pc < pr.cuerpo || intentable(pr, e.regs, pr.cierre) && intentable(
        pr,
        e.regs,
        pr.al_fallar,
    ) ==> f.regs == e.regs && f.memoria == e.memoria
}

/// La máquina espera el resultado de una llamada con esa regla.
pub open spec fn espera_regla(pr: Programa, e: EstadoV, regla: Regla) -> bool {
    &&& pr.valido()
    &&& 0 <= e.pc < pr.pasos.len()
    &&& e.fase == Fase::Ejecuta
    &&& pr.pasos[e.pc] matches PasoV::Llama { regla: q, .. } && q == regla
}

/// De una llamada que regresa un código de error, solo 0 es éxito: cualquier
/// otro código lleva a pedir el mensaje del módulo. El código de una llamada que
/// nadie mira no cambia nada.
pub proof fn ley_codigo(pr: Programa, e: EstadoV, m: Modulo, c: i32)
    ensures
        espera_regla(pr, e, Regla::Cero(m)) && c == 0 ==> pasa_a(
            pr,
            e,
            pr.recibir(e, RespuestaV::Codigo(c)),
            siguiente(pr, e.pc),
            e.regs,
            e.memoria,
            e.fila,
        ),
        espera_regla(pr, e, Regla::Cero(m)) && c != 0 ==> pide_mensaje(
            e,
            pr.recibir(e, RespuestaV::Codigo(c)),
            m,
            c,
        ),
        espera_regla(pr, e, Regla::Ignora) ==> pasa_a(
            pr,
            e,
            pr.recibir(e, RespuestaV::Codigo(c)),
            siguiente(pr, e.pc),
            e.regs,
            e.memoria,
            e.fila,
        ),
{
    reveal(Programa::recibir);
    lema_intentable(pr, e, siguiente(pr, e.pc));
}

/// Un handle es éxito si y solo si es positivo, y entonces queda en su registro;
/// el de la lista de parámetros, además, en la memoria del proceso.
pub proof fn ley_handle(
    pr: Programa,
    e: EstadoV,
    registro: Registro,
    m: Modulo,
    con_valor: bool,
    c: i32,
)
    ensures
        espera_regla(pr, e, Regla::Handle { registro, modulo: m, con_valor }) && c > 0 ==> pasa_a(
            pr,
            e,
            pr.recibir(e, RespuestaV::Codigo(c)),
            siguiente(pr, e.pc),
            e.regs.con_valor(registro, c),
            e.memoria,
            e.fila,
        ),
        espera_regla(pr, e, Regla::Handle { registro, modulo: m, con_valor }) && c <= 0
            ==> pide_mensaje(e, pr.recibir(e, RespuestaV::Codigo(c)), m, c),
        espera_regla(pr, e, Regla::ListaNueva(m)) && c > 0 ==> pasa_a(
            pr,
            e,
            pr.recibir(e, RespuestaV::Codigo(c)),
            siguiente(pr, e.pc),
            e.regs.con_valor(Registro::Lista, c),
            (MicrosipState { pl_handle: Some(c), ..e.memoria }),
            e.fila,
        ),
        espera_regla(pr, e, Regla::ListaNueva(m)) && c <= 0 ==> pide_mensaje(
            e,
            pr.recibir(e, RespuestaV::Codigo(c)),
            m,
            c,
        ),
{
    reveal(Programa::recibir);
    let d = siguiente(pr, e.pc);
    lema_intentable(pr, EstadoV { regs: e.regs.con_valor(registro, c), ..e }, d);
    lema_intentable(
        pr,
        EstadoV {
            regs: e.regs.con_valor(Registro::Lista, c),
            memoria: MicrosipState { pl_handle: Some(c), ..e.memoria },
            ..e
        },
        d,
    );
}

/// Una conexión está viva si y solo si `DBConnected` dice 1; una que se anota
/// queda anotada con 1 si y solo si se abrió con código 0.
pub proof fn ley_conexion_viva(pr: Programa, e: EstadoV, registro: Registro, c: i32)
    ensures
        espera_regla(pr, e, Regla::Conectada) && c == 1 ==> pasa_a(
            pr,
            e,
            pr.recibir(e, RespuestaV::Codigo(c)),
            siguiente(pr, e.pc),
            e.regs,
            e.memoria,
            e.fila,
        ),
        espera_regla(pr, e, Regla::Conectada) && c != 1 ==> falla_con(
            pr,
            e,
            pr.recibir(e, RespuestaV::Codigo(c)),
            ErrorV::Connection("DBConnect retornó éxito pero DBConnected reporta desconectado"@),
        ),
        espera_regla(pr, e, Regla::Abre(registro)) && c == 0 ==> pasa_a(
            pr,
            e,
            pr.recibir(e, RespuestaV::Codigo(c)),
            siguiente(pr, e.pc),
            e.regs.con_valor(registro, 1),
            e.memoria,
            e.fila,
        ),
        espera_regla(pr, e, Regla::Abre(registro)) && c != 0 ==> pide_mensaje(
            e,
            pr.recibir(e, RespuestaV::Codigo(c)),
            Modulo::Basica,
            c,
        ),
{
    reveal(Programa::recibir);
    let d = siguiente(pr, e.pc);
    lema_intentable(pr, e, d);
    lema_intentable(pr, EstadoV { regs: e.regs.con_valor(registro, 1), ..e }, d);
    if 0 <= e.pc < pr.pasos.len() {
        lema_fallar(
            pr,
            e,
            ErrorV::Connection("DBConnect retornó éxito pero DBConnected reporta desconectado"@),
        );
    }
}

proof fn lema_fallar(pr: Programa, e: EstadoV, err: ErrorV)
    requires
        0 <= e.pc < pr.pasos.len(),
    ensures
        pr.valido() ==> falla_con(pr, e, pr.fallar(e, err), err),
{
    let g = EstadoV { falla: Some(err), ..e };
    lema_intentable(pr, g, pr.cierre);
    lema_intentable(pr, g, pr.al_fallar);
    let h = EstadoV { falla: pr.falla_tras(e.falla, e.pc, err), ..e };
    lema_intentable(pr, h, pr.destino_falla(e.pc));
    if pr.valido() && e.pc >= pr.al_fallar && intentable(pr, e.regs, pr.cierre) && intentable(
        pr,
        e.regs,
        pr.al_fallar,
    ) {
        lema_entrar_conserva(pr, h, pr.destino_falla(e.pc));
    }
}

proof fn lema_entrar_conserva(pr: Programa, e: EstadoV, d: int)
    ensures
        pr.valido() && d >= 0 ==> pr.entrar(e, d).regs == e.regs && pr.entrar(e, d).memoria == e.memoria,
    decreases
            if d <= pr.pasos.len() {
                pr.pasos.len() - d
            } else {
                0
            },
{
    if pr.valido() && 0 <= d < pr.pasos.len() {
        if pr.omitido(e.regs, d) {
            lema_entrar_conserva(pr, e, d + 1);
        } else {
            match error_de_paso(pr.pasos[d]) {
                None => {},
                Some(err) => {
                    if d >= pr.cuerpo {
                        lema_entrar_conserva(
                            pr,
                            EstadoV { falla: pr.falla_tras(e.falla, d, err), ..e },
                            pr.destino_falla(d),
                        );
                    }
                },
            }
        }
    }
}

/// La compatibilidad de Ventas se juzga por el código que se difirió, después de
/// desconectar y sin importar cómo salga la desconexión; con 0 queda chequeada
/// para el resto del proceso. La de Cxc se juzga al momento.
pub proof fn ley_compatibilidad(pr: Programa, e: EstadoV, c: i32)
    ensures
        espera_regla(pr, e, Regla::Difiere) ==> pasa_a(
            pr,
            e,
            pr.recibir(e, RespuestaV::Codigo(c)),
            siguiente(pr, e.pc),
            e.regs.con_valor(Registro::Compatibilidad, c),
            e.memoria,
            e.fila,
        ),
        espera_regla(pr, e, Regla::DesconectaYVerifica) && c == 0 && e.regs.compatibilidad == 0
            ==> pasa_a(
            pr,
            e,
            pr.recibir(e, RespuestaV::Codigo(c)),
            siguiente(pr, e.pc),
            e.regs,
            (MicrosipState { compatibilidad_ventas_checada: true, ..e.memoria }),
            e.fila,
        ),
        espera_regla(pr, e, Regla::DesconectaYVerifica) && c == 0 && e.regs.compatibilidad != 0
            ==> pide_mensaje(
            e,
            pr.recibir(e, RespuestaV::Codigo(c)),
            Modulo::Ventas,
            e.regs.compatibilidad,
        ),
        espera_regla(pr, e, Regla::DesconectaYVerifica) && c != 0 ==> pide_mensaje(
            e,
            pr.recibir(e, RespuestaV::Codigo(c)),
            Modulo::Basica,
            c,
        ),
        espera_regla(pr, e, Regla::CompatibleCxc) && c == 0 ==> pasa_a(
            pr,
            e,
            pr.recibir(e, RespuestaV::Codigo(c)),
            siguiente(pr, e.pc),
            e.regs,
            (MicrosipState { compatibilidad_cxc_checada: true, ..e.memoria }),
            e.fila,
        ),
        espera_regla(pr, e, Regla::CompatibleCxc) && c != 0 ==> pide_mensaje(
            e,
            pr.recibir(e, RespuestaV::Codigo(c)),
            Modulo::Cxc,
            c,
        ),
{
    reveal(Programa::recibir);
    let d = siguiente(pr, e.pc);
    lema_intentable(pr, EstadoV { regs: e.regs.con_valor(Registro::Compatibilidad, c), ..e }, d);
    lema_intentable(
        pr,
        EstadoV {
            memoria: MicrosipState { compatibilidad_ventas_checada: true, ..e.memoria },
            ..e
        },
        d,
    );
    lema_intentable(
        pr,
        EstadoV {
            memoria: MicrosipState { compatibilidad_cxc_checada: true, ..e.memoria },
            ..e
        },
        d,
    );
}

/// Si la propia desconexión de Metadatos falla, por su código o porque falta el
/// símbolo, la falla se ignora y se juzga el código diferido.
pub proof fn ley_compatibilidad_pese_a_desconexion(
    pr: Programa,
    e: EstadoV,
    c: i32,
    m: Option<Seq<u8>>,
    motivo: Seq<char>,
)
    requires
        pr.valido(),
        0 <= e.pc < pr.pasos.len(),
        pr.pasos[e.pc] matches PasoV::Llama { regla, .. } && regla == Regla::DesconectaYVerifica,
    ensures
        e.fase == (Fase::Mensaje { modulo: Modulo::Basica, codigo: c }) && e.regs.compatibilidad
            == 0 ==> pasa_a(
            pr,
            e,
            pr.recibir(e, RespuestaV::Mensaje(m)),
            siguiente(pr, e.pc),
            e.regs,
            (MicrosipState { compatibilidad_ventas_checada: true, ..e.memoria }),
            e.fila,
        ),
        e.fase == (Fase::Mensaje { modulo: Modulo::Basica, codigo: c }) && e.regs.compatibilidad
            != 0 ==> pide_mensaje(
            e,
            pr.recibir(e, RespuestaV::Mensaje(m)),
            Modulo::Ventas,
            e.regs.compatibilidad,
        ),
        e.fase == Fase::Ejecuta && e.regs.compatibilidad == 0 ==> pasa_a(
            pr,
            e,
            pr.recibir(e, RespuestaV::NoResuelto(motivo)),
            siguiente(pr, e.pc),
            e.regs,
            (MicrosipState { compatibilidad_ventas_checada: true, ..e.memoria }),
            e.fila,
        ),
        e.fase == Fase::Ejecuta && e.regs.compatibilidad != 0 ==> pide_mensaje(
            e,
            pr.recibir(e, RespuestaV::NoResuelto(motivo)),
            Modulo::Ventas,
            e.regs.compatibilidad,
        ),
{
    reveal(Programa::recibir);
    lema_intentable(
        pr,
        EstadoV {
            memoria: MicrosipState { compatibilidad_ventas_checada: true, ..e.memoria },
            ..e
        },
        siguiente(pr, e.pc),
    );
}

/// El recorrido de las filas: con 0 `DtstEof` dice que hay otra, con cualquier
/// otro valor se acabó; `DtstNext` regresa al inicio solo con código 0.
pub proof fn ley_recorrido(pr: Programa, e: EstadoV, n: usize, c: i32)
    ensures
        espera_regla(pr, e, Regla::FinDeDatos { fin: n }) && c == 0 ==> pasa_a(
            pr,
            e,
            pr.recibir(e, RespuestaV::Codigo(c)),
            siguiente(pr, e.pc),
            e.regs,
            e.memoria,
            e.fila,
        ),
        espera_regla(pr, e, Regla::FinDeDatos { fin: n }) && c != 0 ==> pasa_a(
            pr,
            e,
            pr.recibir(e, RespuestaV::Codigo(c)),
            n as int,
            e.regs,
            e.memoria,
            e.fila,
        ),
        espera_regla(pr, e, Regla::Siguiente { inicio: n }) && c == 0 ==> pasa_a(
            pr,
            e,
            pr.recibir(e, RespuestaV::Codigo(c)),
            n as int,
            e.regs,
            e.memoria,
            e.fila,
        ),
        espera_regla(pr, e, Regla::Siguiente { inicio: n }) && c != 0 ==> pide_mensaje(
            e,
            pr.recibir(e, RespuestaV::Codigo(c)),
            Modulo::Basica,
            c,
        ),
{
    reveal(Programa::recibir);
    lema_intentable(pr, e, siguiente(pr, e.pc));
    lema_intentable(pr, e, n as int);
}

/// Desconectar es éxito con código 0; con otro se pide el mensaje de la básica.
pub proof fn ley_desconexion(pr: Programa, e: EstadoV, estricta: bool, r: Registro, c: i32)
    ensures
        (espera_regla(pr, e, Regla::Desconecta { estricta }) || espera_regla(
            pr,
            e,
            Regla::DesconectaAbierta(r),
        )) && c == 0 ==> pasa_a(
            pr,
            e,
            pr.recibir(e, RespuestaV::Codigo(c)),
            siguiente(pr, e.pc),
            e.regs,
            e.memoria,
            e.fila,
        ),
        (espera_regla(pr, e, Regla::Desconecta { estricta }) || espera_regla(
            pr,
            e,
            Regla::DesconectaAbierta(r),
        )) && c != 0 ==> pide_mensaje(
            e,
            pr.recibir(e, RespuestaV::Codigo(c)),
            Modulo::Basica,
            c,
        ),
{
    reveal(Programa::recibir);
    lema_intentable(pr, e, siguiente(pr, e.pc));
}

/// Pedir el identificador del documento es éxito con código 0, y el
/// identificador es el valor que salió; con otro código se pide el mensaje.
pub proof fn ley_documento(pr: Programa, e: EstadoV, m: Modulo, rc: i32, valor: i32)
    ensures
        espera_regla(pr, e, Regla::Documento(m)) && rc == 0 ==> pasa_a(
            pr,
            e,
            pr.recibir(e, RespuestaV::Entero { rc, valor }),
            siguiente(pr, e.pc),
            e.regs.con_valor(Registro::Documento, valor),
            e.memoria,
            e.fila,
        ),
        espera_regla(pr, e, Regla::Documento(m)) && rc != 0 ==> pide_mensaje(
            e,
            pr.recibir(e, RespuestaV::Entero { rc, valor }),
            m,
            rc,
        ),
{
    reveal(Programa::recibir);
    lema_intentable(
        pr,
        EstadoV { regs: e.regs.con_valor(Registro::Documento, valor), ..e },
        siguiente(pr, e.pc),
    );
}

/// El texto de un campo se agrega a la fila con su nombre, su código y su búfer
/// tal como llegaron. Los demás campos se siguen leyendo si no se exigía nada de
/// este, o si se leyó con código 0 y, cuando debía ser un monto, lo es; si no, se
/// salta a la entrega.
pub proof fn ley_lectura_texto(
    pr: Programa,
    e: EstadoV,
    exige: Exige,
    entrega: usize,
    rc: i32,
    bufer: Seq<u8>,
)
    requires
        espera_regla(pr, e, Regla::LeeTexto { exige, entrega }),
    ensures
        ({
            let campo = pr.pasos[e.pc]->args[1]->Texto_0;
            let fila = FilaV { textos: e.fila.textos.push((campo, rc, bufer)), ..e.fila };
            let f = pr.recibir(e, RespuestaV::Texto { rc, bufer });
            let t = recortado(recortado(texto_de_bufer(bufer)));
            let sigue = exige == Exige::Nada || (rc == 0 && (exige == Exige::Monto ==> leer_i64(t)
                is Some));
            &&& pr.pasos[e.pc]->args[1] is Texto
            &&& sigue ==> pasa_a(pr, e, f, siguiente(pr, e.pc), e.regs, e.memoria, fila)
            &&& !sigue ==> pasa_a(pr, e, f, entrega as int, e.regs, e.memoria, fila)
        }),
{
    reveal(Programa::recibir);
    assert(pr.paso_valido(e.pc));
    let campo = pr.pasos[e.pc]->args[1]->Texto_0;
    let fila = FilaV { textos: e.fila.textos.push((campo, rc, bufer)), ..e.fila };
    lema_intentable(pr, EstadoV { fila, ..e }, siguiente(pr, e.pc));
    lema_intentable(pr, EstadoV { fila, ..e }, entrega as int);
}

/// El valor de un campo entero se agrega a la fila con su nombre y su código. Los
/// demás se siguen leyendo si no se exigía nada de este o su código es 0.
pub proof fn ley_lectura_entero(
    pr: Programa,
    e: EstadoV,
    exige: Exige,
    entrega: usize,
    rc: i32,
    valor: i32,
)
    requires
        espera_regla(pr, e, Regla::LeeEntero { exige, entrega }),
    ensures
        ({
            let campo = pr.pasos[e.pc]->args[1]->Texto_0;
            let fila = FilaV { enteros: e.fila.enteros.push((campo, rc, valor)), ..e.fila };
            let f = pr.recibir(e, RespuestaV::Entero { rc, valor });
            &&& pr.pasos[e.pc]->args[1] is Texto
            &&& (exige == Exige::Nada || rc == 0) ==> pasa_a(
                pr,
                e,
                f,
                siguiente(pr, e.pc),
                e.regs,
                e.memoria,
                fila,
            )
            &&& !(exige == Exige::Nada || rc == 0) ==> pasa_a(
                pr,
                e,
                f,
                entrega as int,
                e.regs,
                e.memoria,
                fila,
            )
        }),
{
    reveal(Programa::recibir);
    assert(pr.paso_valido(e.pc));
    let campo = pr.pasos[e.pc]->args[1]->Texto_0;
    let fila = FilaV { enteros: e.fila.enteros.push((campo, rc, valor)), ..e.fila };
    lema_intentable(pr, EstadoV { fila, ..e }, siguiente(pr, e.pc));
    lema_intentable(pr, EstadoV { fila, ..e }, entrega as int);
}

/// Entregada una fila se empieza otra vacía; si quien la convierte la rechaza, el
/// guion falla con su error. Un símbolo que está no cambia nada.
pub proof fn ley_entrega_y_simbolos(pr: Programa, e: EstadoV, err: ErrorV, motivo: Seq<char>)
    requires
        pr.valido(),
        0 <= e.pc < pr.pasos.len(),
        e.fase == Fase::Ejecuta,
    ensures
        pr.pasos[e.pc] is EntregaFila ==> pasa_a(
            pr,
            e,
            pr.recibir(e, RespuestaV::FilaAceptada),
            siguiente(pr, e.pc),
            e.regs,
            e.memoria,
            FilaV { textos: seq![], enteros: seq![] },
        ),
        pr.pasos[e.pc] is EntregaFila ==> falla_con(
            pr,
            e,
            pr.recibir(e, RespuestaV::FilaRechazada(err)),
            err,
        ),
        pr.pasos[e.pc] is Resuelve ==> pasa_a(
            pr,
            e,
            pr.recibir(e, RespuestaV::Resuelto),
            siguiente(pr, e.pc),
            e.regs,
            e.memoria,
            e.fila,
        ),
        pr.pasos[e.pc] matches PasoV::Resuelve { simbolo, previos } ==> falla_con(
            pr,
            e,
            pr.recibir(e, RespuestaV::NoResuelto(motivo)),
            ErrorV::Connection("símbolo '"@ + simbolo + "' no encontrado en la DLL: "@ + motivo),
        ),
        pr.pasos[e.pc] is Llama ==> falla_con(
            pr,
            e,
            pr.recibir(e, RespuestaV::NoConvertido(err)),
            err,
        ),
{
    reveal(Programa::recibir);
    let d = siguiente(pr, e.pc);
    lema_intentable(pr, e, d);
    lema_intentable(pr, EstadoV { fila: FilaV { textos: seq![], enteros: seq![] }, ..e }, d);
    lema_fallar(pr, e, err);
    if let PasoV::Resuelve { simbolo, previos } = pr.pasos[e.pc] {
        lema_fallar(
            pr,
            e,
            ErrorV::Connection("símbolo '"@ + simbolo + "' no encontrado en la DLL: "@ + motivo),
        );
    }
}

/// Con qué error falla una llamada, conocido el mensaje de su módulo: un código,
/// con ese código y ese mensaje; un handle, como error de conexión que nombra la
/// función y, si se pide, el handle. Sin mensaje se dice que no lo hubo.
pub proof fn ley_error_de_llamada(
    pr: Programa,
    e: EstadoV,
    modulo: Modulo,
    codigo: i32,
    m: Option<Seq<u8>>,
)
    requires
        pr.valido(),
        0 <= e.pc < pr.pasos.len(),
        e.fase == (Fase::Mensaje { modulo, codigo }),
    ensures
        ({
            let f = pr.recibir(e, RespuestaV::Mensaje(m));
            let detalle = match m {
                Some(b) => texto_de_bufer(b),
                None => "(sin mensaje)"@,
            };
            match pr.pasos[e.pc] {
                PasoV::Llama { funcion, regla: Regla::Handle { con_valor, .. }, .. } => falla_con(
                    pr,
                    e,
                    f,
                    ErrorV::Connection(
                        if con_valor {
                            funcion + "() falló (handle="@ + entero_texto(codigo as int) + "): "@
                                + detalle
                        } else {
                            funcion + "() falló: "@ + detalle
                        },
                    ),
                ),
                PasoV::Llama { funcion, regla: Regla::ListaNueva(_), .. } => falla_con(
                    pr,
                    e,
                    f,
                    ErrorV::Connection(
                        funcion + "() falló (handle="@ + entero_texto(codigo as int) + "): "@
                            + detalle,
                    ),
                ),
                PasoV::Llama { funcion, regla: Regla::DesconectaYVerifica, .. } => modulo
                    != Modulo::Basica ==> falla_con(
                    pr,
                    e,
                    f,
                    ErrorV::Provider { code: codigo, message: mensaje_de(modulo, m) },
                ),
                _ => falla_con(
                    pr,
                    e,
                    f,
                    ErrorV::Provider { code: codigo, message: mensaje_de(modulo, m) },
                ),
            }
        }),
{
    reveal(Programa::recibir);
    let p = pr.pasos[e.pc];
    lema_fallar(pr, e, error_nativo(p, modulo, codigo, m));
}

/// El mensaje de un módulo: lo que dejó en su búfer, o que no lo dio.
pub open spec fn mensaje_de(modulo: Modulo, m: Option<Seq<u8>>) -> Seq<char> {
    match m {
        Some(b) => texto_de_bufer(b),
        None => match modulo {
            Modulo::Basica => "(sin mensaje de la DLL)"@,
            Modulo::Ventas => "(sin mensaje de veGetLastErrorMessage)"@,
            Modulo::Cxc => "(sin mensaje de ccGetLastErrorMessage)"@,
        },
    }
}

/// En el tramo de falla y en el cierre un error ya no cambia la falla: solo lo
/// hace el de una desconexión estricta cuando no había otra. Se sigue con el paso
/// que viene.
pub proof fn ley_error_al_cerrar(
    pr: Programa,
    e: EstadoV,
    modulo: Modulo,
    codigo: i32,
    m: Option<Seq<u8>>,
    estricta: bool,
)
    requires
        pr.valido(),
        pr.al_fallar <= e.pc < pr.pasos.len(),
        e.fase == (Fase::Mensaje { modulo, codigo }),
        pr.pasos[e.pc] matches PasoV::Llama { regla, .. } && regla == (Regla::Desconecta {
            estricta,
        }),
        intentable(pr, e.regs, e.pc + 1) || e.pc + 1 == pr.pasos.len(),
    ensures
        ({
            let f = pr.recibir(e, RespuestaV::Mensaje(m));
            &&& f.falla == (if estricta && e.falla is None {
                Some(ErrorV::Provider { code: codigo, message: mensaje_de(modulo, m) })
            } else {
                e.falla
            })
            &&& f.regs == e.regs
            &&& f.memoria == e.memoria
            &&& f.pc == e.pc + 1
        }),
{
    reveal(Programa::recibir);
    let err = ErrorV::Provider { code: codigo, message: mensaje_de(modulo, m) };
    let h = EstadoV { falla: pr.falla_tras(e.falla, e.pc, err), ..e };
    lema_intentable(pr, h, e.pc + 1);
}

/// Tampoco cambia la falla que al cerrar falte el símbolo de la desconexión, ni el
/// error de una desconexión que se anota.
pub proof fn ley_simbolo_al_cerrar(
    pr: Programa,
    e: EstadoV,
    modulo: Modulo,
    codigo: i32,
    m: Option<Seq<u8>>,
    motivo: Seq<char>,
    estricta: bool,
    r: Registro,
)
    requires
        pr.valido(),
        pr.al_fallar <= e.pc < pr.pasos.len(),
        intentable(pr, e.regs, e.pc + 1) || e.pc + 1 == pr.pasos.len(),
    ensures
        e.fase == Fase::Ejecuta ==> (pr.pasos[e.pc] matches PasoV::Llama { regla, funcion, .. }
            ==> (regla == (Regla::Desconecta { estricta }) ==> ({
            let f = pr.recibir(e, RespuestaV::NoResuelto(motivo));
            &&& f.falla == (if estricta && e.falla is None {
                Some(
                    ErrorV::Connection(
                        "símbolo '"@ + funcion + "' no encontrado en la DLL: "@ + motivo,
                    ),
                )
            } else {
                e.falla
            })
            &&& f.pc == e.pc + 1
        }))),
        e.fase == Fase::Ejecuta ==> (pr.pasos[e.pc] matches PasoV::Llama { regla, .. } ==> (regla
            == Regla::DesconectaAbierta(r) ==> ({
            let f = pr.recibir(e, RespuestaV::NoResuelto(motivo));
            f.falla == e.falla && f.pc == e.pc + 1
        }))),
        e.fase == (Fase::Mensaje { modulo, codigo }) ==> (pr.pasos[e.pc] matches PasoV::Llama {
            regla,
            ..
        } ==> (regla == Regla::DesconectaAbierta(r) ==> ({
            let f = pr.recibir(e, RespuestaV::Mensaje(m));
            f.falla == e.falla && f.pc == e.pc + 1
        }))),
{
    reveal(Programa::recibir);
    if let PasoV::Llama { funcion, .. } = pr.pasos[e.pc] {
        let err = ErrorV::Connection(
            "símbolo '"@ + funcion + "' no encontrado en la DLL: "@ + motivo,
        );
        let h = EstadoV { falla: pr.falla_tras(e.falla, e.pc, err), ..e };
        lema_intentable(pr, h, e.pc + 1);
        let otro = error_nativo(pr.pasos[e.pc], modulo, codigo, m);
        let g = EstadoV { falla: pr.falla_tras(e.falla, e.pc, otro), ..e };
        lema_intentable(pr, g, e.pc + 1);
    }
}

/// Una ejecución empieza por el primer paso, sin falla, con todos los registros
/// en cero salvo la lista que el proceso ya tuviera.
pub proof fn ley_arranque(pr: Programa, memoria: MicrosipState)
    requires
        pr.valido(),
        pr.pasos.len() > 0,
        pr.pasos[0] matches PasoV::Resuelve { previos, .. } && previos.len() == 0,
    ensures
        ({
            let e = pr.inicio(memoria);
            &&& e.pc == 0
            &&& e.fase == Fase::Ejecuta
            &&& e.falla is None
            &&& e.memoria == memoria
            &&& e.fila.textos.len() == 0
            &&& e.fila.enteros.len() == 0
            &&& e.regs.documento == 0
            &&& e.regs.metadatos_abierta == 0
            &&& e.regs.compatibilidad == 0
            &&& e.regs.empresa_db == 0
            &&& e.regs.lista == (match memoria.pl_handle {
                Some(h) => h,
                None => 0,
            })
        }),
{
}

/// Un paso que no se puede ni intentar falla al llegar a él, sin llamada nativa:
/// con el NUL que sus textos traen, o con el motivo por el que se rechaza. Antes
/// del cuerpo el guion termina; en el cuerpo, va a abortar o a cerrar.
pub proof fn ley_paso_imposible(pr: Programa, e: EstadoV, m: Modulo, err: ErrorV)
    requires
        espera_regla(pr, e, Regla::Cero(m)),
        0 <= siguiente(pr, e.pc) < pr.al_fallar,
        match pr.pasos[siguiente(pr, e.pc)] {
            PasoV::Rechaza(t) => err == ErrorV::Validation(t),
            PasoV::Resuelve { previos, .. } => primer_nul(previos, err),
            PasoV::Llama { previos, args, regla, .. } => !(regla is DesconectaAbierta) && (primer_nul(
                previos,
                err,
            ) || (sin_nul(previos) && primer_nul(args, err))),
            PasoV::EntregaFila => false,
        },
    ensures
        ({
            let d = siguiente(pr, e.pc);
            let f = pr.recibir(e, RespuestaV::Codigo(0));
            &&& d < pr.cuerpo ==> f.fase == Fase::Fin && f.falla == Some(err)
            &&& pr.cuerpo <= d < pr.aborta && intentable(pr, e.regs, pr.cierre) ==> f.falla == Some(
                err,
            ) && f.pc == pr.cierre
            &&& pr.aborta <= d && intentable(pr, e.regs, pr.al_fallar) ==> f.falla == Some(err)
                && f.pc == pr.al_fallar
        }),
{
    reveal(Programa::recibir);
    let d = siguiente(pr, e.pc);
    match pr.pasos[d] {
        PasoV::Resuelve { previos, .. } => {
            lema_primer_nul(previos, err);
        },
        PasoV::Llama { previos, args, .. } => {
            if primer_nul(previos, err) {
                lema_primer_nul(previos, err);
            } else {
                lema_sin_nul(previos);
                lema_primer_nul(args, err);
            }
        },
        _ => {},
    }
    assert(error_de_paso(pr.pasos[d]) == Some(err));
    let g = EstadoV { falla: Some(err), ..e };
    lema_intentable(pr, g, pr.cierre);
    lema_intentable(pr, g, pr.al_fallar);
}

/// El error es el del primer texto con NUL de los operandos.
pub open spec fn primer_nul(ops: Seq<OperandoV>, err: ErrorV) -> bool {
    exists|i: int, s: Seq<char>|
        {
            &&& 0 <= i < ops.len()
            &&& ops[i] == OperandoV::Texto(s) || ops[i] == OperandoV::Ansi(s)
            &&& s.contains('\0')
            &&& sin_nul(#[trigger] ops.take(i))
            &&& err == ErrorV::Validation("string con NUL interno: "@ + #[trigger] texto_debug(s))
        }
}

proof fn lema_primer_nul(ops: Seq<OperandoV>, err: ErrorV)
    requires
        primer_nul(ops, err),
    ensures
        error_de_operandos(ops) == Some(err),
{
    let (i, s) = choose|i: int, s: Seq<char>|
        {
            &&& 0 <= i < ops.len()
            &&& ops[i] == OperandoV::Texto(s) || ops[i] == OperandoV::Ansi(s)
            &&& s.contains('\0')
            &&& sin_nul(#[trigger] ops.take(i))
            &&& err == ErrorV::Validation("string con NUL interno: "@ + #[trigger] texto_debug(s))
        };
    ley_nul_citado(ops, i, s);
}

/// La desconexión de una conexión que se anota se salta si no llegó a abrirse, y
/// se hace si se abrió.
pub proof fn ley_desconexion_anotada(pr: Programa, e: EstadoV, r: Registro)
    requires
        espera_regla(pr, e, Regla::Ignora),
        ({
            let d = siguiente(pr, e.pc);
            0 <= d < pr.pasos.len() && (pr.pasos[d] matches PasoV::Llama {
                regla,
                args,
                previos,
                ..
            } && regla == Regla::DesconectaAbierta(r) && sin_nul(args) && sin_nul(previos))
        }),
    ensures
        ({
            let d = siguiente(pr, e.pc);
            let f = pr.recibir(e, RespuestaV::Codigo(0));
            &&& e.regs.valor(r) != 0 ==> f.pc == d && f.fase == Fase::Ejecuta
            &&& e.regs.valor(r) == 0 && intentable(pr, e.regs, d + 1) ==> f.pc == d + 1 && f.fase
                == Fase::Ejecuta
        }),
{
    reveal(Programa::recibir);
    let d = siguiente(pr, e.pc);
    lema_intentable(pr, e, d);
    lema_intentable(pr, e, d + 1);
}

/// A cada acción le corresponde su clase de respuesta, con el valor que sea:
/// localizar un símbolo, que está o no; una llamada, su código; pedir un mensaje,
/// el mensaje; leer un campo, lo leído; entregar una fila, que se aceptó o no. A
/// un guion que terminó no le corresponde ninguna.
pub proof fn ley_respuestas(
    pr: Programa,
    e: EstadoV,
    c: i32,
    v: i32,
    b: Seq<u8>,
    t: Seq<char>,
    mensaje: Option<Seq<u8>>,
    err: ErrorV,
)
    requires
        0 <= e.pc < pr.pasos.len(),
    ensures
        e.fase is Mensaje ==> pr.corresponde(e, RespuestaV::Mensaje(mensaje)) && !pr.corresponde(
            e,
            RespuestaV::Codigo(c),
        ),
        e.fase == Fase::Ejecuta ==> match pr.pasos[e.pc] {
            PasoV::Resuelve { .. } => pr.corresponde(e, RespuestaV::Resuelto) && pr.corresponde(
                e,
                RespuestaV::NoResuelto(t),
            ) && !pr.corresponde(e, RespuestaV::Codigo(c)),
            PasoV::EntregaFila => pr.corresponde(e, RespuestaV::FilaAceptada) && pr.corresponde(
                e,
                RespuestaV::FilaRechazada(err),
            ) && !pr.corresponde(e, RespuestaV::Codigo(c)),
            PasoV::Llama { regla, .. } => match regla {
                Regla::LeeTexto { .. } => pr.corresponde(e, RespuestaV::Texto { rc: c, bufer: b })
                    && !pr.corresponde(e, RespuestaV::Codigo(c)),
                Regla::LeeEntero { .. } => pr.corresponde(e, RespuestaV::Entero { rc: c, valor: v })
                    && !pr.corresponde(e, RespuestaV::Codigo(c)),
                Regla::Documento(_) => pr.corresponde(e, RespuestaV::Entero { rc: c, valor: v })
                    && !pr.corresponde(e, RespuestaV::Codigo(c)),
                Regla::Desconecta { .. } => pr.corresponde(e, RespuestaV::Codigo(c))
                    && pr.corresponde(e, RespuestaV::NoResuelto(t)),
                Regla::DesconectaAbierta(_) => pr.corresponde(e, RespuestaV::Codigo(c))
                    && pr.corresponde(e, RespuestaV::NoResuelto(t)),
                Regla::DesconectaYVerifica => pr.corresponde(e, RespuestaV::Codigo(c))
                    && pr.corresponde(e, RespuestaV::NoResuelto(t)),
                Regla::Cero(_) => pr.corresponde(e, RespuestaV::Codigo(c)) && ((exists|i: int|
                    0 <= i < pr.pasos[e.pc]->args.len() && (#[trigger] pr.pasos[e.pc]->args[i])
                        is Decimal) ==> pr.corresponde(e, RespuestaV::NoConvertido(err))),
                _ => pr.corresponde(e, RespuestaV::Codigo(c)),
            },
            PasoV::Rechaza(_) => true,
        },
        e.fase == Fase::Fin ==> !pr.corresponde(e, RespuestaV::Codigo(c)) && !pr.corresponde(
            e,
            RespuestaV::Mensaje(mensaje),
        ) && !pr.corresponde(e, RespuestaV::Resuelto),
{
}

} // verus!
