//! La máquina que recorre un guion: dice qué hacer, recibe lo que pasó y
//! decide el paso siguiente.
//!
//! Un guion tiene tres tramos. El preludio, donde una falla termina todo. El
//! cuerpo, donde una falla salta al tramo de falla (abortar el documento a
//! medias) y de ahí al cierre, o directo a este si aún no hay qué abortar. Y el cierre, que se recorre siempre que se
//! entró al cuerpo y cuyas fallas no reemplazan a la original.

use vstd::prelude::*;

use crate::cadena::{cstring, cstring_ansi, error_nul, leer_bufer, texto_de_bufer, windows_1252};
use crate::error::{ErrorV, IskandarError};
use crate::microsip::fila::{FilaV, RowReader};
use crate::microsip::nativo::{
    Accion, AccionV, Argumento, ArgumentoV, Exige, Guion, Modulo, Operando, OperandoV, Operandos, Paso,
    PasoV, Registro, Registros, Regla, Respuesta, RespuestaV,
};
use crate::texto::{
    entero_a_texto, entero_texto, leer_i64, parse_i64, recortado, recortar,
};

verus! {

/// Lo que persiste entre documentos durante la vida del proceso.
#[derive(Debug, Clone, Copy, PartialEq, Eq, Structural)]
pub struct MicrosipState {
    /// `ChecaCompatibilidadVentas` ya corrió con éxito.
    pub compatibilidad_ventas_checada: bool,
    /// `ChecaCompatibilidadCxc` ya corrió con éxito.
    pub compatibilidad_cxc_checada: bool,
    /// La lista de parámetros del proceso, si ya se creó.
    pub pl_handle: Option<i32>,
}

/// En qué está la máquina.
#[derive(Debug, Clone, Copy, PartialEq, Eq, Structural)]
pub enum Fase {
    /// Espera el resultado del paso actual.
    Ejecuta,
    /// El paso actual regresó `codigo`; espera el mensaje del módulo.
    Mensaje { modulo: Modulo, codigo: i32 },
    /// Terminó.
    Fin,
}

/// Un guion con sus tramos: el preludio es `[0, cuerpo)`, el cuerpo
/// `[cuerpo, al_fallar)`, el tramo de falla `[al_fallar, cierre)` y el
/// cierre va de `cierre` al final. Dentro del cuerpo, desde `aborta` una falla
/// pasa por el tramo de falla; antes, cuando aún no hay nada que abortar, va
/// directo al cierre.
pub struct Programa {
    pub pasos: Seq<PasoV>,
    pub cuerpo: int,
    pub aborta: int,
    pub al_fallar: int,
    pub cierre: int,
}

/// El estado de una ejecución.
pub struct EstadoV {
    pub pc: int,
    pub fase: Fase,
    pub regs: Registros,
    pub memoria: MicrosipState,
    pub falla: Option<ErrorV>,
    pub fila: FilaV,
}

/// El texto de un operando, si lo tiene, trae un NUL.
pub open spec fn error_de_operando(o: OperandoV) -> Option<ErrorV> {
    match o {
        OperandoV::Texto(s) => if s.contains('\0') {
            Some(error_nul(s))
        } else {
            None
        },
        OperandoV::Ansi(s) => if s.contains('\0') {
            Some(error_nul(s))
        } else {
            None
        },
        _ => None,
    }
}

/// El primer texto con NUL de una lista de operandos.
pub open spec fn error_de_operandos(ops: Seq<OperandoV>) -> Option<ErrorV>
    decreases ops.len(),
{
    if ops.len() == 0 {
        None
    } else if error_de_operando(ops[0]) is Some {
        error_de_operando(ops[0])
    } else {
        error_de_operandos(ops.drop_first())
    }
}

/// Por qué un paso no se puede ni intentar.
pub open spec fn error_de_paso(p: PasoV) -> Option<ErrorV> {
    match p {
        PasoV::Resuelve { previos, .. } => error_de_operandos(previos),
        PasoV::Llama { previos, args, .. } => if error_de_operandos(previos) is Some {
            error_de_operandos(previos)
        } else {
            error_de_operandos(args)
        },
        PasoV::Rechaza(m) => Some(ErrorV::Validation(m)),
        PasoV::EntregaFila => None,
    }
}

/// El argumento que resulta de un operando.
pub open spec fn argumento(o: OperandoV, regs: Registros) -> ArgumentoV {
    match o {
        OperandoV::Entero(n) => ArgumentoV::Entero(n),
        OperandoV::Doble(d) => ArgumentoV::Doble(d),
        OperandoV::Decimal(d) => ArgumentoV::Decimal(d),
        OperandoV::Registro(r) => ArgumentoV::Entero(regs.valor(r)),
        OperandoV::Texto(s) => ArgumentoV::Texto(vstd::utf8::encode_utf8(s)),
        OperandoV::Ansi(s) => ArgumentoV::Texto(windows_1252(s)),
    }
}

/// Algún operando es un decimal, que al llamar se convierte a `Double`.
pub open spec fn lleva_decimal(ops: Seq<OperandoV>) -> bool {
    exists|i: int| 0 <= i < ops.len() && #[trigger] ops[i] is Decimal
}

/// Leído un campo de texto, se siguen leyendo los demás.
pub open spec fn sigue_texto(exige: Exige, rc: i32, bufer: Seq<u8>) -> bool {
    match exige {
        Exige::Nada => true,
        Exige::Lectura => rc == 0,
        Exige::Monto => rc == 0 && leer_i64(recortado(recortado(texto_de_bufer(bufer)))) is Some,
    }
}

/// Leído un campo entero, se siguen leyendo los demás.
pub open spec fn sigue_entero(exige: Exige, rc: i32) -> bool {
    exige == Exige::Nada || rc == 0
}

/// Los argumentos que resultan de una lista de operandos.
pub open spec fn argumentos(ops: Seq<OperandoV>, regs: Registros) -> Seq<ArgumentoV> {
    Seq::new(ops.len(), |i: int| argumento(ops[i], regs))
}

/// El error de un símbolo ausente.
pub open spec fn error_simbolo(simbolo: Seq<char>, motivo: Seq<char>) -> ErrorV {
    ErrorV::Connection("símbolo '"@ + simbolo + "' no encontrado en la DLL: "@ + motivo)
}

/// El error de una conexión abierta que se reporta desconectada.
pub open spec fn error_desconectada() -> ErrorV {
    ErrorV::Connection("DBConnect retornó éxito pero DBConnected reporta desconectado"@)
}

/// Lo que se dice cuando un módulo no da el mensaje de su error.
pub open spec fn sin_mensaje(modulo: Modulo) -> Seq<char> {
    match modulo {
        Modulo::Basica => "(sin mensaje de la DLL)"@,
        Modulo::Ventas => "(sin mensaje de veGetLastErrorMessage)"@,
        Modulo::Cxc => "(sin mensaje de ccGetLastErrorMessage)"@,
    }
}

/// El error de un handle no positivo.
pub open spec fn error_handle(
    funcion: Seq<char>,
    con_valor: bool,
    codigo: i32,
    mensaje: Option<Seq<u8>>,
) -> ErrorV {
    let detalle = match mensaje {
        Some(b) => texto_de_bufer(b),
        None => "(sin mensaje)"@,
    };
    if con_valor {
        ErrorV::Connection(
            funcion + "() falló (handle="@ + entero_texto(codigo as int) + "): "@ + detalle,
        )
    } else {
        ErrorV::Connection(funcion + "() falló: "@ + detalle)
    }
}

/// El error de un código distinto de cero.
pub open spec fn error_codigo(modulo: Modulo, codigo: i32, mensaje: Option<Seq<u8>>) -> ErrorV {
    ErrorV::Provider {
        code: codigo,
        message: match mensaje {
            Some(b) => texto_de_bufer(b),
            None => sin_mensaje(modulo),
        },
    }
}

/// El error con el que falla un paso, conocido el mensaje del módulo.
pub open spec fn error_nativo(
    p: PasoV,
    modulo: Modulo,
    codigo: i32,
    mensaje: Option<Seq<u8>>,
) -> ErrorV {
    match p {
        PasoV::Llama { funcion, regla: Regla::Handle { con_valor, .. }, .. } => error_handle(
            funcion,
            con_valor,
            codigo,
            mensaje,
        ),
        PasoV::Llama { funcion, regla: Regla::ListaNueva(_), .. } => error_handle(
            funcion,
            true,
            codigo,
            mensaje,
        ),
        _ => error_codigo(modulo, codigo, mensaje),
    }
}

impl Programa {
    /// Los tramos van en orden, los saltos se quedan en el cuerpo, y después
    /// de él solo hay llamadas cuyo resultado se ignora y desconexiones.
    pub open spec fn valido(self) -> bool {
        &&& 0 <= self.cuerpo <= self.aborta <= self.al_fallar <= self.cierre <= self.pasos.len()
        &&& forall|i: int| 0 <= i < self.pasos.len() ==> #[trigger] self.paso_valido(i)
    }

    pub open spec fn paso_valido(self, i: int) -> bool {
        match self.pasos[i] {
            PasoV::Llama { args, regla, .. } => match regla {
                Regla::FinDeDatos { fin } => self.aborta <= i < fin < self.al_fallar,
                Regla::Siguiente { inicio } => self.aborta <= inicio <= i < self.al_fallar,
                Regla::LeeTexto { entrega, .. } | Regla::LeeEntero { entrega, .. } => self.aborta
                    <= i < entrega < self.al_fallar && args.len() == 2 && args[1] is Texto,
                Regla::DesconectaAbierta(_) => i >= self.cierre,
                Regla::Ignora | Regla::Desconecta { .. } => true,
                _ => i < self.al_fallar,
            },
            _ => i < self.al_fallar,
        }
    }

    /// El paso `pc` se salta: cierra una conexión que no se abrió.
    pub open spec fn omitido(self, regs: Registros, pc: int) -> bool {
        self.pasos[pc] matches PasoV::Llama { regla: Regla::DesconectaAbierta(r), .. }
            && regs.valor(r) == 0
    }

    /// El primer paso desde `pc` que no se salta.
    pub open spec fn saltar(self, regs: Registros, pc: int) -> int
        decreases
            if pc <= self.pasos.len() {
                self.pasos.len() - pc
            } else {
                0
            },
    {
        if 0 <= pc < self.pasos.len() && self.omitido(regs, pc) {
            self.saltar(regs, pc + 1)
        } else {
            pc
        }
    }

    /// El estado corresponde al guion.
    pub open spec fn en_curso(self, e: EstadoV) -> bool {
        &&& 0 <= e.pc <= self.pasos.len()
        &&& e.fase != Fase::Fin ==> e.pc < self.pasos.len() && error_de_paso(self.pasos[e.pc])
            is None
    }

    /// A dónde se va cuando falla el paso `pc`.
    pub open spec fn destino_falla(self, pc: int) -> int {
        if pc < self.aborta && pc < self.cierre {
            self.cierre
        } else if pc < self.al_fallar {
            self.al_fallar
        } else {
            pc + 1
        }
    }

    /// A dónde se va cuando el paso `pc` tiene éxito.
    pub open spec fn destino_exito(self, pc: int) -> int {
        if pc + 1 == self.al_fallar {
            self.cierre
        } else {
            pc + 1
        }
    }

    /// El paso cuya falla cuenta aunque ya se esté en el cierre.
    pub open spec fn es_estricto(self, pc: int) -> bool {
        self.pasos[pc] matches PasoV::Llama { regla: Regla::Desconecta { estricta: true }, .. }
    }

    /// La falla del guion después de que el paso `pc` falló con `err`.
    pub open spec fn falla_tras(self, falla: Option<ErrorV>, pc: int, err: ErrorV) -> Option<
        ErrorV,
    > {
        if pc < self.al_fallar || (falla is None && self.es_estricto(pc)) {
            Some(err)
        } else {
            falla
        }
    }

    /// Pasar al paso `pc`; si no se puede ni intentar, falla ahí mismo.
    pub open spec fn entrar(self, e: EstadoV, pc: int) -> EstadoV
        recommends
            self.valido(),
        decreases
            if pc <= self.pasos.len() {
                self.pasos.len() - pc
            } else {
                0
            },
    {
        if pc < 0 || pc >= self.pasos.len() {
            EstadoV { pc: self.pasos.len() as int, fase: Fase::Fin, ..e }
        } else if self.omitido(e.regs, pc) {
            self.entrar(e, pc + 1)
        } else {
            match error_de_paso(self.pasos[pc]) {
                None => EstadoV { pc, fase: Fase::Ejecuta, ..e },
                Some(err) => if pc < self.cuerpo {
                    EstadoV { pc, fase: Fase::Fin, falla: Some(err), ..e }
                } else {
                    self.entrar(
                        EstadoV { falla: self.falla_tras(e.falla, pc, err), ..e },
                        self.destino_falla(pc),
                    )
                },
            }
        }
    }

    /// El paso actual falló con `err`.
    pub open spec fn fallar(self, e: EstadoV, err: ErrorV) -> EstadoV {
        if e.pc < self.cuerpo {
            EstadoV { fase: Fase::Fin, falla: Some(err), ..e }
        } else {
            self.entrar(
                EstadoV { falla: self.falla_tras(e.falla, e.pc, err), ..e },
                self.destino_falla(e.pc),
            )
        }
    }

    /// El paso actual tuvo éxito.
    pub open spec fn avanzar(self, e: EstadoV) -> EstadoV {
        self.entrar(e, self.destino_exito(e.pc))
    }

    /// El paso actual regresó un código de falla: hay que pedir el mensaje.
    pub open spec fn pedir_mensaje(self, e: EstadoV, modulo: Modulo, codigo: i32) -> EstadoV {
        EstadoV { fase: Fase::Mensaje { modulo, codigo }, ..e }
    }

    /// Éxito si el código es 0; si no, se pide el mensaje.
    pub open spec fn juzgar(self, e: EstadoV, modulo: Modulo, codigo: i32) -> EstadoV {
        if codigo == 0 {
            self.avanzar(e)
        } else {
            self.pedir_mensaje(e, modulo, codigo)
        }
    }

    /// Juzga el código de compatibilidad de Ventas que se difirió.
    pub open spec fn verificar(self, e: EstadoV) -> EstadoV {
        let rc = e.regs.compatibilidad;
        if rc == 0 {
            self.avanzar(
                EstadoV {
                    memoria: MicrosipState { compatibilidad_ventas_checada: true, ..e.memoria },
                    ..e
                },
            )
        } else {
            self.pedir_mensaje(e, Modulo::Ventas, rc)
        }
    }

    /// Lo que sigue a un código según la regla del paso.
    pub open spec fn tras_codigo(self, e: EstadoV, regla: Regla, codigo: i32) -> EstadoV {
        match regla {
            Regla::Ignora => self.avanzar(e),
            Regla::Cero(m) => self.juzgar(e, m, codigo),
            Regla::Handle { registro, modulo, .. } => if codigo > 0 {
                self.avanzar(EstadoV { regs: e.regs.con_valor(registro, codigo), ..e })
            } else {
                self.pedir_mensaje(e, modulo, codigo)
            },
            Regla::ListaNueva(modulo) => if codigo > 0 {
                self.avanzar(
                    EstadoV {
                        regs: e.regs.con_valor(Registro::Lista, codigo),
                        memoria: MicrosipState { pl_handle: Some(codigo), ..e.memoria },
                        ..e
                    },
                )
            } else {
                self.pedir_mensaje(e, modulo, codigo)
            },
            Regla::Conectada => if codigo == 1 {
                self.avanzar(e)
            } else {
                self.fallar(e, error_desconectada())
            },
            Regla::Difiere => self.avanzar(
                EstadoV { regs: e.regs.con_valor(Registro::Compatibilidad, codigo), ..e },
            ),
            Regla::Abre(registro) => if codigo == 0 {
                self.avanzar(EstadoV { regs: e.regs.con_valor(registro, 1), ..e })
            } else {
                self.pedir_mensaje(e, Modulo::Basica, codigo)
            },
            Regla::Desconecta { .. } | Regla::DesconectaAbierta(_) => self.juzgar(
                e,
                Modulo::Basica,
                codigo,
            ),
            Regla::DesconectaYVerifica => if codigo == 0 {
                self.verificar(e)
            } else {
                self.pedir_mensaje(e, Modulo::Basica, codigo)
            },
            Regla::CompatibleCxc => if codigo == 0 {
                self.avanzar(
                    EstadoV {
                        memoria: MicrosipState { compatibilidad_cxc_checada: true, ..e.memoria },
                        ..e
                    },
                )
            } else {
                self.pedir_mensaje(e, Modulo::Cxc, codigo)
            },
            Regla::FinDeDatos { fin } => if codigo == 0 {
                self.avanzar(e)
            } else {
                self.entrar(e, fin as int)
            },
            Regla::Siguiente { inicio } => if codigo == 0 {
                self.entrar(e, inicio as int)
            } else {
                self.pedir_mensaje(e, Modulo::Basica, codigo)
            },
            Regla::Documento(_) | Regla::LeeTexto { .. } | Regla::LeeEntero { .. } => e,
        }
    }

    /// La respuesta es de la clase que la acción pendiente pide.
    pub open spec fn corresponde(self, e: EstadoV, r: RespuestaV) -> bool {
        match e.fase {
            Fase::Fin => false,
            Fase::Mensaje { .. } => r is Mensaje,
            Fase::Ejecuta => match self.pasos[e.pc] {
                PasoV::Resuelve { .. } => r is Resuelto || r is NoResuelto,
                PasoV::EntregaFila => r is FilaAceptada || r is FilaRechazada,
                PasoV::Rechaza(_) => false,
                PasoV::Llama { regla, args, .. } => match regla {
                    Regla::LeeTexto { .. } => r is Texto,
                    Regla::LeeEntero { .. } | Regla::Documento(_) => r is Entero,
                    Regla::Desconecta { .. }
                    | Regla::DesconectaAbierta(_)
                    | Regla::DesconectaYVerifica => r is Codigo || r is NoResuelto,
                    Regla::Cero(_) => r is Codigo || (r is NoConvertido && lleva_decimal(args)),
                    _ => r is Codigo,
                },
            },
        }
    }

    /// El estado después de recibir una respuesta.
    #[verifier::opaque]
    pub open spec fn recibir(self, e: EstadoV, r: RespuestaV) -> EstadoV {
        match e.fase {
            Fase::Fin => e,
            Fase::Mensaje { modulo, codigo } => match (self.pasos[e.pc], r) {
                (PasoV::Llama { regla: Regla::DesconectaYVerifica, .. }, RespuestaV::Mensaje(_))
                    if modulo == Modulo::Basica => self.verificar(e),
                (p, RespuestaV::Mensaje(m)) => self.fallar(e, error_nativo(p, modulo, codigo, m)),
                _ => e,
            },
            Fase::Ejecuta => match (self.pasos[e.pc], r) {
                (PasoV::Resuelve { .. }, RespuestaV::Resuelto) => self.avanzar(e),
                (PasoV::Resuelve { simbolo, .. }, RespuestaV::NoResuelto(m)) => self.fallar(
                    e,
                    error_simbolo(simbolo, m),
                ),
                (PasoV::EntregaFila, RespuestaV::FilaAceptada) => self.avanzar(
                    EstadoV { fila: FilaV::vacia(), ..e },
                ),
                (PasoV::EntregaFila, RespuestaV::FilaRechazada(err)) => self.fallar(e, err),
                (PasoV::Llama { regla: Regla::DesconectaYVerifica, .. }, RespuestaV::NoResuelto(_))
                    => self.verificar(e),
                (PasoV::Llama { funcion, .. }, RespuestaV::NoResuelto(m)) => self.fallar(
                    e,
                    error_simbolo(funcion, m),
                ),
                (PasoV::Llama { .. }, RespuestaV::NoConvertido(err)) => self.fallar(e, err),
                (PasoV::Llama { regla, .. }, RespuestaV::Codigo(c)) => self.tras_codigo(e, regla, c),
                (
                    PasoV::Llama { args, regla: Regla::LeeTexto { exige, entrega }, .. },
                    RespuestaV::Texto { rc, bufer },
                ) => {
                    let f = EstadoV {
                        fila: FilaV {
                            textos: e.fila.textos.push((args[1]->Texto_0, rc, bufer)),
                            ..e.fila
                        },
                        ..e
                    };
                    if sigue_texto(exige, rc, bufer) {
                        self.avanzar(f)
                    } else {
                        self.entrar(f, entrega as int)
                    }
                },
                (
                    PasoV::Llama { regla: Regla::Documento(m), .. },
                    RespuestaV::Entero { rc, valor },
                ) => if rc == 0 {
                    self.avanzar(
                        EstadoV { regs: e.regs.con_valor(Registro::Documento, valor), ..e },
                    )
                } else {
                    self.pedir_mensaje(e, m, rc)
                },
                (
                    PasoV::Llama { args, regla: Regla::LeeEntero { exige, entrega }, .. },
                    RespuestaV::Entero { rc, valor },
                ) => {
                    let f = EstadoV {
                        fila: FilaV {
                            enteros: e.fila.enteros.push((args[1]->Texto_0, rc, valor)),
                            ..e.fila
                        },
                        ..e
                    };
                    if sigue_entero(exige, rc) {
                        self.avanzar(f)
                    } else {
                        self.entrar(f, entrega as int)
                    }
                },
                _ => e,
            },
        }
    }

    /// Lo que toca hacer en un estado.
    pub open spec fn accion(self, e: EstadoV) -> AccionV {
        match e.fase {
            Fase::Fin => AccionV::Terminar,
            Fase::Mensaje { modulo, .. } => AccionV::PedirMensaje(modulo),
            Fase::Ejecuta => match self.pasos[e.pc] {
                PasoV::Resuelve { simbolo, .. } => AccionV::Resolver(simbolo),
                PasoV::Llama { funcion, args, .. } => AccionV::Llamar {
                    funcion,
                    args: argumentos(args, e.regs),
                },
                PasoV::EntregaFila => AccionV::EntregarFila,
                PasoV::Rechaza(_) => AccionV::Terminar,
            },
        }
    }

    /// El estado inicial de una ejecución.
    pub open spec fn inicio(self, memoria: MicrosipState) -> EstadoV {
        self.entrar(
            EstadoV {
                pc: 0,
                fase: Fase::Ejecuta,
                regs: match memoria.pl_handle {
                    Some(h) => Registros::en_cero().con_valor(Registro::Lista, h),
                    None => Registros::en_cero(),
                },
                memoria,
                falla: None,
                fila: FilaV::vacia(),
            },
            0,
        )
    }
}

/// Una ejecución de un guion.
#[derive(Debug)]
pub struct Maquina {
    guion: Guion,
    cuerpo: usize,
    aborta: usize,
    al_fallar: usize,
    cierre: usize,
    pc: usize,
    fase: Fase,
    regs: Registros,
    memoria: MicrosipState,
    falla: Option<IskandarError>,
    fila: RowReader,
}

/// El primer texto con NUL, como error.
fn error_operandos(ops: &Operandos) -> (r: Option<IskandarError>)
    ensures
        match r {
            Some(e) => error_de_operandos(ops@) == Some(e@),
            None => error_de_operandos(ops@) is None,
        },
{
    let mut i: usize = 0;
    proof {
        assert(ops@.skip(0) =~= ops@);
    }
    while i < ops.lista.len()
        invariant
            i <= ops.lista@.len(),
            ops@.len() == ops.lista@.len(),
            error_de_operandos(ops@) == error_de_operandos(ops@.skip(i as int)),
        decreases ops.lista@.len() - i,
    {
        proof {
            assert(ops@.skip(i as int)[0] == ops.lista@[i as int]@);
            assert(ops@.skip(i as int).drop_first() =~= ops@.skip(i + 1));
        }
        match &ops.lista[i] {
            Operando::Texto(s) => {
                if let Err(e) = cstring(s.as_str()) {
                    return Some(e);
                }
            },
            Operando::Ansi(s) => {
                if let Err(e) = cstring_ansi(s.as_str()) {
                    return Some(e);
                }
            },
            _ => {},
        }
        i = i + 1;
    }
    None
}

proof fn lema_sin_error(ops: Seq<OperandoV>, i: int)
    requires
        error_de_operandos(ops) is None,
        0 <= i < ops.len(),
    ensures
        error_de_operando(ops[i]) is None,
    decreases ops.len(),
{
    if i > 0 {
        lema_sin_error(ops.drop_first(), i - 1);
    }
}

fn error_paso(p: &Paso) -> (r: Option<IskandarError>)
    ensures
        match r {
            Some(e) => error_de_paso(p@) == Some(e@),
            None => error_de_paso(p@) is None,
        },
{
    match p {
        Paso::Resuelve { previos, .. } => error_operandos(previos),
        Paso::Llama { previos, args, .. } => match error_operandos(previos) {
            Some(e) => Some(e),
            None => error_operandos(args),
        },
        Paso::Rechaza(m) => Some(IskandarError::Validation((*m).to_owned())),
        Paso::EntregaFila => None,
    }
}

fn sigue_leyendo(exige: Exige, rc: i32, bufer: &Vec<u8>) -> (r: bool)
    ensures
        r == sigue_texto(exige, rc, bufer@),
{
    match exige {
        Exige::Nada => true,
        Exige::Lectura => rc == 0,
        Exige::Monto => rc == 0 && parse_i64(
            recortar(recortar(leer_bufer(bufer).as_str()).as_str()).as_str(),
        ).is_some(),
    }
}

fn tiene_decimal(ops: &Operandos) -> (r: bool)
    ensures
        r == lleva_decimal(ops@),
{
    let mut i: usize = 0;
    while i < ops.lista.len()
        invariant
            i <= ops.lista@.len(),
            forall|j: int| 0 <= j < i ==> !(#[trigger] ops@[j] is Decimal),
        decreases ops.lista@.len() - i,
    {
        if let Operando::Decimal(_) = &ops.lista[i] {
            proof {
                assert(ops@[i as int] is Decimal);
            }
            return true;
        }
        i = i + 1;
    }
    false
}

fn convertir(ops: &Operandos, regs: &Registros) -> (r: Vec<Argumento>)
    requires
        error_de_operandos(ops@) is None,
    ensures
        Seq::new(r@.len(), |i: int| r@[i]@) == argumentos(ops@, *regs),
{
    let mut r: Vec<Argumento> = Vec::new();
    let mut i: usize = 0;
    while i < ops.lista.len()
        invariant
            error_de_operandos(ops@) is None,
            i <= ops.lista@.len(),
            r@.len() == i,
            forall|j: int| 0 <= j < i ==> (#[trigger] r@[j])@ == argumento(ops@[j], *regs),
        decreases ops.lista@.len() - i,
    {
        proof {
            lema_sin_error(ops@, i as int);
        }
        let a = match &ops.lista[i] {
            Operando::Entero(n) => Argumento::Entero(*n),
            Operando::Doble(d) => Argumento::Doble(*d),
            Operando::Decimal(d) => Argumento::Decimal(*d),
            Operando::Registro(x) => Argumento::Entero(regs.leer(*x)),
            Operando::Texto(s) => Argumento::Texto(cstring(s.as_str()).unwrap()),
            Operando::Ansi(s) => Argumento::Texto(cstring_ansi(s.as_str()).unwrap()),
        };
        r.push(a);
        i = i + 1;
    }
    proof {
        assert(Seq::new(r@.len(), |i: int| r@[i]@) =~= argumentos(ops@, *regs));
    }
    r
}

fn texto_sin_mensaje(modulo: Modulo) -> (r: &'static str)
    ensures
        r@ == sin_mensaje(modulo),
{
    match modulo {
        Modulo::Basica => "(sin mensaje de la DLL)",
        Modulo::Ventas => "(sin mensaje de veGetLastErrorMessage)",
        Modulo::Cxc => "(sin mensaje de ccGetLastErrorMessage)",
    }
}

fn falla_handle(
    funcion: &str,
    con_valor: bool,
    codigo: i32,
    mensaje: &Option<Vec<u8>>,
) -> (e: IskandarError)
    ensures
        e@ == error_handle(
            funcion@,
            con_valor,
            codigo,
            match *mensaje {
                Some(b) => Some(b@),
                None => None,
            },
        ),
{
    let detalle = match mensaje {
        Some(b) => leer_bufer(b),
        None => "(sin mensaje)".to_owned(),
    };
    if con_valor {
        IskandarError::Connection(
            funcion.to_owned().concat("() falló (handle=").concat(
                entero_a_texto(codigo as i64).as_str(),
            ).concat("): ").concat(detalle.as_str()),
        )
    } else {
        IskandarError::Connection(
            funcion.to_owned().concat("() falló: ").concat(detalle.as_str()),
        )
    }
}

fn falla_nativa(p: &Paso, modulo: Modulo, codigo: i32, mensaje: &Option<Vec<u8>>) -> (e:
    IskandarError)
    ensures
        e@ == error_nativo(
            p@,
            modulo,
            codigo,
            match *mensaje {
                Some(b) => Some(b@),
                None => None,
            },
        ),
{
    match p {
        Paso::Llama { funcion, regla: Regla::Handle { con_valor, .. }, .. } => falla_handle(
            funcion,
            *con_valor,
            codigo,
            mensaje,
        ),
        Paso::Llama { funcion, regla: Regla::ListaNueva(_), .. } => falla_handle(
            funcion,
            true,
            codigo,
            mensaje,
        ),
        _ => IskandarError::Provider {
            code: codigo,
            message: match mensaje {
                Some(b) => leer_bufer(b),
                None => texto_sin_mensaje(modulo).to_owned(),
            },
        },
    }
}

fn falla_simbolo(simbolo: &str, motivo: &str) -> (e: IskandarError)
    ensures
        e@ == error_simbolo(simbolo@, motivo@),
{
    IskandarError::Connection(
        "símbolo '".to_owned().concat(simbolo).concat("' no encontrado en la DLL: ").concat(motivo),
    )
}

impl Maquina {
    /// El guion que se recorre.
    pub closed spec fn programa(self) -> Programa {
        Programa {
            pasos: self.guion@,
            cuerpo: self.cuerpo as int,
            aborta: self.aborta as int,
            al_fallar: self.al_fallar as int,
            cierre: self.cierre as int,
        }
    }

    /// El estado de la ejecución.
    pub closed spec fn estado(self) -> EstadoV {
        EstadoV {
            pc: self.pc as int,
            fase: self.fase,
            regs: self.regs,
            memoria: self.memoria,
            falla: match self.falla {
                Some(e) => Some(e@),
                None => None,
            },
            fila: self.fila@,
        }
    }

    /// La ejecución es coherente con su guion.
    pub open spec fn wf(self) -> bool {
        &&& self.programa().valido()
        &&& self.programa().en_curso(self.estado())
    }

    /// Empieza a recorrer un guion.
    pub fn nueva(
        guion: Guion,
        cuerpo: usize,
        aborta: usize,
        al_fallar: usize,
        cierre: usize,
        memoria: MicrosipState,
    ) -> (m: Maquina)
        requires
            (Programa {
                pasos: guion@,
                cuerpo: cuerpo as int,
                aborta: aborta as int,
                al_fallar: al_fallar as int,
                cierre: cierre as int,
            }).valido(),
        ensures
            m.wf(),
            m.programa() == (Programa {
                pasos: guion@,
                cuerpo: cuerpo as int,
                aborta: aborta as int,
                al_fallar: al_fallar as int,
                cierre: cierre as int,
            }),
            m.estado() == m.programa().inicio(memoria),
    {
        let mut regs = Registros::nuevos();
        if let Some(h) = memoria.pl_handle {
            regs.guardar(Registro::Lista, h);
        }
        let mut m = Maquina {
            guion,
            cuerpo,
            aborta,
            al_fallar,
            cierre,
            pc: 0,
            fase: Fase::Ejecuta,
            regs,
            memoria,
            falla: None,
            fila: RowReader::nuevo(),
        };
        m.entrar(0);
        m
    }

    fn entrar(&mut self, destino: usize)
        requires
            old(self).programa().valido(),
        ensures
            final(self).programa() == old(self).programa(),
            final(self).estado() == old(self).programa().entrar(
                old(self).estado(),
                destino as int,
            ),
            final(self).programa().en_curso(final(self).estado()),
    {
        let ghost prog = self.programa();
        let ghost antes = self.estado();
        let mut pc: usize = destino;
        while pc < self.guion.pasos.len()
            invariant
                prog == old(self).programa(),
                antes == old(self).estado(),
                self.programa() == prog,
                prog.valido(),
                prog.entrar(antes, destino as int) == prog.entrar(self.estado(), pc as int),
            decreases prog.pasos.len() - pc,
        {
            let error = error_paso(&self.guion.pasos[pc]);
            proof {
                assert(prog.pasos[pc as int] == self.guion.pasos@[pc as int]@);
            }
            if self.se_omite(pc) {
                pc = pc + 1;
                continue;
            }
            match error {
                None => {
                    self.pc = pc;
                    self.fase = Fase::Ejecuta;
                    return;
                },
                Some(e) => {
                    if pc < self.cuerpo {
                        self.pc = pc;
                        self.fase = Fase::Fin;
                        self.falla = Some(e);
                        return;
                    }
                    self.anotar_falla(pc, e);
                    pc = self.destino_falla(pc);
                },
            }
        }
        self.pc = self.guion.pasos.len();
        self.fase = Fase::Fin;
    }

    fn se_omite(&self, pc: usize) -> (r: bool)
        requires
            pc < self.programa().pasos.len(),
        ensures
            r == self.programa().omitido(self.estado().regs, pc as int),
    {
        proof {
            assert(self.programa().pasos[pc as int] == self.guion.pasos@[pc as int]@);
        }
        match &self.guion.pasos[pc] {
            Paso::Llama { regla: Regla::DesconectaAbierta(reg), .. } => self.regs.leer(*reg) == 0,
            _ => false,
        }
    }

    fn destino_falla(&self, pc: usize) -> (r: usize)
        requires
            self.programa().valido(),
            pc < self.programa().pasos.len(),
        ensures
            r == self.programa().destino_falla(pc as int),
    {
        let total: usize = self.guion.pasos.len();
        proof {
            assert(pc < total);
        }
        if pc < self.aborta {
            self.cierre
        } else if pc < self.al_fallar {
            self.al_fallar
        } else {
            pc + 1
        }
    }

    fn anotar_falla(&mut self, pc: usize, e: IskandarError)
        requires
            pc < old(self).programa().pasos.len(),
        ensures
            final(self).programa() == old(self).programa(),
            final(self).estado() == (EstadoV {
                falla: old(self).programa().falla_tras(old(self).estado().falla, pc as int, e@),
                ..old(self).estado()
            }),
    {
        let estricto = match &self.guion.pasos[pc] {
            Paso::Llama { regla: Regla::Desconecta { estricta }, .. } => *estricta,
            _ => false,
        };
        proof {
            assert(self.programa().pasos[pc as int] == self.guion.pasos@[pc as int]@);
            assert(estricto == self.programa().es_estricto(pc as int));
        }
        if pc < self.al_fallar || (self.falla.is_none() && estricto) {
            self.falla = Some(e);
        }
    }

    fn fallar(&mut self, e: IskandarError)
        requires
            old(self).wf(),
            old(self).estado().fase != Fase::Fin,
        ensures
            final(self).wf(),
            final(self).programa() == old(self).programa(),
            final(self).estado() == old(self).programa().fallar(old(self).estado(), e@),
    {
        if self.pc < self.cuerpo {
            self.fase = Fase::Fin;
            self.falla = Some(e);
        } else {
            let pc: usize = self.pc;
            self.anotar_falla(pc, e);
            let destino: usize = self.destino_falla(pc);
            self.entrar(destino);
        }
    }

    fn avanzar(&mut self)
        requires
            old(self).programa().valido(),
            old(self).estado().pc < old(self).programa().pasos.len(),
        ensures
            final(self).wf(),
            final(self).programa() == old(self).programa(),
            final(self).estado() == old(self).programa().avanzar(old(self).estado()),
    {
        let total: usize = self.guion.pasos.len();
        proof {
            assert(self.pc < total);
        }
        let destino: usize = if self.pc + 1 == self.al_fallar {
            self.cierre
        } else {
            self.pc + 1
        };
        self.entrar(destino);
    }

    fn pedir_mensaje(&mut self, modulo: Modulo, codigo: i32)
        requires
            old(self).wf(),
            old(self).estado().fase != Fase::Fin,
        ensures
            final(self).wf(),
            final(self).programa() == old(self).programa(),
            final(self).estado() == old(self).programa().pedir_mensaje(
                old(self).estado(),
                modulo,
                codigo,
            ),
    {
        self.fase = Fase::Mensaje { modulo, codigo };
    }

    fn juzgar(&mut self, modulo: Modulo, codigo: i32)
        requires
            old(self).wf(),
            old(self).estado().fase != Fase::Fin,
        ensures
            final(self).wf(),
            final(self).programa() == old(self).programa(),
            final(self).estado() == old(self).programa().juzgar(
                old(self).estado(),
                modulo,
                codigo,
            ),
    {
        if codigo == 0 {
            self.avanzar();
        } else {
            self.pedir_mensaje(modulo, codigo);
        }
    }

    fn verificar(&mut self)
        requires
            old(self).wf(),
            old(self).estado().fase != Fase::Fin,
        ensures
            final(self).wf(),
            final(self).programa() == old(self).programa(),
            final(self).estado() == old(self).programa().verificar(old(self).estado()),
    {
        let rc: i32 = self.regs.compatibilidad;
        if rc == 0 {
            self.memoria.compatibilidad_ventas_checada = true;
            self.avanzar();
        } else {
            self.pedir_mensaje(Modulo::Ventas, rc);
        }
    }

    fn tras_codigo(&mut self, regla: Regla, codigo: i32)
        requires
            old(self).wf(),
            old(self).estado().fase != Fase::Fin,
            old(self).programa().pasos[old(self).estado().pc] matches PasoV::Llama { regla: r, .. }
                && r == regla,
        ensures
            final(self).wf(),
            final(self).programa() == old(self).programa(),
            final(self).estado() == old(self).programa().tras_codigo(
                old(self).estado(),
                regla,
                codigo,
            ),
    {
        proof {
            assert(self.programa().paso_valido(self.estado().pc));
        }
        match regla {
            Regla::Ignora => self.avanzar(),
            Regla::Cero(m) => self.juzgar(m, codigo),
            Regla::Handle { registro, modulo, .. } => {
                if codigo > 0 {
                    self.regs.guardar(registro, codigo);
                    self.avanzar();
                } else {
                    self.pedir_mensaje(modulo, codigo);
                }
            },
            Regla::ListaNueva(modulo) => {
                if codigo > 0 {
                    self.regs.guardar(Registro::Lista, codigo);
                    self.memoria.pl_handle = Some(codigo);
                    self.avanzar();
                } else {
                    self.pedir_mensaje(modulo, codigo);
                }
            },
            Regla::Conectada => {
                if codigo == 1 {
                    self.avanzar();
                } else {
                    self.fallar(
                        IskandarError::Connection(
                            "DBConnect retornó éxito pero DBConnected reporta desconectado".to_owned(),
                        ),
                    );
                }
            },
            Regla::Difiere => {
                self.regs.guardar(Registro::Compatibilidad, codigo);
                self.avanzar();
            },
            Regla::Abre(registro) => {
                if codigo == 0 {
                    self.regs.guardar(registro, 1);
                    self.avanzar();
                } else {
                    self.pedir_mensaje(Modulo::Basica, codigo);
                }
            },
            Regla::Desconecta { .. } => self.juzgar(Modulo::Basica, codigo),
            Regla::DesconectaAbierta(_) => self.juzgar(Modulo::Basica, codigo),
            Regla::DesconectaYVerifica => {
                if codigo == 0 {
                    self.verificar();
                } else {
                    self.pedir_mensaje(Modulo::Basica, codigo);
                }
            },
            Regla::CompatibleCxc => {
                if codigo == 0 {
                    self.memoria.compatibilidad_cxc_checada = true;
                    self.avanzar();
                } else {
                    self.pedir_mensaje(Modulo::Cxc, codigo);
                }
            },
            Regla::FinDeDatos { fin } => {
                if codigo == 0 {
                    self.avanzar();
                } else {
                    self.entrar(fin);
                }
            },
            Regla::Siguiente { inicio } => {
                if codigo == 0 {
                    self.entrar(inicio);
                } else {
                    self.pedir_mensaje(Modulo::Basica, codigo);
                }
            },
            Regla::Documento(_) => {},
            Regla::LeeTexto { .. } => {},
            Regla::LeeEntero { .. } => {},
        }
    }

    /// Lo que toca hacer ahora.
    pub fn accion(&self) -> (a: Accion)
        requires
            self.wf(),
        ensures
            a@ == self.programa().accion(self.estado()),
    {
        match self.fase {
            Fase::Fin => Accion::Terminar,
            Fase::Mensaje { modulo, .. } => Accion::PedirMensaje(modulo),
            Fase::Ejecuta => {
                proof {
                    assert(self.programa().pasos[self.pc as int] == self.guion.pasos@[self.pc as int]@);
                }
                match &self.guion.pasos[self.pc] {
                    Paso::Resuelve { simbolo, .. } => Accion::Resolver(simbolo),
                    Paso::Llama { funcion, args, .. } => Accion::Llamar {
                        funcion,
                        args: convertir(args, &self.regs),
                    },
                    Paso::EntregaFila => Accion::EntregarFila,
                    Paso::Rechaza(_) => Accion::Terminar,
                }
            },
        }
    }

    fn anotar_texto(&mut self, rc: i32, bufer: Vec<u8>)
        requires
            old(self).wf(),
            old(self).estado().fase != Fase::Fin,
            old(self).programa().pasos[old(self).estado().pc] matches PasoV::Llama { args, .. }
                && args.len() == 2 && args[1] is Texto,
        ensures
            final(self).wf(),
            final(self).programa() == old(self).programa(),
            final(self).estado() == (EstadoV {
                fila: FilaV {
                    textos: old(self).estado().fila.textos.push(
                        (
                            old(self).programa().pasos[old(
                                self,
                            ).estado().pc]->args[1]->Texto_0,
                            rc,
                            bufer@,
                        ),
                    ),
                    ..old(self).estado().fila
                },
                ..old(self).estado()
            }),
    {
        proof {
            assert(self.programa().pasos[self.pc as int] == self.guion.pasos@[self.pc as int]@);
        }
        if let Paso::Llama { args, .. } = &self.guion.pasos[self.pc] {
            proof {
                assert(args@[1] == args.lista@[1]@);
            }
            if let Operando::Texto(campo) = &args.lista[1] {
                self.fila.agregar_texto(campo.as_str(), rc, bufer);
            }
        }
    }

    fn anotar_entero(&mut self, rc: i32, valor: i32)
        requires
            old(self).wf(),
            old(self).estado().fase != Fase::Fin,
            old(self).programa().pasos[old(self).estado().pc] matches PasoV::Llama { args, .. }
                && args.len() == 2 && args[1] is Texto,
        ensures
            final(self).wf(),
            final(self).programa() == old(self).programa(),
            final(self).estado() == (EstadoV {
                fila: FilaV {
                    enteros: old(self).estado().fila.enteros.push(
                        (
                            old(self).programa().pasos[old(
                                self,
                            ).estado().pc]->args[1]->Texto_0,
                            rc,
                            valor,
                        ),
                    ),
                    ..old(self).estado().fila
                },
                ..old(self).estado()
            }),
    {
        proof {
            assert(self.programa().pasos[self.pc as int] == self.guion.pasos@[self.pc as int]@);
        }
        if let Paso::Llama { args, .. } = &self.guion.pasos[self.pc] {
            proof {
                assert(args@[1] == args.lista@[1]@);
            }
            if let Operando::Texto(campo) = &args.lista[1] {
                self.fila.agregar_entero(campo.as_str(), rc, valor);
            }
        }
    }

    /// Recibe lo que pasó al hacer la acción pendiente y decide lo que sigue.
    pub fn recibir(&mut self, r: Respuesta)
        requires
            old(self).wf(),
            old(self).programa().corresponde(old(self).estado(), r@),
        ensures
            final(self).wf(),
            final(self).programa() == old(self).programa(),
            final(self).estado() == old(self).programa().recibir(old(self).estado(), r@),
    {
        proof {
            reveal(Programa::recibir);
            assert(self.programa().pasos[self.pc as int] == self.guion.pasos@[self.pc as int]@);
            assert(self.programa().paso_valido(self.pc as int));
        }
        match self.fase {
            Fase::Fin => {},
            Fase::Mensaje { modulo, codigo } => {
                if let Respuesta::Mensaje(m) = r {
                    let verifica = match &self.guion.pasos[self.pc] {
                        Paso::Llama { regla: Regla::DesconectaYVerifica, .. } => modulo
                            == Modulo::Basica,
                        _ => false,
                    };
                    if verifica {
                        self.verificar();
                    } else {
                        let e = falla_nativa(&self.guion.pasos[self.pc], modulo, codigo, &m);
                        self.fallar(e);
                    }
                }
            },
            Fase::Ejecuta => {
                match &self.guion.pasos[self.pc] {
                    Paso::Resuelve { simbolo, .. } => {
                        if let Respuesta::NoResuelto(m) = r {
                            let e = falla_simbolo(simbolo, m.as_str());
                            self.fallar(e);
                        } else {
                            self.avanzar();
                        }
                    },
                    Paso::Rechaza(_) => {},
                    Paso::EntregaFila => {
                        if let Respuesta::FilaRechazada(e) = r {
                            self.fallar(e);
                        } else {
                            self.fila = RowReader::nuevo();
                            self.avanzar();
                        }
                    },
                    Paso::Llama { funcion, regla, .. } => {
                        let funcion: &'static str = *funcion;
                        let regla: Regla = *regla;
                        match r {
                            Respuesta::NoResuelto(m) => {
                                if regla == Regla::DesconectaYVerifica {
                                    self.verificar();
                                } else {
                                    let e = falla_simbolo(funcion, m.as_str());
                                    self.fallar(e);
                                }
                            },
                            Respuesta::NoConvertido(e) => self.fallar(e),
                            Respuesta::Codigo(c) => self.tras_codigo(regla, c),
                            Respuesta::Texto { rc, bufer } => {
                                if let Regla::LeeTexto { exige, entrega } = regla {
                                    let sigue = sigue_leyendo(exige, rc, &bufer);
                                    self.anotar_texto(rc, bufer);
                                    if sigue {
                                        self.avanzar();
                                    } else {
                                        self.entrar(entrega);
                                    }
                                }
                            },
                            Respuesta::Entero { rc, valor } => {
                                if let Regla::Documento(m) = regla {
                                    if rc == 0 {
                                        self.regs.guardar(Registro::Documento, valor);
                                        self.avanzar();
                                    } else {
                                        self.pedir_mensaje(m, rc);
                                    }
                                } else if let Regla::LeeEntero { exige, entrega } = regla {
                                    self.anotar_entero(rc, valor);
                                    if exige == Exige::Nada || rc == 0 {
                                        self.avanzar();
                                    } else {
                                        self.entrar(entrega);
                                    }
                                }
                            },
                            _ => {},
                        }
                    },
                }
            },
        }
    }

    /// `true` si la respuesta es de la clase que la acción pendiente pide.
    pub fn espera(&self, r: &Respuesta) -> (b: bool)
        requires
            self.wf(),
        ensures
            b == self.programa().corresponde(self.estado(), r@),
    {
        match self.fase {
            Fase::Fin => false,
            Fase::Mensaje { .. } => matches!(r, Respuesta::Mensaje(_)),
            Fase::Ejecuta => match &self.guion.pasos[self.pc] {
                Paso::Resuelve { .. } => matches!(r, Respuesta::Resuelto | Respuesta::NoResuelto(_)),
                Paso::EntregaFila => matches!(
                    r,
                    Respuesta::FilaAceptada | Respuesta::FilaRechazada(_)
                ),
                Paso::Rechaza(_) => false,
                Paso::Llama { regla, args, .. } => match regla {
                    Regla::LeeTexto { .. } => matches!(r, Respuesta::Texto { .. }),
                    Regla::LeeEntero { .. } | Regla::Documento(_) => matches!(
                        r,
                        Respuesta::Entero { .. }
                    ),
                    Regla::Desconecta { .. }
                    | Regla::DesconectaAbierta(_)
                    | Regla::DesconectaYVerifica => matches!(
                        r,
                        Respuesta::Codigo(_) | Respuesta::NoResuelto(_)
                    ),
                    Regla::Cero(_) => match r {
                        Respuesta::Codigo(_) => true,
                        Respuesta::NoConvertido(_) => tiene_decimal(args),
                        _ => false,
                    },
                    _ => matches!(r, Respuesta::Codigo(_)),
                },
            },
        }
    }

    /// La fila leída, para convertirla.
    pub fn fila(&self) -> (r: &RowReader)
        ensures
            r@ == self.estado().fila,
    {
        &self.fila
    }

    /// Lo que debe recordarse para los guiones siguientes del proceso.
    pub fn memoria(&self) -> (r: MicrosipState)
        ensures
            r == self.estado().memoria,
    {
        self.memoria
    }

    /// El valor guardado en un registro.
    pub fn registro(&self, reg: Registro) -> (v: i32)
        ensures
            v == self.estado().regs.valor(reg),
    {
        self.regs.leer(reg)
    }

    /// El resultado del guion: el identificador del documento en proceso (0
    /// si el guion no registra ninguno) o la falla.
    pub fn resultado(self) -> (r: Result<i32, IskandarError>)
        requires
            self.estado().fase == Fase::Fin,
        ensures
            match (r, self.estado().falla) {
                (Ok(d), None) => d == self.estado().regs.documento,
                (Err(e), Some(f)) => e@ == f,
                _ => false,
            },
    {
        match self.falla {
            Some(e) => Err(e),
            None => Ok(self.regs.documento),
        }
    }
}

} // verus!
