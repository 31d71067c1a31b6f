//! El vocabulario de la API nativa: argumentos, reglas de lectura del
//! resultado, pasos de un guion y respuestas.

use vstd::prelude::*;

use crate::cadena::CadenaC;
use crate::decimal::Decimal;
use crate::doble::Doble;
use crate::error::{ErrorV, IskandarError};

verus! {

/// Módulo de la API nativa; cada uno guarda su propio último error.
#[derive(Debug, Clone, Copy, PartialEq, Eq, Structural)]
pub enum Modulo {
    Basica,
    Ventas,
    Cxc,
}

/// Lugar donde un guion guarda lo que una llamada entregó.
#[derive(Debug, Clone, Copy, PartialEq, Eq, Structural)]
pub enum Registro {
    EmpresaDb,
    EmpresaTrn,
    MetadatosDb,
    MetadatosTrn,
    MetadatosAbierta,
    Conjunto,
    Lista,
    Documento,
    Compatibilidad,
}

/// Los valores guardados por un guion.
#[derive(Debug, Clone, Copy, PartialEq, Eq, Structural)]
pub struct Registros {
    pub empresa_db: i32,
    pub empresa_trn: i32,
    pub metadatos_db: i32,
    pub metadatos_trn: i32,
    /// 1 si la conexión a Metadatos se abrió.
    pub metadatos_abierta: i32,
    pub conjunto: i32,
    pub lista: i32,
    pub documento: i32,
    pub compatibilidad: i32,
}

impl Registros {
    pub open spec fn valor(self, r: Registro) -> i32 {
        match r {
            Registro::EmpresaDb => self.empresa_db,
            Registro::EmpresaTrn => self.empresa_trn,
            Registro::MetadatosDb => self.metadatos_db,
            Registro::MetadatosTrn => self.metadatos_trn,
            Registro::MetadatosAbierta => self.metadatos_abierta,
            Registro::Conjunto => self.conjunto,
            Registro::Lista => self.lista,
            Registro::Documento => self.documento,
            Registro::Compatibilidad => self.compatibilidad,
        }
    }

    pub open spec fn con_valor(self, r: Registro, v: i32) -> Registros {
        match r {
            Registro::EmpresaDb => Registros { empresa_db: v, ..self },
            Registro::EmpresaTrn => Registros { empresa_trn: v, ..self },
            Registro::MetadatosDb => Registros { metadatos_db: v, ..self },
            Registro::MetadatosTrn => Registros { metadatos_trn: v, ..self },
            Registro::MetadatosAbierta => Registros { metadatos_abierta: v, ..self },
            Registro::Conjunto => Registros { conjunto: v, ..self },
            Registro::Lista => Registros { lista: v, ..self },
            Registro::Documento => Registros { documento: v, ..self },
            Registro::Compatibilidad => Registros { compatibilidad: v, ..self },
        }
    }

    /// Todos los registros en cero.
    pub open spec fn en_cero() -> Registros {
        Registros {
            empresa_db: 0,
            empresa_trn: 0,
            metadatos_db: 0,
            metadatos_trn: 0,
            metadatos_abierta: 0,
            conjunto: 0,
            lista: 0,
            documento: 0,
            compatibilidad: 0,
        }
    }

    pub fn nuevos() -> (r: Registros)
        ensures
            r == Registros::en_cero(),
    {
        Registros {
            empresa_db: 0,
            empresa_trn: 0,
            metadatos_db: 0,
            metadatos_trn: 0,
            metadatos_abierta: 0,
            conjunto: 0,
            lista: 0,
            documento: 0,
            compatibilidad: 0,
        }
    }

    pub fn leer(&self, r: Registro) -> (v: i32)
        ensures
            v == self.valor(r),
    {
        match r {
            Registro::EmpresaDb => self.empresa_db,
            Registro::EmpresaTrn => self.empresa_trn,
            Registro::MetadatosDb => self.metadatos_db,
            Registro::MetadatosTrn => self.metadatos_trn,
            Registro::MetadatosAbierta => self.metadatos_abierta,
            Registro::Conjunto => self.conjunto,
            Registro::Lista => self.lista,
            Registro::Documento => self.documento,
            Registro::Compatibilidad => self.compatibilidad,
        }
    }

    pub fn guardar(&mut self, r: Registro, v: i32)
        ensures
            *final(self) == old(self).con_valor(r, v),
    {
        match r {
            Registro::EmpresaDb => {
                self.empresa_db = v;
            },
            Registro::EmpresaTrn => {
                self.empresa_trn = v;
            },
            Registro::MetadatosDb => {
                self.metadatos_db = v;
            },
            Registro::MetadatosTrn => {
                self.metadatos_trn = v;
            },
            Registro::MetadatosAbierta => {
                self.metadatos_abierta = v;
            },
            Registro::Conjunto => {
                self.conjunto = v;
            },
            Registro::Lista => {
                self.lista = v;
            },
            Registro::Documento => {
                self.documento = v;
            },
            Registro::Compatibilidad => {
                self.compatibilidad = v;
            },
        }
    }
}

/// Operando de una llamada, antes de conocer los registros y de convertir
/// los textos.
#[derive(Debug)]
pub enum Operando {
    Entero(i32),
    Doble(Doble),
    Decimal(Decimal),
    Registro(Registro),
    /// Texto en UTF-8.
    Texto(String),
    /// Texto en la página de códigos ANSI.
    Ansi(String),
}

/// El contenido de un [`Operando`].
#[verifier::ext_equal]
pub enum OperandoV {
    Entero(i32),
    Doble(Doble),
    Decimal(Decimal),
    Registro(Registro),
    Texto(Seq<char>),
    Ansi(Seq<char>),
}

impl View for Operando {
    type V = OperandoV;

    open spec fn view(&self) -> OperandoV {
        match self {
            Operando::Entero(n) => OperandoV::Entero(*n),
            Operando::Doble(d) => OperandoV::Doble(*d),
            Operando::Decimal(d) => OperandoV::Decimal(*d),
            Operando::Registro(r) => OperandoV::Registro(*r),
            Operando::Texto(s) => OperandoV::Texto(s@),
            Operando::Ansi(s) => OperandoV::Ansi(s@),
        }
    }
}

/// Lista de operandos en orden.
#[derive(Debug)]
pub struct Operandos {
    pub lista: Vec<Operando>,
}

impl View for Operandos {
    type V = Seq<OperandoV>;

    open spec fn view(&self) -> Seq<OperandoV> {
        Seq::new(self.lista@.len(), |i: int| self.lista@[i]@)
    }
}

impl Operandos {
    pub fn vacio() -> (r: Operandos)
        ensures
            r@ == Seq::<OperandoV>::empty(),
    {
        let r = Operandos { lista: Vec::new() };
        proof {
            assert(r@ =~= Seq::<OperandoV>::empty());
        }
        r
    }

    fn con(self, o: Operando) -> (r: Operandos)
        ensures
            r@ == self@.push(o@),
    {
        let ghost antes = self@;
        let mut lista = self.lista;
        lista.push(o);
        let r = Operandos { lista };
        proof {
            assert(r@ =~= antes.push(o@));
        }
        r
    }

    pub fn entero(self, n: i32) -> (r: Operandos)
        ensures
            r@ == self@.push(OperandoV::Entero(n)),
    {
        self.con(Operando::Entero(n))
    }

    pub fn doble(self, d: Doble) -> (r: Operandos)
        ensures
            r@ == self@.push(OperandoV::Doble(d)),
    {
        self.con(Operando::Doble(d))
    }

    pub fn decimal(self, d: Decimal) -> (r: Operandos)
        ensures
            r@ == self@.push(OperandoV::Decimal(d)),
    {
        self.con(Operando::Decimal(d))
    }

    pub fn registro(self, reg: Registro) -> (r: Operandos)
        ensures
            r@ == self@.push(OperandoV::Registro(reg)),
    {
        self.con(Operando::Registro(reg))
    }

    pub fn texto(self, s: &str) -> (r: Operandos)
        ensures
            r@ == self@.push(OperandoV::Texto(s@)),
    {
        self.con(Operando::Texto(s.to_owned()))
    }

    pub fn ansi(self, s: &str) -> (r: Operandos)
        ensures
            r@ == self@.push(OperandoV::Ansi(s@)),
    {
        self.con(Operando::Ansi(s.to_owned()))
    }
}

/// Argumento de una llamada nativa, listo para entregarse.
#[derive(Debug)]
pub enum Argumento {
    Entero(i32),
    Doble(Doble),
    Decimal(Decimal),
    Texto(CadenaC),
}

/// El contenido de un [`Argumento`].
pub enum ArgumentoV {
    Entero(i32),
    Doble(Doble),
    Decimal(Decimal),
    Texto(Seq<u8>),
}

impl View for Argumento {
    type V = ArgumentoV;

    open spec fn view(&self) -> ArgumentoV {
        match self {
            Argumento::Entero(n) => ArgumentoV::Entero(*n),
            Argumento::Doble(d) => ArgumentoV::Doble(*d),
            Argumento::Decimal(d) => ArgumentoV::Decimal(*d),
            Argumento::Texto(c) => ArgumentoV::Texto(c@),
        }
    }
}

/// Qué exige de un campo quien convierte la fila para seguir leyendo.
#[derive(Debug, Clone, Copy, PartialEq, Eq, Structural)]
pub enum Exige {
    /// Nada: el campo es opcional.
    Nada,
    /// Que se pueda leer.
    Lectura,
    /// Que se pueda leer y sea un entero.
    Monto,
}

/// Qué se concluye de lo que regresó una llamada.
#[derive(Debug, Clone, Copy, PartialEq, Eq, Structural)]
pub enum Regla {
    /// Nadie mira el resultado.
    Ignora,
    /// Código de error del módulo: solo 0 es éxito.
    Cero(Modulo),
    /// Handle: solo un valor positivo es éxito, y se guarda.
    /// `con_valor` dice si el mensaje de falla muestra el handle recibido.
    Handle { registro: Registro, modulo: Modulo, con_valor: bool },
    /// Lista de parámetros nueva: un handle que además dura todo el proceso.
    ListaNueva(Modulo),
    /// `DBConnected`: solo 1 es éxito.
    Conectada,
    /// El código se guarda para juzgarlo después.
    Difiere,
    /// Desconexión. Si es estricta, su falla es la del guion cuando no había
    /// otra; si no, se ignora.
    Desconecta { estricta: bool },
    /// `DBConnect` de una conexión que se cierra al final: con éxito se anota
    /// que quedó abierta.
    Abre(Registro),
    /// Desconexión de una conexión anotada como abierta; si no lo está, el
    /// paso se salta. Su falla se ignora.
    DesconectaAbierta(Registro),
    /// Desconexión que ignora su propia falla y después juzga el código de
    /// compatibilidad de Ventas que se difirió.
    DesconectaYVerifica,
    /// Chequeo de compatibilidad de Cxc, que se hace una vez por proceso.
    CompatibleCxc,
    /// Identificador del documento en proceso.
    Documento(Modulo),
    /// `DtstEof`: con 0 hay otra fila; si no, se salta a `fin`.
    FinDeDatos { fin: usize },
    /// `DtstNext`: con éxito se vuelve a `inicio`.
    Siguiente { inicio: usize },
    /// Lectura de un campo de texto de la fila actual. Si no es lo que se
    /// exige, los demás ya no se leen: se salta a `entrega`.
    LeeTexto { exige: Exige, entrega: usize },
    /// Lectura de un campo entero de la fila actual, con la misma regla.
    LeeEntero { exige: Exige, entrega: usize },
}

/// Un paso de un guion.
#[derive(Debug)]
pub enum Paso {
    /// Localizar un símbolo de la biblioteca. Antes se convierten `previos`.
    Resuelve { simbolo: &'static str, previos: Operandos },
    /// Una llamada nativa. Antes se convierten `previos`.
    Llama { funcion: &'static str, previos: Operandos, args: Operandos, regla: Regla },
    /// La petición se rechaza aquí con un error de validación.
    Rechaza(&'static str),
    /// La fila leída se entrega a quien la convierte.
    EntregaFila,
}

/// El contenido de un [`Paso`].
#[verifier::ext_equal]
pub enum PasoV {
    Resuelve { simbolo: Seq<char>, previos: Seq<OperandoV> },
    Llama { funcion: Seq<char>, previos: Seq<OperandoV>, args: Seq<OperandoV>, regla: Regla },
    Rechaza(Seq<char>),
    EntregaFila,
}

impl View for Paso {
    type V = PasoV;

    open spec fn view(&self) -> PasoV {
        match self {
            Paso::Resuelve { simbolo, previos } => PasoV::Resuelve {
                simbolo: simbolo@,
                previos: previos@,
            },
            Paso::Llama { funcion, previos, args, regla } => PasoV::Llama {
                funcion: funcion@,
                previos: previos@,
                args: args@,
                regla: *regla,
            },
            Paso::Rechaza(m) => PasoV::Rechaza(m@),
            Paso::EntregaFila => PasoV::EntregaFila,
        }
    }
}

/// Lo que el ejecutor de un guion debe hacer a continuación.
#[derive(Debug)]
pub enum Accion {
    /// Localizar un símbolo.
    Resolver(&'static str),
    /// Hacer una llamada nativa.
    Llamar { funcion: &'static str, args: Vec<Argumento> },
    /// Pedir el último mensaje de error del módulo.
    PedirMensaje(Modulo),
    /// Convertir la fila leída.
    EntregarFila,
    /// Nada más: el guion terminó.
    Terminar,
}

/// El contenido de una [`Accion`].
pub enum AccionV {
    Resolver(Seq<char>),
    Llamar { funcion: Seq<char>, args: Seq<ArgumentoV> },
    PedirMensaje(Modulo),
    EntregarFila,
    Terminar,
}

impl View for Accion {
    type V = AccionV;

    open spec fn view(&self) -> AccionV {
        match self {
            Accion::Resolver(s) => AccionV::Resolver(s@),
            Accion::Llamar { funcion, args } => AccionV::Llamar {
                funcion: funcion@,
                args: Seq::new(args@.len(), |i: int| args@[i]@),
            },
            Accion::PedirMensaje(m) => AccionV::PedirMensaje(*m),
            Accion::EntregarFila => AccionV::EntregarFila,
            Accion::Terminar => AccionV::Terminar,
        }
    }
}

/// Lo que pasó al hacer una acción.
#[derive(Debug)]
pub enum Respuesta {
    /// El símbolo existe.
    Resuelto,
    /// El símbolo no existe; el texto dice por qué.
    NoResuelto(String),
    /// El valor que regresó la llamada (0 si es un procedimiento).
    Codigo(i32),
    /// Un argumento no se pudo convertir, y la llamada no se hizo.
    NoConvertido(IskandarError),
    /// Código y búfer de una lectura de texto.
    Texto { rc: i32, bufer: Vec<u8> },
    /// Código y valor de una lectura o salida entera.
    Entero { rc: i32, valor: i32 },
    /// El búfer del último mensaje, si el módulo sabe darlo.
    Mensaje(Option<Vec<u8>>),
    /// La fila se convirtió.
    FilaAceptada,
    /// La fila no se pudo convertir.
    FilaRechazada(IskandarError),
}

/// El contenido de una [`Respuesta`].
pub enum RespuestaV {
    Resuelto,
    NoResuelto(Seq<char>),
    Codigo(i32),
    NoConvertido(ErrorV),
    Texto { rc: i32, bufer: Seq<u8> },
    Entero { rc: i32, valor: i32 },
    Mensaje(Option<Seq<u8>>),
    FilaAceptada,
    FilaRechazada(ErrorV),
}

impl View for Respuesta {
    type V = RespuestaV;

    open spec fn view(&self) -> RespuestaV {
        match self {
            Respuesta::Resuelto => RespuestaV::Resuelto,
            Respuesta::NoResuelto(s) => RespuestaV::NoResuelto(s@),
            Respuesta::Codigo(n) => RespuestaV::Codigo(*n),
            Respuesta::NoConvertido(e) => RespuestaV::NoConvertido(e@),
            Respuesta::Texto { rc, bufer } => RespuestaV::Texto { rc: *rc, bufer: bufer@ },
            Respuesta::Entero { rc, valor } => RespuestaV::Entero { rc: *rc, valor: *valor },
            Respuesta::Mensaje(Some(b)) => RespuestaV::Mensaje(Some(b@)),
            Respuesta::Mensaje(None) => RespuestaV::Mensaje(None),
            Respuesta::FilaAceptada => RespuestaV::FilaAceptada,
            Respuesta::FilaRechazada(e) => RespuestaV::FilaRechazada(e@),
        }
    }
}

/// Un guion en construcción: sus pasos en orden.
#[derive(Debug)]
pub struct Guion {
    pub pasos: Vec<Paso>,
}

impl View for Guion {
    type V = Seq<PasoV>;

    open spec fn view(&self) -> Seq<PasoV> {
        Seq::new(self.pasos@.len(), |i: int| self.pasos@[i]@)
    }
}

/// El paso que localiza un símbolo sin más.
pub open spec fn resuelve(simbolo: Seq<char>) -> PasoV {
    PasoV::Resuelve { simbolo, previos: seq![] }
}

/// El paso que hace una llamada sin conversiones previas.
pub open spec fn llama(funcion: Seq<char>, args: Seq<OperandoV>, regla: Regla) -> PasoV {
    PasoV::Llama { funcion, previos: seq![], args, regla }
}

impl Guion {
    pub fn nuevo() -> (r: Guion)
        ensures
            r@ == Seq::<PasoV>::empty(),
    {
        let r = Guion { pasos: Vec::new() };
        proof {
            assert(r@ =~= Seq::<PasoV>::empty());
        }
        r
    }

    pub fn paso(&mut self, p: Paso)
        ensures
            final(self)@ == old(self)@.push(p@),
    {
        self.pasos.push(p);
        proof {
            assert(self@ =~= old(self)@.push(p@));
        }
    }

    pub fn resuelve(&mut self, simbolo: &'static str)
        ensures
            final(self)@ == old(self)@.push(resuelve(simbolo@)),
    {
        self.paso(Paso::Resuelve { simbolo, previos: Operandos::vacio() });
    }

    pub fn llama(&mut self, funcion: &'static str, args: Operandos, regla: Regla)
        ensures
            final(self)@ == old(self)@.push(llama(funcion@, args@, regla)),
    {
        self.paso(Paso::Llama { funcion, previos: Operandos::vacio(), args, regla });
    }
}

} // verus!
