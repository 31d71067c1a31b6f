//! Los guiones de la API nativa: qué llamadas hace cada operación, en qué
//! orden, con qué argumentos y qué se concluye de cada una.

use vstd::prelude::*;

use crate::microsip::maquina::{error_de_operandos, error_de_paso, MicrosipState, Programa};
use crate::microsip::nativo::{
    llama, resuelve, Guion, Modulo, OperandoV, Operandos, Paso, PasoV, Registro, Regla,
};

pub mod consulta;
pub mod credito;
pub mod factura;
pub mod filas;
pub mod nombres;

verus! {

/// A qué base se conecta un guion.
#[derive(Debug, Clone, Copy, PartialEq, Eq, Structural)]
pub enum Base {
    Empresa,
    Metadatos,
}

impl Base {
    pub open spec fn db(self) -> Registro {
        match self {
            Base::Empresa => Registro::EmpresaDb,
            Base::Metadatos => Registro::MetadatosDb,
        }
    }

    pub open spec fn trn(self) -> Registro {
        match self {
            Base::Empresa => Registro::EmpresaTrn,
            Base::Metadatos => Registro::MetadatosTrn,
        }
    }

    /// Cómo se lee el resultado de `DBConnect`: la conexión a Metadatos se
    /// anota, porque no siempre llega a abrirse.
    pub open spec fn conexion(self) -> Regla {
        match self {
            Base::Empresa => Regla::Cero(Modulo::Basica),
            Base::Metadatos => Regla::Abre(Registro::MetadatosAbierta),
        }
    }

    fn regla_conexion(self) -> (r: Regla)
        ensures
            r == self.conexion(),
    {
        match self {
            Base::Empresa => Regla::Cero(Modulo::Basica),
            Base::Metadatos => Regla::Abre(Registro::MetadatosAbierta),
        }
    }

    fn registro_db(self) -> (r: Registro)
        ensures
            r == self.db(),
    {
        match self {
            Base::Empresa => Registro::EmpresaDb,
            Base::Metadatos => Registro::MetadatosDb,
        }
    }

    fn registro_trn(self) -> (r: Registro)
        ensures
            r == self.trn(),
    {
        match self {
            Base::Empresa => Registro::EmpresaTrn,
            Base::Metadatos => Registro::MetadatosTrn,
        }
    }
}

// ---------------------------------------------------------------------
// Tramos
// ---------------------------------------------------------------------

/// Localizar, en orden, una lista de símbolos.
pub open spec fn simbolos(nombres: Seq<Seq<char>>) -> Seq<PasoV> {
    Seq::new(nombres.len(), |i: int| resuelve(nombres[i]))
}

/// Abrir una conexión: la transacción se crea entre `NewDB` y `DBConnect`, y
/// los textos se convierten antes de localizar `NewTrn`.
pub open spec fn conectar(
    base: Base,
    path: Seq<char>,
    usuario: Seq<char>,
    password: Seq<char>,
) -> Seq<PasoV> {
    seq![
        resuelve("SetErrorHandling"@),
        resuelve("NewDB"@),
        resuelve("DBConnect"@),
        PasoV::Resuelve {
            simbolo: "NewTrn"@,
            previos: seq![
                OperandoV::Texto(path),
                OperandoV::Texto(usuario),
                OperandoV::Texto(password),
            ],
        },
        llama(
            "SetErrorHandling"@,
            seq![OperandoV::Entero(0), OperandoV::Entero(0)],
            Regla::Ignora,
        ),
        llama(
            "NewDB"@,
            seq![],
            Regla::Handle { registro: base.db(), modulo: Modulo::Basica, con_valor: true },
        ),
        llama(
            "NewTrn"@,
            seq![OperandoV::Registro(base.db()), OperandoV::Entero(0)],
            Regla::Handle { registro: base.trn(), modulo: Modulo::Basica, con_valor: true },
        ),
        llama(
            "DBConnect"@,
            seq![
                OperandoV::Registro(base.db()),
                OperandoV::Texto(path),
                OperandoV::Texto(usuario),
                OperandoV::Texto(password),
            ],
            base.conexion(),
        ),
    ]
}

/// Cerrar la conexión a una base.
pub open spec fn desconectar(base: Base, regla: Regla) -> PasoV {
    llama("DBDisconnect"@, seq![OperandoV::Registro(base.db())], regla)
}

/// Llenar la lista de parámetros del proceso: se crea si no existe, y se
/// limpia antes de cada uso. Sin pares no hay lista.
pub open spec fn llenar_lista(
    modulo: Modulo,
    memoria: MicrosipState,
    pares: Seq<(String, String)>,
) -> Seq<PasoV> {
    if pares.len() == 0 {
        seq![]
    } else {
        (if memoria.pl_handle is None {
            seq![llama("NewPL"@, seq![], Regla::ListaNueva(modulo))]
        } else {
            seq![]
        }) + seq![
            llama("PLClear"@, seq![OperandoV::Registro(Registro::Lista)], Regla::Cero(modulo)),
        ] + Seq::new(
            pares.len(),
            |i: int|
                llama(
                    "PLSetParamValue"@,
                    seq![
                        OperandoV::Registro(Registro::Lista),
                        OperandoV::Texto(pares[i].0@),
                        OperandoV::Ansi(pares[i].1@),
                    ],
                    Regla::Cero(modulo),
                ),
        )
    }
}

/// El operando que nombra la lista de parámetros: -1 si no hay.
pub open spec fn operando_lista(pares: Seq<(String, String)>) -> OperandoV {
    if pares.len() == 0 {
        OperandoV::Entero((-1) as i32)
    } else {
        OperandoV::Registro(Registro::Lista)
    }
}

/// Un paso que no salta ni lee campos: sigue con el siguiente o falla.
pub open spec fn lineal(p: PasoV) -> bool {
    p matches PasoV::Llama { regla, .. } ==> !(regla is FinDeDatos || regla is Siguiente || regla
        is LeeTexto || regla is LeeEntero || regla is DesconectaAbierta)
}

/// Un paso que puede ir después del cuerpo.
pub open spec fn de_cierre(p: PasoV) -> bool {
    p matches PasoV::Llama { regla, .. } && (regla is Ignora || regla is Desconecta || regla
        is DesconectaAbierta)
}

/// Todos los pasos pueden ir después del cuerpo.
pub open spec fn todos_de_cierre(s: Seq<PasoV>) -> bool {
    forall|i: int| 0 <= i < s.len() ==> de_cierre(#[trigger] s[i])
}

/// Un guion que no da saltos: pasos lineales, y después los de cierre.
pub open spec fn recto(p: Programa) -> bool {
    forall|i: int|
        0 <= i < p.pasos.len() ==> lineal(#[trigger] p.pasos[i]) || de_cierre(p.pasos[i])
}

/// Todos los pasos son lineales.
pub open spec fn todos_lineales(s: Seq<PasoV>) -> bool {
    forall|i: int| 0 <= i < s.len() ==> lineal(#[trigger] s[i])
}

pub(crate) fn agregar_simbolos(g: &mut Guion, nombres: Vec<&'static str>)
    ensures
        final(g)@ == old(g)@ + simbolos(crate::extra::textos_de(nombres@)),
{
    let ghost antes = g@;
    let ghost textos = crate::extra::textos_de(nombres@);
    let mut i: usize = 0;
    proof {
        assert(g@ =~~= antes + simbolos(textos).take(0));
    }
    while i < nombres.len()
        invariant
            i <= nombres@.len(),
            textos == crate::extra::textos_de(nombres@),
            g@ == antes + simbolos(textos).take(i as int),
        decreases nombres@.len() - i,
    {
        g.resuelve(nombres[i]);
        i = i + 1;
        proof {
            assert(g@ =~~= antes + simbolos(textos).take(i as int));
        }
    }
    proof {
        assert(simbolos(textos).take(i as int) =~= simbolos(textos));
    }
}

pub(crate) fn agregar_conexion(g: &mut Guion, base: Base, path: &str, usuario: &str, password: &str)
    ensures
        final(g)@ == old(g)@ + conectar(base, path@, usuario@, password@),
{
    let ghost antes = g@;
    let db = base.registro_db();
    let trn = base.registro_trn();
    g.resuelve("SetErrorHandling");
    g.resuelve("NewDB");
    g.resuelve("DBConnect");
    g.paso(
        Paso::Resuelve {
            simbolo: "NewTrn",
            previos: Operandos::vacio().texto(path).texto(usuario).texto(password),
        },
    );
    g.llama("SetErrorHandling", Operandos::vacio().entero(0).entero(0), Regla::Ignora);
    g.llama(
        "NewDB",
        Operandos::vacio(),
        Regla::Handle { registro: db, modulo: Modulo::Basica, con_valor: true },
    );
    g.llama(
        "NewTrn",
        Operandos::vacio().registro(db).entero(0),
        Regla::Handle { registro: trn, modulo: Modulo::Basica, con_valor: true },
    );
    g.llama(
        "DBConnect",
        Operandos::vacio().registro(db).texto(path).texto(usuario).texto(password),
        base.regla_conexion(),
    );
    proof {
        assert(g@ =~~= antes + conectar(base, path@, usuario@, password@));
    }
}

pub(crate) fn agregar_desconexion(g: &mut Guion, base: Base, regla: Regla)
    ensures
        final(g)@ == old(g)@.push(desconectar(base, regla)),
{
    g.llama("DBDisconnect", Operandos::vacio().registro(base.registro_db()), regla);
}

pub(crate) fn agregar_lista(
    g: &mut Guion,
    modulo: Modulo,
    memoria: &MicrosipState,
    pares: &Vec<(String, String)>,
)
    ensures
        final(g)@ == old(g)@ + llenar_lista(modulo, *memoria, pares@),
{
    let ghost todo = llenar_lista(modulo, *memoria, pares@);
    let ghost antes = g@;
    if pares.len() > 0 {
        if memoria.pl_handle.is_none() {
            g.llama("NewPL", Operandos::vacio(), Regla::ListaNueva(modulo));
        }
        g.llama("PLClear", Operandos::vacio().registro(Registro::Lista), Regla::Cero(modulo));
        let mut i: usize = 0;
        let ghost n: int = if memoria.pl_handle is None {
            2
        } else {
            1
        };
        proof {
            assert(g@ =~~= antes + todo.take(n));
        }
        while i < pares.len()
            invariant
                i <= pares@.len(),
                pares@.len() > 0,
                n == 1 || n == 2,
                todo == llenar_lista(modulo, *memoria, pares@),
                todo.len() == n + pares@.len(),
                n == (if memoria.pl_handle is None {
                    2int
                } else {
                    1int
                }),
                g@ == antes + todo.take(n + i),
            decreases pares@.len() - i,
        {
            g.llama(
                "PLSetParamValue",
                Operandos::vacio().registro(Registro::Lista).texto(pares[i].0.as_str()).ansi(
                    pares[i].1.as_str(),
                ),
                Regla::Cero(modulo),
            );
            i = i + 1;
            proof {
                assert(todo[n + i - 1] =~~= g@.last());
                assert(g@ =~~= antes + todo.take(n + i));
            }
        }
        proof {
            assert(todo.take(n + i) =~= todo);
        }
    } else {
        proof {
            assert(g@ =~~= antes + todo);
        }
    }
}


pub(crate) fn con_lista(ops: Operandos, pares: &Vec<(String, String)>) -> (r: Operandos)
    ensures
        r@ == ops@.push(operando_lista(pares@)),
{
    if pares.len() == 0 {
        ops.entero(-1)
    } else {
        ops.registro(Registro::Lista)
    }
}

/// Un programa dado por sus cuatro tramos: toda falla del cuerpo pasa por el de
/// falla.
pub open spec fn tramos(
    preludio: Seq<PasoV>,
    cuerpo: Seq<PasoV>,
    al_fallar: Seq<PasoV>,
    cierre: Seq<PasoV>,
) -> Programa {
    Programa {
        pasos: preludio + cuerpo + al_fallar + cierre,
        cuerpo: preludio.len() as int,
        aborta: preludio.len() as int,
        al_fallar: (preludio + cuerpo).len() as int,
        cierre: (preludio + cuerpo + al_fallar).len() as int,
    }
}

/// Un texto opcional por su contenido.
pub open spec fn vista_opcion(o: Option<&str>) -> Option<Seq<char>> {
    match o {
        Some(s) => Some(s@),
        None => None,
    }
}

// ---------------------------------------------------------------------
// Validez
// ---------------------------------------------------------------------

pub(crate) proof fn lema_suma_lineal(a: Seq<PasoV>, b: Seq<PasoV>)
    requires
        todos_lineales(a),
        todos_lineales(b),
    ensures
        todos_lineales(a + b),
{
    assert forall|i: int| 0 <= i < (a + b).len() implies lineal(#[trigger] (a + b)[i]) by {
        if i < a.len() {
            assert(lineal(a[i]));
        } else {
            assert(lineal(b[i - a.len()]));
        }
    }
}

pub(crate) proof fn lema_tramos_lineales(
    preludio: Seq<PasoV>,
    cuerpo: Seq<PasoV>,
    al_fallar: Seq<PasoV>,
    cierre: Seq<PasoV>,
)
    requires
        todos_lineales(preludio),
        todos_lineales(cuerpo),
        todos_lineales(al_fallar),
        todos_de_cierre(al_fallar),
        todos_de_cierre(cierre),
    ensures
        recto(tramos(preludio, cuerpo, al_fallar, cierre)),
        tramos(preludio, cuerpo, al_fallar, cierre).valido(),
{
    let p = tramos(preludio, cuerpo, al_fallar, cierre);
    let a = preludio + cuerpo;
    lema_suma_lineal(preludio, cuerpo);
    assert forall|i: int| 0 <= i < p.pasos.len() implies #[trigger] p.paso_valido(i) && (lineal(
        p.pasos[i],
    ) || de_cierre(p.pasos[i])) by {
        if i < a.len() {
            assert(p.pasos[i] == a[i]);
            assert(lineal(a[i]));
        } else if i < p.cierre {
            assert(p.pasos[i] == al_fallar[i - a.len()]);
            assert(lineal(al_fallar[i - a.len()]));
            assert(de_cierre(al_fallar[i - a.len()]));
        } else {
            assert(p.pasos[i] == cierre[i - p.cierre]);
            assert(de_cierre(cierre[i - p.cierre]));
        }
    }
    assert forall|i: int| 0 <= i < p.pasos.len() implies lineal(#[trigger] p.pasos[i])
        || de_cierre(p.pasos[i]) by {
        assert(p.paso_valido(i));
    }
}

pub(crate) proof fn lema_conectar_lineal(
    base: Base,
    path: Seq<char>,
    usuario: Seq<char>,
    password: Seq<char>,
)
    ensures
        todos_lineales(conectar(base, path, usuario, password)),
        conectar(base, path, usuario, password).len() == 8,
{
}

pub(crate) proof fn lema_lista_lineal(
    modulo: Modulo,
    memoria: MicrosipState,
    pares: Seq<(String, String)>,
)
    ensures
        todos_lineales(llenar_lista(modulo, memoria, pares)),
{
}

/// Un paso sin textos siempre se puede intentar.
pub(crate) proof fn lema_desconectar_posible(base: Base, regla: Regla)
    ensures
        error_de_paso(desconectar(base, regla)) is None,
{
    reveal_with_fuel(error_de_operandos, 3);
}

pub(crate) proof fn lema_sin_args_posible(funcion: Seq<char>, regla: Regla)
    ensures
        error_de_paso(llama(funcion, seq![], regla)) is None,
{
}

/// El paso crea la lista de parámetros del proceso.
pub open spec fn crea_lista(p: PasoV) -> bool {
    p matches PasoV::Llama { regla: Regla::ListaNueva(_), .. }
}

/// El paso chequea la compatibilidad de un módulo.
pub open spec fn chequea_compatibilidad(p: PasoV) -> bool {
    p matches PasoV::Llama { regla, .. } && (regla is Difiere || regla is CompatibleCxc)
}

pub(crate) proof fn lema_lista_nueva(
    modulo: Modulo,
    memoria: MicrosipState,
    pares: Seq<(String, String)>,
)
    ensures
        ({
            let s = llenar_lista(modulo, memoria, pares);
            &&& memoria.pl_handle is None && pares.len() > 0 ==> s.len() > 0 && crea_lista(s[0])
            &&& forall|i: int|
                0 <= i < s.len() && crea_lista(#[trigger] s[i]) ==> memoria.pl_handle is None
                    && pares.len() > 0
            &&& forall|i: int| 0 <= i < s.len() ==> !chequea_compatibilidad(#[trigger] s[i])
        }),
{
}

} // verus!
