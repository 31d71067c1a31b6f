//! Conexión, prueba de conexión y consultas de solo lectura.

use vstd::prelude::*;

use crate::microsip::guiones::{
    agregar_conexion, agregar_desconexion, agregar_simbolos, conectar, desconectar,
    lema_conectar_lineal, lema_desconectar_posible, lema_tramos_lineales, lineal, simbolos,
    todos_lineales, tramos, Base,
};
use crate::microsip::leyes::{sin_estrictos, sin_omisiones};
use crate::microsip::maquina::Programa;
use crate::microsip::nativo::{
    llama, resuelve, Exige, Guion, Modulo, OperandoV, Operandos, Paso, PasoV, Registro, Registros, Regla,
};

verus! {

/// Un campo que una consulta lee de cada fila, y lo que de él se exige para
/// seguir leyendo los demás.
#[derive(Debug)]
pub enum Campo {
    Texto(String, Exige),
    Entero(String, Exige),
}

/// Una consulta de solo lectura: su SQL, sus parámetros con nombre y los
/// campos que se leen de cada fila.
#[derive(Debug)]
pub struct Consulta {
    pub sql: String,
    pub params: Vec<(&'static str, String)>,
    pub campos: Vec<Campo>,
}

/// El contenido de un [`Campo`].
pub enum CampoV {
    Texto(Seq<char>, Exige),
    Entero(Seq<char>, Exige),
}

impl View for Campo {
    type V = CampoV;

    open spec fn view(&self) -> CampoV {
        match self {
            Campo::Texto(n, exige) => CampoV::Texto(n@, *exige),
            Campo::Entero(n, exige) => CampoV::Entero(n@, *exige),
        }
    }
}

/// El contenido de una lista de campos.
pub open spec fn campos_de(campos: Seq<Campo>) -> Seq<CampoV> {
    Seq::new(campos.len(), |i: int| campos[i]@)
}

// ---------------------------------------------------------------------
// Conexión
// ---------------------------------------------------------------------

/// Abrir una conexión y dejarla abierta.
pub open spec fn programa_conexion(
    db_path: Seq<char>,
    usuario: Seq<char>,
    password: Seq<char>,
) -> Programa {
    tramos(conectar(Base::Empresa, db_path, usuario, password), seq![], seq![], seq![])
}

/// Preguntar si una conexión sigue activa.
pub open spec fn programa_conectada(db: i32) -> Programa {
    tramos(
        seq![
            resuelve("DBConnected"@),
            llama("DBConnected"@, seq![OperandoV::Entero(db)], Regla::Difiere),
        ],
        seq![],
        seq![],
        seq![],
    )
}

/// Cerrar una conexión.
pub open spec fn programa_desconexion(db: i32) -> Programa {
    tramos(
        seq![],
        seq![],
        seq![],
        seq![
            llama(
                "DBDisconnect"@,
                seq![OperandoV::Entero(db)],
                Regla::Desconecta { estricta: true },
            ),
        ],
    )
}

/// Probar la conexión: abrirla, confirmar que está activa y cerrarla. La
/// falla del cierre cuenta.
pub open spec fn programa_prueba(
    db_path: Seq<char>,
    usuario: Seq<char>,
    password: Seq<char>,
) -> Programa {
    tramos(
        conectar(Base::Empresa, db_path, usuario, password) + seq![resuelve("DBConnected"@)],
        seq![
            llama(
                "DBConnected"@,
                seq![OperandoV::Registro(Registro::EmpresaDb)],
                Regla::Conectada,
            ),
        ],
        seq![],
        seq![desconectar(Base::Empresa, Regla::Desconecta { estricta: true })],
    )
}

/// Abrir una conexión y cerrarla en el acto; la falla del cierre no cuenta.
pub open spec fn programa_sonda(
    db_path: Seq<char>,
    usuario: Seq<char>,
    password: Seq<char>,
) -> Programa {
    tramos(
        conectar(Base::Empresa, db_path, usuario, password),
        seq![],
        seq![],
        seq![desconectar(Base::Empresa, Regla::Desconecta { estricta: false })],
    )
}

pub fn guion_conexion(db_path: &str, usuario: &str, password: &str) -> (r: (Guion, usize))
    ensures
        (Programa {
            pasos: r.0@,
            cuerpo: r.1 as int,
            aborta: r.1 as int,
            al_fallar: r.1 as int,
            cierre: r.1 as int,
        }) == programa_conexion(db_path@, usuario@, password@),
        programa_conexion(db_path@, usuario@, password@).valido(),
{
    let mut g = Guion::nuevo();
    agregar_conexion(&mut g, Base::Empresa, db_path, usuario, password);
    let n: usize = g.pasos.len();
    proof {
        let pre = conectar(Base::Empresa, db_path@, usuario@, password@);
        lema_conectar_lineal(Base::Empresa, db_path@, usuario@, password@);
        lema_tramos_lineales(pre, seq![], seq![], seq![]);
        assert(g@ =~= pre + seq![] + seq![] + seq![]);
    }
    (g, n)
}

pub fn guion_conectada(db: i32) -> (r: (Guion, usize))
    ensures
        (Programa {
            pasos: r.0@,
            cuerpo: r.1 as int,
            aborta: r.1 as int,
            al_fallar: r.1 as int,
            cierre: r.1 as int,
        }) == programa_conectada(db),
        programa_conectada(db).valido(),
{
    let mut g = Guion::nuevo();
    g.resuelve("DBConnected");
    g.llama("DBConnected", Operandos::vacio().entero(db), Regla::Difiere);
    let n: usize = g.pasos.len();
    proof {
        assert(g@ =~= programa_conectada(db).pasos);
        assert forall|i: int|
            0 <= i < programa_conectada(db).pasos.len() implies #[trigger] programa_conectada(
            db,
        ).paso_valido(i) by {
            assert(lineal(programa_conectada(db).pasos[i]));
        }
    }
    (g, n)
}

pub fn guion_desconexion(db: i32) -> (r: Guion)
    ensures
        (Programa { pasos: r@, cuerpo: 0, aborta: 0, al_fallar: 0, cierre: 0 }) == programa_desconexion(db),
        programa_desconexion(db).valido(),
{
    let mut g = Guion::nuevo();
    g.llama(
        "DBDisconnect",
        Operandos::vacio().entero(db),
        Regla::Desconecta { estricta: true },
    );
    proof {
        assert(g@ =~= programa_desconexion(db).pasos);
    }
    g
}

pub fn guion_prueba(db_path: &str, usuario: &str, password: &str) -> (r: (Guion, usize, usize))
    ensures
        (Programa {
            pasos: r.0@,
            cuerpo: r.1 as int,
            aborta: r.1 as int,
            al_fallar: r.2 as int,
            cierre: r.2 as int,
        }) == programa_prueba(db_path@, usuario@, password@),
        programa_prueba(db_path@, usuario@, password@).valido(),
{
    let mut g = Guion::nuevo();
    agregar_conexion(&mut g, Base::Empresa, db_path, usuario, password);
    g.resuelve("DBConnected");
    let cuerpo: usize = g.pasos.len();
    g.llama("DBConnected", Operandos::vacio().registro(Registro::EmpresaDb), Regla::Conectada);
    let cierre: usize = g.pasos.len();
    agregar_desconexion(&mut g, Base::Empresa, Regla::Desconecta { estricta: true });
    proof {
        let pr = programa_prueba(db_path@, usuario@, password@);
        lema_conectar_lineal(Base::Empresa, db_path@, usuario@, password@);
        assert(g@ =~= pr.pasos);
        assert forall|i: int| 0 <= i < pr.pasos.len() implies #[trigger] pr.paso_valido(i) by {
            assert(lineal(pr.pasos[i]));
        }
    }
    (g, cuerpo, cierre)
}

pub fn guion_sonda(db_path: &str, usuario: &str, password: &str) -> (r: (Guion, usize))
    ensures
        (Programa {
            pasos: r.0@,
            cuerpo: r.1 as int,
            aborta: r.1 as int,
            al_fallar: r.1 as int,
            cierre: r.1 as int,
        }) == programa_sonda(db_path@, usuario@, password@),
        programa_sonda(db_path@, usuario@, password@).valido(),
{
    let mut g = Guion::nuevo();
    agregar_conexion(&mut g, Base::Empresa, db_path, usuario, password);
    let n: usize = g.pasos.len();
    agregar_desconexion(&mut g, Base::Empresa, Regla::Desconecta { estricta: false });
    proof {
        let pr = programa_sonda(db_path@, usuario@, password@);
        lema_conectar_lineal(Base::Empresa, db_path@, usuario@, password@);
        assert(g@ =~= pr.pasos);
        assert forall|i: int| 0 <= i < pr.pasos.len() implies #[trigger] pr.paso_valido(i) by {
            assert(lineal(pr.pasos[i]));
        }
    }
    (g, n)
}

// ---------------------------------------------------------------------
// Consulta
// ---------------------------------------------------------------------

/// Los símbolos que una consulta localiza.
pub open spec fn simbolos_consulta() -> Seq<Seq<char>> {
    seq![
        "TrnStart"@,
        "TrnCommit"@,
        "NewDtst"@,
        "DtstSelQry"@,
        "DtstSetParamAsString"@,
        "DtstOpen"@,
        "DtstEof"@,
        "DtstNext"@,
        "DtstClose"@,
        "DtstGetFieldAsString"@,
        "DtstGetFieldAsInteger"@,
    ]
}

/// Los textos de una consulta, en el orden en que se convierten: el SQL y,
/// por cada parámetro, su nombre y su valor.
pub open spec fn textos_consulta(c: Consulta) -> Seq<OperandoV> {
    seq![OperandoV::Texto(c.sql@)] + textos_params(c.params@)
}

pub open spec fn textos_params(params: Seq<(&'static str, String)>) -> Seq<OperandoV>
    decreases params.len(),
{
    if params.len() == 0 {
        seq![]
    } else {
        textos_params(params.drop_last()).push(OperandoV::Texto(params.last().0@)).push(
            OperandoV::Texto(params.last().1@),
        )
    }
}

/// El enlace del parámetro `i`: el valor va siempre aparte del SQL.
pub open spec fn enlace(c: Consulta, i: int) -> PasoV {
    llama(
        "DtstSetParamAsString"@,
        seq![
            OperandoV::Registro(Registro::Conjunto),
            OperandoV::Texto(c.params@[i].0@),
            OperandoV::Texto(c.params@[i].1@),
        ],
        Regla::Cero(Modulo::Basica),
    )
}

/// La lectura del campo `i` de la fila actual; si no es lo que se exige, se
/// salta al paso `entrega`.
pub open spec fn lectura(c: Consulta, i: int, entrega: int) -> PasoV {
    match c.campos@[i] {
        Campo::Texto(n, exige) => llama(
            "DtstGetFieldAsString"@,
            seq![OperandoV::Registro(Registro::Conjunto), OperandoV::Texto(n@)],
            Regla::LeeTexto { exige, entrega: entrega as usize },
        ),
        Campo::Entero(n, exige) => llama(
            "DtstGetFieldAsInteger"@,
            seq![OperandoV::Registro(Registro::Conjunto), OperandoV::Texto(n@)],
            Regla::LeeEntero { exige, entrega: entrega as usize },
        ),
    }
}

/// La preparación de una consulta, hasta abrirla.
pub open spec fn apertura_consulta(c: Consulta) -> Seq<PasoV> {
    let conjunto = seq![OperandoV::Registro(Registro::Conjunto)];
    simbolos(simbolos_consulta()) + seq![
        PasoV::Llama {
            funcion: "TrnStart"@,
            previos: textos_consulta(c),
            args: seq![OperandoV::Registro(Registro::EmpresaTrn)],
            regla: Regla::Cero(Modulo::Basica),
        },
        llama(
            "NewDtst"@,
            seq![OperandoV::Registro(Registro::EmpresaTrn)],
            Regla::Handle {
                registro: Registro::Conjunto,
                modulo: Modulo::Basica,
                con_valor: false,
            },
        ),
        llama(
            "DtstSelQry"@,
            conjunto.push(OperandoV::Texto(c.sql@)),
            Regla::Cero(Modulo::Basica),
        ),
    ] + Seq::new(c.params@.len(), |i: int| enlace(c, i)) + seq![
        llama("DtstOpen"@, conjunto, Regla::Cero(Modulo::Basica)),
    ]
}

/// El recorrido de las filas, que empieza en el paso `inicio`: mientras haya
/// fila se leen sus campos (hasta el primero que no es lo que se exige), se
/// entrega y se pasa a la siguiente; al final se cierra el conjunto y se confirma la transacción.
pub open spec fn recorrido_consulta(c: Consulta, inicio: int) -> Seq<PasoV> {
    let conjunto = seq![OperandoV::Registro(Registro::Conjunto)];
    seq![
        llama(
            "DtstEof"@,
            conjunto,
            Regla::FinDeDatos { fin: (inicio + c.campos@.len() + 3) as usize },
        ),
    ] + Seq::new(
        c.campos@.len(),
        |i: int| lectura(c, i, inicio + c.campos@.len() + 1),
    ) + seq![
        PasoV::EntregaFila,
        llama("DtstNext"@, conjunto, Regla::Siguiente { inicio: inicio as usize }),
        llama("DtstClose"@, conjunto, Regla::Ignora),
        llama(
            "TrnCommit"@,
            seq![OperandoV::Registro(Registro::EmpresaTrn)],
            Regla::Cero(Modulo::Basica),
        ),
    ]
}

/// El paso en el que empieza el recorrido de las filas.
pub open spec fn inicio_recorrido(c: Consulta) -> int {
    8 + apertura_consulta(c).len() as int
}

/// Conectarse, consultar y desconectarse; la falla de la desconexión no
/// cuenta.
pub open spec fn programa_consulta(
    db_path: Seq<char>,
    usuario: Seq<char>,
    password: Seq<char>,
    c: Consulta,
) -> Programa {
    tramos(
        conectar(Base::Empresa, db_path, usuario, password),
        apertura_consulta(c) + recorrido_consulta(c, inicio_recorrido(c)),
        seq![],
        seq![desconectar(Base::Empresa, Regla::Desconecta { estricta: false })],
    )
}

/// La consulta cabe en un guion.
pub open spec fn consulta_cabe(c: Consulta) -> bool {
    c.params@.len() + c.campos@.len() + 40 <= usize::MAX
}

/// El programa de una consulta es válido, siempre se cierra, y la
/// desconexión no cambia su resultado.
pub proof fn ley_consulta_valida(
    db_path: Seq<char>,
    usuario: Seq<char>,
    password: Seq<char>,
    c: Consulta,
)
    requires
        consulta_cabe(c),
    ensures
        programa_consulta(db_path, usuario, password, c).valido(),
        programa_consulta(db_path, usuario, password, c).cierre_posible(),
        sin_estrictos(programa_consulta(db_path, usuario, password, c)),
        sin_omisiones(programa_consulta(db_path, usuario, password, c)),
{
    let pr = programa_consulta(db_path, usuario, password, c);
    let apertura = apertura_consulta(c);
    let inicio = inicio_recorrido(c);
    let recorrido = recorrido_consulta(c, inicio);
    lema_conectar_lineal(Base::Empresa, db_path, usuario, password);
    lema_desconectar_posible(Base::Empresa, Regla::Desconecta { estricta: false });
    assert(apertura.len() == 15 + c.params@.len());
    assert(recorrido.len() == c.campos@.len() + 5);
    assert(pr.cierre_posible());
    assert(todos_lineales(apertura));
    assert forall|i: int| 0 <= i < pr.pasos.len() implies #[trigger] pr.paso_valido(i)
        && !pr.es_estricto(i) by {
        if i < 8 {
            assert(lineal(conectar(Base::Empresa, db_path, usuario, password)[i]));
        } else if i < inicio {
            assert(pr.pasos[i] == apertura[i - 8]);
            assert(lineal(apertura[i - 8]));
        } else if i < pr.al_fallar {
            assert(pr.pasos[i] == recorrido[i - inicio]);
            if inicio < i < inicio + 1 + c.campos@.len() {
                assert(recorrido[i - inicio] == lectura(
                    c,
                    i - inicio - 1,
                    inicio + c.campos@.len() + 1,
                ));
            }
        }
    }
    assert forall|i: int| 0 <= i < pr.pasos.len() implies !#[trigger] pr.es_estricto(i) by {
        assert(pr.paso_valido(i));
    }
    assert forall|regs: Registros, i: int|
        0 <= i < pr.pasos.len() implies !#[trigger] pr.omitido(regs, i) by {
        assert(pr.paso_valido(i));
    }
}

fn operandos_consulta(c: &Consulta) -> (r: Operandos)
    ensures
        r@ == textos_consulta(*c),
{
    let mut r = Operandos::vacio().texto(c.sql.as_str());
    let mut i: usize = 0;
    proof {
        assert(c.params@.take(0) =~= seq![]);
        assert(r@ =~= seq![OperandoV::Texto(c.sql@)] + textos_params(c.params@.take(0)));
    }
    while i < c.params.len()
        invariant
            i <= c.params@.len(),
            r@ == seq![OperandoV::Texto(c.sql@)] + textos_params(c.params@.take(i as int)),
        decreases c.params@.len() - i,
    {
        r = r.texto(c.params[i].0).texto(c.params[i].1.as_str());
        i = i + 1;
        proof {
            assert(c.params@.take(i as int).drop_last() =~= c.params@.take(i - 1));
            assert(r@ =~= seq![OperandoV::Texto(c.sql@)] + textos_params(
                c.params@.take(i as int),
            ));
        }
    }
    proof {
        assert(c.params@.take(i as int) =~= c.params@);
    }
    r
}

fn agregar_apertura_consulta(g: &mut Guion, c: &Consulta)
    ensures
        final(g)@ == old(g)@ + apertura_consulta(*c),
{
    let ghost antes = g@;
    let ghost todo = apertura_consulta(*c);
    let nombres: Vec<&'static str> = vec![
        "TrnStart",
        "TrnCommit",
        "NewDtst",
        "DtstSelQry",
        "DtstSetParamAsString",
        "DtstOpen",
        "DtstEof",
        "DtstNext",
        "DtstClose",
        "DtstGetFieldAsString",
        "DtstGetFieldAsInteger",
    ];
    proof {
        assert(crate::extra::textos_de(nombres@) =~= simbolos_consulta());
    }
    agregar_simbolos(g, nombres);
    g.paso(
        Paso::Llama {
            funcion: "TrnStart",
            previos: operandos_consulta(c),
            args: Operandos::vacio().registro(Registro::EmpresaTrn),
            regla: Regla::Cero(Modulo::Basica),
        },
    );
    g.llama(
        "NewDtst",
        Operandos::vacio().registro(Registro::EmpresaTrn),
        Regla::Handle { registro: Registro::Conjunto, modulo: Modulo::Basica, con_valor: false },
    );
    g.llama(
        "DtstSelQry",
        Operandos::vacio().registro(Registro::Conjunto).texto(c.sql.as_str()),
        Regla::Cero(Modulo::Basica),
    );
    proof {
        assert(g@ =~~= antes + todo.take(14));
    }
    let mut i: usize = 0;
    while i < c.params.len()
        invariant
            i <= c.params@.len(),
            todo == apertura_consulta(*c),
            todo.len() == 15 + c.params@.len(),
            g@ == antes + todo.take(14 + i),
        decreases c.params@.len() - i,
    {
        g.llama(
            "DtstSetParamAsString",
            Operandos::vacio().registro(Registro::Conjunto).texto(c.params[i].0).texto(
                c.params[i].1.as_str(),
            ),
            Regla::Cero(Modulo::Basica),
        );
        i = i + 1;
        proof {
            assert(todo[14 + i - 1] == enlace(*c, i - 1));
            assert(enlace(*c, i - 1) =~~= g@.last());
            assert(g@ =~~= antes + todo.take(14 + i));
        }
    }
    g.llama("DtstOpen", Operandos::vacio().registro(Registro::Conjunto), Regla::Cero(Modulo::Basica));
    proof {
        assert(g@ =~~= antes + todo);
    }
}

fn agregar_recorrido_consulta(g: &mut Guion, c: &Consulta)
    requires
        old(g)@.len() + c.campos@.len() + 3 <= usize::MAX,
    ensures
        final(g)@ == old(g)@ + recorrido_consulta(*c, old(g)@.len() as int),
{
    let ghost antes = g@;
    let inicio: usize = g.pasos.len();
    let ghost todo = recorrido_consulta(*c, inicio as int);
    let entrega: usize = inicio + c.campos.len() + 1;
    g.llama(
        "DtstEof",
        Operandos::vacio().registro(Registro::Conjunto),
        Regla::FinDeDatos { fin: inicio + c.campos.len() + 3 },
    );
    proof {
        assert(g@ =~~= antes + todo.take(1));
    }
    let mut i: usize = 0;
    while i < c.campos.len()
        invariant
            i <= c.campos@.len(),
            todo == recorrido_consulta(*c, inicio as int),
            todo.len() == 5 + c.campos@.len(),
            entrega == inicio + c.campos@.len() + 1,
            g@ == antes + todo.take(1 + i),
        decreases c.campos@.len() - i,
    {
        match &c.campos[i] {
            Campo::Texto(n, exige) => {
                g.llama(
                    "DtstGetFieldAsString",
                    Operandos::vacio().registro(Registro::Conjunto).texto(n.as_str()),
                    Regla::LeeTexto { exige: *exige, entrega },
                );
            },
            Campo::Entero(n, exige) => {
                g.llama(
                    "DtstGetFieldAsInteger",
                    Operandos::vacio().registro(Registro::Conjunto).texto(n.as_str()),
                    Regla::LeeEntero { exige: *exige, entrega },
                );
            },
        }
        i = i + 1;
        proof {
            assert(todo[1 + i - 1] == lectura(*c, i - 1, entrega as int));
            assert(lectura(*c, i - 1, entrega as int) =~~= g@.last());
            assert(g@ =~~= antes + todo.take(1 + i));
        }
    }
    g.paso(Paso::EntregaFila);
    g.llama(
        "DtstNext",
        Operandos::vacio().registro(Registro::Conjunto),
        Regla::Siguiente { inicio },
    );
    g.llama("DtstClose", Operandos::vacio().registro(Registro::Conjunto), Regla::Ignora);
    g.llama(
        "TrnCommit",
        Operandos::vacio().registro(Registro::EmpresaTrn),
        Regla::Cero(Modulo::Basica),
    );
    proof {
        assert(g@ =~~= antes + todo);
    }
}

/// El guion de una consulta, con el inicio del cuerpo y el del cierre.
pub fn guion_consulta(db_path: &str, usuario: &str, password: &str, c: &Consulta) -> (r: (
    Guion,
    usize,
    usize,
))
    requires
        consulta_cabe(*c),
    ensures
        (Programa {
            pasos: r.0@,
            cuerpo: r.1 as int,
            aborta: r.1 as int,
            al_fallar: r.2 as int,
            cierre: r.2 as int,
        }) == programa_consulta(db_path@, usuario@, password@, *c),
{
    let mut g = Guion::nuevo();
    agregar_conexion(&mut g, Base::Empresa, db_path, usuario, password);
    let cuerpo: usize = g.pasos.len();
    proof {
        lema_conectar_lineal(Base::Empresa, db_path@, usuario@, password@);
        assert(apertura_consulta(*c).len() == 15 + c.params@.len());
    }
    agregar_apertura_consulta(&mut g, c);
    agregar_recorrido_consulta(&mut g, c);
    let cierre: usize = g.pasos.len();
    agregar_desconexion(&mut g, Base::Empresa, Regla::Desconecta { estricta: false });
    proof {
        assert(g@ =~= programa_consulta(db_path@, usuario@, password@, *c).pasos);
    }
    (g, cuerpo, cierre)
}

} // verus!
