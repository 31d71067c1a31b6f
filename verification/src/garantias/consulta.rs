//! Las conexiones y las consultas: cada llamada nativa, operando por operando.

use vstd::prelude::*;

use crate::garantias::pasos::{conexion_en, desconexion, lema_conexion_en, llamada, localiza};
use crate::microsip::config::MicrosipConfig;
use crate::microsip::guiones::consulta::{
    apertura_consulta, consulta_cabe, enlace, inicio_recorrido, lectura, programa_conectada,
    programa_conexion, programa_consulta, programa_desconexion, programa_prueba, programa_sonda,
    recorrido_consulta, simbolos_consulta, textos_consulta, textos_params, Campo, Consulta,
};
use crate::microsip::guiones::{conectar, simbolos, Base};
use crate::microsip::nativo::{Modulo, OperandoV, PasoV, Registro, Regla};

verus! {

/// Las existencias negativas se prohíben con 1 y se permiten con 0; el precio
/// mínimo se valida con 1 y no con 0.
pub proof fn ley_reglas_de_ventas(c: MicrosipConfig)
    ensures
        c.existencias_negativas ==> c.reglas().0 == 0,
        !c.existencias_negativas ==> c.reglas().0 == 1,
        c.validar_precio_minimo ==> c.reglas().1 == 1,
        !c.validar_precio_minimo ==> c.reglas().1 == 0,
{
}

/// Conectarse son los ocho pasos de una conexión y nada más; sondear, esos y
/// desconectarse, sin que la desconexión cuente; probar, esos, preguntar si la
/// conexión está viva y desconectarse, y ahí la desconexión sí cuenta.
pub proof fn ley_conexiones(ruta: Seq<char>, usuario: Seq<char>, password: Seq<char>)
    ensures
        ({
            let pr = programa_conexion(ruta, usuario, password);
            &&& pr.pasos.len() == 8
            &&& pr.cuerpo == 8
            &&& conexion_en(
                pr.pasos,
                0,
                Registro::EmpresaDb,
                Registro::EmpresaTrn,
                Regla::Cero(Modulo::Basica),
                ruta,
                usuario,
                password,
            )
        }),
        ({
            let pr = programa_sonda(ruta, usuario, password);
            &&& pr.pasos.len() == 9
            &&& pr.cuerpo == 8
            &&& pr.al_fallar == 8
            &&& pr.cierre == 8
            &&& conexion_en(
                pr.pasos,
                0,
                Registro::EmpresaDb,
                Registro::EmpresaTrn,
                Regla::Cero(Modulo::Basica),
                ruta,
                usuario,
                password,
            )
            &&& desconexion(
                pr.pasos[8],
                Registro::EmpresaDb,
                Regla::Desconecta { estricta: false },
            )
        }),
        ({
            let pr = programa_prueba(ruta, usuario, password);
            &&& pr.pasos.len() == 11
            &&& pr.cuerpo == 9
            &&& pr.aborta == 9
            &&& pr.al_fallar == 10
            &&& pr.cierre == 10
            &&& conexion_en(
                pr.pasos,
                0,
                Registro::EmpresaDb,
                Registro::EmpresaTrn,
                Regla::Cero(Modulo::Basica),
                ruta,
                usuario,
                password,
            )
            &&& localiza(pr.pasos[8], "DBConnected"@)
            &&& llamada(pr.pasos[9], "DBConnected"@, 1, Regla::Conectada)
            &&& pr.pasos[9]->args[0] == OperandoV::Registro(Registro::EmpresaDb)
            &&& desconexion(
                pr.pasos[10],
                Registro::EmpresaDb,
                Regla::Desconecta { estricta: true },
            )
        }),
{
    let con = conectar(Base::Empresa, ruta, usuario, password);
    assert(con.len() == 8);
    let a = programa_conexion(ruta, usuario, password).pasos;
    let b = programa_sonda(ruta, usuario, password).pasos;
    let c = programa_prueba(ruta, usuario, password).pasos;
    assert(a.subrange(0, 8) =~= con);
    assert(b.subrange(0, 8) =~= con);
    assert(c.subrange(0, 8) =~= con);
    lema_conexion_en(a, 0, Base::Empresa, ruta, usuario, password);
    lema_conexion_en(b, 0, Base::Empresa, ruta, usuario, password);
    lema_conexion_en(c, 0, Base::Empresa, ruta, usuario, password);
}

/// Preguntar por una conexión y cerrarla se hace con su propio handle.
pub proof fn ley_conexion_propia(db: i32)
    ensures
        ({
            let pr = programa_conectada(db);
            &&& pr.pasos.len() == 2
            &&& pr.cuerpo == 2
            &&& localiza(pr.pasos[0], "DBConnected"@)
            &&& llamada(pr.pasos[1], "DBConnected"@, 1, Regla::Difiere)
            &&& pr.pasos[1]->args[0] == OperandoV::Entero(db)
        }),
        ({
            let pr = programa_desconexion(db);
            &&& pr.pasos.len() == 1
            &&& pr.al_fallar == 0
            &&& llamada(pr.pasos[0], "DBDisconnect"@, 1, Regla::Desconecta { estricta: true })
            &&& pr.pasos[0]->args[0] == OperandoV::Entero(db)
        }),
{
}

proof fn lema_textos_params(params: Seq<(&'static str, String)>)
    ensures
        textos_params(params).len() == 2 * params.len(),
        forall|i: int|
            0 <= i < params.len() ==> textos_params(params)[2 * i] == OperandoV::Texto(
                (#[trigger] params[i]).0@,
            ) && textos_params(params)[2 * i + 1] == OperandoV::Texto(params[i].1@),
    decreases params.len(),
{
    if params.len() > 0 {
        let t = params.drop_last();
        lema_textos_params(t);
        assert forall|i: int| 0 <= i < params.len() implies textos_params(params)[2 * i]
            == OperandoV::Texto((#[trigger] params[i]).0@) && textos_params(params)[2 * i + 1]
            == OperandoV::Texto(params[i].1@) by {
            if i < t.len() {
                assert(t[i] == params[i]);
            }
        }
    }
}

/// Una consulta se conecta, localiza lo que usa y, antes de empezar su
/// transacción, convierte el SQL y cada parámetro; el SQL se entrega solo, y cada
/// parámetro se enlaza por su nombre con su valor.
pub proof fn ley_apertura_consulta(
    ruta: Seq<char>,
    usuario: Seq<char>,
    password: Seq<char>,
    c: Consulta,
)
    ensures
        ({
            let pr = programa_consulta(ruta, usuario, password, c);
            let s = pr.pasos;
            let n = c.params@.len();
            &&& pr.cuerpo == 8
            &&& pr.aborta == 8
            &&& s.len() > 23 + n
            &&& conexion_en(
                s,
                0,
                Registro::EmpresaDb,
                Registro::EmpresaTrn,
                Regla::Cero(Modulo::Basica),
                ruta,
                usuario,
                password,
            )
            &&& localiza(s[8], "TrnStart"@)
            &&& localiza(s[9], "TrnCommit"@)
            &&& localiza(s[10], "NewDtst"@)
            &&& localiza(s[11], "DtstSelQry"@)
            &&& localiza(s[12], "DtstSetParamAsString"@)
            &&& localiza(s[13], "DtstOpen"@)
            &&& localiza(s[14], "DtstEof"@)
            &&& localiza(s[15], "DtstNext"@)
            &&& localiza(s[16], "DtstClose"@)
            &&& localiza(s[17], "DtstGetFieldAsString"@)
            &&& localiza(s[18], "DtstGetFieldAsInteger"@)
            &&& s[19] matches PasoV::Llama { funcion, previos, args, regla } && funcion
                == "TrnStart"@ && regla == Regla::Cero(Modulo::Basica) && args.len() == 1
                && args[0] == OperandoV::Registro(Registro::EmpresaTrn) && previos.len() == 1 + 2
                * n && previos[0] == OperandoV::Texto(c.sql@) && (forall|i: int|
                0 <= i < n ==> previos[1 + 2 * i] == OperandoV::Texto(
                    (#[trigger] c.params@[i]).0@,
                ) && previos[2 + 2 * i] == OperandoV::Texto(c.params@[i].1@))
        }),
{
    let pr = programa_consulta(ruta, usuario, password, c);
    let s = pr.pasos;
    let con = conectar(Base::Empresa, ruta, usuario, password);
    let sim = simbolos(simbolos_consulta());
    let ape = apertura_consulta(c);
    assert(con.len() == 8);
    assert(sim.len() == 11);
    assert(ape.len() == 15 + c.params@.len());
    assert(s.subrange(0, 8) =~= con);
    lema_conexion_en(s, 0, Base::Empresa, ruta, usuario, password);
    assert(s.subrange(8, 19) =~= sim);
    assert forall|i: int| 0 <= i < 11 implies #[trigger] sim[i] == s[8 + i] by {
        assert(s.subrange(8, 19)[i] == s[8 + i]);
    }
    assert(s[19] == ape[11]);
    lema_textos_params(c.params@);
    let previos = s[19]->Llama_previos;
    assert(previos == textos_consulta(c));
    assert forall|i: int| 0 <= i < c.params@.len() implies previos[1 + 2 * i] == OperandoV::Texto(
        (#[trigger] c.params@[i]).0@,
    ) && previos[2 + 2 * i] == OperandoV::Texto(c.params@[i].1@) by {
        assert(previos[1 + 2 * i] == textos_params(c.params@)[2 * i]);
        assert(previos[2 + 2 * i] == textos_params(c.params@)[2 * i + 1]);
    }
}

/// La preparación de una consulta, después de empezar su transacción.
pub proof fn ley_preparacion_consulta(
    ruta: Seq<char>,
    usuario: Seq<char>,
    password: Seq<char>,
    c: Consulta,
)
    ensures
        ({
            let s = programa_consulta(ruta, usuario, password, c).pasos;
            let n = c.params@.len() as int;
            &&& s.len() > 23 + n
            &&& llamada(
                s[20],
                "NewDtst"@,
                1,
                Regla::Handle {
                    registro: Registro::Conjunto,
                    modulo: Modulo::Basica,
                    con_valor: false,
                },
            )
            &&& s[20]->args[0] == OperandoV::Registro(Registro::EmpresaTrn)
            &&& llamada(s[21], "DtstSelQry"@, 2, Regla::Cero(Modulo::Basica))
            &&& s[21]->args[0] == OperandoV::Registro(Registro::Conjunto)
            &&& s[21]->args[1] == OperandoV::Texto(c.sql@)
            &&& forall|i: int|
                0 <= i < n ==> {
                    &&& llamada(
                        #[trigger] s[22 + i],
                        "DtstSetParamAsString"@,
                        3,
                        Regla::Cero(Modulo::Basica),
                    )
                    &&& s[22 + i]->args[0] == OperandoV::Registro(Registro::Conjunto)
                    &&& s[22 + i]->args[1] == OperandoV::Texto(c.params@[i].0@)
                    &&& s[22 + i]->args[2] == OperandoV::Texto(c.params@[i].1@)
                }
            &&& llamada(s[22 + n], "DtstOpen"@, 1, Regla::Cero(Modulo::Basica))
            &&& s[22 + n]->args[0] == OperandoV::Registro(Registro::Conjunto)
        }),
{
    let s = programa_consulta(ruta, usuario, password, c).pasos;
    let n = c.params@.len() as int;
    let ape = apertura_consulta(c);
    assert(conectar(Base::Empresa, ruta, usuario, password).len() == 8);
    assert(simbolos(simbolos_consulta()).len() == 11);
    assert(ape.len() == 15 + n);
    assert(s[20] == ape[12]);
    assert(s[21] == ape[13]);
    assert forall|i: int| 0 <= i < n implies #[trigger] s[22 + i] == enlace(c, i) by {
        assert(s[22 + i] == ape[14 + i]);
    }
    assert(s[22 + n] == ape[14 + n]);
}

/// El recorrido de una consulta: mientras haya fila se lee cada campo por su
/// nombre y según su tipo, se entrega la fila y se pasa a la siguiente; al acabar
/// se cierra el conjunto, se confirma la transacción y se desconecta.
pub proof fn ley_recorrido_consulta(
    ruta: Seq<char>,
    usuario: Seq<char>,
    password: Seq<char>,
    c: Consulta,
)
    requires
        consulta_cabe(c),
    ensures
        ({
            let pr = programa_consulta(ruta, usuario, password, c);
            let s = pr.pasos;
            let a = 23 + c.params@.len() as int;
            let z = a + c.campos@.len() + 1;
            &&& inicio_recorrido(c) == a
            &&& s.len() == z + 5
            &&& pr.al_fallar == z + 4
            &&& pr.cierre == z + 4
            &&& llamada(s[a], "DtstEof"@, 1, Regla::FinDeDatos { fin: (z + 2) as usize })
            &&& s[a]->args[0] == OperandoV::Registro(Registro::Conjunto)
            &&& forall|i: int|
                0 <= i < c.campos@.len() ==> match c.campos@[i] {
                    Campo::Texto(n, exige) => {
                        &&& llamada(
                            #[trigger] s[a + 1 + i],
                            "DtstGetFieldAsString"@,
                            2,
                            Regla::LeeTexto { exige, entrega: z as usize },
                        )
                        &&& s[a + 1 + i]->args[0] == OperandoV::Registro(Registro::Conjunto)
                        &&& s[a + 1 + i]->args[1] == OperandoV::Texto(n@)
                    },
                    Campo::Entero(n, exige) => {
                        &&& llamada(
                            s[a + 1 + i],
                            "DtstGetFieldAsInteger"@,
                            2,
                            Regla::LeeEntero { exige, entrega: z as usize },
                        )
                        &&& s[a + 1 + i]->args[0] == OperandoV::Registro(Registro::Conjunto)
                        &&& s[a + 1 + i]->args[1] == OperandoV::Texto(n@)
                    },
                }
            &&& s[z] is EntregaFila
            &&& llamada(s[z + 1], "DtstNext"@, 1, Regla::Siguiente { inicio: a as usize })
            &&& s[z + 1]->args[0] == OperandoV::Registro(Registro::Conjunto)
            &&& llamada(s[z + 2], "DtstClose"@, 1, Regla::Ignora)
            &&& s[z + 2]->args[0] == OperandoV::Registro(Registro::Conjunto)
            &&& llamada(s[z + 3], "TrnCommit"@, 1, Regla::Cero(Modulo::Basica))
            &&& s[z + 3]->args[0] == OperandoV::Registro(Registro::EmpresaTrn)
            &&& desconexion(s[z + 4], Registro::EmpresaDb, Regla::Desconecta { estricta: false })
        }),
{
    let pr = programa_consulta(ruta, usuario, password, c);
    let s = pr.pasos;
    let ape = apertura_consulta(c);
    let a = 23 + c.params@.len() as int;
    let m = c.campos@.len() as int;
    let z = a + m + 1;
    assert(conectar(Base::Empresa, ruta, usuario, password).len() == 8);
    assert(simbolos(simbolos_consulta()).len() == 11);
    assert(ape.len() == 15 + c.params@.len());
    let rec = recorrido_consulta(c, a);
    assert(rec.len() == m + 5);
    assert(s.subrange(a, a + m + 5) =~= rec);
    assert forall|i: int| 0 <= i < m + 5 implies #[trigger] rec[i] == s[a + i] by {
        assert(s.subrange(a, a + m + 5)[i] == s[a + i]);
    }
    assert(rec[0] == s[a]);
    assert forall|i: int| 0 <= i < m implies #[trigger] s[a + 1 + i] == lectura(c, i, z) by {
        assert(rec[1 + i] == s[a + (1 + i)]);
    }
    assert(rec[m + 1] == s[z]);
    assert(rec[m + 2] == s[z + 1]);
    assert(rec[m + 3] == s[z + 2]);
    assert(rec[m + 4] == s[z + 3]);
}

} // verus!
