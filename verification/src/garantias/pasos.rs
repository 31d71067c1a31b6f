//! Los pasos de un guion, uno por uno: qué función nativa se llama, con qué
//! operando en cada posición y con qué regla se lee lo que regresa.

use vstd::prelude::*;

use crate::microsip::guiones::{conectar, llenar_lista, Base};
use crate::microsip::maquina::MicrosipState;
use crate::microsip::nativo::{Modulo, OperandoV, PasoV, Registro, Regla};

verus! {

/// El paso llama a `funcion` con `n` operandos, sin conversiones previas, y
/// lee lo que regresa con `regla`.
pub open spec fn llamada(p: PasoV, funcion: Seq<char>, n: int, regla: Regla) -> bool {
    p matches PasoV::Llama { funcion: f, previos, args, regla: q } && f == funcion && previos.len()
        == 0 && args.len() == n && q == regla
}

/// El paso localiza `simbolo` sin más.
pub open spec fn localiza(p: PasoV, simbolo: Seq<char>) -> bool {
    p matches PasoV::Resuelve { simbolo: s, previos } && s == simbolo && previos.len() == 0
}

/// Desde el paso `k`, los ocho de una conexión: localizar lo que se usa, y ahí
/// mismo convertir ruta, usuario y contraseña; apagar los diálogos de error,
/// pedir los handles de la base y de su transacción, y conectar con esa ruta,
/// ese usuario y esa contraseña.
pub open spec fn conexion_en(
    s: Seq<PasoV>,
    k: int,
    db: Registro,
    trn: Registro,
    regla: Regla,
    ruta: Seq<char>,
    usuario: Seq<char>,
    password: Seq<char>,
) -> bool {
    &&& 0 <= k && k + 8 <= s.len()
    &&& localiza(s[k], "SetErrorHandling"@)
    &&& localiza(s[k + 1], "NewDB"@)
    &&& localiza(s[k + 2], "DBConnect"@)
    &&& s[k + 3] matches PasoV::Resuelve { simbolo, previos } && simbolo == "NewTrn"@
        && previos.len() == 3 && previos[0] == OperandoV::Texto(ruta) && previos[1]
        == OperandoV::Texto(usuario) && previos[2] == OperandoV::Texto(password)
    &&& llamada(s[k + 4], "SetErrorHandling"@, 2, Regla::Ignora)
    &&& s[k + 4]->args[0] == OperandoV::Entero(0)
    &&& s[k + 4]->args[1] == OperandoV::Entero(0)
    &&& llamada(
        s[k + 5],
        "NewDB"@,
        0,
        Regla::Handle { registro: db, modulo: Modulo::Basica, con_valor: true },
    )
    &&& llamada(
        s[k + 6],
        "NewTrn"@,
        2,
        Regla::Handle { registro: trn, modulo: Modulo::Basica, con_valor: true },
    )
    &&& s[k + 6]->args[0] == OperandoV::Registro(db)
    &&& s[k + 6]->args[1] == OperandoV::Entero(0)
    &&& llamada(s[k + 7], "DBConnect"@, 4, regla)
    &&& s[k + 7]->args[0] == OperandoV::Registro(db)
    &&& s[k + 7]->args[1] == OperandoV::Texto(ruta)
    &&& s[k + 7]->args[2] == OperandoV::Texto(usuario)
    &&& s[k + 7]->args[3] == OperandoV::Texto(password)
}

/// Desde el paso `k`, los que llenan la lista de parámetros: crearla si el
/// proceso no la tiene, vaciarla y poner cada par, con el nombre en UTF-8 y el
/// valor en ANSI.
pub open spec fn lista_en(
    s: Seq<PasoV>,
    k: int,
    modulo: Modulo,
    nueva: bool,
    pares: Seq<(String, String)>,
) -> bool {
    let c: int = if nueva {
        k + 1
    } else {
        k
    };
    &&& 0 <= k && c + 1 + pares.len() <= s.len()
    &&& nueva ==> llamada(s[k], "NewPL"@, 0, Regla::ListaNueva(modulo))
    &&& llamada(s[c], "PLClear"@, 1, Regla::Cero(modulo))
    &&& s[c]->args[0] == OperandoV::Registro(Registro::Lista)
    &&& forall|i: int|
        0 <= i < pares.len() ==> {
            &&& llamada(#[trigger] s[c + 1 + i], "PLSetParamValue"@, 3, Regla::Cero(modulo))
            &&& s[c + 1 + i]->args[0] == OperandoV::Registro(Registro::Lista)
            &&& s[c + 1 + i]->args[1] == OperandoV::Texto(pares[i].0@)
            &&& s[c + 1 + i]->args[2] == OperandoV::Ansi(pares[i].1@)
        }
}

/// El paso cierra la conexión de `db`.
pub open spec fn desconexion(p: PasoV, db: Registro, regla: Regla) -> bool {
    llamada(p, "DBDisconnect"@, 1, regla) && p->args[0] == OperandoV::Registro(db)
}

pub(crate) proof fn lema_conexion_en(
    s: Seq<PasoV>,
    k: int,
    base: Base,
    ruta: Seq<char>,
    usuario: Seq<char>,
    password: Seq<char>,
)
    requires
        0 <= k && k + 8 <= s.len(),
        s.subrange(k, k + 8) == conectar(base, ruta, usuario, password),
    ensures
        base is Empresa ==> conexion_en(
            s,
            k,
            Registro::EmpresaDb,
            Registro::EmpresaTrn,
            Regla::Cero(Modulo::Basica),
            ruta,
            usuario,
            password,
        ),
        base is Metadatos ==> conexion_en(
            s,
            k,
            Registro::MetadatosDb,
            Registro::MetadatosTrn,
            Regla::Abre(Registro::MetadatosAbierta),
            ruta,
            usuario,
            password,
        ),
{
    let c = conectar(base, ruta, usuario, password);
    assert(c.len() == 8);
    assert forall|i: int| 0 <= i < 8 implies #[trigger] c[i] == s[k + i] by {
        assert(s.subrange(k, k + 8)[i] == s[k + i]);
    }
    assert(c[0] == s[k]);
}

pub(crate) proof fn lema_lista_en(
    s: Seq<PasoV>,
    k: int,
    modulo: Modulo,
    memoria: MicrosipState,
    pares: Seq<(String, String)>,
)
    requires
        pares.len() > 0,
        0 <= k && k + llenar_lista(modulo, memoria, pares).len() <= s.len(),
        s.subrange(k, k + llenar_lista(modulo, memoria, pares).len()) == llenar_lista(
            modulo,
            memoria,
            pares,
        ),
    ensures
        lista_en(s, k, modulo, memoria.pl_handle is None, pares),
{
    let l = llenar_lista(modulo, memoria, pares);
    let c: int = if memoria.pl_handle is None {
        1
    } else {
        0
    };
    assert(l.len() == c + 1 + pares.len());
    assert forall|i: int| 0 <= i < l.len() implies #[trigger] l[i] == s[k + i] by {
        assert(s.subrange(k, k + l.len())[i] == s[k + i]);
    }
    assert(l[0] == s[k]);
    assert(l[c] == s[k + c]);
    assert forall|i: int| 0 <= i < pares.len() implies #[trigger] s[k + c + 1 + i] == l[c + 1
        + i] by {
        assert(l[c + 1 + i] == s[k + (c + 1 + i)]);
    }
}

} // verus!
