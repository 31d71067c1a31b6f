//! La inspección del esquema desde la línea de comandos: qué se pide y cómo
//! se muestra.

use vstd::prelude::*;

use crate::cadena::{formato_debug, texto_debug};
use crate::cli::error_sin_seccion;
use crate::microsip::provider::CampoSchema;
use crate::texto::{
    caracteres, digitos, iguales, mayusculas, natural_a_texto, texto_mayusculas,
};

verus! {

/// Qué se pide del esquema.
#[derive(Debug)]
pub enum Peticion<'a> {
    /// Las tablas.
    Tablas,
    /// Los valores distintos de un campo.
    Valores { tabla: &'a str, campo: &'a str },
    /// Las primeras filas.
    Muestra { tabla: &'a str, limite: u32 },
    /// Las columnas.
    Columnas { tabla: &'a str },
}

/// Sin tabla se listan las tablas; con ella, los valores de un campo si se
/// pide uno, si no una muestra si se pide, y si no sus columnas.
pub fn peticion<'a>(tabla: Option<&'a str>, valores: Option<&'a str>, muestra: Option<u32>) -> (r:
    Peticion<'a>)
    ensures
        match (tabla, valores, muestra) {
            (None, _, _) => r is Tablas,
            (Some(t), Some(c), _) => r == (Peticion::Valores { tabla: t, campo: c }),
            (Some(t), None, Some(n)) => r == (Peticion::Muestra { tabla: t, limite: n }),
            (Some(t), None, None) => r == (Peticion::Columnas { tabla: t }),
        },
{
    match tabla {
        None => Peticion::Tablas,
        Some(t) => match valores {
            Some(c) => Peticion::Valores { tabla: t, campo: c },
            None => match muestra {
                Some(n) => Peticion::Muestra { tabla: t, limite: n },
                None => Peticion::Columnas { tabla: t },
            },
        },
    }
}

/// El error de pedir el esquema de otro provider.
pub fn error_otro_provider(provider: &str) -> (r: String)
    ensures
        r@ == "schema solo soporta el provider 'microsip' por ahora (recibido: '"@ + provider@
            + "')"@,
{
    "schema solo soporta el provider 'microsip' por ahora (recibido: '".to_owned().concat(
        provider,
    ).concat("')")
}

/// Si se puede inspeccionar el esquema de un provider: debe tener su sección
/// en la configuración y ser Microsip.
pub fn inspeccionable(provider: &str, hay_seccion: bool, archivo: &str) -> (r: Result<(), String>)
    ensures
        match r {
            Ok(_) => hay_seccion && provider@ == "microsip"@,
            Err(e) => if !hay_seccion {
                e@ == "no hay sección [providers."@ + provider@ + "] en '"@ + archivo@ + "'"@
            } else {
                provider@ != "microsip"@ && e@
                    == "schema solo soporta el provider 'microsip' por ahora (recibido: '"@
                    + provider@ + "')"@
            },
        },
{
    if !hay_seccion {
        Err(error_sin_seccion(provider, archivo))
    } else if iguales(provider, "microsip") {
        Ok(())
    } else {
        Err(error_otro_provider(provider))
    }
}

/// `n` veces un carácter.
pub open spec fn repetido(c: char, n: nat) -> Seq<char> {
    Seq::new(n, |i: int| c)
}

/// Un texto completado con espacios a la derecha hasta `n` caracteres; si ya
/// los tiene, queda igual.
pub open spec fn a_la_izquierda(s: Seq<char>, n: nat) -> Seq<char> {
    if s.len() < n {
        s + repetido(' ', (n - s.len()) as nat)
    } else {
        s
    }
}

fn repetir(c: char, n: usize) -> (r: String)
    ensures
        r@ == repetido(c, n as nat),
{
    let mut r = "".to_owned();
    let mut i: usize = 0;
    proof {
        reveal_strlit("");
        assert(r@ =~= repetido(c, 0));
    }
    while i < n
        invariant
            i <= n,
            r@ == repetido(c, i as nat),
        decreases n - i,
    {
        r.push(c);
        i = i + 1;
        proof {
            assert(r@ =~= repetido(c, i as nat));
        }
    }
    r
}

fn rellenar(s: &str, n: usize) -> (r: String)
    ensures
        r@ == a_la_izquierda(s@, n as nat),
{
    let largo: usize = caracteres(s).len();
    if largo < n {
        s.to_owned().concat(repetir(' ', n - largo).as_str())
    } else {
        s.to_owned()
    }
}

// ---------------------------------------------------------------------
// Tablas
// ---------------------------------------------------------------------

/// Una línea por tabla.
pub open spec fn lineas_tablas(s: Seq<String>) -> Seq<char>
    decreases s.len(),
{
    if s.len() == 0 {
        seq![]
    } else {
        lineas_tablas(s.drop_last()) + "  "@ + s.last()@ + "\n"@
    }
}

/// El listado de tablas.
pub fn texto_tablas(tablas: &Vec<String>) -> (r: String)
    ensures
        r@ == digitos(tablas@.len()) + " tablas encontradas:\n\n"@ + lineas_tablas(tablas@),
{
    let mut r = "".to_owned();
    let mut i: usize = 0;
    proof {
        reveal_strlit("");
        assert(r@ =~= lineas_tablas(tablas@.take(0)));
    }
    while i < tablas.len()
        invariant
            i <= tablas@.len(),
            r@ == lineas_tablas(tablas@.take(i as int)),
        decreases tablas@.len() - i,
    {
        proof {
            assert(tablas@.take(i + 1).drop_last() =~= tablas@.take(i as int));
        }
        r = r.concat("  ").concat(tablas[i].as_str()).concat("\n");
        i = i + 1;
    }
    proof {
        assert(tablas@.take(i as int) =~= tablas@);
    }
    natural_a_texto(tablas.len() as u64).concat(" tablas encontradas:\n\n").concat(r.as_str())
}

// ---------------------------------------------------------------------
// Valores
// ---------------------------------------------------------------------

/// Una línea por valor, entre comillas.
pub open spec fn lineas_valores(s: Seq<String>) -> Seq<char>
    decreases s.len(),
{
    if s.len() == 0 {
        seq![]
    } else {
        lineas_valores(s.drop_last()) + "  "@ + texto_debug(s.last()@) + "\n"@
    }
}

/// El listado de los valores de un campo.
pub fn texto_valores(tabla: &str, campo: &str, valores: &Vec<String>) -> (r: String)
    ensures
        r@ == "Valores distintos de "@ + texto_mayusculas(tabla@) + "."@ + texto_mayusculas(campo@)
            + " ("@ + digitos(valores@.len()) + "):\n\n"@ + lineas_valores(valores@),
{
    let mut r = "".to_owned();
    let mut i: usize = 0;
    proof {
        reveal_strlit("");
        assert(r@ =~= lineas_valores(valores@.take(0)));
    }
    while i < valores.len()
        invariant
            i <= valores@.len(),
            r@ == lineas_valores(valores@.take(i as int)),
        decreases valores@.len() - i,
    {
        proof {
            assert(valores@.take(i + 1).drop_last() =~= valores@.take(i as int));
        }
        r = r.concat("  ").concat(formato_debug(valores[i].as_str()).as_str()).concat("\n");
        i = i + 1;
    }
    proof {
        assert(valores@.take(i as int) =~= valores@);
    }
    "Valores distintos de ".to_owned().concat(mayusculas(tabla).as_str()).concat(".").concat(
        mayusculas(campo).as_str(),
    ).concat(" (").concat(natural_a_texto(valores.len() as u64).as_str()).concat("):\n\n").concat(
        r.as_str(),
    )
}

// ---------------------------------------------------------------------
// Muestra
// ---------------------------------------------------------------------

/// Una línea por columna de una fila.
pub open spec fn lineas_fila(fila: Seq<(String, String)>) -> Seq<char>
    decreases fila.len(),
{
    if fila.len() == 0 {
        seq![]
    } else {
        lineas_fila(fila.drop_last()) + "  "@ + a_la_izquierda(fila.last().0@, 30) + " "@
            + texto_debug(fila.last().1@) + "\n"@
    }
}

/// Las filas, numeradas desde 1 y separadas por una línea en blanco.
pub open spec fn lineas_muestra(filas: Seq<Vec<(String, String)>>) -> Seq<char>
    decreases filas.len(),
{
    if filas.len() == 0 {
        seq![]
    } else {
        lineas_muestra(filas.drop_last()) + "--- fila "@ + digitos(filas.len()) + " ---\n"@
            + lineas_fila(filas.last()@) + "\n"@
    }
}

fn texto_fila(fila: &Vec<(String, String)>) -> (r: String)
    ensures
        r@ == lineas_fila(fila@),
{
    let mut r = "".to_owned();
    let mut i: usize = 0;
    proof {
        reveal_strlit("");
        assert(r@ =~= lineas_fila(fila@.take(0)));
    }
    while i < fila.len()
        invariant
            i <= fila@.len(),
            r@ == lineas_fila(fila@.take(i as int)),
        decreases fila@.len() - i,
    {
        proof {
            assert(fila@.take(i + 1).drop_last() =~= fila@.take(i as int));
        }
        r = r.concat("  ").concat(rellenar(fila[i].0.as_str(), 30).as_str()).concat(" ").concat(
            formato_debug(fila[i].1.as_str()).as_str(),
        ).concat("\n");
        i = i + 1;
    }
    proof {
        assert(fila@.take(i as int) =~= fila@);
    }
    r
}

/// La muestra de una tabla.
pub fn texto_muestra(tabla: &str, filas: &Vec<Vec<(String, String)>>) -> (r: String)
    ensures
        r@ == digitos(filas@.len()) + " fila(s) de muestra de "@ + texto_mayusculas(tabla@)
            + ":\n\n"@ + lineas_muestra(filas@),
{
    let mut r = "".to_owned();
    let mut i: usize = 0;
    proof {
        reveal_strlit("");
        assert(r@ =~= lineas_muestra(filas@.take(0)));
    }
    while i < filas.len()
        invariant
            i <= filas@.len(),
            r@ == lineas_muestra(filas@.take(i as int)),
        decreases filas@.len() - i,
    {
        proof {
            assert(filas@.take(i + 1).drop_last() =~= filas@.take(i as int));
        }
        r = r.concat("--- fila ").concat(natural_a_texto(i as u64 + 1).as_str()).concat(
            " ---\n",
        ).concat(texto_fila(&filas[i]).as_str()).concat("\n");
        i = i + 1;
    }
    proof {
        assert(filas@.take(i as int) =~= filas@);
    }
    natural_a_texto(filas.len() as u64).concat(" fila(s) de muestra de ").concat(
        mayusculas(tabla).as_str(),
    ).concat(":\n\n").concat(r.as_str())
}

// ---------------------------------------------------------------------
// Columnas
// ---------------------------------------------------------------------

/// Una línea por columna.
pub open spec fn lineas_columnas(s: Seq<CampoSchema>) -> Seq<char>
    decreases s.len(),
{
    if s.len() == 0 {
        seq![]
    } else {
        lineas_columnas(s.drop_last()) + "  "@ + a_la_izquierda(s.last().nombre@, 35) + " "@
            + s.last().tipo@ + "\n"@
    }
}

/// La descripción de una tabla.
pub open spec fn descripcion(tabla: Seq<char>, campos: Seq<CampoSchema>) -> Seq<char> {
    if campos.len() == 0 {
        "La tabla '"@ + tabla + "' no existe o no tiene columnas.\n"@
    } else {
        "Tabla: "@ + texto_mayusculas(tabla) + "\n\n"@ + "  "@ + a_la_izquierda("CAMPO"@, 35)
            + " TIPO\n"@ + "  "@ + repetido('-', 55) + "\n"@ + lineas_columnas(campos)
    }
}

/// Las columnas de una tabla.
pub fn texto_columnas(tabla: &str, campos: &Vec<CampoSchema>) -> (r: String)
    ensures
        r@ == descripcion(tabla@, campos@),
        campos@.len() == 0 ==> r@ == "La tabla '"@ + tabla@
            + "' no existe o no tiene columnas.\n"@,
        campos@.len() > 0 ==> r@ == "Tabla: "@ + texto_mayusculas(tabla@) + "\n\n"@ + "  "@
            + a_la_izquierda("CAMPO"@, 35) + " TIPO\n"@ + "  "@ + repetido('-', 55) + "\n"@
            + lineas_columnas(campos@),
{
    if campos.len() == 0 {
        return "La tabla '".to_owned().concat(tabla).concat("' no existe o no tiene columnas.\n");
    }
    let mut r = "".to_owned();
    let mut i: usize = 0;
    proof {
        reveal_strlit("");
        assert(r@ =~= lineas_columnas(campos@.take(0)));
    }
    while i < campos.len()
        invariant
            i <= campos@.len(),
            r@ == lineas_columnas(campos@.take(i as int)),
        decreases campos@.len() - i,
    {
        proof {
            assert(campos@.take(i + 1).drop_last() =~= campos@.take(i as int));
        }
        r = r.concat("  ").concat(rellenar(campos[i].nombre.as_str(), 35).as_str()).concat(
            " ",
        ).concat(campos[i].tipo.as_str()).concat("\n");
        i = i + 1;
    }
    proof {
        assert(campos@.take(i as int) =~= campos@);
    }
    "Tabla: ".to_owned().concat(mayusculas(tabla).as_str()).concat("\n\n").concat("  ").concat(
        rellenar("CAMPO", 35).as_str(),
    ).concat(" TIPO\n").concat("  ").concat(repetir('-', 55).as_str()).concat("\n").concat(
        r.as_str(),
    )
}

/// Completar un texto le agrega a la derecha los espacios que falten y no le
/// quita nada; una repetición es el carácter tantas veces.
pub proof fn ley_relleno(s: Seq<char>, n: nat, c: char)
    ensures
        a_la_izquierda(s, n).len() == (if s.len() < n {
            n
        } else {
            s.len()
        }),
        a_la_izquierda(s, n).take(s.len() as int) =~= s,
        forall|i: int|
            s.len() <= i < a_la_izquierda(s, n).len() ==> #[trigger] a_la_izquierda(s, n)[i] == ' ',
        repetido(c, n).len() == n,
        forall|i: int| 0 <= i < n ==> #[trigger] repetido(c, n)[i] == c,
{
}

/// Cada tabla, cada valor, cada columna de una fila, cada fila y cada columna de
/// una tabla va en su línea, en su orden; sin ninguna no hay líneas.
pub proof fn ley_lineas(
    tablas: Seq<String>,
    t: String,
    fila: Seq<(String, String)>,
    par: (String, String),
    filas: Seq<Vec<(String, String)>>,
    f: Vec<(String, String)>,
    columnas: Seq<CampoSchema>,
    c: CampoSchema,
)
    ensures
        lineas_tablas(seq![]).len() == 0,
        lineas_tablas(tablas.push(t)) == lineas_tablas(tablas) + "  "@ + t@ + "\n"@,
        lineas_valores(seq![]).len() == 0,
        lineas_valores(tablas.push(t)) == lineas_valores(tablas) + "  "@ + texto_debug(t@) + "\n"@,
        lineas_fila(seq![]).len() == 0,
        lineas_fila(fila.push(par)) == lineas_fila(fila) + "  "@ + a_la_izquierda(par.0@, 30) + " "@
            + texto_debug(par.1@) + "\n"@,
        lineas_muestra(seq![]).len() == 0,
        lineas_muestra(filas.push(f)) == lineas_muestra(filas) + "--- fila "@ + digitos(
            filas.len() + 1,
        ) + " ---\n"@ + lineas_fila(f@) + "\n"@,
        lineas_columnas(seq![]).len() == 0,
        lineas_columnas(columnas.push(c)) == lineas_columnas(columnas) + "  "@ + a_la_izquierda(
            c.nombre@,
            35,
        ) + " "@ + c.tipo@ + "\n"@,
{
    assert(tablas.push(t).drop_last() =~= tablas);
    assert(fila.push(par).drop_last() =~= fila);
    assert(filas.push(f).drop_last() =~= filas);
    assert(columnas.push(c).drop_last() =~= columnas);
}

} // verus!
