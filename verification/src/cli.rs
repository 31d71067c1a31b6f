//! Lo que decide la línea de comandos: configuración inicial, token, puerto,
//! puerta de seguridad y mensajes.

use vstd::prelude::*;

use crate::error::{ErrorV, IskandarError};
use crate::reporte::{formatear_reporte, texto_reporte};
use crate::security::{bloqueantes, ley_puerta, AuditError, AuditReport};
use crate::texto::caracteres;

verus! {

// ---------------------------------------------------------------------
// Servidor
// ---------------------------------------------------------------------

/// Sección `[server]` de la configuración.
#[derive(Debug, Clone)]
pub struct ServerConfig {
    pub port: u16,
    /// El token que deben presentar los clientes.
    pub token: Option<String>,
}

/// El puerto cuando nadie dice otro.
pub const PUERTO: u16 = 8080;

pub fn puerto_default() -> (r: u16)
    ensures
        r == PUERTO,
        r == 8080,
{
    PUERTO
}

impl Default for ServerConfig {
    fn default() -> (r: ServerConfig)
        ensures
            r.port == PUERTO,
            r.port == 8080,
            r.token is None,
    {
        ServerConfig { port: puerto_default(), token: None }
    }
}

/// El puerto en que se escucha: el pedido, o el de la configuración.
pub fn puerto(pedido: Option<u16>, config: &ServerConfig) -> (r: u16)
    ensures
        r == match pedido {
            Some(p) => p,
            None => config.port,
        },
{
    match pedido {
        Some(p) => p,
        None => config.port,
    }
}

/// Por qué el servidor no arranca sin token.
pub const SIN_TOKEN: &'static str = "no se configuró un token de autenticación para la API — define la variable de entorno ISKANDAR_API_TOKEN o '[server].token' en la configuración antes de levantar el servidor";

/// El token que vale: el del entorno si lo da, si no el de la configuración si
/// lo da. Un texto vacío no es un token.
pub open spec fn token_de(entorno: Option<String>, config: Option<String>) -> Option<Seq<char>> {
    match (entorno, config) {
        (Some(t), _) if t@.len() > 0 => Some(t@),
        (_, Some(t)) if t@.len() > 0 => Some(t@),
        _ => None,
    }
}

/// El token con el que arranca el servidor; sin él no arranca.
pub fn resolver_token(entorno: Option<String>, config: &ServerConfig) -> (r: Result<
    String,
    String,
>)
    ensures
        match r {
            Ok(t) => token_de(entorno, config.token) == Some(t@),
            Err(e) => token_de(entorno, config.token) is None && e@ == SIN_TOKEN@,
        },
        entorno matches Some(t) && t@.len() > 0 ==> (r matches Ok(u) && u@ == entorno->Some_0@),
        (entorno matches Some(t) ==> t@.len() == 0) ==> match config.token {
            Some(t) if t@.len() > 0 => (r matches Ok(u) && u@ == t@),
            _ => (r matches Err(e) && e@
                == "no se configuró un token de autenticación para la API — define la variable de entorno ISKANDAR_API_TOKEN o '[server].token' en la configuración antes de levantar el servidor"@),
        },
{
    if let Some(t) = entorno {
        if !t.as_str().is_empty() {
            return Ok(t);
        }
    }
    match &config.token {
        Some(t) => if t.as_str().is_empty() {
            Err(SIN_TOKEN.to_owned())
        } else {
            Ok(t.clone())
        },
        None => Err(SIN_TOKEN.to_owned()),
    }
}

/// El entorno tiene prioridad: si da un token, ese es el que vale, diga lo que
/// diga la configuración.
pub proof fn ley_entorno_primero(entorno: Option<String>, config: Option<String>)
    requires
        entorno matches Some(t) && t@.len() > 0,
    ensures
        token_de(entorno, config) == Some(entorno->0@),
{
}

/// Sin token en el entorno, o con uno vacío, sigue en vigor el de la
/// configuración; y el servidor se queda sin token si y solo si ninguna de las
/// dos vías da uno.
pub proof fn ley_configuracion_en_vigor(entorno: Option<String>, config: Option<String>)
    ensures
        (entorno matches Some(t) ==> t@.len() == 0) && (config matches Some(c) && c@.len() > 0)
            ==> token_de(entorno, config) == Some(config->0@),
        token_de(entorno, config) is None <==> (entorno matches Some(t) ==> t@.len() == 0) && (config
            matches Some(c) ==> c@.len() == 0),
{
}

// ---------------------------------------------------------------------
// Puerta de seguridad al arrancar
// ---------------------------------------------------------------------

/// Qué se hace con un provider ya inicializado, según su auditoría.
#[derive(Debug)]
pub enum Admision {
    /// Se activa.
    Admite,
    /// El proceso no arranca; se muestra el aviso y el reporte.
    Bloquea { aviso: String, error: String },
    /// El proceso no arranca: no se pudo auditar.
    Falla { error: String },
}

/// El aviso de un provider con hallazgos bloqueantes, con su reporte.
pub open spec fn texto_aviso(nombre: Seq<char>, r: AuditReport) -> Seq<char> {
    "=== iskandar: el provider '"@ + nombre
        + "' tiene hallazgos de seguridad BLOQUEANTES — el servidor no arrancará ===\n\n"@
        + texto_reporte(r)
}

/// El error de un provider bloqueado.
pub open spec fn texto_bloqueado(nombre: Seq<char>) -> Seq<char> {
    "provider '"@ + nombre
        + "': gate de seguridad BLOQUEADO — remedia los hallazgos de arriba y vuelve a intentar (ver `iskandar audit --provider "@
        + nombre + "` para el detalle)"@
}

/// El error de un provider que no se pudo auditar.
pub open spec fn texto_sin_auditar(nombre: Seq<char>, e: AuditError) -> Seq<char> {
    "no se pudo auditar la seguridad del provider '"@ + nombre + "' antes de arrancar: "@
        + e@.texto()
}

/// La decisión sobre un provider. Los que no se auditan se admiten.
pub open spec fn es_admision(
    nombre: Seq<char>,
    auditoria: Option<Result<AuditReport, AuditError>>,
    a: Admision,
) -> bool {
    match auditoria {
        None => a is Admite,
        Some(Ok(r)) => if bloqueantes(r.findings@).len() == 0 {
            a is Admite
        } else {
            a matches Admision::Bloquea { aviso, error } && aviso@ == texto_aviso(nombre, r)
                && error@ == texto_bloqueado(nombre)
        },
        Some(Err(e)) => a matches Admision::Falla { error } && error@ == texto_sin_auditar(
            nombre,
            e,
        ),
    }
}

/// Un provider se admite si no se audita o si ningún hallazgo suyo bloquea. Si
/// alguno bloquea, o si no se pudo auditar, no se admite, y el error lo nombra.
pub proof fn ley_admision(
    nombre: Seq<char>,
    auditoria: Option<Result<AuditReport, AuditError>>,
    a: Admision,
)
    requires
        es_admision(nombre, auditoria, a),
    ensures
        auditoria is None ==> a is Admite,
        auditoria matches Some(Ok(r)) && (forall|i: int|
            0 <= i < r.findings@.len() ==> !((#[trigger] r.findings@[i]).disposition is Blocking))
            ==> a is Admite,
        auditoria matches Some(Ok(r)) ==> ((exists|i: int|
            0 <= i < r.findings@.len() && (#[trigger] r.findings@[i]).disposition is Blocking) ==> (
        a matches Admision::Bloquea { aviso, error } && error@ == "provider '"@ + nombre
            + "': gate de seguridad BLOQUEADO — remedia los hallazgos de arriba y vuelve a intentar (ver `iskandar audit --provider "@
            + nombre + "` para el detalle)"@ && aviso@ == "=== iskandar: el provider '"@ + nombre
            + "' tiene hallazgos de seguridad BLOQUEANTES — el servidor no arrancará ===\n\n"@
            + texto_reporte(r))),
        auditoria matches Some(Err(e)) ==> (a matches Admision::Falla { error } && error@
            == "no se pudo auditar la seguridad del provider '"@ + nombre + "' antes de arrancar: "@ + (
        match e {
            AuditError::Unreachable(m) => "no se pudo alcanzar el sistema para auditar: "@ + m@,
            AuditError::ProviderError(m) => "el provider falló durante el audit: "@ + m@,
        })),
{
    if let Some(Ok(r)) = auditoria {
        ley_puerta(r.findings@);
    }
}

pub fn admitir(nombre: &str, auditoria: &Option<Result<AuditReport, AuditError>>) -> (a: Admision)
    ensures
        es_admision(nombre@, *auditoria, a),
        *auditoria is None ==> a is Admite,
        *auditoria matches Some(Ok(r)) && (forall|i: int|
            0 <= i < r.findings@.len() ==> !((#[trigger] r.findings@[i]).disposition is Blocking))
            ==> a is Admite,
        *auditoria matches Some(Ok(r)) ==> ((exists|i: int|
            0 <= i < r.findings@.len() && (#[trigger] r.findings@[i]).disposition is Blocking) ==> (
        a matches Admision::Bloquea { aviso, error } && error@ == "provider '"@ + nombre@
            + "': gate de seguridad BLOQUEADO — remedia los hallazgos de arriba y vuelve a intentar (ver `iskandar audit --provider "@
            + nombre@ + "` para el detalle)"@ && aviso@ == "=== iskandar: el provider '"@ + nombre@
            + "' tiene hallazgos de seguridad BLOQUEANTES — el servidor no arrancará ===\n\n"@
            + texto_reporte(r))),
        *auditoria matches Some(Err(e)) ==> (a matches Admision::Falla { error } && error@
            == "no se pudo auditar la seguridad del provider '"@ + nombre@ + "' antes de arrancar: "@ + (
        match e {
            AuditError::Unreachable(m) => "no se pudo alcanzar el sistema para auditar: "@ + m@,
            AuditError::ProviderError(m) => "el provider falló durante el audit: "@ + m@,
        })),
{
    proof {
        if let Some(Ok(r)) = auditoria {
            ley_puerta(r.findings@);
        }
    }
    match auditoria {
        None => Admision::Admite,
        Some(Ok(r)) => if r.gate().is_clear() {
            Admision::Admite
        } else {
            Admision::Bloquea {
                aviso: "=== iskandar: el provider '".to_owned().concat(nombre).concat(
                    "' tiene hallazgos de seguridad BLOQUEANTES — el servidor no arrancará ===\n\n",
                ).concat(formatear_reporte(r).as_str()),
                error: "provider '".to_owned().concat(nombre).concat(
                    "': gate de seguridad BLOQUEADO — remedia los hallazgos de arriba y vuelve a intentar (ver `iskandar audit --provider ",
                ).concat(nombre).concat("` para el detalle)"),
            }
        },
        Some(Err(e)) => Admision::Falla {
            error: "no se pudo auditar la seguridad del provider '".to_owned().concat(
                nombre,
            ).concat("' antes de arrancar: ").concat(e.mensaje().as_str()),
        },
    }
}

/// El código de salida de `iskandar audit`: 0 si la puerta está abierta, 1 si
/// hay bloqueantes.
pub fn codigo_salida(report: &AuditReport) -> (r: i32)
    ensures
        r == (if bloqueantes(report.findings@).len() == 0 {
            0int
        } else {
            1int
        }),
        r == 0 <==> forall|i: int|
            0 <= i < report.findings@.len() ==> !((#[trigger] report.findings@[i]).disposition
                is Blocking),
{
    proof {
        ley_puerta(report.findings@);
    }
    if report.gate().is_clear() {
        0
    } else {
        1
    }
}

// ---------------------------------------------------------------------
// Mensajes
// ---------------------------------------------------------------------

/// El error de una sección ausente.
pub fn error_sin_seccion(provider: &str, archivo: &str) -> (r: String)
    ensures
        r@ == "no hay sección [providers."@ + provider@ + "] en '"@ + archivo@ + "'"@,
{
    "no hay sección [providers.".to_owned().concat(provider).concat("] en '").concat(
        archivo,
    ).concat("'")
}

/// El error de auditar un provider que no se audita.
pub fn error_sin_auditoria(provider: &str) -> (r: String)
    ensures
        r@ == "el provider '"@ + provider@
            + "' no implementa auditoría de seguridad (SecurityAudit) — no hay nada que auditar"@,
{
    "el provider '".to_owned().concat(provider).concat(
        "' no implementa auditoría de seguridad (SecurityAudit) — no hay nada que auditar",
    )
}

/// El error de una configuración que ya existe.
pub fn error_ya_existe(archivo: &str) -> (r: String)
    ensures
        r@ == "'"@ + archivo@ + "' ya existe — edítalo directamente o bórralo primero"@,
{
    "'".to_owned().concat(archivo).concat(
        "' ya existe — edítalo directamente o bórralo primero",
    )
}

/// El error de un archivo que no se pudo leer.
pub fn error_lectura(archivo: &str, motivo: &str) -> (r: String)
    ensures
        r@ == "no se pudo leer '"@ + archivo@ + "': "@ + motivo@,
{
    "no se pudo leer '".to_owned().concat(archivo).concat("': ").concat(motivo)
}

/// Lo que se muestra antes de probar una conexión. `capacidades` va en JSON.
pub fn encabezado_prueba(nombre: &str, version: &str, capacidades: &str) -> (r: String)
    ensures
        r@ == "provider:    "@ + nombre@ + " v"@ + version@ + "\ncapacidades: "@ + capacidades@
            + "\nconexión:    "@,
{
    "provider:    ".to_owned().concat(nombre).concat(" v").concat(version).concat(
        "\ncapacidades: ",
    ).concat(capacidades).concat("\nconexión:    ")
}

/// Lo que se muestra del resultado de una prueba de conexión.
pub open spec fn texto_prueba(falla: Option<ErrorV>) -> Seq<char> {
    match falla {
        None => "OK\n"@,
        Some(e) => "FALLÓ — "@ + e.texto() + "\n"@,
    }
}

/// Lo que se muestra del resultado de una prueba de conexión.
pub fn resultado_prueba(r: &Result<i32, IskandarError>) -> (t: String)
    ensures
        t@ == texto_prueba(
            match *r {
                Ok(_) => None,
                Err(e) => Some(e@),
            },
        ),
        *r is Ok ==> t@ == "OK\n"@,
        *r matches Err(e) ==> t@ == "FALLÓ — "@ + e@.texto() + "\n"@,
{
    match r {
        Ok(_) => "OK\n".to_owned(),
        Err(e) => "FALLÓ — ".to_owned().concat(e.mensaje().as_str()).concat("\n"),
    }
}

// ---------------------------------------------------------------------
// Configuración inicial
// ---------------------------------------------------------------------

/// Un dígito hexadecimal.
pub open spec fn digito_hex(d: int) -> char {
    if d < 10 {
        (48 + d) as char
    } else {
        (55 + d) as char
    }
}

/// Los caracteres de control que una cadena TOML no admite tal cual.
pub open spec fn es_control(c: char) -> bool {
    let u = c as u32;
    (u < 0x20 && u != 0x09) || u == 0x7f
}

/// Un carácter dentro de una cadena TOML entre comillas.
pub open spec fn caracter_toml(c: char) -> Seq<char> {
    if c == '\\' {
        seq!['\\', '\\']
    } else if c == '"' {
        seq!['\\', '"']
    } else if es_control(c) {
        let u = c as u32 as int;
        seq!['\\', 'u', '0', '0', digito_hex(u / 16), digito_hex(u % 16)]
    } else {
        seq![c]
    }
}

/// Un texto dentro de una cadena TOML entre comillas.
pub open spec fn escapado(s: Seq<char>) -> Seq<char>
    decreases s.len(),
{
    if s.len() == 0 {
        seq![]
    } else {
        escapado(s.drop_last()) + caracter_toml(s.last())
    }
}

/// El valor de un dígito hexadecimal, en mayúscula o minúscula.
pub open spec fn valor_hex(c: char) -> Option<int> {
    if '0' <= c && c <= '9' {
        Some(c as u32 - 48)
    } else if 'A' <= c && c <= 'F' {
        Some(c as u32 - 55)
    } else if 'a' <= c && c <= 'f' {
        Some(c as u32 - 87)
    } else {
        None
    }
}

/// El valor de unos dígitos hexadecimales.
pub open spec fn valor_hexadecimal(s: Seq<char>) -> Option<int>
    decreases s.len(),
{
    if s.len() == 0 {
        Some(0)
    } else {
        match (valor_hexadecimal(s.drop_last()), valor_hex(s.last())) {
            (Some(a), Some(b)) => Some(16 * a + b),
            _ => None,
        }
    }
}

/// El carácter de un código Unicode, si lo tiene.
pub open spec fn caracter_unicode(n: int) -> Option<char> {
    if 0 <= n < 0xd800 || 0xdfff < n <= 0x10ffff {
        Some(n as char)
    } else {
        None
    }
}

/// Lo que vale una secuencia de escape al principio de un texto, y cuánto
/// ocupa: las de TOML 1.0 y ninguna otra.
pub open spec fn leer_escape(s: Seq<char>) -> Option<(char, nat)> {
    if s.len() < 2 {
        None
    } else if s[1] == '"' || s[1] == '\\' {
        Some((s[1], 2))
    } else if s[1] == 'b' {
        Some(('\u{8}', 2))
    } else if s[1] == 't' {
        Some(('\t', 2))
    } else if s[1] == 'n' {
        Some(('\n', 2))
    } else if s[1] == 'f' {
        Some(('\u{c}', 2))
    } else if s[1] == 'r' {
        Some(('\r', 2))
    } else if s[1] == 'u' || s[1] == 'U' {
        let largo: nat = if s[1] == 'u' {
            4
        } else {
            8
        };
        if s.len() < 2 + largo {
            None
        } else {
            match valor_hexadecimal(s.subrange(2, 2 + largo as int)) {
                Some(n) => match caracter_unicode(n) {
                    Some(c) => Some((c, 2 + largo)),
                    None => None,
                },
                None => None,
            }
        }
    } else {
        None
    }
}

/// Lo que se lee de una cadena básica de TOML 1.0 desde después de su comilla
/// de apertura hasta la de cierre, y cuánto ocupa; `None` si lo que hay no es
/// una cadena básica: trae un carácter de control tal cual, una secuencia de
/// escape que no existe, o no cierra.
pub open spec fn leer_cadena(s: Seq<char>) -> Option<(Seq<char>, nat)>
    decreases s.len(),
{
    if s.len() == 0 {
        None
    } else if s[0] == '"' {
        Some((seq![], 1))
    } else if s[0] == '\\' {
        match leer_escape(s) {
            Some((c, largo)) => if 0 < largo <= s.len() {
                match leer_cadena(s.skip(largo as int)) {
                    Some((t, n)) => Some((seq![c] + t, n + largo)),
                    None => None,
                }
            } else {
                None
            },
            None => None,
        }
    } else if es_control(s[0]) {
        None
    } else {
        match leer_cadena(s.skip(1)) {
            Some((t, n)) => Some((seq![s[0]] + t, n + 1)),
            None => None,
        }
    }
}

fn hexadecimal(d: u32) -> (r: char)
    requires
        d < 16,
    ensures
        r == digito_hex(d as int),
{
    if d < 10 {
        (48 + d as u8) as char
    } else {
        (55 + d as u8) as char
    }
}

/// Escapa un valor para ponerlo entre comillas dobles.
pub fn toml_escape(value: &str) -> (r: String)
    ensures
        r@ == escapado(value@),
{
    let v = caracteres(value);
    let mut r = "".to_owned();
    let mut i: usize = 0;
    proof {
        reveal_strlit("");
        assert(r@ =~= escapado(v@.take(0)));
    }
    while i < v.len()
        invariant
            i <= v@.len(),
            v@ == value@,
            r@ == escapado(v@.take(i as int)),
        decreases v@.len() - i,
    {
        let c: char = v[i];
        proof {
            assert(v@.take(i + 1).drop_last() =~= v@.take(i as int));
            assert(v@.take(i + 1).last() == c);
        }
        let ghost antes = r@;
        let u: u32 = c as u32;
        if c == '\\' || c == '"' {
            r.push('\\');
            r.push(c);
        } else if (u < 0x20 && u != 0x09) || u == 0x7f {
            r.push('\\');
            r.push('u');
            r.push('0');
            r.push('0');
            r.push(hexadecimal(u / 16));
            r.push(hexadecimal(u % 16));
        } else {
            r.push(c);
        }
        i = i + 1;
        proof {
            assert(r@ =~= antes + caracter_toml(c));
        }
    }
    proof {
        assert(v@.take(i as int) =~= v@);
    }
    r
}

proof fn lema_escapado_primero(s: Seq<char>)
    requires
        s.len() > 0,
    ensures
        escapado(s) == caracter_toml(s[0]) + escapado(s.skip(1)),
    decreases s.len(),
{
    if s.len() == 1 {
        assert(s.drop_last() =~= seq![]);
        assert(s.skip(1) =~= seq![]);
        assert(escapado(s) =~= caracter_toml(s[0]) + escapado(s.skip(1)));
    } else {
        lema_escapado_primero(s.drop_last());
        assert(s.drop_last().skip(1) =~= s.skip(1).drop_last());
        assert(escapado(s) =~= caracter_toml(s[0]) + escapado(s.skip(1)));
    }
}

proof fn lema_control(c: char)
    requires
        es_control(c),
    ensures
        valor_hexadecimal(caracter_toml(c).subrange(2, 6)) == Some(c as u32 as int),
        caracter_unicode(c as u32 as int) == Some(c),
{
    let u = c as u32 as int;
    let e = caracter_toml(c);
    let d = e.subrange(2, 6);
    reveal_with_fuel(valor_hexadecimal, 5);
    assert(d =~= seq!['0', '0', digito_hex(u / 16), digito_hex(u % 16)]);
    assert(d.drop_last() =~= seq!['0', '0', digito_hex(u / 16)]);
    assert(d.drop_last().drop_last() =~= seq!['0', '0']);
    assert(d.drop_last().drop_last().drop_last() =~= seq!['0']);
    assert(d.drop_last().drop_last().drop_last().drop_last() =~= seq![]);
    assert(valor_hex('0') == Some(0int));
    assert(valor_hex(digito_hex(u / 16)) == Some(u / 16));
    assert(valor_hex(digito_hex(u % 16)) == Some(u % 16));
}

/// Lo escapado es una cadena básica de TOML y se lee como se escribió: entre
/// comillas, la cadena termina justo en su comilla de cierre y vale el texto
/// original, traiga lo que traiga y siga lo que siga.
pub proof fn ley_toml_ida_y_vuelta(s: Seq<char>, resto: Seq<char>)
    ensures
        leer_cadena(escapado(s) + seq!['"'] + resto) == Some((s, escapado(s).len() + 1)),
    decreases s.len(),
{
    let todo = escapado(s) + seq!['"'] + resto;
    if s.len() == 0 {
        assert(todo[0] == '"');
        assert(s =~= seq![]);
    } else {
        let cola = s.skip(1);
        lema_escapado_primero(s);
        ley_toml_ida_y_vuelta(cola, resto);
        let fin = escapado(cola) + seq!['"'] + resto;
        let c = s[0];
        if c == '\\' || c == '"' {
            assert(todo[0] == '\\');
            assert(todo[1] == c);
            assert(todo.skip(2) =~= fin);
            assert(seq![c] + cola =~= s);
        } else if es_control(c) {
            let e = caracter_toml(c);
            assert(todo.subrange(0, 6) =~= e);
            assert(todo[0] == e[0] && todo[1] == e[1]);
            assert(todo.subrange(2, 6) =~= e.subrange(2, 6));
            lema_control(c);
            assert(todo.skip(6) =~= fin);
            assert(seq![c] + cola =~= s);
        } else {
            assert(todo[0] == c);
            assert(todo.skip(1) =~= fin);
            assert(seq![c] + cola =~= s);
        }
    }
}

/// La ruta de la biblioteca cuando no se da otra.
pub const DLL_DEFAULT: &'static str = "C:\\Microsip\\ApiMicrosip.dll";

/// El principio de la configuración inicial.
pub const PLANTILLA_INICIO: &'static str = "# Configuración de Iskandar — generada por `iskandar init`\n[server]\nport = 8080\n# Requerido para levantar el servidor: token que deben presentar los\n# clientes en `Authorization: Bearer <token>`. Puedes darlo aquí o por la\n# variable de entorno ISKANDAR_API_TOKEN (tiene prioridad sobre este valor).\n# token = \"reemplaza-esto-por-un-token-largo-y-aleatorio\"\n\n[providers.";

/// Lo que va entre la ruta de la biblioteca y el usuario.
pub const PLANTILLA_MEDIO: &'static str = "'\ndb_path = 'C:\\Microsip datos\\EMPRESA.FDB'\nusuario = \"";

/// Lo que va después de la contraseña.
pub const PLANTILLA_FIN: &'static str = "\"\nexistencias_negativas = true\nvalidar_precio_minimo = false\n";

/// El archivo de configuración inicial: usuario y contraseña van escapados.
pub open spec fn texto_inicial(
    provider: Seq<char>,
    dll: Seq<char>,
    usuario: Seq<char>,
    password: Seq<char>,
) -> Seq<char> {
    PLANTILLA_INICIO@ + provider + "]\ndll_path = '"@ + dll + PLANTILLA_MEDIO@ + escapado(usuario)
        + "\"\npassword = \""@ + escapado(password) + PLANTILLA_FIN@
}

/// La credencial se lee de la configuración inicial como se dio: donde empieza
/// la cadena del usuario se lee el usuario, y donde empieza la de la
/// contraseña, la contraseña.
pub proof fn ley_credencial_se_lee(
    provider: Seq<char>,
    dll: Seq<char>,
    usuario: Seq<char>,
    password: Seq<char>,
)
    ensures
        ({
            let t = texto_inicial(provider, dll, usuario, password);
            let a = PLANTILLA_INICIO@ + provider + "]\ndll_path = '"@ + dll + PLANTILLA_MEDIO@;
            let b = a + escapado(usuario) + "\"\npassword = \""@;
            &&& leer_cadena(t.skip(a.len() as int)) == Some((usuario, escapado(usuario).len() + 1))
            &&& leer_cadena(t.skip(b.len() as int)) == Some(
                (password, escapado(password).len() + 1),
            )
        }),
{
    let t = texto_inicial(provider, dll, usuario, password);
    let a = PLANTILLA_INICIO@ + provider + "]\ndll_path = '"@ + dll + PLANTILLA_MEDIO@;
    let medio = "\"\npassword = \""@;
    let b = a + escapado(usuario) + medio;
    let fin = PLANTILLA_FIN@;
    reveal_strlit("\"\npassword = \"");
    reveal_strlit("\"\nexistencias_negativas = true\nvalidar_precio_minimo = false\n");
    let resto = medio.skip(1) + escapado(password) + fin;
    assert(t.skip(a.len() as int) =~= escapado(usuario) + seq!['"'] + resto);
    ley_toml_ida_y_vuelta(usuario, resto);
    assert(t.skip(b.len() as int) =~= escapado(password) + seq!['"'] + fin.skip(1));
    ley_toml_ida_y_vuelta(password, fin.skip(1));
}

/// La configuración inicial lleva el provider, la ruta de la biblioteca y la
/// credencial, cada cosa en su lugar, y lo demás es siempre lo mismo.
pub proof fn ley_plantilla(
    provider: Seq<char>,
    dll: Seq<char>,
    usuario: Seq<char>,
    password: Seq<char>,
)
    ensures
        texto_inicial(provider, dll, usuario, password)
            == "# Configuración de Iskandar — generada por `iskandar init`\n[server]\nport = 8080\n# Requerido para levantar el servidor: token que deben presentar los\n# clientes en `Authorization: Bearer <token>`. Puedes darlo aquí o por la\n# variable de entorno ISKANDAR_API_TOKEN (tiene prioridad sobre este valor).\n# token = \"reemplaza-esto-por-un-token-largo-y-aleatorio\"\n\n[providers."@
            + provider + "]\ndll_path = '"@ + dll
            + "'\ndb_path = 'C:\\Microsip datos\\EMPRESA.FDB'\nusuario = \""@ + escapado(
            usuario,
        ) + "\"\npassword = \""@ + escapado(password)
            + "\"\nexistencias_negativas = true\nvalidar_precio_minimo = false\n"@,
{
}

/// Escapar es carácter por carácter: dos textos juntos se escapan como cada uno;
/// la comilla y la diagonal llevan diagonal delante, un carácter de control va por
/// su código, y los demás, tal cual.
pub proof fn ley_escapado(a: Seq<char>, b: Seq<char>, c: char)
    ensures
        escapado(a + b) == escapado(a) + escapado(b),
        c == '"' || c == '\\' ==> escapado(seq![c]) =~= seq!['\\', c],
        (c as u32 >= 0x20 || c == '\t') && c as u32 != 0x7f && c != '"' && c != '\\' ==> escapado(
            seq![c],
        ) =~= seq![c],
        escapado(seq![]).len() == 0,
    decreases b.len(),
{
    assert(seq![c].drop_last() =~= Seq::<char>::empty());
    assert(escapado(seq![c]) =~= escapado(Seq::<char>::empty()) + caracter_toml(c));
    if b.len() == 0 {
        assert(a + b =~= a);
        assert(escapado(a) + escapado(b) =~= escapado(a));
    } else {
        ley_escapado(a, b.drop_last(), c);
        assert((a + b).drop_last() =~= a + b.drop_last());
        assert(escapado(a) + escapado(b.drop_last()) + caracter_toml(b.last()) =~= escapado(a) + (
        escapado(b.drop_last()) + caracter_toml(b.last())));
    }
}

/// El contenido del archivo de configuración inicial.
pub fn contenido_inicial(
    provider: &str,
    dll_path: Option<&str>,
    usuario: &str,
    password: &str,
) -> (r: String)
    ensures
        r@ == texto_inicial(
            provider@,
            match dll_path {
                Some(d) => d@,
                None => DLL_DEFAULT@,
            },
            usuario@,
            password@,
        ),
        r@ == "# Configuración de Iskandar — generada por `iskandar init`\n[server]\nport = 8080\n# Requerido para levantar el servidor: token que deben presentar los\n# clientes en `Authorization: Bearer <token>`. Puedes darlo aquí o por la\n# variable de entorno ISKANDAR_API_TOKEN (tiene prioridad sobre este valor).\n# token = \"reemplaza-esto-por-un-token-largo-y-aleatorio\"\n\n[providers."@
            + provider@ + "]\ndll_path = '"@ + (if dll_path is Some {
            dll_path->Some_0@
        } else {
            "C:\\Microsip\\ApiMicrosip.dll"@
        }) + "'\ndb_path = 'C:\\Microsip datos\\EMPRESA.FDB'\nusuario = \""@ + escapado(
            usuario@,
        ) + "\"\npassword = \""@ + escapado(password@)
            + "\"\nexistencias_negativas = true\nvalidar_precio_minimo = false\n"@,
{
    let dll: &str = match dll_path {
        Some(d) => d,
        None => DLL_DEFAULT,
    };
    PLANTILLA_INICIO.to_owned().concat(provider).concat("]\ndll_path = '").concat(dll).concat(
        PLANTILLA_MEDIO,
    ).concat(toml_escape(usuario).as_str()).concat("\"\npassword = \"").concat(
        toml_escape(password).as_str(),
    ).concat(PLANTILLA_FIN)
}

} // verus!
