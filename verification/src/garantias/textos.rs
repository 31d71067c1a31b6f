//! Textos: el recorte de blancos, la comparación sin caja, las mayúsculas, los
//! búferes terminados en NUL y las fechas escritas.

use vstd::prelude::*;

use crate::cadena::{lema_hasta_nul, texto_de_bufer, utf8_con_reemplazo};
use crate::error::ErrorV;
use crate::fecha::{
    anio_texto, cuatro_digitos, dias_del_mes, fecha_hora_texto, fecha_texto,
    FechaHoraV, FechaV,
};
use crate::security::AuditErrorV;
use crate::texto::{
    digito, digitos, entero_texto, es_blanco, iguales_sin_caja, mayuscula_ascii, minuscula_ascii, recortado,
    sin_blancos_finales, sin_blancos_iniciales,
};

verus! {

/// Los blancos de ASCII son el tabulador, los saltos y el espacio.
pub proof fn ley_blancos_ascii(c: char)
    requires
        (c as u32) < 128,
    ensures
        es_blanco(c) <==> (c == '\t' || c == '\n' || c as u32 == 11 || c as u32 == 12 || c == '\r'
            || c == ' '),
{
}

proof fn lema_iniciales(s: Seq<char>) -> (k: int)
    ensures
        0 <= k <= s.len(),
        sin_blancos_iniciales(s) == s.skip(k),
        forall|i: int| 0 <= i < k ==> es_blanco(#[trigger] s[i]),
        k < s.len() ==> !es_blanco(s[k]),
    decreases s.len(),
{
    if s.len() > 0 && es_blanco(s[0]) {
        let t = s.drop_first();
        let j = lema_iniciales(t);
        assert(t.skip(j) =~= s.skip(j + 1));
        assert forall|i: int| 0 <= i < j + 1 implies es_blanco(#[trigger] s[i]) by {
            if i > 0 {
                assert(t[i - 1] == s[i]);
            }
        }
        j + 1
    } else {
        assert(s.skip(0) =~= s);
        0
    }
}

proof fn lema_finales(s: Seq<char>) -> (k: int)
    ensures
        0 <= k <= s.len(),
        sin_blancos_finales(s) == s.take(k),
        forall|i: int| k <= i < s.len() ==> es_blanco(#[trigger] s[i]),
        k > 0 ==> !es_blanco(s[k - 1]),
    decreases s.len(),
{
    if s.len() > 0 && es_blanco(s.last()) {
        let t = s.drop_last();
        let j = lema_finales(t);
        assert(t.take(j) =~= s.take(j));
        assert forall|i: int| j <= i < s.len() implies es_blanco(#[trigger] s[i]) by {
            if i < t.len() {
                assert(t[i] == s[i]);
            }
        }
        j
    } else {
        assert(s.take(s.len() as int) =~= s);
        s.len() as int
    }
}

/// Recortar quita de cada extremo los blancos que haya y nada más: lo que
/// queda es un tramo del texto que no empieza ni termina en blanco.
pub proof fn ley_recorte(s: Seq<char>)
    ensures
        exists|i: int, j: int|
            0 <= i <= j <= s.len() && recortado(s) == #[trigger] s.subrange(i, j) && (forall|k: int|
                0 <= k < s.len() && !(i <= k < j) ==> es_blanco(#[trigger] s[k])),
        recortado(s).len() > 0 ==> !es_blanco(recortado(s)[0]) && !es_blanco(
            recortado(s)[recortado(s).len() - 1],
        ),
{
    let i = lema_iniciales(s);
    let t = s.skip(i);
    let m = lema_finales(t);
    assert(t.take(m) =~= s.subrange(i, i + m));
    assert forall|k: int| 0 <= k < s.len() && !(i <= k < i + m) implies es_blanco(
        #[trigger] s[k],
    ) by {
        if k >= i {
            assert(t[k - i] == s[k]);
        }
    }
    if m > 0 {
        assert(t[0] == s[i]);
    }
    assert(recortado(s) == s.subrange(i, i + m));
}

/// Un texto sin blancos en los extremos, rodeado de blancos, se recorta a sí
/// mismo.
pub proof fn ley_recorte_de_rodeado(a: Seq<char>, t: Seq<char>, b: Seq<char>)
    requires
        forall|k: int| 0 <= k < a.len() ==> es_blanco(#[trigger] a[k]),
        forall|k: int| 0 <= k < b.len() ==> es_blanco(#[trigger] b[k]),
        t.len() > 0 ==> !es_blanco(t[0]) && !es_blanco(t[t.len() - 1]),
    ensures
        recortado(a + t + b) == t,
{
    let s = a + t + b;
    let i = lema_iniciales(s);
    let u = s.skip(i);
    let m = lema_finales(u);
    if t.len() > 0 {
        let n: int = a.len() as int;
        assert(s[n] == t[0]);
        if i > n {
            assert(es_blanco(s[n]));
        }
        if i < n {
            assert(s[i] == a[i]);
        }
        let f: int = n + t.len() - 1;
        assert(s[f] == t[t.len() - 1]);
        if n + m <= f {
            assert(u[f - n] == s[f]);
        }
        if n + m > f + 1 {
            assert(u[m - 1] == s[n + m - 1]);
            assert(s[n + m - 1] == b[n + m - 1 - n - t.len()]);
        }
        assert(u.take(m) =~= t);
    } else {
        if i < s.len() {
            if i < a.len() {
                assert(s[i] == a[i]);
            } else {
                assert(s[i] == b[i - a.len()]);
            }
        }
        assert(u.take(m) =~= t);
    }
}

/// Dos textos son iguales sin caja si y solo si en cada posición llevan el
/// mismo carácter o la misma letra ASCII, una en mayúscula y otra en minúscula.
pub proof fn ley_sin_caja(a: Seq<char>, b: Seq<char>)
    ensures
        iguales_sin_caja(a, b) <==> a.len() == b.len() && forall|i: int|
            0 <= i < a.len() ==> (#[trigger] a[i] == b[i] || ('A' <= a[i] <= 'Z' && b[i] as int
                == a[i] as int + 32) || ('A' <= b[i] <= 'Z' && a[i] as int == b[i] as int + 32)),
{
    if a.len() == b.len() {
        assert forall|i: int| 0 <= i < a.len() implies ((minuscula_ascii(#[trigger] a[i])
            == minuscula_ascii(b[i])) <==> (a[i] == b[i] || ('A' <= a[i] <= 'Z' && b[i] as int
            == a[i] as int + 32) || ('A' <= b[i] <= 'Z' && a[i] as int == b[i] as int + 32))) by {
        }
    }
}

/// La mayúscula de una letra minúscula ASCII está 32 lugares antes; lo demás
/// no cambia.
pub proof fn ley_mayuscula(c: char)
    ensures
        97 <= c as int <= 122 ==> mayuscula_ascii(c) as int == c as int - 32,
        !(97 <= c as int <= 122) ==> mayuscula_ascii(c) == c,
{
}

/// Lo que sigue al primer NUL de un búfer no llega al texto; lo anterior,
/// entero.
pub proof fn ley_bufer(t: Seq<u8>, resto: Seq<u8>)
    requires
        !t.contains(0u8),
    ensures
        texto_de_bufer(t + seq![0u8] + resto) == utf8_con_reemplazo(t),
        texto_de_bufer(t) == utf8_con_reemplazo(t),
{
    let b = t + seq![0u8] + resto;
    assert forall|i: int| 0 <= i < t.len() implies t[i] != 0u8 by {
        assert(t.contains(t[i]));
    }
    lema_hasta_nul(b, t.len() as int);
    assert(b.take(t.len() as int) =~= t);
    lema_hasta_nul(t, t.len() as int);
    assert(t.take(t.len() as int) =~= t);
}

/// Los meses duran lo que duran en el calendario gregoriano.
pub proof fn ley_calendario(anio: int)
    ensures
        dias_del_mes(anio, 1) == 31,
        dias_del_mes(anio, 2) == 29 <==> (anio % 400 == 0 || (anio % 4 == 0 && anio % 100 != 0)),
        dias_del_mes(anio, 2) == 28 || dias_del_mes(anio, 2) == 29,
        dias_del_mes(anio, 3) == 31,
        dias_del_mes(anio, 4) == 30,
        dias_del_mes(anio, 5) == 31,
        dias_del_mes(anio, 6) == 30,
        dias_del_mes(anio, 7) == 31,
        dias_del_mes(anio, 8) == 31,
        dias_del_mes(anio, 9) == 30,
        dias_del_mes(anio, 10) == 31,
        dias_del_mes(anio, 11) == 30,
        dias_del_mes(anio, 12) == 31,
{
}

/// El número de dos cifras que hay en una posición de un texto.
pub open spec fn par_de_cifras(s: Seq<char>, i: int) -> int {
    (s[i] as int - 48) * 10 + (s[i + 1] as int - 48)
}

proof fn lema_cuatro(n: nat)
    requires
        n <= 9999,
    ensures
        cuatro_digitos(n).len() == 4,
        cuatro_digitos(n)[0] as int == 48 + n / 1000,
        cuatro_digitos(n)[1] as int == 48 + (n / 100) % 10,
        cuatro_digitos(n)[2] as int == 48 + (n / 10) % 10,
        cuatro_digitos(n)[3] as int == 48 + n % 10,
{
    reveal_with_fuel(digitos, 5);
    assert((n / 10) / 10 == n / 100);
    assert((n / 100) / 10 == n / 1000);
}

/// Una fecha de año 0 a 9999 se escribe en diez caracteres: el día, el mes y
/// los cuatro dígitos del año, separados por diagonales.
pub proof fn ley_fecha_escrita(f: FechaV)
    requires
        f.valida(),
        0 <= f.anio <= 9999,
    ensures
        fecha_texto(f).len() == 10,
        par_de_cifras(fecha_texto(f), 0) == f.dia,
        fecha_texto(f)[2] == '/',
        par_de_cifras(fecha_texto(f), 3) == f.mes,
        fecha_texto(f)[5] == '/',
        par_de_cifras(fecha_texto(f), 6) * 100 + par_de_cifras(fecha_texto(f), 8) == f.anio,
        forall|i: int|
            0 <= i < 10 && i != 2 && i != 5 ==> '0' <= #[trigger] fecha_texto(f)[i] <= '9',
{
    lema_cuatro(f.anio as nat);
    let t = fecha_texto(f);
    let a = anio_texto(f.anio);
    assert(t[0] == digito(f.dia / 10));
    assert(t[1] == digito(f.dia % 10));
    assert(t[3] == digito(f.mes / 10));
    assert(t[4] == digito(f.mes % 10));
    assert(t[6] == a[0] && t[7] == a[1] && t[8] == a[2] && t[9] == a[3]);
    assert(f.anio / 100 == (f.anio / 1000) * 10 + (f.anio / 100) % 10);
}

/// Fuera de los cuatro dígitos el año lleva signo: `+` si es mayor y `-` si es
/// negativo, seguido de sus cifras.
pub proof fn ley_fecha_con_signo(f: FechaV)
    requires
        f.valida(),
    ensures
        f.anio > 9999 ==> fecha_texto(f).skip(6) =~= seq!['+'] + digitos(f.anio as nat),
        f.anio < -999 ==> fecha_texto(f).skip(6) =~= seq!['-'] + digitos((-f.anio) as nat),
        -999 <= f.anio < 0 ==> fecha_texto(f).len() == 11 && fecha_texto(f)[6] == '-'
            && par_de_cifras(fecha_texto(f), 7) * 100 + par_de_cifras(fecha_texto(f), 9) == -f.anio,
        par_de_cifras(fecha_texto(f), 0) == f.dia,
        fecha_texto(f)[2] == '/',
        par_de_cifras(fecha_texto(f), 3) == f.mes,
        fecha_texto(f)[5] == '/',
{
    let t = fecha_texto(f);
    let a = anio_texto(f.anio);
    assert(t.skip(6) =~= a);
    assert(t[0] == digito(f.dia / 10));
    assert(t[1] == digito(f.dia % 10));
    assert(t[3] == digito(f.mes / 10));
    assert(t[4] == digito(f.mes % 10));
    if -999 <= f.anio < 0 {
        let n = (-f.anio) as nat;
        lema_cuatro(n);
        let c = cuatro_digitos(n);
        assert(t[7] == c[0] && t[8] == c[1] && t[9] == c[2] && t[10] == c[3]);
        assert(n / 100 == (n / 1000) * 10 + (n / 100) % 10);
    }
}

/// Una fecha con hora se escribe como su fecha, un espacio, la hora y el minuto
/// a dos cifras con dos puntos en medio.
pub proof fn ley_fecha_hora_escrita(f: FechaHoraV)
    requires
        f.valida(),
    ensures
        ({
            let t = fecha_hora_texto(f);
            let n = fecha_texto(f.fecha).len() as int;
            &&& t.len() == n + 6
            &&& t.take(n) =~= fecha_texto(f.fecha)
            &&& t[n] == ' '
            &&& par_de_cifras(t, n + 1) == f.hora
            &&& t[n + 3] == ':'
            &&& par_de_cifras(t, n + 4) == f.minuto
        }),
{
    let t = fecha_hora_texto(f);
    let n = fecha_texto(f.fecha).len() as int;
    assert(t[n + 1] == digito(f.hora / 10));
    assert(t[n + 2] == digito(f.hora % 10));
    assert(t[n + 4] == digito(f.minuto / 10));
    assert(t[n + 5] == digito(f.minuto % 10));
}

/// Lo que dice cada clase de error, con lo que trae.
pub proof fn ley_mensajes(a: Seq<char>, b: Seq<char>, code: i32)
    ensures
        ErrorV::UnknownProvider(a).texto() == "el provider '"@ + a + "' no está registrado"@,
        (ErrorV::UnsupportedModule { provider: a, module: b }).texto() == "el provider '"@ + a
            + "' no soporta el módulo '"@ + b + "'"@,
        ErrorV::NotImplemented(a).texto() == "operación aún no implementada: "@ + a,
        ErrorV::Config(a).texto() == "error de configuración: "@ + a,
        ErrorV::Connection(a).texto() == "error de conexión: "@ + a,
        ErrorV::Validation(a).texto() == "error de validación: "@ + a,
        ErrorV::NotFound(a).texto() == "no encontrado: "@ + a,
        (ErrorV::Provider { code, message: a }).texto() == "error del ERP (código "@ + entero_texto(
            code as int,
        ) + "): "@ + a,
        ErrorV::Io(a).texto() == a,
        AuditErrorV::Unreachable(a).texto() == "no se pudo alcanzar el sistema para auditar: "@ + a,
        AuditErrorV::ProviderError(a).texto() == "el provider falló durante el audit: "@ + a,
{
}

} // verus!
