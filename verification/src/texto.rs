//! Texto: números en decimal, recorte de blancos, comparación ASCII y las
//! conversiones a los bytes que consume la API nativa.

use vstd::prelude::*;

verus! {

// ---------------------------------------------------------------------
// Caracteres
// ---------------------------------------------------------------------

/// `String::push` agrega un carácter al final de la cadena.
pub assume_specification[ String::push ](s: &mut String, c: char)
    ensures
        final(s)@ == old(s)@.push(c),
;

/// Los caracteres de una cadena, en orden.
pub fn caracteres(s: &str) -> (r: Vec<char>)
    ensures
        r@ == s@,
{
    let mut r: Vec<char> = Vec::new();
    for c in it: s.chars()
        invariant
            it.seq() == s@,
            r@ == s@.take(it.index()),
    {
        r.push(c);
        proof {
            assert(s@.take(it.index() + 1) =~= s@.take(it.index()).push(c));
        }
    }
    proof {
        assert(s@.take(s@.len() as int) =~= s@);
    }
    r
}

/// La cadena formada por los caracteres `v[desde..hasta]`.
pub fn texto_de(v: &Vec<char>, desde: usize, hasta: usize) -> (r: String)
    requires
        desde <= hasta <= v@.len(),
    ensures
        r@ == v@.subrange(desde as int, hasta as int),
{
    let mut r = String::new();
    let mut i: usize = desde;
    while i < hasta
        invariant
            desde <= i <= hasta <= v@.len(),
            r@ == v@.subrange(desde as int, i as int),
        decreases hasta - i,
    {
        r.push(v[i]);
        proof {
            assert(v@.subrange(desde as int, i + 1) =~= v@.subrange(desde as int, i as int).push(
                v@[i as int],
            ));
        }
        i = i + 1;
    }
    r
}

/// `true` si dos cadenas tienen los mismos caracteres.
pub fn iguales(a: &str, b: &str) -> (r: bool)
    ensures
        r == (a@ == b@),
{
    let x = caracteres(a);
    let y = caracteres(b);
    if x.len() != y.len() {
        return false;
    }
    let mut i: usize = 0;
    while i < x.len()
        invariant
            i <= x@.len(),
            x@.len() == y@.len(),
            x@ == a@,
            y@ == b@,
            forall|j: int| 0 <= j < i ==> x@[j] == y@[j],
        decreases x@.len() - i,
    {
        if x[i] != y[i] {
            return false;
        }
        i = i + 1;
    }
    proof {
        assert(x@ =~= y@);
    }
    true
}

// ---------------------------------------------------------------------
// Enteros en decimal
// ---------------------------------------------------------------------

/// El dígito decimal `d` como carácter.
pub open spec fn digito(d: int) -> char {
    (48 + d) as char
}

/// Un natural en decimal, sin ceros a la izquierda.
pub open spec fn digitos(n: nat) -> Seq<char>
    decreases n,
{
    if n < 10 {
        seq![digito(n as int)]
    } else {
        digitos(n / 10).push(digito((n % 10) as int))
    }
}

/// Un entero en decimal, con `-` delante si es negativo.
pub open spec fn entero_texto(n: int) -> Seq<char> {
    if n < 0 {
        seq!['-'] + digitos((-n) as nat)
    } else {
        digitos(n as nat)
    }
}

fn digito_exec(d: u8) -> (c: char)
    requires
        d < 10,
    ensures
        c == digito(d as int),
{
    (48u8 + d) as char
}

/// Escribe un natural en decimal.
pub fn natural_a_texto(n: u64) -> (r: String)
    ensures
        r@ == digitos(n as nat),
    decreases n,
{
    let mut r = if n < 10 {
        String::new()
    } else {
        natural_a_texto(n / 10)
    };
    r.push(digito_exec((n % 10) as u8));
    proof {
        if n < 10 {
            assert(Seq::<char>::empty().push(digito(n as int)) =~= seq![digito(n as int)]);
        }
    }
    r
}

/// Escribe un entero en decimal.
pub fn entero_a_texto(n: i64) -> (r: String)
    ensures
        r@ == entero_texto(n as int),
{
    if n < 0 {
        let m: u64 = (-(n + 1)) as u64 + 1;
        let mut r = String::new();
        r.push('-');
        let d = natural_a_texto(m);
        r.append(d.as_str());
        proof {
            assert(Seq::<char>::empty().push('-') =~= seq!['-']);
        }
        r
    } else {
        natural_a_texto(n as u64)
    }
}

/// Valor de una secuencia de dígitos decimales.
pub open spec fn valor_digitos(s: Seq<char>) -> nat
    decreases s.len(),
{
    if s.len() == 0 {
        0
    } else {
        (valor_digitos(s.drop_last()) * 10 + (s.last() as int - 48)) as nat
    }
}

/// Un dígito decimal ASCII.
pub open spec fn es_digito(c: char) -> bool {
    '0' <= c <= '9'
}

/// Uno o más dígitos decimales y nada más.
pub open spec fn es_numeral(s: Seq<char>) -> bool {
    s.len() > 0 && forall|i: int| 0 <= i < s.len() ==> es_digito(#[trigger] s[i])
}

/// El entero que una cadena escribe en decimal, con signo opcional, si cabe
/// en 64 bits.
pub open spec fn leer_i64(s: Seq<char>) -> Option<i64> {
    let negativo = s.len() > 0 && s[0] == '-';
    let cuerpo = if s.len() > 0 && (s[0] == '-' || s[0] == '+') {
        s.skip(1)
    } else {
        s
    };
    let v = if negativo {
        -valor_digitos(cuerpo)
    } else {
        valor_digitos(cuerpo) as int
    };
    if es_numeral(cuerpo) && i64::MIN <= v <= i64::MAX {
        Some(v as i64)
    } else {
        None
    }
}

proof fn lema_valor_prefijo(s: Seq<char>, i: int)
    requires
        0 <= i <= s.len(),
        forall|j: int| 0 <= j < s.len() ==> es_digito(#[trigger] s[j]),
    ensures
        valor_digitos(s.take(i)) <= valor_digitos(s),
    decreases s.len(),
{
    if i == s.len() {
        assert(s.take(i) =~= s);
    } else {
        let t = s.drop_last();
        assert forall|j: int| 0 <= j < t.len() implies es_digito(#[trigger] t[j]) by {
            assert(t[j] == s[j]);
        }
        lema_valor_prefijo(t, i);
        assert(t.take(i) =~= s.take(i));
        assert(es_digito(s[s.len() - 1]));
    }
}

/// Lee un entero decimal de 64 bits. `None` si la cadena no es un numeral
/// (con signo opcional) o si el valor no cabe.
pub fn parse_i64(s: &str) -> (r: Option<i64>)
    ensures
        r == leer_i64(s@),
{
    let v = caracteres(s);
    let n: usize = v.len();
    let mut inicio: usize = 0;
    let mut negativo = false;
    if n > 0 && (v[0] == '-' || v[0] == '+') {
        inicio = 1;
        negativo = v[0] == '-';
    }
    let ghost cuerpo = s@.skip(inicio as int);
    proof {
        if inicio == 0 {
            assert(cuerpo =~= s@);
        }
    }
    if inicio == n {
        return None;
    }
    let mut acc: u64 = 0;
    let mut i: usize = inicio;
    while i < n
        invariant
            v@ == s@,
            n == v@.len(),
            inicio <= i <= n,
            cuerpo == s@.skip(inicio as int),
            acc <= 0x8000_0000_0000_0000,
            acc == valor_digitos(cuerpo.take(i - inicio)),
            forall|j: int| 0 <= j < i - inicio ==> es_digito(#[trigger] cuerpo[j]),
            negativo == (s@.len() > 0 && s@[0] == '-'),
            inicio == (if s@.len() > 0 && (s@[0] == '-' || s@[0] == '+') { 1int } else { 0int }),
            cuerpo == (if inicio == 1 { s@.skip(1) } else { s@ }),
        decreases n - i,
    {
        let c = v[i];
        proof {
            assert(cuerpo[i - inicio] == c);
        }
        if c < '0' || c > '9' {
            return None;
        }
        let d: u64 = c as u64 - 48;
        proof {
            let k = i - inicio;
            assert(cuerpo.take(k + 1).drop_last() =~= cuerpo.take(k));
            assert(cuerpo.take(k + 1).last() == c);
            assert(valor_digitos(cuerpo.take(k + 1)) == acc * 10 + d);
        }
        if acc > 922337203685477580 || (acc == 922337203685477580 && d > 8) {
            proof {
                if es_numeral(cuerpo) {
                    lema_valor_prefijo(cuerpo, i - inicio + 1);
                }
            }
            return None;
        }
        acc = acc * 10 + d;
        i = i + 1;
    }
    proof {
        assert(cuerpo.take(n - inicio) =~= cuerpo);
        assert(es_numeral(cuerpo));
    }
    if negativo {
        if acc == 0x8000_0000_0000_0000 {
            Some(i64::MIN)
        } else {
            Some(-(acc as i64))
        }
    } else if acc == 0x8000_0000_0000_0000 {
        None
    } else {
        Some(acc as i64)
    }
}

proof fn lema_digitos(n: nat)
    ensures
        es_numeral(digitos(n)),
        valor_digitos(digitos(n)) == n,
    decreases n,
{
    let d = (n % 10) as int;
    assert(digito(d) as int == 48 + d);
    if n < 10 {
        let s = seq![digito(n as int)];
        assert(s.drop_last() =~= Seq::<char>::empty());
        assert(s.last() == digito(n as int));
        assert(valor_digitos(s.drop_last()) == 0);
    } else {
        lema_digitos(n / 10);
        let t = digitos(n / 10);
        let s = t.push(digito(d));
        assert(s.drop_last() =~= t);
        assert forall|i: int| 0 <= i < s.len() implies es_digito(#[trigger] s[i]) by {
            if i < t.len() {
                assert(s[i] == t[i]);
            }
        }
    }
}

/// Leer lo que se escribió: el texto decimal de un entero de 64 bits se lee
/// como ese mismo entero.
pub proof fn ley_leer_lo_escrito(n: i64)
    ensures
        leer_i64(entero_texto(n as int)) == Some(n),
{
    let m = if n < 0 {
        (-n) as nat
    } else {
        n as nat
    };
    lema_digitos(m);
    let t = entero_texto(n as int);
    if n < 0 {
        assert(t.skip(1) =~= digitos(m));
        assert(t[0] == '-');
    } else {
        assert(es_digito(t[0]));
        assert(t[0] != '-' && t[0] != '+');
    }
}

// ---------------------------------------------------------------------
// Recorte y comparación
// ---------------------------------------------------------------------

/// Los caracteres con la propiedad Unicode `White_Space`.
pub open spec fn es_blanco(c: char) -> bool {
    let u = c as u32;
    ||| 0x09 <= u <= 0x0d
    ||| u == 0x20
    ||| u == 0x85
    ||| u == 0xa0
    ||| u == 0x1680
    ||| 0x2000 <= u <= 0x200a
    ||| u == 0x2028
    ||| u == 0x2029
    ||| u == 0x202f
    ||| u == 0x205f
    ||| u == 0x3000
}

/// `true` si el carácter es blanco en Unicode.
pub fn blanco(c: char) -> (r: bool)
    ensures
        r == es_blanco(c),
{
    let u: u32 = c as u32;
    (0x09 <= u && u <= 0x0d) || u == 0x20 || u == 0x85 || u == 0xa0 || u == 0x1680 || (0x2000 <= u
        && u <= 0x200a) || u == 0x2028 || u == 0x2029 || u == 0x202f || u == 0x205f || u == 0x3000
}

/// La cadena sin los blancos del principio.
pub open spec fn sin_blancos_iniciales(s: Seq<char>) -> Seq<char>
    decreases s.len(),
{
    if s.len() > 0 && es_blanco(s[0]) {
        sin_blancos_iniciales(s.drop_first())
    } else {
        s
    }
}

/// La cadena sin los blancos del final.
pub open spec fn sin_blancos_finales(s: Seq<char>) -> Seq<char>
    decreases s.len(),
{
    if s.len() > 0 && es_blanco(s.last()) {
        sin_blancos_finales(s.drop_last())
    } else {
        s
    }
}

/// La cadena sin blancos en los extremos.
pub open spec fn recortado(s: Seq<char>) -> Seq<char> {
    sin_blancos_finales(sin_blancos_iniciales(s))
}

/// Quita los blancos de ambos extremos.
pub fn recortar(s: &str) -> (r: String)
    ensures
        r@ == recortado(s@),
{
    let v = caracteres(s);
    let n: usize = v.len();
    let mut i: usize = 0;
    proof {
        assert(s@.subrange(0, n as int) =~= s@);
    }
    while i < n && blanco(v[i])
        invariant
            v@ == s@,
            n == v@.len(),
            i <= n,
            sin_blancos_iniciales(s@) == sin_blancos_iniciales(s@.subrange(i as int, n as int)),
        decreases n - i,
    {
        proof {
            assert(s@.subrange(i as int, n as int).drop_first() =~= s@.subrange(
                i + 1,
                n as int,
            ));
        }
        i = i + 1;
    }
    let mut j: usize = n;
    while j > i && blanco(v[j - 1])
        invariant
            v@ == s@,
            n == v@.len(),
            i <= j <= n,
            sin_blancos_iniciales(s@) == s@.subrange(i as int, n as int),
            sin_blancos_finales(s@.subrange(i as int, n as int)) == sin_blancos_finales(
                s@.subrange(i as int, j as int),
            ),
        decreases j,
    {
        proof {
            assert(s@.subrange(i as int, j as int).drop_last() =~= s@.subrange(i as int, j - 1));
        }
        j = j - 1;
    }
    texto_de(&v, i, j)
}

/// La minúscula ASCII de un carácter; los demás quedan igual.
pub open spec fn minuscula_ascii(c: char) -> char {
    if 'A' <= c <= 'Z' {
        (c as int + 32) as char
    } else {
        c
    }
}

/// Igualdad sin distinguir mayúsculas de minúsculas ASCII.
pub open spec fn iguales_sin_caja(a: Seq<char>, b: Seq<char>) -> bool {
    &&& a.len() == b.len()
    &&& forall|i: int|
        0 <= i < a.len() ==> minuscula_ascii(#[trigger] a[i]) == minuscula_ascii(b[i])
}

fn minuscula(c: char) -> (r: char)
    ensures
        r == minuscula_ascii(c),
{
    if 'A' <= c && c <= 'Z' {
        (c as u8 + 32) as char
    } else {
        c
    }
}

/// Compara dos cadenas sin distinguir mayúsculas de minúsculas ASCII.
pub fn eq_ignore_ascii_case(a: &str, b: &str) -> (r: bool)
    ensures
        r == iguales_sin_caja(a@, b@),
{
    let x = caracteres(a);
    let y = caracteres(b);
    if x.len() != y.len() {
        return false;
    }
    let mut i: usize = 0;
    while i < x.len()
        invariant
            i <= x@.len(),
            x@.len() == y@.len(),
            x@ == a@,
            y@ == b@,
            forall|j: int| 0 <= j < i ==> minuscula_ascii(#[trigger] a@[j]) == minuscula_ascii(b@[j]),
        decreases x@.len() - i,
    {
        if minuscula(x[i]) != minuscula(y[i]) {
            proof {
                assert(minuscula_ascii(a@[i as int]) != minuscula_ascii(b@[i as int]));
            }
            return false;
        }
        i = i + 1;
    }
    true
}

// ---------------------------------------------------------------------
// Mayúsculas
// ---------------------------------------------------------------------

/// La mayúscula de una letra ASCII; lo demás queda igual.
pub open spec fn mayuscula_ascii(c: char) -> char {
    if 'a' <= c && c <= 'z' {
        ((c as u32 - 32) as u32) as char
    } else {
        c
    }
}

/// Nombre del texto en mayúsculas.
pub uninterp spec fn texto_mayusculas(s: Seq<char>) -> Seq<char>;

/// `str::to_uppercase`: el resultado depende solo del texto, y en un texto
/// ASCII cambia cada letra minúscula por su mayúscula.
#[verifier::external_body]
pub(crate) fn mayusculas(s: &str) -> (r: String)
    ensures
        r@ == texto_mayusculas(s@),
        (forall|i: int| 0 <= i < s@.len() ==> (#[trigger] s@[i] as u32) < 128) ==> r@
            == s@.map_values(|c: char| mayuscula_ascii(c)),
{
    s.to_uppercase()
}

} // verus!
