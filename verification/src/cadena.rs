//! Cadenas para la API nativa: bytes sin NUL interno, en UTF-8 o en
//! Windows-1252, y la lectura de los búferes que la API llena.

use vstd::prelude::*;
use vstd::utf8::*;

use crate::error::{ErrorV, IskandarError};
use crate::texto::digitos;

verus! {

/// Nombre del texto que produce el formato `Debug` de una cadena (entre
/// comillas y con escapes).
pub uninterp spec fn texto_debug(s: Seq<char>) -> Seq<char>;

/// Los caracteres ASCII visibles (y el espacio) que no son comillas ni
/// diagonal inversa.
pub open spec fn es_llano(c: char) -> bool {
    let u = c as u32;
    0x20 <= u <= 0x7e && c != '"' && c != '\'' && c != '\\'
}

/// Todos los caracteres son llanos.
pub open spec fn texto_llano(s: Seq<char>) -> bool {
    forall|i: int| 0 <= i < s.len() ==> es_llano(#[trigger] s[i])
}

/// Un texto entre comillas dobles.
pub open spec fn entre_comillas(s: Seq<char>) -> Seq<char> {
    seq!['"'] + s + seq!['"']
}

/// El formato `Debug` de `str`, tal como lo escribe `format!("{:?}")`: el
/// resultado depende solo de la cadena, y la de un texto sin nada que escapar
/// es el texto entre comillas.
#[verifier::external_body]
pub(crate) fn formato_debug(s: &str) -> (r: String)
    ensures
        r@ == texto_debug(s@),
        texto_llano(s@) ==> r@ == entre_comillas(s@),
{
    format!("{:?}", s)
}

/// Nombre del resultado de decodificar bytes como UTF-8 con reemplazo de las
/// secuencias inválidas.
pub uninterp spec fn utf8_con_reemplazo(b: Seq<u8>) -> Seq<char>;

/// `String::from_utf8_lossy`: los bytes que son UTF-8 válido se leen tal
/// cual; el resto depende solo de los bytes.
#[verifier::external_body]
pub(crate) fn decodificar_utf8(b: &[u8]) -> (r: String)
    ensures
        r@ == utf8_con_reemplazo(b@),
        valid_utf8(b@) ==> r@ == decode_utf8(b@),
{
    String::from_utf8_lossy(b).into_owned()
}

/// Nombre de los bytes Windows-1252 de un texto.
pub uninterp spec fn windows_1252(s: Seq<char>) -> Seq<u8>;

/// Los caracteres cuyo byte Windows-1252 es su propio código: ASCII y el
/// bloque Latin-1 superior, donde viven las letras acentuadas del español.
pub open spec fn es_latin1(c: char) -> bool {
    let u = c as u32;
    u < 0x80 || 0xa0 <= u <= 0xff
}

/// Un carácter que va con su propio código, o que por pasar de U+2122, el
/// último de la página, va como referencia numérica decimal (`&#26085;`).
pub open spec fn bytes_de(c: char) -> Seq<u8> {
    if es_latin1(c) {
        seq![c as u8]
    } else {
        encode_utf8("&#"@ + digitos(c as u32 as nat) + ";"@)
    }
}

/// Los bytes de un texto, carácter a carácter.
pub open spec fn bytes_de_texto(s: Seq<char>) -> Seq<u8>
    decreases s.len(),
{
    if s.len() == 0 {
        seq![]
    } else {
        bytes_de_texto(s.drop_last()) + bytes_de(s.last())
    }
}

proof fn lema_codigo(c: char)
    requires
        c as u32 <= 0xff,
    ensures
        (c as u8) as int == c as int,
{
}

/// Un texto ASCII o Latin-1 va en un byte por carácter, el de su código.
pub proof fn ley_un_byte_por_caracter(s: Seq<char>)
    requires
        forall|i: int|
            0 <= i < s.len() ==> (#[trigger] s[i] as u32) < 0x80 || 0xa0 <= s[i] as u32 <= 0xff,
    ensures
        bytes_de_texto(s).len() == s.len(),
        forall|i: int| 0 <= i < s.len() ==> (#[trigger] bytes_de_texto(s)[i]) as int == s[i] as int,
    decreases s.len(),
{
    if s.len() > 0 {
        let t = s.drop_last();
        assert forall|i: int| 0 <= i < t.len() implies (#[trigger] t[i] as u32) < 0x80 || 0xa0
            <= t[i] as u32 <= 0xff by {
            assert(t[i] == s[i]);
        }
        ley_un_byte_por_caracter(t);
        let c = s[s.len() - 1];
        assert((c as u32) < 0x80 || 0xa0 <= c as u32 <= 0xff);
        assert(bytes_de(s.last()) == seq![c as u8]);
        assert forall|i: int| 0 <= i < s.len() implies (#[trigger] bytes_de_texto(s)[i]) as int
            == s[i] as int by {
            if i < t.len() {
                assert(bytes_de_texto(s)[i] == bytes_de_texto(t)[i]);
                assert(t[i] == s[i]);
            } else {
                assert(i == t.len());
                lema_codigo(c);
                assert(bytes_de_texto(s)[i] == c as u8);
            }
        }
    }
}

/// Todos los caracteres son ASCII, Latin-1 o posteriores a U+2122.
pub open spec fn texto_directo(s: Seq<char>) -> bool {
    forall|i: int| 0 <= i < s.len() ==> es_latin1(#[trigger] s[i]) || s[i] as u32 > 0x2122
}

/// `encoding_rs::WINDOWS_1252.encode`: codifica el texto completo; lo no
/// representable se sustituye por referencias numéricas decimales. Los
/// caracteres ASCII y Latin-1 se codifican con su propio código, ninguno
/// posterior a U+2122 es representable, y el byte 0 aparece solo si el texto
/// trae un NUL. De los demás caracteres solo se dice que dependen del texto.
#[verifier::external_body]
pub(crate) fn codificar_1252(s: &str) -> (r: Vec<u8>)
    ensures
        r@ == windows_1252(s@),
        r@.contains(0u8) == s@.contains('\0'),
        texto_directo(s@) ==> r@ == bytes_de_texto(s@),
{
    encoding_rs::WINDOWS_1252.encode(s).0.into_owned()
}

/// Una cadena de bytes sin NUL interno, lista para terminarse en NUL.
#[derive(Debug)]
pub struct CadenaC {
    bytes: Vec<u8>,
}

impl View for CadenaC {
    type V = Seq<u8>;

    closed spec fn view(&self) -> Seq<u8> {
        self.bytes@
    }
}

impl CadenaC {
    #[verifier::type_invariant]
    spec fn sin_nul(self) -> bool {
        !self.bytes@.contains(0u8)
    }

    /// Los bytes de la cadena, sin el terminador.
    pub fn bytes(&self) -> (r: &[u8])
        ensures
            r@ == self@,
            !r@.contains(0u8),
    {
        proof {
            use_type_invariant(self);
        }
        self.bytes.as_slice()
    }

    fn nueva(bytes: Vec<u8>) -> (r: Option<CadenaC>)
        ensures
            r is None <==> bytes@.contains(0u8),
            r matches Some(c) ==> c@ == bytes@,
    {
        let mut i: usize = 0;
        while i < bytes.len()
            invariant
                i <= bytes@.len(),
                forall|j: int| 0 <= j < i ==> bytes@[j] != 0u8,
            decreases bytes@.len() - i,
        {
            if bytes[i] == 0 {
                return None;
            }
            i = i + 1;
        }
        Some(CadenaC { bytes })
    }
}

/// El error de una cadena con NUL interno.
pub open spec fn error_nul(s: Seq<char>) -> ErrorV {
    ErrorV::Validation("string con NUL interno: "@ + texto_debug(s))
}

fn nul_interno(s: &str) -> (e: IskandarError)
    ensures
        e@ == error_nul(s@),
{
    IskandarError::Validation(
        "string con NUL interno: ".to_owned().concat(formato_debug(s).as_str()),
    )
}

proof fn lema_byte_no_cero(c: u32)
    by (bit_vector)
    requires
        c >= 0x80,
    ensures
        (0xC0u8 | ((c >> 6) & 0x1F) as u8) != 0,
        (0xE0u8 | ((c >> 12) & 0x0F) as u8) != 0,
        (0xF0u8 | ((c >> 18) & 0x7) as u8) != 0,
        (0x80u8 | (c & 0x3F) as u8) != 0,
        (0x80u8 | ((c >> 6) & 0x3F) as u8) != 0,
        (0x80u8 | ((c >> 12) & 0x3F) as u8) != 0,
{
}

proof fn lema_byte_ascii(c: u32)
    by (bit_vector)
    requires
        c < 0x80,
    ensures
        ((c & 0x7F) as u8 == 0) == (c == 0),
{
}

proof fn lema_escalar_nul(c: char)
    ensures
        encode_scalar(c as u32).contains(0u8) == (c == '\0'),
{
    let u = c as u32;
    let e = encode_scalar(u);
    if u < 0x80 {
        lema_byte_ascii(u);
        assert(e[0] == (u & 0x7F) as u8);
        assert(e.len() == 1);
    } else {
        lema_byte_no_cero(u);
        assert forall|i: int| 0 <= i < e.len() implies #[trigger] e[i] != 0u8 by {}
    }
}

/// Un texto en UTF-8 tiene un byte 0 exactamente si tiene el carácter NUL.
pub proof fn lema_utf8_nul(s: Seq<char>)
    ensures
        encode_utf8(s).contains(0u8) == s.contains('\0'),
    decreases s.len(),
{
    if s.len() > 0 {
        let t = s.drop_first();
        lema_utf8_nul(t);
        lema_escalar_nul(s[0]);
        let a = encode_scalar(s[0] as u32);
        let b = encode_utf8(t);
        assert(encode_utf8(s) == a + b);
        if a.contains(0u8) {
            let i = choose|i: int| 0 <= i < a.len() && a[i] == 0u8;
            assert((a + b)[i] == 0u8);
        }
        if b.contains(0u8) {
            let i = choose|i: int| 0 <= i < b.len() && b[i] == 0u8;
            assert((a + b)[a.len() + i] == 0u8);
        }
        if t.contains('\0') {
            let i = choose|i: int| 0 <= i < t.len() && t[i] == '\0';
            assert(s[i + 1] == '\0');
        }
        if s.contains('\0') && s[0] != '\0' {
            let i = choose|i: int| 0 <= i < s.len() && s[i] == '\0';
            assert(t[i - 1] == '\0');
        }
    }
}

/// Convierte un texto en la cadena que espera la API nativa (UTF-8). Falla
/// solo si el texto trae un NUL interno.
pub fn cstring(s: &str) -> (r: Result<CadenaC, IskandarError>)
    ensures
        r matches Ok(c) ==> !s@.contains('\0') && c@ == encode_utf8(s@),
        r matches Err(e) ==> s@.contains('\0') && e@ == error_nul(s@),
        r is Err <==> s@.contains('\0'),
        r matches Err(e) ==> e@ == ErrorV::Validation("string con NUL interno: "@ + texto_debug(s@)),
{
    proof {
        lema_utf8_nul(s@);
    }
    match CadenaC::nueva(s.as_bytes_vec()) {
        Some(c) => Ok(c),
        None => Err(nul_interno(s)),
    }
}

/// Como [`cstring`], pero en Windows-1252: los parámetros de texto libre de
/// la API nativa usan la página de códigos ANSI.
pub fn cstring_ansi(s: &str) -> (r: Result<CadenaC, IskandarError>)
    ensures
        r matches Ok(c) ==> !s@.contains('\0') && c@ == windows_1252(s@) && (texto_directo(s@)
            ==> c@ == bytes_de_texto(s@)),
        r matches Err(e) ==> s@.contains('\0') && e@ == error_nul(s@),
        r is Err <==> s@.contains('\0'),
        r matches Err(e) ==> e@ == ErrorV::Validation("string con NUL interno: "@ + texto_debug(s@)),
{
    match CadenaC::nueva(codificar_1252(s)) {
        Some(c) => Ok(c),
        None => Err(nul_interno(s)),
    }
}

/// Los bytes de un búfer hasta el primer NUL (o todos, si no hay).
pub open spec fn hasta_nul(b: Seq<u8>) -> Seq<u8>
    decreases b.len(),
{
    if b.len() == 0 || b[0] == 0 {
        seq![]
    } else {
        seq![b[0]] + hasta_nul(b.drop_first())
    }
}

/// El texto que la API nativa dejó en un búfer terminado en NUL.
pub open spec fn texto_de_bufer(b: Seq<u8>) -> Seq<char> {
    utf8_con_reemplazo(hasta_nul(b))
}

pub(crate) proof fn lema_hasta_nul(b: Seq<u8>, n: int)
    requires
        0 <= n <= b.len(),
        forall|i: int| 0 <= i < n ==> b[i] != 0u8,
        n == b.len() || b[n] == 0u8,
    ensures
        hasta_nul(b) == b.take(n),
    decreases b.len(),
{
    if n > 0 {
        let t = b.drop_first();
        assert forall|i: int| 0 <= i < n - 1 implies t[i] != 0u8 by {
            assert(t[i] == b[i + 1]);
        }
        lema_hasta_nul(t, n - 1);
        assert(b.take(n) =~= seq![b[0]] + t.take(n - 1));
    } else {
        assert(b.take(0) =~= Seq::<u8>::empty());
    }
}

/// Lee el texto de un búfer terminado en NUL.
pub fn leer_bufer(b: &Vec<u8>) -> (r: String)
    ensures
        r@ == texto_de_bufer(b@),
{
    let mut n: usize = 0;
    while n < b.len() && b[n] != 0
        invariant
            n <= b@.len(),
            forall|i: int| 0 <= i < n ==> b@[i] != 0u8,
        decreases b@.len() - n,
    {
        n = n + 1;
    }
    proof {
        lema_hasta_nul(b@, n as int);
        assert(b@.subrange(0, n as int) =~= b@.take(n as int));
    }
    decodificar_utf8(vstd::slice::slice_subrange(b.as_slice(), 0, n))
}

} // verus!
