//! Números: su forma decimal, su lectura, sus 32 bits bajos y su patrón de
//! bits como `Double`.

use vstd::arithmetic::div_mod::*;
use vstd::arithmetic::power::*;
use vstd::arithmetic::power2::*;
use vstd::prelude::*;

use crate::doble::{bits_entero, bits_natural, exponente};
use crate::microsip::comun::truncado;
use crate::texto::{
    digito, digitos, entero_texto, es_digito, es_numeral, leer_i64, valor_digitos,
};

verus! {

/// La cifra `i` (desde la derecha) de un natural escrito en decimal es la de
/// `10^i`; no sobra ninguna cifra a la izquierda.
pub proof fn ley_cifras(n: nat)
    ensures
        digitos(n).len() >= 1,
        n < pow(10, digitos(n).len()),
        n > 0 ==> pow(10, (digitos(n).len() - 1) as nat) <= n,
        n == 0 ==> digitos(n) =~= seq!['0'],
        forall|i: nat|
            i < digitos(n).len() ==> digitos(n)[digitos(n).len() - 1 - i] as int == 48 + (
            n as int / #[trigger] pow(10, i)) % 10,
    decreases n,
{
    let s = digitos(n);
    lemma_pow0(10);
    lemma_pow1(10);
    if n < 10 {
        assert(s.len() == 1);
        assert forall|i: nat| i < s.len() implies s[s.len() - 1 - i] as int == 48 + (
        n as int / #[trigger] pow(10, i)) % 10 by {
            assert(i == 0);
            assert(n as int / pow(10, 0) == n);
        }
    } else {
        let t = digitos(n / 10);
        ley_cifras(n / 10);
        assert(s == t.push(digito((n % 10) as int)));
        assert(pow(10, s.len()) == 10 * pow(10, t.len())) by {
            reveal(pow);
        }
        assert(pow(10, t.len()) == 10 * pow(10, (t.len() - 1) as nat)) by {
            reveal(pow);
        }
        assert forall|i: nat| i < s.len() implies s[s.len() - 1 - i] as int == 48 + (
        n as int / #[trigger] pow(10, i)) % 10 by {
            if i == 0 {
                assert(n as int / pow(10, 0) == n);
            } else {
                let j = (i - 1) as nat;
                lemma_pow_positive(10, j);
                assert(pow(10, i) == 10 * pow(10, j)) by {
                    reveal(pow);
                }
                lemma_div_denominator(n as int, 10, pow(10, j));
                assert(s[s.len() - 1 - i] == t[t.len() - 1 - j]);
            }
        }
    }
}

/// Un entero negativo se escribe como su opuesto con un guion delante, y uno
/// que no lo es, como un natural.
pub proof fn ley_signo_escrito(n: int)
    requires
        n > 0,
    ensures
        entero_texto(n) == digitos(n as nat),
        entero_texto(0) =~= seq!['0'],
        entero_texto(-n)[0] == '-',
        entero_texto(-n).skip(1) =~= digitos(n as nat),
{
    ley_cifras(0);
}

/// El valor posicional de una cadena de cifras, de izquierda a derecha.
pub open spec fn valor_posicional(s: Seq<char>) -> int
    decreases s.len(),
{
    if s.len() == 0 {
        0
    } else {
        (s[0] as int - 48) * pow(10, (s.len() - 1) as nat) + valor_posicional(s.drop_first())
    }
}

proof fn lema_posicional_final(s: Seq<char>, c: char)
    ensures
        valor_posicional(s.push(c)) == 10 * valor_posicional(s) + (c as int - 48),
    decreases s.len(),
{
    let t = s.push(c);
    lemma_pow0(10);
    if s.len() == 0 {
        assert(t.drop_first() =~= Seq::<char>::empty());
        assert(valor_posicional(t.drop_first()) == 0);
        assert(pow(10, 0) == 1);
        assert((t[0] as int - 48) * 1 == c as int - 48);
    } else {
        assert(t.drop_first() =~= s.drop_first().push(c));
        lema_posicional_final(s.drop_first(), c);
        let k = (s.len() - 1) as nat;
        assert(pow(10, s.len()) == 10 * pow(10, k)) by {
            reveal(pow);
        }
        let d = s[0] as int - 48;
        assert(d * (10 * pow(10, k)) == 10 * (d * pow(10, k))) by (nonlinear_arith);
    }
}

proof fn lema_posicional(s: Seq<char>)
    requires
        forall|i: int| 0 <= i < s.len() ==> '0' <= #[trigger] s[i] <= '9',
    ensures
        valor_digitos(s) == valor_posicional(s),
    decreases s.len(),
{
    if s.len() > 0 {
        let t = s.drop_last();
        assert forall|i: int| 0 <= i < t.len() implies '0' <= #[trigger] t[i] <= '9' by {
            assert(t[i] == s[i]);
        }
        lema_posicional(t);
        assert(t.push(s.last()) =~= s);
        lema_posicional_final(t, s.last());
        assert('0' <= s[s.len() - 1] <= '9');
    }
}

/// Un texto de puras cifras, con signo o sin él, se lee como el entero que
/// vale por la posición de sus cifras, si cabe en 64 bits.
pub proof fn ley_leer_cifras(s: Seq<char>)
    requires
        s.len() > 0,
        forall|i: int| 0 <= i < s.len() ==> '0' <= #[trigger] s[i] <= '9',
    ensures
        valor_posicional(s) >= 0,
        valor_posicional(s) <= 0x7fff_ffff_ffff_ffff ==> leer_i64(s) == Some(
            valor_posicional(s) as i64,
        ) && leer_i64(seq!['+'] + s) == Some(valor_posicional(s) as i64),
        valor_posicional(s) > 0x7fff_ffff_ffff_ffff ==> leer_i64(s) is None && leer_i64(
            seq!['+'] + s,
        ) is None,
        valor_posicional(s) <= 0x8000_0000_0000_0000 ==> leer_i64(seq!['-'] + s) == Some(
            (-valor_posicional(s)) as i64,
        ),
        valor_posicional(s) > 0x8000_0000_0000_0000 ==> leer_i64(seq!['-'] + s) is None,
{
    lema_posicional(s);
    assert(es_numeral(s)) by {
        assert forall|i: int| 0 <= i < s.len() implies es_digito(#[trigger] s[i]) by {
        }
    }
    assert('0' <= s[0] <= '9');
    assert((seq!['+'] + s).skip(1) =~= s);
    assert((seq!['-'] + s).skip(1) =~= s);
}

/// Un texto que, después de un signo opcional, está vacío o trae algo que no
/// es una cifra, no se lee como entero.
pub proof fn ley_leer_otro(s: Seq<char>)
    requires
        ({
            let k: int = if s.len() > 0 && (s[0] == '+' || s[0] == '-') {
                1
            } else {
                0
            };
            s.len() == k || exists|i: int| k <= i < s.len() && !('0' <= #[trigger] s[i] <= '9')
        }),
    ensures
        leer_i64(s) is None,
{
    let k: int = if s.len() > 0 && (s[0] == '+' || s[0] == '-') {
        1
    } else {
        0
    };
    if s.len() > k {
        let i = choose|i: int| k <= i < s.len() && !('0' <= #[trigger] s[i] <= '9');
        let t = s.skip(1);
        if k == 1 {
            assert(t[i - 1] == s[i]);
            assert(!es_digito(t[i - 1]));
        } else {
            assert(!es_digito(s[i]));
        }
    }
}

/// El identificador nativo de un entero cabe en 32 bits con signo y difiere de
/// él en un múltiplo de `2^32`; si ya cabía, es él mismo.
pub proof fn ley_bits_bajos(n: int)
    ensures
        -0x8000_0000 <= truncado(n) <= 0x7fff_ffff,
        (truncado(n) - n) % 0x1_0000_0000 == 0,
        -0x8000_0000 <= n <= 0x7fff_ffff ==> truncado(n) == n,
{
}

proof fn lema_exponente(n: nat)
    requires
        n > 0,
    ensures
        pow2(exponente(n)) <= n < 2 * pow2(exponente(n)),
    decreases n,
{
    lemma2_to64();
    if n >= 2 {
        lema_exponente(n / 2);
        lemma_pow2_unfold(exponente(n));
    }
}

/// El patrón de bits de un entero de magnitud menor que `2^53`, leído como
/// IEEE-754, vale ese entero: con signo `s`, exponente `e` y fracción `f`, la
/// magnitud por `2^52` es `(2^52 + f) * 2^(e - 1023)`.
pub proof fn ley_patron_entero(n: int)
    requires
        -0x20_0000_0000_0000 < n < 0x20_0000_0000_0000,
    ensures
        n == 0 ==> bits_entero(n) == 0,
        n != 0 ==> ({
            let b = bits_entero(n) as int;
            let s = b / 0x8000_0000_0000_0000;
            let e = (b / 0x10_0000_0000_0000) % 2048;
            let f = b % 0x10_0000_0000_0000;
            let m = if n < 0 {
                -n
            } else {
                n
            };
            &&& s == (if n < 0 {
                1int
            } else {
                0int
            })
            &&& 1023 <= e <= 1075
            &&& (0x10_0000_0000_0000 + f) * pow2((e - 1023) as nat) == m * 0x10_0000_0000_0000
        }),
{
    lemma2_to64();
    lemma2_to64_rest();
    if n != 0 {
        let m: nat = if n < 0 {
            (-n) as nat
        } else {
            n as nat
        };
        let k = exponente(m);
        lema_exponente(m);
        if k >= 53 {
            if k > 53 {
                lemma_pow2_strictly_increases(53, k);
            }
            assert(false);
        }
        let q = pow2((52 - k) as nat);
        let p = pow2(k);
        assert(p * q == 0x10_0000_0000_0000) by {
            lemma_pow2_adds(k, (52 - k) as nat);
        }
        let f = (m - p) * q;
        lemma_pow2_pos((52 - k) as nat);
        assert(0 <= f < 0x10_0000_0000_0000) by {
            assert(f == m * q - p * q) by (nonlinear_arith)
                requires
                    f == (m - p) * q,
            ;
            assert(m * q < (2 * p) * q) by (nonlinear_arith)
                requires
                    m < 2 * p,
                    q > 0,
            ;
            assert(m * q >= p * q) by (nonlinear_arith)
                requires
                    m >= p,
                    q > 0,
            ;
            assert((2 * p) * q == 2 * (p * q)) by (nonlinear_arith);
        }
        assert(bits_natural(m) == (1023 + k) * 0x10_0000_0000_0000 + f);
        assert((0x10_0000_0000_0000 + f) * p == m * 0x10_0000_0000_0000) by (nonlinear_arith)
            requires
                f == (m - p) * q,
                p * q == 0x10_0000_0000_0000,
        ;
        let b = bits_entero(n) as int;
        assert(b == (if n < 0 {
            0x8000_0000_0000_0000int
        } else {
            0int
        }) + (1023 + k) * 0x10_0000_0000_0000 + f);
    }
}

} // verus!
