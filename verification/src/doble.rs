//! Números de doble precisión, que la biblioteca solo transporta.

use vstd::arithmetic::power2::*;
use vstd::prelude::*;

verus! {

/// Un `Double` nativo, por su patrón de bits IEEE-754.
#[derive(Debug, Clone, Copy, PartialEq, Eq, Structural)]
pub struct Doble {
    pub bits: u64,
}

/// Patrón de bits de 0.
pub const BITS_CERO: u64 = 0;

/// Patrón de bits de -1, el centinela «según las políticas de Microsip».
pub const BITS_MENOS_UNO: u64 = 0xBFF0_0000_0000_0000;

/// El mayor exponente `k` con `2^k <= n`; 0 para 0.
pub open spec fn exponente(n: nat) -> nat
    decreases n,
{
    if n < 2 {
        0
    } else {
        1 + exponente(n / 2)
    }
}

/// El patrón IEEE-754 de un natural menor que `2^53`, que un `Double` vale sin
/// redondeo: el exponente con su sesgo en los bits 52 a 62 y, debajo, lo que al
/// número le sobra de su mayor potencia de dos.
pub open spec fn bits_natural(n: nat) -> nat {
    if n == 0 {
        0
    } else {
        let k = exponente(n);
        (1023 + k) * pow2(52) + ((n - pow2(k)) * pow2((52 - k) as nat)) as nat
    }
}

/// El patrón IEEE-754 de un entero entre `-2^53` y `2^53`, sin los extremos: el
/// de su magnitud, con el bit de signo si es negativo.
pub open spec fn bits_entero(n: int) -> u64 {
    if n < 0 {
        (pow2(63) + bits_natural((-n) as nat)) as u64
    } else {
        bits_natural(n as nat) as u64
    }
}

/// Los dos enteros que la API nativa usa como centinelas.
pub proof fn ley_centinelas()
    ensures
        bits_entero(0) == BITS_CERO,
        bits_entero(-1) == BITS_MENOS_UNO,
{
    lemma2_to64();
    lemma2_to64_rest();
    assert(exponente(1) == 0);
    assert(1 - pow2(0) == 0);
    assert(bits_natural(1) == 1023 * 0x10_0000_0000_0000) by {
        assert((1 - pow2(0)) * pow2(52) == 0) by (nonlinear_arith)
            requires
                1 - pow2(0) == 0,
        ;
    }
}

} // verus!
