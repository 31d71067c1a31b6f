//! Números decimales exactos, para dinero y cantidades.

use vstd::prelude::*;

verus! {

/// La mayor magnitud de una mantisa: 96 bits.
pub const MANTISA_MAX: i128 = 79228162514264337593543950335;

/// El mayor número de decimales.
pub const ESCALA_MAX: u32 = 28;

/// Un decimal exacto: `mantisa / 10^escala`.
#[derive(Debug, Clone, Copy, PartialEq, Eq)]
pub struct Decimal {
    mantisa: i128,
    escala: u32,
}

/// El contenido de un [`Decimal`].
pub struct DecimalV {
    pub mantisa: int,
    pub escala: int,
}

impl View for Decimal {
    type V = DecimalV;

    closed spec fn view(&self) -> DecimalV {
        DecimalV { mantisa: self.mantisa as int, escala: self.escala as int }
    }
}

impl Decimal {
    #[verifier::type_invariant]
    spec fn representable(self) -> bool {
        &&& self.escala <= ESCALA_MAX
        &&& -MANTISA_MAX <= self.mantisa <= MANTISA_MAX
    }

    /// El decimal `num / 10^scale`.
    pub fn new(num: i64, scale: u32) -> (r: Decimal)
        requires
            scale <= ESCALA_MAX,
        ensures
            r@ == (DecimalV { mantisa: num as int, escala: scale as int }),
    {
        Decimal { mantisa: num as i128, escala: scale }
    }

    /// El decimal con esa mantisa y esa escala, si es representable.
    pub fn desde_partes(mantisa: i128, escala: u32) -> (r: Option<Decimal>)
        ensures
            r is Some <==> escala <= ESCALA_MAX && -MANTISA_MAX <= mantisa <= MANTISA_MAX,
            r is Some <==> escala <= 28 && -0xffff_ffff_ffff_ffff_ffff_ffff <= mantisa
                <= 0xffff_ffff_ffff_ffff_ffff_ffff,
            r matches Some(d) ==> d@ == (DecimalV {
                mantisa: mantisa as int,
                escala: escala as int,
            }),
    {
        if escala <= ESCALA_MAX && -MANTISA_MAX <= mantisa && mantisa <= MANTISA_MAX {
            Some(Decimal { mantisa, escala })
        } else {
            None
        }
    }

    pub fn mantisa(&self) -> (r: i128)
        ensures
            r == self@.mantisa,
    {
        self.mantisa
    }

    pub fn escala(&self) -> (r: u32)
        ensures
            r == self@.escala,
            r <= ESCALA_MAX,
    {
        proof {
            use_type_invariant(self);
        }
        self.escala
    }
}

/// La suma de `rust_decimal::Decimal` (operador `+`) entre decimales de la
/// misma escala: si la suma de las mantisas cabe en 96 bits, conserva la escala
/// y las suma. Cuando no cabe, el operador baja la escala redondeando o, si ya
/// no puede, entra en pánico: ese caso queda fuera.
#[verifier::external_body]
pub(crate) fn sumar(a: Decimal, b: Decimal) -> (r: Decimal)
    requires
        a@.escala == b@.escala,
        -MANTISA_MAX <= a@.mantisa + b@.mantisa <= MANTISA_MAX,
    ensures
        r@ == (DecimalV { mantisa: a@.mantisa + b@.mantisa, escala: a@.escala }),
{
    let x = rust_decimal::Decimal::from_i128_with_scale(a.mantisa, a.escala);
    let y = rust_decimal::Decimal::from_i128_with_scale(b.mantisa, b.escala);
    let z = x + y;
    Decimal { mantisa: z.mantissa(), escala: z.scale() }
}

/// La resta de `rust_decimal::Decimal` (operador `-`) entre decimales de la
/// misma escala: si la diferencia de las mantisas cabe en 96 bits, conserva la
/// escala y las resta. Cuando no cabe, el operador baja la escala redondeando
/// o, si ya no puede, entra en pánico: ese caso queda fuera.
#[verifier::external_body]
pub(crate) fn restar(a: Decimal, b: Decimal) -> (r: Decimal)
    requires
        a@.escala == b@.escala,
        -MANTISA_MAX <= a@.mantisa - b@.mantisa <= MANTISA_MAX,
    ensures
        r@ == (DecimalV { mantisa: a@.mantisa - b@.mantisa, escala: a@.escala }),
{
    let x = rust_decimal::Decimal::from_i128_with_scale(a.mantisa, a.escala);
    let y = rust_decimal::Decimal::from_i128_with_scale(b.mantisa, b.escala);
    let z = x - y;
    Decimal { mantisa: z.mantissa(), escala: z.scale() }
}

} // verus!
