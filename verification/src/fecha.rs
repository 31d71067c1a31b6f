//! Fechas del calendario gregoriano, y su forma «DD/MM/AAAA».

use vstd::prelude::*;

use crate::texto::{digito, digitos};

verus! {

pub const ANIO_MIN: i32 = -262143;

pub const ANIO_MAX: i32 = 262142;

/// Año bisiesto.
pub open spec fn bisiesto(anio: int) -> bool {
    anio % 4 == 0 && (anio % 100 != 0 || anio % 400 == 0)
}

/// Días de un mes.
pub open spec fn dias_del_mes(anio: int, mes: int) -> int {
    if mes == 4 || mes == 6 || mes == 9 || mes == 11 {
        30
    } else if mes == 2 {
        if bisiesto(anio) {
            29
        } else {
            28
        }
    } else {
        31
    }
}

/// El contenido de una [`Fecha`].
pub struct FechaV {
    pub anio: int,
    pub mes: int,
    pub dia: int,
}

impl FechaV {
    /// La fecha existe en el calendario.
    pub open spec fn valida(self) -> bool {
        &&& ANIO_MIN <= self.anio <= ANIO_MAX
        &&& 1 <= self.mes <= 12
        &&& 1 <= self.dia <= dias_del_mes(self.anio, self.mes)
    }
}

/// Una fecha que existe en el calendario.
#[derive(Debug, Clone, Copy, PartialEq, Eq)]
pub struct Fecha {
    anio: i32,
    mes: u32,
    dia: u32,
}

impl View for Fecha {
    type V = FechaV;

    closed spec fn view(&self) -> FechaV {
        FechaV { anio: self.anio as int, mes: self.mes as int, dia: self.dia as int }
    }
}

impl Fecha {
    #[verifier::type_invariant]
    spec fn existe(self) -> bool {
        self@.valida()
    }

    /// La fecha dada, si existe.
    pub fn new(anio: i32, mes: u32, dia: u32) -> (r: Option<Fecha>)
        ensures
            r is Some <==> (FechaV { anio: anio as int, mes: mes as int, dia: dia as int }).valida(),
            r is Some <==> -262143 <= anio <= 262142 && 1 <= mes <= 12 && 1 <= dia <= (if mes == 2 {
                if anio as int % 400 == 0 || (anio as int % 4 == 0 && anio as int % 100 != 0) {
                    29int
                } else {
                    28
                }
            } else if mes == 4 || mes == 6 || mes == 9 || mes == 11 {
                30
            } else {
                31
            }),
            r matches Some(f) ==> f@ == (FechaV {
                anio: anio as int,
                mes: mes as int,
                dia: dia as int,
            }),
    {
        if anio < ANIO_MIN || anio > ANIO_MAX || mes < 1 || mes > 12 {
            return None;
        }
        // Con el año llevado a positivo las divisiones coinciden.
        let a: i64 = anio as i64 + 262400;
        proof {
            assert(a % 4 == anio as int % 4);
            assert(a % 100 == anio as int % 100);
            assert(a % 400 == anio as int % 400);
        }
        let es_bisiesto = a % 4 == 0 && (a % 100 != 0 || a % 400 == 0);
        let dias: u32 = if mes == 4 || mes == 6 || mes == 9 || mes == 11 {
            30
        } else if mes == 2 {
            if es_bisiesto {
                29
            } else {
                28
            }
        } else {
            31
        };
        if dia < 1 || dia > dias {
            None
        } else {
            Some(Fecha { anio, mes, dia })
        }
    }

    pub fn anio(&self) -> (r: i32)
        ensures
            r == self@.anio,
    {
        self.anio
    }

    pub fn mes(&self) -> (r: u32)
        ensures
            r == self@.mes,
    {
        self.mes
    }

    pub fn dia(&self) -> (r: u32)
        ensures
            r == self@.dia,
            self@.valida(),
    {
        proof {
            use_type_invariant(self);
        }
        self.dia
    }
}

/// Un número de dos dígitos, con cero a la izquierda.
pub open spec fn dos_digitos(n: int) -> Seq<char> {
    seq![digito(n / 10), digito(n % 10)]
}

/// Un natural con ceros a la izquierda hasta al menos cuatro dígitos.
pub open spec fn cuatro_digitos(n: nat) -> Seq<char> {
    if n < 10 {
        seq!['0', '0', '0'] + digitos(n)
    } else if n < 100 {
        seq!['0', '0'] + digitos(n)
    } else if n < 1000 {
        seq!['0'] + digitos(n)
    } else {
        digitos(n)
    }
}

/// Un año: cuatro dígitos, y con signo fuera de 0..=9999.
pub open spec fn anio_texto(anio: int) -> Seq<char> {
    if anio < 0 {
        seq!['-'] + cuatro_digitos((-anio) as nat)
    } else if anio > 9999 {
        seq!['+'] + cuatro_digitos(anio as nat)
    } else {
        cuatro_digitos(anio as nat)
    }
}

/// La fecha como «DD/MM/AAAA».
pub open spec fn fecha_texto(f: FechaV) -> Seq<char> {
    dos_digitos(f.dia) + seq!['/'] + dos_digitos(f.mes) + seq!['/'] + anio_texto(f.anio)
}

/// `chrono::NaiveDate::format` con `%d/%m/%Y`: día y mes a dos dígitos y año
/// a cuatro, con signo si no cabe en cuatro.
#[verifier::external_body]
pub(crate) fn formatear_fecha(f: &Fecha) -> (r: String)
    ensures
        r@ == fecha_texto(f@),
{
    let d = chrono::NaiveDate::from_ymd_opt(f.anio, f.mes, f.dia).unwrap();
    d.format("%d/%m/%Y").to_string()
}

/// El contenido de una fecha opcional.
pub open spec fn contenido_fecha(f: Option<Fecha>) -> Option<FechaV> {
    match f {
        Some(f) => Some(f@),
        None => None,
    }
}

/// Nombre de la fecha que se lee de un texto con el formato `%d/%m/%Y`.
pub uninterp spec fn fecha_leida(texto: Seq<char>) -> Option<FechaV>;

/// `chrono::NaiveDate::parse_from_str` con `%d/%m/%Y`: el resultado depende
/// solo del texto, y una fecha escrita en ese formato, de año 0 a 9999, se
/// lee como ella misma. De qué otros textos acepta no se dice nada.
#[verifier::external_body]
pub(crate) fn leer_fecha(texto: &str) -> (r: Option<Fecha>)
    ensures
        contenido_fecha(r) == fecha_leida(texto@),
        forall|f: FechaV|
            f.valida() && 0 <= f.anio <= 9999 && texto@ == #[trigger] fecha_texto(f)
                ==> contenido_fecha(r) == Some(f),
{
    let d = chrono::NaiveDate::parse_from_str(texto, "%d/%m/%Y").ok()?;
    let (anio, mes, dia) = (chrono::Datelike::year(&d), chrono::Datelike::month(&d), chrono::Datelike::day(&d));
    Some(Fecha { anio, mes, dia })
}

/// El contenido de una [`FechaHora`].
pub struct FechaHoraV {
    pub fecha: FechaV,
    pub hora: int,
    pub minuto: int,
    pub segundo: int,
}

impl FechaHoraV {
    pub open spec fn valida(self) -> bool {
        &&& self.fecha.valida()
        &&& 0 <= self.hora < 24
        &&& 0 <= self.minuto < 60
        &&& 0 <= self.segundo < 60
    }
}

/// Una fecha con hora del día.
#[derive(Debug, Clone, Copy, PartialEq, Eq)]
pub struct FechaHora {
    fecha: Fecha,
    hora: u32,
    minuto: u32,
    segundo: u32,
}

impl View for FechaHora {
    type V = FechaHoraV;

    closed spec fn view(&self) -> FechaHoraV {
        FechaHoraV {
            fecha: self.fecha@,
            hora: self.hora as int,
            minuto: self.minuto as int,
            segundo: self.segundo as int,
        }
    }
}

impl FechaHora {
    #[verifier::type_invariant]
    spec fn existe(self) -> bool {
        self@.valida()
    }

    /// La fecha y hora dadas, si la hora existe.
    pub fn new(fecha: Fecha, hora: u32, minuto: u32, segundo: u32) -> (r: Option<FechaHora>)
        ensures
            r is Some <==> hora < 24 && minuto < 60 && segundo < 60,
            r matches Some(f) ==> f@ == (FechaHoraV {
                fecha: fecha@,
                hora: hora as int,
                minuto: minuto as int,
                segundo: segundo as int,
            }),
    {
        if hora < 24 && minuto < 60 && segundo < 60 {
            proof {
                use_type_invariant(&fecha);
            }
            Some(FechaHora { fecha, hora, minuto, segundo })
        } else {
            None
        }
    }

    pub fn fecha(&self) -> (r: Fecha)
        ensures
            r@ == self@.fecha,
    {
        self.fecha
    }

    pub fn hora(&self) -> (r: u32)
        ensures
            r == self@.hora,
    {
        self.hora
    }

    pub fn minuto(&self) -> (r: u32)
        ensures
            r == self@.minuto,
    {
        self.minuto
    }

    pub fn segundo(&self) -> (r: u32)
        ensures
            r == self@.segundo,
    {
        self.segundo
    }
}

/// `chrono::Local::now`: la fecha del día donde corre el programa. Existe en el
/// calendario; de cuál sea no se dice nada.
#[verifier::external_body]
pub(crate) fn fecha_de_hoy() -> (r: Fecha)
    ensures
        r@.valida(),
{
    let d = chrono::Local::now().date_naive();
    let (anio, mes, dia) = (chrono::Datelike::year(&d), chrono::Datelike::month(&d), chrono::Datelike::day(&d));
    Fecha { anio, mes, dia }
}

/// `chrono::Local::now`: la fecha y hora donde corre el programa. Existen; de
/// cuáles sean no se dice nada.
#[verifier::external_body]
pub(crate) fn fecha_hora_actual() -> (r: FechaHora)
    ensures
        r@.valida(),
{
    let t = chrono::Local::now().naive_local();
    let (anio, mes, dia) = (chrono::Datelike::year(&t), chrono::Datelike::month(&t), chrono::Datelike::day(&t));
    let (hora, minuto, segundo) = (chrono::Timelike::hour(&t), chrono::Timelike::minute(&t), chrono::Timelike::second(&t));
    FechaHora { fecha: Fecha { anio, mes, dia }, hora, minuto, segundo }
}

/// La fecha y hora como «DD/MM/AAAA HH:MM».
pub open spec fn fecha_hora_texto(f: FechaHoraV) -> Seq<char> {
    fecha_texto(f.fecha) + seq![' '] + dos_digitos(f.hora) + seq![':'] + dos_digitos(f.minuto)
}

/// `chrono::NaiveDateTime::format` con `%d/%m/%Y %H:%M`: la fecha como
/// arriba, un espacio, y hora y minuto a dos dígitos.
#[verifier::external_body]
pub(crate) fn formatear_fecha_hora(f: &FechaHora) -> (r: String)
    ensures
        r@ == fecha_hora_texto(f@),
{
    let d = chrono::NaiveDate::from_ymd_opt(f.fecha.anio, f.fecha.mes, f.fecha.dia).unwrap();
    let t = d.and_hms_opt(f.hora, f.minuto, f.segundo).unwrap();
    t.format("%d/%m/%Y %H:%M").to_string()
}

} // verus!
