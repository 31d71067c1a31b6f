use iskandar::cadena::{cstring, cstring_ansi, leer_bufer};
use iskandar::error::IskandarError;
use iskandar::models::common::EntidadId;
use iskandar::texto::{
    blanco, entero_a_texto, eq_ignore_ascii_case, iguales, natural_a_texto, parse_i64, recortar,
};

#[test]
fn enteros_ida_y_vuelta() {
    for n in [0i64, 1, -1, 9, 10, -10, 1042, i64::MAX, i64::MIN] {
        assert_eq!(entero_a_texto(n), n.to_string());
        assert_eq!(parse_i64(&entero_a_texto(n)), Some(n));
    }
    assert_eq!(natural_a_texto(u64::MAX), u64::MAX.to_string());
}

#[test]
fn lectura_de_enteros_como_std() {
    for s in [
        "", "+", "-", "+5", "-5", "--5", "5 ", " 5", "05", "9223372036854775807",
        "9223372036854775808", "-9223372036854775808", "-9223372036854775809", "1_0", "٣", "a",
        "-0", "+0", "00000000000000000000000000001",
    ] {
        assert_eq!(parse_i64(s), s.parse::<i64>().ok(), "{s:?}");
    }
}

#[test]
fn blancos_como_std() {
    for u in 0..=0x10ffffu32 {
        if let Some(c) = char::from_u32(u) {
            assert_eq!(blanco(c), c.is_whitespace(), "{u:x}");
        }
    }
}

#[test]
fn recorte_como_std() {
    for s in ["", "  ", " a b ", "\u{3000}ñ\t", "sin", "\n\r x"] {
        assert_eq!(recortar(s), s.trim());
    }
}

#[test]
fn comparaciones() {
    assert!(iguales("año", "año"));
    assert!(!iguales("año", "ano"));
    assert!(eq_ignore_ascii_case("SysDba", "SYSDBA"));
    assert!(!eq_ignore_ascii_case("ñ", "Ñ"));
    assert!(!eq_ignore_ascii_case("SYSDB", "SYSDBA"));
}

#[test]
fn cadena_utf8() {
    assert_eq!(cstring("añ").unwrap().bytes(), "añ".as_bytes());
    assert!(cstring("").unwrap().bytes().is_empty());
}

#[test]
fn cadena_con_nul_se_rechaza() {
    let e = cstring("a\0b").unwrap_err();
    assert!(matches!(&e, IskandarError::Validation(_)));
    assert_eq!(e.mensaje(), "error de validación: string con NUL interno: \"a\\0b\"");
    assert_eq!(
        cstring_ansi("\0").unwrap_err().mensaje(),
        "error de validación: string con NUL interno: \"\\0\""
    );
}

#[test]
fn cadena_ansi_en_1252() {
    assert_eq!(cstring_ansi("Año á").unwrap().bytes(), &[0x41, 0xf1, 0x6f, 0x20, 0xe1]);
    assert_eq!(cstring_ansi("€").unwrap().bytes(), &[0x80]);
    assert_eq!(cstring_ansi("日").unwrap().bytes(), b"&#26085;");
    assert_eq!(cstring_ansi("a\u{2123}\u{1f600}ÿ").unwrap().bytes(), b"a&#8483;&#128512;\xff");
    assert_eq!(cstring_ansi("™").unwrap().bytes(), &[0x99]);
}

#[test]
fn bufer_hasta_el_nul() {
    assert_eq!(leer_bufer(&vec![b'h', b'o', b'l', b'a', 0, b'x']), "hola");
    assert_eq!(leer_bufer(&vec![b'a', 0xff]), "a\u{fffd}");
    assert_eq!(leer_bufer(&vec![]), "");
    assert_eq!(leer_bufer(&"sesión".as_bytes().to_vec()), "sesión");
}

#[test]
fn identificadores() {
    assert_eq!(EntidadId::parse("1042"), EntidadId::Numerico(1042));
    assert_eq!(EntidadId::parse("abc-1"), EntidadId::Texto("abc-1".to_string()));
    assert_eq!(EntidadId::parse("-7").como_i64(), Some(-7));
    assert_eq!(EntidadId::parse("x").como_i64(), None);
    assert_eq!(EntidadId::from(5i64), EntidadId::Numerico(5));
    assert_eq!(EntidadId::from("5"), EntidadId::Texto("5".to_string()));
    assert_eq!(EntidadId::Numerico(-3).texto(), "-3");
    assert_eq!(EntidadId::from("u-1").texto(), "u-1");
    // Ida y vuelta por una URL.
    for id in [EntidadId::Numerico(88), EntidadId::from("9b2f")] {
        assert_eq!(EntidadId::parse(&id.texto()), id);
    }
    assert_eq!(EntidadId::parse(&EntidadId::from("007").texto()), EntidadId::Numerico(7));
}

#[test]
fn mensajes_de_error() {
    let s = |t: &str| t.to_string();
    assert_eq!(
        IskandarError::UnknownProvider(s("x")).mensaje(),
        "el provider 'x' no está registrado"
    );
    assert_eq!(
        IskandarError::UnsupportedModule { provider: s("x"), module: s("cxc") }.mensaje(),
        "el provider 'x' no soporta el módulo 'cxc'"
    );
    assert_eq!(
        IskandarError::NotImplemented("f").mensaje(),
        "operación aún no implementada: f"
    );
    assert_eq!(IskandarError::Config(s("c")).mensaje(), "error de configuración: c");
    assert_eq!(IskandarError::Connection(s("c")).mensaje(), "error de conexión: c");
    assert_eq!(IskandarError::Validation(s("c")).mensaje(), "error de validación: c");
    assert_eq!(IskandarError::NotFound(s("c")).mensaje(), "no encontrado: c");
    assert_eq!(
        IskandarError::Provider { code: -4, message: s("m") }.mensaje(),
        "error del ERP (código -4): m"
    );
    assert_eq!(IskandarError::Io(s("disco")).mensaje(), "disco");
}
